use midas_client::error::Error;
use midas_client::response::ApiResponse;
use midas_client::stream::{
    accumulate_stream, assemble_records, decode_fragment, no_response_envelope, stream_end,
    stream_is_reading, stream_result, stream_start, stream_step, ChunkEvent,
};

fn success_chunk(message: &str) -> ChunkEvent {
    let body = format!(
        "{{\"status\":\"success\",\"message\":\"{}\",\"code\":200,\"data\":\"\"}}",
        message
    );
    ChunkEvent::Data(body.into_bytes())
}

fn failed_chunk(message: &str) -> ChunkEvent {
    let body = format!(
        "{{\"status\":\"failed\",\"message\":\"{}\",\"code\":409,\"data\":\"\"}}",
        message
    );
    ChunkEvent::Data(body.into_bytes())
}

#[test]
fn test_two_successes_returns_last() {
    let events = vec![success_chunk("batch one"), success_chunk("batch two")];
    let result = accumulate_stream(&events).unwrap();
    assert_eq!(result.status, "success");
    assert_eq!(result.message, "batch two");
}

#[test]
fn test_failure_wins_and_trailing_chunk_is_not_processed() {
    // The chunk after the failure is not even valid JSON: had the accumulator
    // kept consuming, the transfer would have ended in a decode error.
    let events = vec![
        success_chunk("batch one"),
        failed_chunk("duplicate record"),
        ChunkEvent::Data(b"garbage that is not json".to_vec()),
    ];
    let result = accumulate_stream(&events).unwrap();
    assert_eq!(result.status, "failed");
    assert_eq!(result.message, "duplicate record");
    assert_eq!(result.code, 409);
}

#[test]
fn test_failure_between_successes() {
    let events = vec![
        success_chunk("batch one"),
        failed_chunk("duplicate record"),
        success_chunk("batch three"),
    ];
    let result = accumulate_stream(&events).unwrap();
    assert_eq!(result.status, "failed");
    assert_eq!(result.message, "duplicate record");
}

#[test]
fn test_zero_chunks_synthesizes_failure() {
    let events: Vec<ChunkEvent> = vec![];
    let result = accumulate_stream(&events).unwrap();
    assert_eq!(result.status, "failed");
    assert_eq!(result.message, "No valid response recieved.");
    assert_eq!(result.code, 404);
    assert_eq!(result.data, "");
}

#[test]
fn test_malformed_chunk_aborts_with_decode_error() {
    let events = vec![success_chunk("batch one"), ChunkEvent::Data(b"{oops".to_vec())];
    let r = accumulate_stream(&events);
    assert!(matches!(r, Err(Error::JsonError(_))));
}

#[test]
fn test_chunk_missing_data_field_aborts() {
    // A stream fragment gets no status-only fallback: fail-fast.
    let events = vec![ChunkEvent::Data(
        b"{\"status\":\"success\",\"message\":\"m\",\"code\":200}".to_vec(),
    )];
    let r = accumulate_stream(&events);
    assert!(matches!(r, Err(Error::JsonError(_))));
}

#[test]
fn test_interrupted_transfer_is_transport_error() {
    let events = vec![
        success_chunk("batch one"),
        ChunkEvent::Interrupted("connection reset".to_string()),
    ];
    let r = accumulate_stream(&events);
    match r {
        Err(Error::RequestError(m)) => assert_eq!(m, "connection reset"),
        other => panic!("expected a transport error, got {:?}", other),
    }
}

#[test]
fn test_duplicate_upload_scenario() {
    // Bulk upload of two records with an identical header and timestamp: the
    // backend accepts the first batch, rejects the duplicate, and the
    // aggregate envelope reports the failure.
    let events = vec![success_chunk("batch one accepted"), failed_chunk("duplicate record")];
    let result = accumulate_stream(&events).unwrap();
    assert_eq!(result.status, "failed");
}

#[test]
fn test_step_by_step_machine() {
    let st = stream_start();
    assert!(stream_is_reading(&st));
    let st = stream_step(st, &success_chunk("one"));
    assert!(stream_is_reading(&st));
    let st = stream_step(st, &failed_chunk("no"));
    assert!(!stream_is_reading(&st));
    // A terminal state absorbs further events.
    let st = stream_step(st, &success_chunk("late"));
    let st = stream_end(st);
    let result = stream_result(st).unwrap();
    assert_eq!(result.status, "failed");
    assert_eq!(result.message, "no");
}

#[test]
fn test_decode_fragment_exactness() {
    let body = b"{\"status\":\"success\",\"message\":\"m\",\"code\":200,\"data\":\"abc\"}";
    let env: ApiResponse<String> = decode_fragment(body).unwrap();
    assert_eq!(env.data, "abc");
    assert!(decode_fragment(b"[]").is_err());
}

#[test]
fn test_no_response_envelope_shape() {
    let env = no_response_envelope();
    assert_eq!(env.status, "failed");
    assert_eq!(env.code, 404);
    assert_eq!(env.message, "No valid response recieved.");
}

#[test]
fn test_assemble_records_concatenates_chunks() {
    let chunks = vec![vec![1u8, 2, 3], vec![], vec![4u8, 5]];
    let env = assemble_records(&chunks);
    assert_eq!(env.status, "success");
    assert_eq!(env.code, 200);
    assert_eq!(env.data, vec![1u8, 2, 3, 4, 5]);
}

#[test]
fn test_assemble_records_empty_stream() {
    let chunks: Vec<Vec<u8>> = vec![];
    let env = assemble_records(&chunks);
    assert_eq!(env.status, "success");
    assert!(env.data.is_empty());
}
