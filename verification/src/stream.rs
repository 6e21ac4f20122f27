use crate::error::Error;
use crate::json::{lossy_utf8, parse_json, parsed_json, utf8_lossy, ApiPayload, Json};
use crate::response::{strict_model, strict_shape, ApiDefault, ApiResponse, EnvModel};
use vstd::prelude::*;
use vstd::string::StringExecFns;

verus! {

/// One inbound event of a chunked transfer: a chunk of body bytes, or a
/// transport-level failure (connection reset, timeout) with its description.
pub enum ChunkEvent {
    Data(Vec<u8>),
    Interrupted(String),
}

/// The accumulator's state over a chunked transfer whose body is a sequence
/// of independently-decodable `Envelope<String>` fragments.
///
/// `Reading` holds the last successful fragment seen so far; `Terminated`
/// holds the first fragment whose status was not `"success"` (a definitive
/// backend failure); `Completed` holds the aggregate result after a clean end
/// of stream; `Failed` holds a decode or transport error.
pub enum StreamState {
    Reading { last: Option<ApiResponse<String>> },
    Terminated { fragment: ApiResponse<String> },
    Completed { result: ApiResponse<String> },
    Failed { error: Error },
}

/// Spec-level model of a stream failure: a malformed fragment, or a transport
/// interruption with its description.
#[verifier::ext_equal]
pub ghost enum ErrModel {
    Decode,
    Transport(Seq<char>),
}

/// Spec-level model of the accumulator's state.
#[verifier::ext_equal]
pub ghost enum StateModel {
    Reading { last: Option<EnvModel> },
    Terminated { fragment: EnvModel },
    Completed { result: EnvModel },
    Failed { err: ErrModel },
}

pub open spec fn err_model(e: Error) -> ErrModel {
    match e {
        Error::RequestError(m) => ErrModel::Transport(m@),
        _ => ErrModel::Decode,
    }
}

impl StreamState {
    pub open spec fn model(&self) -> StateModel {
        match self {
            StreamState::Reading { last } => StateModel::Reading {
                last: match last {
                    Some(f) => Some(f.model()),
                    None => None,
                },
            },
            StreamState::Terminated { fragment } => StateModel::Terminated {
                fragment: fragment.model(),
            },
            StreamState::Completed { result } => StateModel::Completed { result: result.model() },
            StreamState::Failed { error } => StateModel::Failed { err: err_model(*error) },
        }
    }
}

/// What one chunk's bytes decode to: the fragment's model when the bytes are
/// UTF-8 text whose document is a strict `Envelope<String>`, and nothing
/// otherwise.
pub open spec fn spec_fragment(bytes: Seq<u8>) -> Option<EnvModel> {
    match parsed_json(lossy_utf8(bytes)) {
        Some(j) => if strict_shape::<String>(j) {
            Some(strict_model::<String>(j))
        } else {
            None
        },
        None => None,
    }
}

/// One transition of the accumulator. Terminal states absorb every further
/// event (fail-fast); in `Reading`, a transport interruption fails the
/// transfer, a malformed fragment fails it, a non-success fragment terminates
/// it with that fragment, and a success fragment becomes the new last known
/// good result.
pub open spec fn spec_step(m: StateModel, ev: ChunkEvent) -> StateModel {
    if !(m matches StateModel::Reading { .. }) {
        m
    } else {
        match ev {
            ChunkEvent::Interrupted(d) => StateModel::Failed { err: ErrModel::Transport(d@) },
            ChunkEvent::Data(b) => match spec_fragment(b@) {
                None => StateModel::Failed { err: ErrModel::Decode },
                Some(f) => if f.status == "success"@ {
                    StateModel::Reading { last: Some(f) }
                } else {
                    StateModel::Terminated { fragment: f }
                },
            },
        }
    }
}

/// The envelope synthesized when the stream ends without one valid fragment:
/// a failure, never an empty success, with the code mapped from "not found".
pub open spec fn no_response_model() -> EnvModel {
    EnvModel {
        status: "failed"@,
        message: "No valid response recieved."@,
        code: 404,
        data: Json::Text(Seq::<char>::empty()),
    }
}

/// End of the chunk stream: a still-reading accumulator completes with the
/// last successful fragment, or with the synthesized failure envelope when
/// none was seen; terminal states are unchanged.
pub open spec fn spec_end(m: StateModel) -> StateModel {
    match m {
        StateModel::Reading { last } => match last {
            Some(f) => StateModel::Completed { result: f },
            None => StateModel::Completed { result: no_response_model() },
        },
        _ => m,
    }
}

/// The aggregate outcome a caller receives from a state, after a clean end of
/// stream is accounted for.
pub open spec fn spec_result(m: StateModel) -> Result<EnvModel, ErrModel> {
    match spec_end(m) {
        StateModel::Completed { result } => Ok(result),
        StateModel::Terminated { fragment } => Ok(fragment),
        StateModel::Failed { err } => Err(err),
        StateModel::Reading { .. } => Ok(no_response_model()),
    }
}

/// The state after folding a sequence of events from the initial state.
pub open spec fn spec_run(evs: Seq<ChunkEvent>) -> StateModel
    decreases evs.len(),
{
    if evs.len() == 0 {
        StateModel::Reading { last: None }
    } else {
        spec_step(spec_run(evs.drop_last()), evs.last())
    }
}

/// The aggregate outcome of a whole transfer delivered as a sequence of
/// events.
pub open spec fn spec_accumulate(evs: Seq<ChunkEvent>) -> Result<EnvModel, ErrModel> {
    spec_result(spec_run(evs))
}

/// Decode one chunk as an `Envelope<String>` fragment: lossy UTF-8 text, then
/// a strict structural decode. A chunk failing either step is fatal to the
/// transfer, so there is no status-only fallback here.
pub fn decode_fragment(chunk: &[u8]) -> (r: Result<ApiResponse<String>, Error>)
    ensures
        match r {
            Ok(env) => spec_fragment(chunk@) == Some(env.model()),
            Err(e) => spec_fragment(chunk@) is None && e matches Error::JsonError(_),
        },
{
    let text = utf8_lossy(chunk);
    let v = match parse_json(text.as_str()) {
        Ok(v) => v,
        Err(m) => {
            return Err(Error::JsonError(m));
        },
    };
    match ApiResponse::<String>::decode_strict(&v) {
        Some(env) => Ok(env),
        None => Err(
            Error::JsonError(String::from_str("stream chunk is not a response envelope")),
        ),
    }
}

/// The accumulator's initial state.
pub fn stream_start() -> (st: StreamState)
    ensures
        (st.model() == StateModel::Reading { last: None }),
{
    StreamState::Reading { last: None }
}

/// Whether the accumulator still consumes chunks; once this is false, the
/// caller must stop feeding the stream (fail-fast).
pub fn stream_is_reading(st: &StreamState) -> (r: bool)
    ensures
        (r == (st.model() matches StateModel::Reading { .. })),
{
    match st {
        StreamState::Reading { .. } => true,
        _ => false,
    }
}

/// Feed one event to the accumulator.
pub fn stream_step(st: StreamState, ev: &ChunkEvent) -> (next: StreamState)
    ensures
        next.model() == spec_step(st.model(), *ev),
{
    match st {
        StreamState::Reading { last } => match ev {
            ChunkEvent::Interrupted(d) => StreamState::Failed {
                error: Error::RequestError(d.clone()),
            },
            ChunkEvent::Data(b) => match decode_fragment(b.as_slice()) {
                Err(e) => StreamState::Failed { error: e },
                Ok(f) => if f.status == String::from_str("success") {
                    StreamState::Reading { last: Some(f) }
                } else {
                    StreamState::Terminated { fragment: f }
                },
            },
        },
        other => other,
    }
}

/// The envelope synthesized when the stream produced no valid fragment.
pub fn no_response_envelope() -> (r: ApiResponse<String>)
    ensures
        r.model() == no_response_model(),
{
    ApiResponse::new("failed", "No valid response recieved.", 404, String::new())
}

/// Signal a clean end of the chunk stream.
pub fn stream_end(st: StreamState) -> (next: StreamState)
    ensures
        next.model() == spec_end(st.model()),
{
    match st {
        StreamState::Reading { last } => match last {
            Some(f) => StreamState::Completed { result: f },
            None => StreamState::Completed { result: no_response_envelope() },
        },
        other => other,
    }
}

/// The aggregate result the caller receives: the completed or terminating
/// fragment as an ordinary envelope (failure semantics inside), or the decode
/// or transport error that aborted the transfer.
pub fn stream_result(st: StreamState) -> (r: Result<ApiResponse<String>, Error>)
    ensures
        match r {
            Ok(env) => spec_result(st.model()) == Ok::<EnvModel, ErrModel>(env.model()),
            Err(e) => st matches StreamState::Failed { error } && e == error,
        },
{
    match st {
        StreamState::Reading { last } => match last {
            Some(f) => Ok(f),
            None => Ok(no_response_envelope()),
        },
        StreamState::Completed { result } => Ok(result),
        StreamState::Terminated { fragment } => Ok(fragment),
        StreamState::Failed { error } => Err(error),
    }
}

/// Law: fail-fast. Once a run has left `Reading`, every later event is
/// absorbed — the run over any extension of the prefix equals the run over
/// the prefix, so events after the first failure signal are never processed.
pub proof fn lemma_run_absorbs(evs: Seq<ChunkEvent>, i: int)
    requires
        0 <= i <= evs.len(),
        !(spec_run(evs.take(i)) matches StateModel::Reading { .. }),
    ensures
        spec_run(evs) == spec_run(evs.take(i)),
    decreases evs.len() - i,
{
    if i < evs.len() {
        assert(evs.take(i + 1).drop_last() =~= evs.take(i));
        assert(evs.take(i + 1).last() == evs[i]);
        lemma_run_absorbs(evs, i + 1);
        assert(evs.take(evs.len() as int) =~= evs);
    } else {
        assert(evs.take(i) =~= evs);
    }
}

/// Fold a fully-buffered sequence of chunk events into the aggregate outcome,
/// stopping at the first failure signal.
pub fn accumulate_stream(events: &Vec<ChunkEvent>) -> (r: Result<ApiResponse<String>, Error>)
    ensures
        match r {
            Ok(env) => spec_accumulate(events@) == Ok::<EnvModel, ErrModel>(env.model()),
            Err(e) => spec_accumulate(events@) == Err::<EnvModel, ErrModel>(err_model(e)),
        },
{
    let mut st = stream_start();
    let mut i: usize = 0;
    while i < events.len() && stream_is_reading(&st)
        invariant
            i <= events.len(),
            st.model() == spec_run(events@.take(i as int)),
        decreases events.len() - i,
    {
        st = stream_step(st, &events[i]);
        proof {
            assert(events@.take(i + 1).drop_last() =~= events@.take(i as int));
            assert(events@.take(i + 1).last() == events@[i as int]);
        }
        i += 1;
    }
    proof {
        if i < events.len() {
            lemma_run_absorbs(events@, i as int);
        } else {
            assert(events@.take(i as int) =~= events@);
        }
    }
    let st = stream_end(st);
    stream_result(st)
}

/// The fragment a single event carries: the decoded envelope of a data
/// chunk, nothing for an interruption.
pub open spec fn data_fragment(ev: ChunkEvent) -> Option<EnvModel> {
    match ev {
        ChunkEvent::Data(b) => spec_fragment(b@),
        ChunkEvent::Interrupted(_) => None,
    }
}

/// The event is a data chunk that decodes to a fragment with status
/// `"success"`.
pub open spec fn is_success_chunk(ev: ChunkEvent) -> bool {
    data_fragment(ev) matches Some(f) && f.status == "success"@
}

proof fn lemma_run_all_success(evs: Seq<ChunkEvent>)
    requires
        forall|k: int| 0 <= k < evs.len() ==> is_success_chunk(#[trigger] evs[k]),
    ensures
        (spec_run(evs) matches StateModel::Reading { .. }),
        evs.len() > 0 ==> (data_fragment(evs.last()) matches Some(f) && spec_run(evs)
            == StateModel::Reading { last: Some(f) }),
    decreases evs.len(),
{
    if evs.len() > 0 {
        let prefix = evs.drop_last();
        assert forall|k: int| 0 <= k < prefix.len() implies is_success_chunk(
            #[trigger] prefix[k],
        ) by {
            assert(prefix[k] == evs[k]);
        }
        lemma_run_all_success(prefix);
        let ev = evs.last();
        assert(is_success_chunk(ev));
        match ev {
            ChunkEvent::Data(b) => {
                assert(spec_fragment(b@) == data_fragment(ev));
            },
            ChunkEvent::Interrupted(_) => {
                assert(false);
            },
        }
    }
}

/// Law: the last successful fragment wins. When every event of a non-empty
/// stream is a data chunk decoding to a `"success"` fragment, the aggregate
/// outcome is exactly the LAST fragment, not the first.
pub proof fn lemma_last_success_wins(evs: Seq<ChunkEvent>)
    requires
        evs.len() > 0,
        forall|k: int| 0 <= k < evs.len() ==> is_success_chunk(#[trigger] evs[k]),
    ensures
        (data_fragment(evs.last()) matches Some(f) && spec_accumulate(evs) == Ok::<
            EnvModel,
            ErrModel,
        >(f)),
{
    lemma_run_all_success(evs);
}

/// Law: the first failure signal wins. If the events before position `i` are
/// all `"success"` data chunks and the event at `i` decodes to a fragment
/// whose status is not `"success"`, the aggregate outcome is exactly that
/// fragment, and it equals the outcome of the stream truncated right after
/// `i` — the trailing events are never processed.
pub proof fn lemma_first_failure_wins(evs: Seq<ChunkEvent>, i: int)
    requires
        0 <= i < evs.len(),
        forall|k: int| 0 <= k < i ==> is_success_chunk(#[trigger] evs[k]),
        (data_fragment(evs[i]) matches Some(f) && f.status != "success"@),
    ensures
        spec_accumulate(evs) == spec_accumulate(evs.take(i + 1)),
        (data_fragment(evs[i]) matches Some(f) && spec_accumulate(evs) == Ok::<
            EnvModel,
            ErrModel,
        >(f)),
{
    let prefix = evs.take(i);
    assert forall|k: int| 0 <= k < prefix.len() implies is_success_chunk(
        #[trigger] prefix[k],
    ) by {
        assert(prefix[k] == evs[k]);
    }
    lemma_run_all_success(prefix);
    assert(evs.take(i + 1).drop_last() =~= prefix);
    assert(evs.take(i + 1).last() == evs[i]);
    match evs[i] {
        ChunkEvent::Data(b) => {
            assert(spec_fragment(b@) == data_fragment(evs[i]));
        },
        ChunkEvent::Interrupted(_) => {
            assert(false);
        },
    }
    lemma_run_absorbs(evs, i + 1);
}

/// Law: a stream of zero chunks yields the synthesized failure envelope —
/// status `"failed"` with the code mapped from "not found" — never an empty
/// success.
pub proof fn lemma_empty_stream()
    ensures
        spec_accumulate(Seq::<ChunkEvent>::empty()) == Ok::<EnvModel, ErrModel>(
            no_response_model(),
        ),
{
}

/// Concatenation of a sequence of byte chunks.
pub open spec fn spec_concat(chunks: Seq<Vec<u8>>) -> Seq<u8>
    decreases chunks.len(),
{
    if chunks.len() == 0 {
        Seq::<u8>::empty()
    } else {
        spec_concat(chunks.drop_last()) + chunks.last()@
    }
}

/// The binary-download variant of the stream: chunks carry raw bytes with no
/// per-chunk envelope framing, and the terminal envelope wraps the complete
/// assembled buffer only after the stream has ended successfully.
pub fn assemble_records(chunks: &Vec<Vec<u8>>) -> (r: ApiResponse<Vec<u8>>)
    ensures
        r.status@ == "success"@,
        r.message@ == Seq::<char>::empty(),
        r.code == 200,
        r.data@ == spec_concat(chunks@),
{
    let mut data: Vec<u8> = Vec::new();
    let mut i: usize = 0;
    while i < chunks.len()
        invariant
            i <= chunks.len(),
            data@ == spec_concat(chunks@.take(i as int)),
        decreases chunks.len() - i,
    {
        let chunk = &chunks[i];
        let mut k: usize = 0;
        while k < chunk.len()
            invariant
                i < chunks.len(),
                k <= chunk.len(),
                chunk == &chunks[i as int],
                data@ == spec_concat(chunks@.take(i as int)) + chunk@.take(k as int),
            decreases chunk.len() - k,
        {
            data.push(chunk[k]);
            proof {
                assert(chunk@.take(k + 1) =~= chunk@.take(k as int).push(chunk@[k as int]));
                assert(data@ == spec_concat(chunks@.take(i as int)) + chunk@.take(k + 1));
            }
            k += 1;
        }
        proof {
            assert(chunk@.take(chunk@.len() as int) =~= chunk@);
            assert(chunks@.take(i + 1).drop_last() =~= chunks@.take(i as int));
            assert(chunks@.take(i + 1).last() == chunks@[i as int]);
            assert(data@ == spec_concat(chunks@.take(i + 1)));
        }
        i += 1;
    }
    proof {
        assert(chunks@.take(chunks@.len() as int) =~= chunks@);
    }
    let r = ApiResponse::new("success", "", 200, data);
    proof {
        reveal_strlit("");
        assert(r.message@ =~= Seq::<char>::empty());
    }
    r
}

} // verus!
