use crate::error::Error;
use crate::utils::{date_to_unix_nanos, nanos_of, parsed_parts, representable};
use vstd::prelude::*;
use vstd::string::StringExecFns;

verus! {

/// Query parameters of a bulk record retrieval: the tickers, a closed time
/// window in nanoseconds since the Unix epoch, and the record schema name.
#[derive(Debug, Clone, PartialEq, Eq)]
pub struct RetrieveParams {
    pub symbols: Vec<String>,
    pub start_ts: i64,
    pub end_ts: i64,
    pub schema: String,
}

impl RetrieveParams {
    /// Build parameters from date strings, converting both bounds with
    /// [`date_to_unix_nanos`]; the first bound that does not convert is the
    /// error returned.
    pub fn new(symbols: Vec<String>, start: &str, end: &str, schema: &str) -> (r: Result<
        RetrieveParams,
        Error,
    >)
        ensures
            match r {
                Ok(p) => {
                    &&& p.symbols == symbols
                    &&& p.schema@ == schema@
                    &&& (parsed_parts(start) matches Some(t) && representable(t) && p.start_ts
                        == nanos_of(t))
                    &&& (parsed_parts(end) matches Some(t) && representable(t) && p.end_ts
                        == nanos_of(t))
                },
                Err(e) => e matches Error::ParseError(_),
            },
            (r is Ok <==> ((parsed_parts(start) matches Some(t) && representable(t)) && (
            parsed_parts(end) matches Some(t) && representable(t)))),
    {
        let start_ts = match date_to_unix_nanos(start) {
            Ok(n) => n,
            Err(e) => {
                return Err(e);
            },
        };
        let end_ts = match date_to_unix_nanos(end) {
            Ok(n) => n,
            Err(e) => {
                return Err(e);
            },
        };
        Ok(
            RetrieveParams {
                symbols,
                start_ts,
                end_ts,
                schema: String::from_str(schema),
            },
        )
    }
}

} // verus!
