use vstd::prelude::*;
use vstd::string::StringExecFns;

verus! {

/// The full URL of an endpoint under the historical-data service's fixed
/// route prefix.
pub fn historical_url(base_url: &str, endpoint: &str) -> (r: String)
    ensures
        r@ == base_url@ + "/historical/"@ + endpoint@,
{
    String::from_str(base_url).concat("/historical/").concat(endpoint)
}

/// The full URL of an endpoint under the trading service's fixed route
/// prefix.
pub fn trading_url(base_url: &str, endpoint: &str) -> (r: String)
    ensures
        r@ == base_url@ + "/trading/"@ + endpoint@,
{
    String::from_str(base_url).concat("/trading/").concat(endpoint)
}

} // verus!
