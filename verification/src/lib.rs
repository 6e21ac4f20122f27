//! Client-side protocol layer for a market-data/trading backend: the uniform
//! response envelope, the two-tier (strict, then status-only) body decoder,
//! and the state machine that folds a chunked stream of envelope fragments
//! into one aggregate result.

pub mod error;
pub mod json;
pub mod params;
pub mod response;
pub mod stream;
pub mod transport;
pub mod utils;

pub use self::error::Error;
