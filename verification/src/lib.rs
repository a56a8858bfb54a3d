//! Decoding of on-chain AMM pool accounts.
//!
//! The library understands a closed set of pool account schemas.  Given the
//! raw bytes of an account and a schema kind it either produces a fully
//! parsed, typed pool record or a classified error; a dispatcher combines
//! this with an injected account fetcher so callers can go from a pool
//! selector straight to a decoded pool.

pub mod bytes;
pub mod decode;
pub mod dispatch;
pub mod error;
pub mod laws;
pub mod pool;

pub use crate::decode::decode;
pub use crate::dispatch::get_pool;
