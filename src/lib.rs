//! A single opaque error type that owns one failure, lets callers wrap it in
//! context messages as it propagates, and exposes the resulting chain of
//! causes from the outermost message down to the original failure.

mod context;
mod error;
pub mod laws;
mod sealed;

pub use context::Context;
pub use error::{attached, context_layer, debug_form, leaf_chain, separator};
pub use error::{Chain, Error, Failure, FailureView};
