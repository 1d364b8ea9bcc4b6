use vstd::prelude::*;

verus! {

/// Logs each connection before it is routed and after it is relayed.
pub struct LoggingMiddleware;

} // verus!
