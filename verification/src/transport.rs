use vstd::prelude::*;

verus! {

/// Dials plain TCP connections.
pub struct TcpTransport;

impl TcpTransport {
    pub fn new() -> (t: Self) {
        Self {}
    }
}

} // verus!
