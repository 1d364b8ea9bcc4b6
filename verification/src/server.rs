use vstd::prelude::*;

verus! {

/// The proxy's listening endpoint.
pub struct Server {
    bind_addr: String,
}

impl Server {
    pub fn new(bind_addr: String) -> (s: Self)
        ensures
            s.bind_addr() == bind_addr@,
    {
        Self { bind_addr }
    }

    /// The address the server listens on, as text.
    pub closed spec fn bind_addr(&self) -> Seq<char> {
        self.bind_addr@
    }

    /// The address the server listens on.
    pub fn bind_address(&self) -> (a: &str)
        ensures
            a@ == self.bind_addr(),
    {
        self.bind_addr.as_str()
    }
}

} // verus!
