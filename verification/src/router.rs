use vstd::prelude::*;
use crate::context::ConnectionContext;
use crate::error::ProxyError;
use crate::text::{contains_str, contains_text};

verus! {

/// Routes destinations whose host mentions "example" through the proxy, all others direct.
pub struct SimpleRouter {
    pub direct_outbound: String,
    pub proxy_outbound: String,
}

/// The outbound tag that the simple router picks for a destination host.
pub open spec fn simple_route(direct: Seq<char>, proxy: Seq<char>, dst_host: Option<Seq<char>>) -> Seq<char> {
    match dst_host {
        Some(h) => if contains_text(h, "example"@) { proxy } else { direct },
        None => direct,
    }
}

impl SimpleRouter {
    pub fn new(direct: String, proxy: String) -> (r: Self)
        ensures
            r.direct_outbound == direct,
            r.proxy_outbound == proxy,
    {
        Self { direct_outbound: direct, proxy_outbound: proxy }
    }

    /// The tag of the outbound for this connection; routing never fails.
    pub fn select_outbound(&self, ctx: &ConnectionContext) -> (r: Result<String, ProxyError>)
        ensures
            r matches Ok(tag) && tag@ == simple_route(
                self.direct_outbound@,
                self.proxy_outbound@,
                match ctx.dst_host {
                    Some(h) => Some(h@),
                    None => None,
                },
            ),
            ctx.dst_host matches Some(h) && contains_text(h@, "example"@)
                ==> (r matches Ok(tag) && tag@ == self.proxy_outbound@),
            !(ctx.dst_host matches Some(h) && contains_text(h@, "example"@))
                ==> (r matches Ok(tag) && tag@ == self.direct_outbound@),
    {
        if let Some(h) = &ctx.dst_host {
            if contains_str(h.as_str(), "example") {
                return Ok(self.proxy_outbound.clone());
            }
        }
        Ok(self.direct_outbound.clone())
    }
}

/// A host that contains "example" is routed to the proxy outbound; a host that does not,
/// or a destination without a host, to the direct outbound.
pub proof fn lemma_example_hosts_take_the_proxy(direct: Seq<char>, proxy: Seq<char>, host: Seq<char>)
    ensures
        contains_text(host, "example"@) ==> simple_route(direct, proxy, Some(host)) == proxy,
        !contains_text(host, "example"@) ==> simple_route(direct, proxy, Some(host)) == direct,
        simple_route(direct, proxy, None) == direct,
{
}

} // verus!
