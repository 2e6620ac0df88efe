//! The pure parts of the per-query job: the projection of a response
//! into the text sent back to the client, and the expiry instant of
//! a cached answer. The job's transport (receiving the datagram,
//! driving the walk, sending the reply) lives with the caller.

use vstd::prelude::*;
use crate::dns::{
    DnsMessage, Rdata, RdataV, ipv4_text, ipv6_text, spec_ipv4_text, spec_ipv6_text,
};
use crate::dnserror::DnsError;

verus! {

/// The text a record payload projects to in a client reply: the
/// address of an A or AAAA record, the target name of a CNAME, NS or
/// PTR record, and a fixed placeholder for anything else.
pub open spec fn spec_answer_projection(res: RdataV) -> Seq<char> {
    match res {
        RdataV::A(o) => spec_ipv4_text(o),
        RdataV::AAAA(g) => spec_ipv6_text(g),
        RdataV::CNAME(n) => n,
        RdataV::NS(n) => n,
        RdataV::PTR(n) => n,
        _ => "Unhandled answer record resource type"@,
    }
}

/// The reply text for a response: the projection of its first
/// answer record.
pub fn project_answer(rsp: &DnsMessage) -> (r: Result<String, DnsError>)
    requires
        rsp.answers@.len() > 0,
    ensures
        match r {
            Ok(s) => s@ == spec_answer_projection(rsp.answers@[0].resource.deep_view()),
            Err(_) => false,
        },
{
    let answer = &rsp.answers[0];
    let s = match &answer.resource {
        Rdata::A(o) => ipv4_text(o),
        Rdata::AAAA(g) => ipv6_text(g),
        Rdata::CNAME(n) => n.clone(),
        Rdata::NS(n) => n.clone(),
        Rdata::PTR(n) => n.clone(),
        _ => String::from_str("Unhandled answer record resource type"),
    };
    Ok(s)
}

/// The absolute instant at which an answer cached now expires: the
/// current instant plus the answer's time to live.
pub fn cache_expiry(now: u64, ttl: u64) -> (r: u64)
    requires
        now + ttl <= u64::MAX,
    ensures
        r == now + ttl,
{
    now + ttl
}

} // verus!
