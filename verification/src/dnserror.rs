//! Error type shared by the resolver and the DNS tools: a DNS response
//! code together with a human-readable info string.

use vstd::prelude::*;

verus! {

/// The DNS response codes this resolver reports.
#[derive(Clone, Copy, Debug, PartialEq, Eq, Structural)]
pub enum Rcode {
    /// Malformed client query.
    FormErr,
    /// Upstream, transport or decoding failure.
    ServFail,
    /// Resolution cannot progress.
    NXDomain,
}

impl Rcode {
    /// The canonical name of this response code.
    pub fn text(&self) -> (r: &'static str)
        ensures
            r@ == self.spec_text(),
    {
        match self {
            Rcode::FormErr => "FormErr",
            Rcode::ServFail => "ServFail",
            Rcode::NXDomain => "NXDomain",
        }
    }

    /// What `text` returns for each response code.
    pub open spec fn spec_text(self) -> Seq<char> {
        match self {
            Rcode::FormErr => "FormErr"@,
            Rcode::ServFail => "ServFail"@,
            Rcode::NXDomain => "NXDomain"@,
        }
    }
}

/// A resolver failure: a response code and an optional info string
/// (empty when no further detail is known).
#[derive(Clone, Debug)]
pub struct DnsError {
    pub code: Rcode,
    pub info: String,
}

impl DnsError {
    /// A failure with the given code and no info text.
    pub fn new(code: Rcode) -> (r: DnsError)
        ensures
            r.code == code,
            r.info@ == Seq::<char>::empty(),
    {
        DnsError { code, info: String::new() }
    }

    /// The same failure, with the info text replaced.
    pub fn with_info(self, info: String) -> (r: DnsError)
        ensures
            r.code == self.code,
            r.info == info,
    {
        DnsError { code: self.code, info }
    }

    /// A rendering of this failure for logs.
    pub fn text(&self) -> (r: String)
        ensures
            r@ == "DNS Error. Code "@ + self.code.spec_text(),
    {
        let mut s = String::from_str("DNS Error. Code ");
        s.append(self.code.text());
        s
    }
}

} // verus!
