//! The recursive resolution engine, expressed as a step machine: the
//! entry functions validate the client query and aim the walk at the
//! root name server; `process_dns_response` dispatches on each
//! upstream response, and `on_server_resolved` continues the walk
//! after an authority name has been resolved. The caller performs
//! the transport (send the emitted query, decode the response) and
//! hands each decoded response back.

use vstd::prelude::*;
use crate::dns::{
    Extension, DnsMessage, DnsMessageV, QClass, QR, QType, DnsQuestion, DnsQuestionV, Rdata,
    duplicate_questions,
};
use crate::dnserror::{DnsError, Rcode};

verus! {

/// The number of referrals a single walk may follow before it fails.
pub const REFERRAL_LIMIT: usize = 16;

/// The recommended maximum length of an EDNS(0) query in octets, and
/// the payload size advertised in emitted queries.
pub const EDNS_RECOMMENDED_OCTETS: usize = 4096;

/// What the resolver asks its caller to do next.
#[derive(Debug)]
pub enum ResolveStep {
    /// Send `query` to the name server at `ip` (known by `name`)
    /// and hand the decoded response back to
    /// `process_dns_response`.
    Query { ip: [u8; 4], name: String, query: DnsMessage },
    /// Resolve `name` to an address by a fresh walk of `query`,
    /// then hand the resulting answer to `on_server_resolved`.
    ResolveServer { name: String, query: DnsMessage },
    /// The walk has finished with this answer.
    Done { answer: DnsMessage },
    /// The walk has failed.
    Failed { error: DnsError },
}

/// The query emitted at a referral: recursion desired, the given
/// questions, and an EDNS(0) extension advertising the recommended
/// payload size.
pub open spec fn spec_referral_query(questions: Seq<DnsQuestionV>) -> DnsMessageV {
    DnsMessageV {
        qr: QR::Query,
        rd: true,
        questions,
        answers: Seq::empty(),
        authoritys: Seq::empty(),
        additionals: Seq::empty(),
        extension: Some(Extension { payload_size: 4096 }),
    }
}

/// True iff the message is shaped like a client query: it is a
/// query and it carries at least one question.
pub fn check_format_query(msg: &DnsMessage) -> (r: bool)
    ensures
        r == (msg.qr == QR::Query && msg.questions@.len() > 0),
{
    msg.qr == QR::Query && msg.questions.len() > 0
}

/// Builds a referral query carrying copies of the given questions.
fn referral_query(questions: &Vec<DnsQuestion>) -> (r: DnsMessage)
    ensures
        r.deep_view() == spec_referral_query(questions.deep_view()),
{
    let qs = duplicate_questions(questions);
    let r = DnsMessage::new_query(qs, 4096);
    proof {
        assert(r.answers.deep_view() =~= Seq::<crate::dns::DnsRecordV>::empty());
        assert(r.authoritys.deep_view() =~= Seq::<crate::dns::DnsRecordV>::empty());
        assert(r.additionals.deep_view() =~= Seq::<crate::dns::DnsRecordV>::empty());
    }
    r
}

/// Aims a recursion-desired query at the root name server: the walk
/// starts at the hard-coded root anchor, with the client's message
/// sent verbatim. A query without recursion desired fails with
/// `NXDomain`.
pub fn dispatch_query(msg: &DnsMessage) -> (r: Result<ResolveStep, DnsError>)
    ensures
        !msg.rd ==> match r {
            Ok(_) => false,
            Err(e) => e.code == Rcode::NXDomain,
        },
        msg.rd ==> match r {
            Ok(step) => match step {
                ResolveStep::Query { ip, name, query } => {
                    &&& ip@ =~= seq![198u8, 41u8, 0u8, 4u8]
                    &&& name@ == "a.root-servers.net"@
                    &&& query.deep_view() == msg.deep_view()
                },
                _ => false,
            },
            Err(_) => false,
        },
{
    if msg.rd {
        Ok(ResolveStep::Query {
            ip: [198, 41, 0, 4],
            name: String::from_str("a.root-servers.net"),
            query: msg.duplicate(),
        })
    } else {
        Err(DnsError::new(Rcode::NXDomain))
    }
}

/// The entry point of a walk: rejects a message that is not a
/// well-formed client query with `FormErr`, a non-recursive query
/// with `NXDomain`, and otherwise emits the first step of the walk,
/// aimed at the root name server. No step that reaches the network
/// is emitted for a rejected message.
pub fn resolve_message_query(msg: &DnsMessage) -> (r: Result<ResolveStep, DnsError>)
    ensures
        !(msg.qr == QR::Query && msg.questions@.len() > 0) ==> match r {
            Ok(_) => false,
            Err(e) => e.code == Rcode::FormErr,
        },
        (msg.qr == QR::Query && msg.questions@.len() > 0 && !msg.rd) ==> match r {
            Ok(_) => false,
            Err(e) => e.code == Rcode::NXDomain,
        },
        (msg.qr == QR::Query && msg.questions@.len() > 0 && msg.rd) ==> match r {
            Ok(step) => match step {
                ResolveStep::Query { ip, name, query } => {
                    &&& ip@ =~= seq![198u8, 41u8, 0u8, 4u8]
                    &&& name@ == "a.root-servers.net"@
                    &&& query.deep_view() == msg.deep_view()
                },
                _ => false,
            },
            Err(_) => false,
        },
        r is Ok ==> (msg.qr == QR::Query && msg.questions@.len() > 0 && msg.rd),
{
    if !check_format_query(msg) {
        Err(DnsError::new(Rcode::FormErr))
    } else {
        dispatch_query(msg)
    }
}

/// Dispatches on one upstream response, `depth` referrals into the
/// walk. A response with an answer finishes the walk; glue aims the
/// next query at the glue address; a bare authority asks the caller
/// to resolve the authority name first; anything else fails. The
/// walk also fails once the referral limit has been reached.
pub fn process_dns_response(rsp: &DnsMessage, depth: usize) -> (r: ResolveStep)
    ensures
        rsp.qr != QR::Response ==> match r {
            ResolveStep::Failed { error } => error.code == Rcode::FormErr,
            _ => false,
        },
        (rsp.qr == QR::Response && rsp.answers@.len() > 0) ==> match r {
            ResolveStep::Done { answer } => answer.deep_view() == rsp.deep_view(),
            _ => false,
        },
        (rsp.qr == QR::Response && rsp.answers@.len() == 0 && depth >= REFERRAL_LIMIT) ==> match r {
            ResolveStep::Failed { error } => error.code == Rcode::ServFail,
            _ => false,
        },
        (rsp.qr == QR::Response && rsp.answers@.len() == 0 && depth < REFERRAL_LIMIT
            && rsp.additionals@.len() > 0) ==> match rsp.additionals@[0].resource {
            Rdata::A(a) => match r {
                ResolveStep::Query { ip, name, query } => {
                    &&& ip == a
                    &&& name@ == rsp.additionals@[0].name@
                    &&& query.deep_view() == spec_referral_query(rsp.deep_view().questions)
                },
                _ => false,
            },
            _ => match r {
                ResolveStep::Failed { error } => error.code == Rcode::ServFail,
                _ => false,
            },
        },
        (rsp.qr == QR::Response && rsp.answers@.len() == 0 && depth < REFERRAL_LIMIT
            && rsp.additionals@.len() == 0 && rsp.authoritys@.len() > 0) ==> match rsp.authoritys@[0].resource {
            Rdata::NS(ns) => match r {
                ResolveStep::ResolveServer { name, query } => {
                    &&& name@ == ns@
                    &&& query.deep_view() == spec_referral_query(
                        seq![
                            DnsQuestionV {
                                name: ns@,
                                qtype: QType::A,
                                qclass: QClass::Internet,
                            },
                        ],
                    )
                },
                _ => false,
            },
            _ => match r {
                ResolveStep::Failed { error } => error.code == Rcode::ServFail,
                _ => false,
            },
        },
        (rsp.qr == QR::Response && rsp.answers@.len() == 0 && depth < REFERRAL_LIMIT
            && rsp.additionals@.len() == 0 && rsp.authoritys@.len() == 0) ==> match r {
            ResolveStep::Failed { error } => error.code == Rcode::NXDomain,
            _ => false,
        },
{
    if rsp.qr != QR::Response {
        return ResolveStep::Failed { error: DnsError::new(Rcode::FormErr) };
    }
    if rsp.answers.len() > 0 {
        return ResolveStep::Done { answer: rsp.duplicate() };
    }
    if depth >= REFERRAL_LIMIT {
        return ResolveStep::Failed {
            error: DnsError::new(Rcode::ServFail).with_info(
                String::from_str("Referral limit reached during resolution"),
            ),
        };
    }
    if rsp.additionals.len() > 0 {
        let glue = &rsp.additionals[0];
        match &glue.resource {
            Rdata::A(a) => ResolveStep::Query {
                ip: *a,
                name: glue.name.clone(),
                query: referral_query(&rsp.questions),
            },
            _ => ResolveStep::Failed {
                error: DnsError::new(Rcode::ServFail).with_info(
                    String::from_str("Couldn't find valid glue record"),
                ),
            },
        }
    } else if rsp.authoritys.len() > 0 {
        let authority = &rsp.authoritys[0];
        match &authority.resource {
            Rdata::NS(ns) => {
                let mut qs: Vec<DnsQuestion> = Vec::new();
                qs.push(
                    DnsQuestion {
                        name: ns.clone(),
                        qtype: QType::A,
                        qclass: QClass::Internet,
                    },
                );
                proof {
                    assert(qs.deep_view() =~= seq![
                        DnsQuestionV { name: ns@, qtype: QType::A, qclass: QClass::Internet },
                    ]);
                }
                let query = referral_query(&qs);
                ResolveStep::ResolveServer { name: ns.clone(), query }
            },
            _ => ResolveStep::Failed {
                error: DnsError::new(Rcode::ServFail).with_info(
                    String::from_str("Couldn't find valid authority ns to redirect to"),
                ),
            },
        }
    } else {
        ResolveStep::Failed {
            error: DnsError::new(Rcode::NXDomain).with_info(
                String::from_str("In resolve_message_query couldn't find next steps"),
            ),
        }
    }
}

/// Continues the walk once an authority name has been resolved:
/// `answer` is the result of the nested walk, `original` the
/// response whose questions are to be re-asked. The first answer
/// record must be an A record; its address becomes the next name
/// server, and the original questions are re-asked there.
pub fn on_server_resolved(answer: &DnsMessage, original: &DnsMessage) -> (r: ResolveStep)
    ensures
        (answer.answers@.len() > 0 && answer.answers@[0].resource is A) ==> match r {
            ResolveStep::Query { ip, name, query } => {
                &&& answer.answers@[0].resource == Rdata::A(ip)
                &&& name@ == answer.answers@[0].name@
                &&& query.deep_view() == spec_referral_query(original.deep_view().questions)
            },
            _ => false,
        },
        answer.answers@.len() == 0 ==> match r {
            ResolveStep::Failed { error } => error.code == Rcode::ServFail,
            _ => false,
        },
        (answer.answers@.len() > 0 && !(answer.answers@[0].resource is A)) ==> match r {
            ResolveStep::Failed { error } => error.code == Rcode::NXDomain,
            _ => false,
        },
{
    match crate::dnstools::parse_answer_a(answer) {
        Ok((name, ip)) => ResolveStep::Query {
            ip,
            name,
            query: referral_query(&original.questions),
        },
        Err(e) => ResolveStep::Failed { error: e },
    }
}

/// Checks an encoded query against the recommended EDNS(0) length:
/// a longer query is refused with `ServFail` before it is sent.
pub fn check_query_size(len: usize) -> (r: Result<(), DnsError>)
    ensures
        match r {
            Ok(_) => len <= EDNS_RECOMMENDED_OCTETS,
            Err(e) => len > EDNS_RECOMMENDED_OCTETS && e.code == Rcode::ServFail,
        },
{
    if len > EDNS_RECOMMENDED_OCTETS {
        Err(DnsError::new(Rcode::ServFail).with_info(
            String::from_str(
                "DNS nameserver query length exceeds RFC 6891 reccomended length",
            ),
        ))
    } else {
        Ok(())
    }
}

} // verus!
