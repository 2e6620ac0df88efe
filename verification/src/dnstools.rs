//! Pure inspectors over a decoded DNS message: answer presence, glue
//! and authority access, the question fingerprint used as the cache
//! key, and TTL extraction.

use vstd::prelude::*;
use crate::dns::{DnsMessage, DnsQuestionV, DnsRecord, Rdata};
use crate::dnserror::{DnsError, Rcode};

verus! {

/// The canonical fingerprint of a question: its name, type and class
/// separated by single spaces.
pub open spec fn spec_question_fingerprint(q: DnsQuestionV) -> Seq<char> {
    q.name + seq![' '] + q.qtype.spec_text() + seq![' '] + q.qclass.spec_text()
}

/// True iff the message carries at least one answer record.
pub fn has_answer(rsp: &DnsMessage) -> (r: bool)
    ensures
        r == (rsp.answers@.len() > 0),
{
    rsp.answers.len() > 0
}

/// The answer section, if it is non-empty.
pub fn get_answer<'a>(rsp: &'a DnsMessage) -> (r: Option<&'a Vec<DnsRecord>>)
    ensures
        rsp.answers@.len() > 0 ==> r == Some(&rsp.answers),
        rsp.answers@.len() == 0 ==> r is None,
{
    if rsp.answers.len() > 0 {
        Some(&rsp.answers)
    } else {
        None
    }
}

/// The additional (glue) section, if it is non-empty.
pub fn get_glue<'a>(rsp: &'a DnsMessage) -> (r: Option<&'a Vec<DnsRecord>>)
    ensures
        rsp.additionals@.len() > 0 ==> r == Some(&rsp.additionals),
        rsp.additionals@.len() == 0 ==> r is None,
{
    if rsp.additionals.len() > 0 {
        Some(&rsp.additionals)
    } else {
        None
    }
}

/// The authority section, if it is non-empty.
pub fn get_authoritys<'a>(rsp: &'a DnsMessage) -> (r: Option<&'a Vec<DnsRecord>>)
    ensures
        rsp.authoritys@.len() > 0 ==> r == Some(&rsp.authoritys),
        rsp.authoritys@.len() == 0 ==> r is None,
{
    if rsp.authoritys.len() > 0 {
        Some(&rsp.authoritys)
    } else {
        None
    }
}

/// The name and address of the first answer record, which must be an
/// A record: `ServFail` when there is no answer at all, `NXDomain`
/// when the first answer is of another type.
pub fn parse_answer_a(rsp: &DnsMessage) -> (r: Result<(String, [u8; 4]), DnsError>)
    ensures
        match r {
            Ok((name, addr)) => {
                &&& rsp.answers@.len() > 0
                &&& rsp.answers@[0].resource == Rdata::A(addr)
                &&& name@ == rsp.answers@[0].name@
            },
            Err(e) => {
                &&& rsp.answers@.len() == 0 ==> e.code == Rcode::ServFail
                &&& rsp.answers@.len() > 0 ==> {
                    &&& e.code == Rcode::NXDomain
                    &&& !(rsp.answers@[0].resource is A)
                }
            },
        },
        (r is Ok) <==> (rsp.answers@.len() > 0 && rsp.answers@[0].resource is A),
{
    if rsp.answers.len() == 0 {
        Err(DnsError::new(Rcode::ServFail).with_info(
            String::from_str("Expected an answer but didn't get one"),
        ))
    } else {
        let answer = &rsp.answers[0];
        match &answer.resource {
            Rdata::A(a) => Ok((answer.name.clone(), *a)),
            _ => Err(DnsError::new(Rcode::NXDomain).with_info(
                String::from_str("Error parsing answer of record type A"),
            )),
        }
    }
}

/// The fingerprint of the first question, used as the cache key. Two
/// messages with the same first question yield identical
/// fingerprints regardless of their other fields.
pub fn string_of_question(rsp: &DnsMessage) -> (r: Result<String, DnsError>)
    requires
        rsp.questions@.len() > 0,
    ensures
        match r {
            Ok(s) => s@ == spec_question_fingerprint(rsp.questions@[0].deep_view()),
            Err(_) => false,
        },
{
    proof {
        reveal_strlit(" ");
    }
    let question = &rsp.questions[0];
    let mut s = question.name.clone();
    s.append(" ");
    s.append(question.qtype.text());
    s.append(" ");
    s.append(question.qclass.text());
    proof {
        assert(s@ =~= spec_question_fingerprint(rsp.questions@[0].deep_view()));
    }
    Ok(s)
}

/// Splitting a string on its final space is unambiguous when the
/// parts after the space contain none: equal strings of the shape
/// `a ++ " " ++ b` with space-free `b` have equal parts.
proof fn lemma_space_split(a: Seq<char>, b: Seq<char>, c: Seq<char>, d: Seq<char>)
    requires
        crate::dns::spec_no_space(b),
        crate::dns::spec_no_space(d),
        a + seq![' '] + b == c + seq![' '] + d,
    ensures
        a == c,
        b == d,
{
    let s = a + seq![' '] + b;
    assert(s.len() == a.len() + 1 + b.len());
    assert(s.len() == c.len() + 1 + d.len());
    if b.len() < d.len() {
        let k = s.len() - b.len() - 1;
        assert(s[k] == (a + seq![' '])[k]);
        assert(s[k] == ' ');
        assert(s[k] == d[k - c.len() - 1]);
        assert(false);
    }
    if d.len() < b.len() {
        let k = s.len() - d.len() - 1;
        assert(s[k] == (c + seq![' '])[k]);
        assert(s[k] == ' ');
        assert(s[k] == b[k - a.len() - 1]);
        assert(false);
    }
    assert(b.len() == d.len());
    assert(a.len() == c.len());
    assert forall|i: int| 0 <= i < b.len() implies b[i] == d[i] by {
        assert(s[a.len() + 1 + i] == b[i]);
        assert(s[c.len() + 1 + i] == d[i]);
    }
    assert(b =~= d);
    assert forall|i: int| 0 <= i < a.len() implies a[i] == c[i] by {
        assert(s[i] == a[i]);
        assert(s[i] == c[i]);
    }
    assert(a =~= c);
}

/// Fingerprint determinism: for questions whose names contain no
/// space, two questions have equal fingerprints exactly when they
/// agree on name, type and class. So two messages sharing the same
/// first question always yield identical cache keys, and messages
/// with different first questions never collide.
pub proof fn lemma_fingerprint_determinism(q1: DnsQuestionV, q2: DnsQuestionV)
    requires
        crate::dns::spec_no_space(q1.name),
        crate::dns::spec_no_space(q2.name),
    ensures
        (spec_question_fingerprint(q1) == spec_question_fingerprint(q2)) <==> (q1.name == q2.name
            && q1.qtype == q2.qtype && q1.qclass == q2.qclass),
{
    if q1.name == q2.name && q1.qtype == q2.qtype && q1.qclass == q2.qclass {
        assert(spec_question_fingerprint(q1) == spec_question_fingerprint(q2));
    }
    if spec_question_fingerprint(q1) == spec_question_fingerprint(q2) {
        crate::dns::lemma_qtype_text_no_space(q1.qtype);
        crate::dns::lemma_qtype_text_no_space(q2.qtype);
        crate::dns::lemma_qclass_text_no_space(q1.qclass);
        crate::dns::lemma_qclass_text_no_space(q2.qclass);
        let h1 = q1.name + seq![' '] + q1.qtype.spec_text();
        let h2 = q2.name + seq![' '] + q2.qtype.spec_text();
        assert(h1 + seq![' '] + q1.qclass.spec_text() =~= spec_question_fingerprint(q1));
        assert(h2 + seq![' '] + q2.qclass.spec_text() =~= spec_question_fingerprint(q2));
        lemma_space_split(h1, q1.qclass.spec_text(), h2, q2.qclass.spec_text());
        crate::dns::lemma_qclass_text_injective(q1.qclass, q2.qclass);
        lemma_space_split(q1.name, q1.qtype.spec_text(), q2.name, q2.qtype.spec_text());
        crate::dns::lemma_qtype_text_injective(q1.qtype, q2.qtype);
    }
}

/// The TTL of the first answer record, in seconds.
pub fn parse_ttl_from_answer(rsp: &DnsMessage) -> (r: Result<u64, DnsError>)
    requires
        rsp.answers@.len() > 0,
    ensures
        match r {
            Ok(t) => t == rsp.answers@[0].ttl,
            Err(_) => false,
        },
{
    Ok(rsp.answers[0].ttl)
}

} // verus!
