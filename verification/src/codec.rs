//! The boundary to the DNS wire codec. Decoding and encoding are done
//! by the `rustdns` crate; the trusted items here declare its types,
//! pull decoded fields out as plain values, and hand plain values
//! back for encoding. Question types and classes are read as codes
//! straight from the datagram's question section, which this module
//! parses itself. The verified functions `decode_message` and
//! `encode_query` assemble the library's message model on top of
//! these pieces; what a message means to the resolver is stated
//! entirely over the model.

use vstd::prelude::*;
use crate::dns::{DnsMessage, DnsQuestion, DnsRecord, Extension, QClass, QR, QType, Rdata};
use crate::dnserror::{DnsError, Rcode};

verus! {

#[verifier::external_type_specification]
#[verifier::external_body]
pub struct ExRawMessage(rustdns::Message);

#[verifier::external_type_specification]
#[verifier::external_body]
pub struct ExRawQuestion(rustdns::Question);

#[verifier::external_type_specification]
#[verifier::external_body]
pub struct ExRawRecord(rustdns::Record);

#[verifier::external_type_specification]
#[verifier::external_body]
pub struct ExRawType(rustdns::Type);

#[verifier::external_type_specification]
#[verifier::external_body]
pub struct ExRawClass(rustdns::Class);

#[verifier::external_type_specification]
#[verifier::external_body]
pub struct ExRawResource(rustdns::Resource);

/// Relies on rustdns::Message::from_slice: decodes an RFC 1035
/// message from wire format, failing on truncated or invalid input.
#[verifier::external_body]
fn raw_from_slice(buf: &[u8]) -> Result<rustdns::Message, String> {
    rustdns::Message::from_slice(buf).map_err(|e| e.to_string())
}

/// Relies on the rustdns::Message `qr` field: true iff the message
/// is marked as a response.
#[verifier::external_body]
fn raw_qr_is_response(m: &rustdns::Message) -> bool {
    m.qr == rustdns::QR::Response
}

/// Relies on the rustdns::Message `rd` field: the recursion-desired
/// flag.
#[verifier::external_body]
fn raw_rd(m: &rustdns::Message) -> bool {
    m.rd
}

/// Relies on the rustdns::Message `extension` field: the advertised
/// EDNS(0) payload size, when an extension is present.
#[verifier::external_body]
fn raw_extension_payload(m: &rustdns::Message) -> Option<u16> {
    match &m.extension {
        Some(e) => Some(e.payload_size),
        None => None,
    }
}

/// Relies on the rustdns::Message `questions` field.
#[verifier::external_body]
fn raw_questions(m: &rustdns::Message) -> Vec<rustdns::Question> {
    m.questions.clone()
}

/// Relies on the rustdns::Message `answers` field.
#[verifier::external_body]
fn raw_answers(m: &rustdns::Message) -> Vec<rustdns::Record> {
    m.answers.clone()
}

/// Relies on the rustdns::Message `authoritys` field.
#[verifier::external_body]
fn raw_authoritys(m: &rustdns::Message) -> Vec<rustdns::Record> {
    m.authoritys.clone()
}

/// Relies on the rustdns::Message `additionals` field.
#[verifier::external_body]
fn raw_additionals(m: &rustdns::Message) -> Vec<rustdns::Record> {
    m.additionals.clone()
}

/// Relies on the rustdns::Question `name` field: the decoded domain
/// name (IDNA-decoded, with a trailing dot).
#[verifier::external_body]
fn raw_question_name(q: &rustdns::Question) -> String {
    q.name.clone()
}

/// Relies on the rustdns::Record fields and
/// std::time::Duration::as_secs: the record's name, class, time to
/// live in whole seconds, and payload.
#[verifier::external_body]
fn raw_record_parts(r: &rustdns::Record) -> (String, rustdns::Class, u64, rustdns::Resource) {
    (r.name.clone(), r.class, r.ttl.as_secs(), r.resource.clone())
}

/// Relies on the rustdns::Class enum: one arm per variant.
#[verifier::external_body]
fn qclass_of_raw(c: rustdns::Class) -> QClass {
    match c {
        rustdns::Class::Reserved => QClass::Reserved,
        rustdns::Class::Internet => QClass::Internet,
        rustdns::Class::CsNet => QClass::CsNet,
        rustdns::Class::Chaos => QClass::Chaos,
        rustdns::Class::Hesiod => QClass::Hesiod,
        rustdns::Class::None => QClass::NoClass,
        rustdns::Class::Any => QClass::Any,
    }
}

/// Relies on the rustdns::Type enum: one arm per variant.
#[verifier::external_body]
fn raw_type_of(t: &QType) -> rustdns::Type {
    match t {
        QType::Reserved => rustdns::Type::Reserved,
        QType::A => rustdns::Type::A,
        QType::NS => rustdns::Type::NS,
        QType::CNAME => rustdns::Type::CNAME,
        QType::SOA => rustdns::Type::SOA,
        QType::PTR => rustdns::Type::PTR,
        QType::MX => rustdns::Type::MX,
        QType::TXT => rustdns::Type::TXT,
        QType::AAAA => rustdns::Type::AAAA,
        QType::SRV => rustdns::Type::SRV,
        QType::OPT => rustdns::Type::OPT,
        QType::SPF => rustdns::Type::SPF,
        QType::ANY => rustdns::Type::ANY,
    }
}

/// Relies on the rustdns::Class enum: one arm per variant.
#[verifier::external_body]
fn raw_class_of(c: &QClass) -> rustdns::Class {
    match c {
        QClass::Reserved => rustdns::Class::Reserved,
        QClass::Internet => rustdns::Class::Internet,
        QClass::CsNet => rustdns::Class::CsNet,
        QClass::Chaos => rustdns::Class::Chaos,
        QClass::Hesiod => rustdns::Class::Hesiod,
        QClass::NoClass => rustdns::Class::None,
        QClass::Any => rustdns::Class::Any,
    }
}

/// Relies on the rustdns::Resource enum and the std address
/// accessors Ipv4Addr::octets and Ipv6Addr::segments: one arm per
/// variant, address payloads as plain octets or groups, name
/// payloads as strings; other payloads are carried without data.
#[verifier::external_body]
fn resource_of_raw(r: rustdns::Resource) -> Rdata {
    match r {
        rustdns::Resource::A(a) => Rdata::A(a.octets()),
        rustdns::Resource::AAAA(a) => Rdata::AAAA(a.segments()),
        rustdns::Resource::CNAME(n) => Rdata::CNAME(n),
        rustdns::Resource::NS(n) => Rdata::NS(n),
        rustdns::Resource::PTR(n) => Rdata::PTR(n),
        rustdns::Resource::TXT(_) => Rdata::TXT,
        rustdns::Resource::SPF(_) => Rdata::SPF,
        rustdns::Resource::MX(_) => Rdata::MX,
        rustdns::Resource::SOA(_) => Rdata::SOA,
        rustdns::Resource::SRV(_) => Rdata::SRV,
        rustdns::Resource::OPT => Rdata::OPT,
        rustdns::Resource::ANY => Rdata::ANY,
    }
}

/// Relies on rustdns::Message::default: a fresh query message (query
/// bit, recursion desired, a random id, empty sections); the
/// recursion flag is then overwritten with the given one.
#[verifier::external_body]
fn raw_new_query(rd: bool) -> rustdns::Message {
    let mut m = rustdns::Message::default();
    m.rd = rd;
    m
}

/// Relies on rustdns::Message::try_add_question: IDNA-normalises and
/// validates the domain name, then appends the question.
#[verifier::external_body]
fn raw_add_question(
    m: &mut rustdns::Message,
    name: &str,
    t: rustdns::Type,
    c: rustdns::Class,
) -> Result<(), String> {
    m.try_add_question(name, t, c).map_err(|e| e.to_string())
}

/// Relies on rustdns::Message::set_extension and
/// rustdns::Message::to_vec: attaches an EDNS(0) extension with the
/// given payload size when one is asked for, then encodes the
/// message to RFC 1035 wire format.
#[verifier::external_body]
fn raw_finish_query(m: &mut rustdns::Message, payload_size: Option<u16>) -> Result<
    Vec<u8>,
    String,
> {
    if let Some(payload_size) = payload_size {
        m.set_extension(rustdns::Extension { payload_size, ..Default::default() });
    }
    m.to_vec().map_err(|e| e.to_string())
}

/// The question type a DNS wire code stands for, if it is one the
/// codec knows.
pub open spec fn spec_qtype_of_code(c: u16) -> Option<QType> {
    if c == 0 { Some(QType::Reserved) }
    else if c == 1 { Some(QType::A) }
    else if c == 2 { Some(QType::NS) }
    else if c == 5 { Some(QType::CNAME) }
    else if c == 6 { Some(QType::SOA) }
    else if c == 12 { Some(QType::PTR) }
    else if c == 15 { Some(QType::MX) }
    else if c == 16 { Some(QType::TXT) }
    else if c == 28 { Some(QType::AAAA) }
    else if c == 33 { Some(QType::SRV) }
    else if c == 41 { Some(QType::OPT) }
    else if c == 99 { Some(QType::SPF) }
    else if c == 255 { Some(QType::ANY) }
    else { None }
}

/// The question type for a DNS wire type code.
pub fn qtype_of_code(c: u16) -> (r: Option<QType>)
    ensures
        r == spec_qtype_of_code(c),
{
    if c == 0 { Some(QType::Reserved) }
    else if c == 1 { Some(QType::A) }
    else if c == 2 { Some(QType::NS) }
    else if c == 5 { Some(QType::CNAME) }
    else if c == 6 { Some(QType::SOA) }
    else if c == 12 { Some(QType::PTR) }
    else if c == 15 { Some(QType::MX) }
    else if c == 16 { Some(QType::TXT) }
    else if c == 28 { Some(QType::AAAA) }
    else if c == 33 { Some(QType::SRV) }
    else if c == 41 { Some(QType::OPT) }
    else if c == 99 { Some(QType::SPF) }
    else if c == 255 { Some(QType::ANY) }
    else { None }
}

/// The record class a DNS wire code stands for, if it is one the
/// codec knows.
pub open spec fn spec_qclass_of_code(c: u16) -> Option<QClass> {
    if c == 0 { Some(QClass::Reserved) }
    else if c == 1 { Some(QClass::Internet) }
    else if c == 2 { Some(QClass::CsNet) }
    else if c == 3 { Some(QClass::Chaos) }
    else if c == 4 { Some(QClass::Hesiod) }
    else if c == 254 { Some(QClass::NoClass) }
    else if c == 255 { Some(QClass::Any) }
    else { None }
}

/// The record class for a DNS wire class code.
pub fn qclass_of_code(c: u16) -> (r: Option<QClass>)
    ensures
        r == spec_qclass_of_code(c),
{
    if c == 0 { Some(QClass::Reserved) }
    else if c == 1 { Some(QClass::Internet) }
    else if c == 2 { Some(QClass::CsNet) }
    else if c == 3 { Some(QClass::Chaos) }
    else if c == 4 { Some(QClass::Hesiod) }
    else if c == 254 { Some(QClass::NoClass) }
    else if c == 255 { Some(QClass::Any) }
    else { None }
}

/// Walks over one encoded domain name inside a datagram, starting
/// at `pos`: label by label until the terminating zero length, or
/// until a compression pointer, which ends the name. Returns the
/// position just past the name, or `None` when the walk runs off
/// the end of the datagram.
fn skip_wire_name(buf: &[u8], pos: usize) -> (r: Option<usize>)
    ensures
        match r {
            Some(p) => pos < p <= buf@.len(),
            None => true,
        },
{
    let n = buf.len();
    if pos >= n {
        return None;
    }
    let mut p = pos;
    loop
        invariant
            pos <= p <= n,
            n == buf@.len(),
        decreases n - p,
    {
        if p >= n {
            return None;
        }
        let b = buf[p];
        if b == 0 {
            return Some(p + 1);
        }
        if b >= 0xC0 {
            // A compression pointer occupies two bytes and ends the name.
            if n - p >= 2 {
                return Some(p + 2);
            }
            return None;
        }
        if b >= 0x40 {
            // Length bytes between the label and pointer ranges are not
            // valid wire format.
            return None;
        }
        if n - p <= b as usize {
            return None;
        }
        p = p + 1 + b as usize;
    }
}

/// Reads the big-endian sixteen-bit value at `pos`.
fn read_u16_be(buf: &[u8], pos: usize) -> (r: u16)
    requires
        pos + 2 <= buf@.len(),
    ensures
        r == buf@[pos as int] as u16 * 256 + buf@[pos as int + 1] as u16,
{
    (buf[pos] as u16) * 256 + (buf[pos + 1] as u16)
}

/// Parses the type and class codes of the first `n` questions of a
/// wire-format datagram: the question section starts at octet
/// twelve, each question being a name followed by a two-octet type
/// code and a two-octet class code. Returns `None` when the
/// datagram is too short for `n` questions.
fn parse_question_codes(buf: &[u8], n: usize) -> (r: Option<Vec<(u16, u16)>>)
    ensures
        match r {
            Some(v) => v@.len() == n,
            None => true,
        },
{
    let mut out: Vec<(u16, u16)> = Vec::new();
    let mut pos: usize = 12;
    let mut i: usize = 0;
    while i < n
        invariant
            0 <= i <= n,
            out@.len() == i,
        decreases n - i,
    {
        let after_name = match skip_wire_name(buf, pos) {
            Some(p) => p,
            None => {
                return None;
            },
        };
        if buf.len() < 4 || after_name > buf.len() - 4 {
            return None;
        }
        let tcode = read_u16_be(buf, after_name);
        let ccode = read_u16_be(buf, after_name + 2);
        out.push((tcode, ccode));
        pos = after_name + 4;
        i = i + 1;
    }
    Some(out)
}

/// Decodes a wire-format datagram into the message model: the
/// header flags the resolver reads, the question and record
/// sections, and the advertised EDNS(0) payload size. DnsQuestion
/// types and classes are read from the datagram's own question
/// section. A datagram the codec cannot decode, or whose question
/// section does not line up with the decoded questions, yields
/// `ServFail`. The decoded contents are input data: what the
/// resolver does with them is stated on the functions that take the
/// message as an argument.
pub fn decode_message(buf: &[u8]) -> Result<DnsMessage, DnsError> {
    let raw = match raw_from_slice(buf) {
        Ok(m) => m,
        Err(e) => {
            return Err(DnsError::new(Rcode::ServFail).with_info(e));
        },
    };
    let qr = if raw_qr_is_response(&raw) {
        QR::Response
    } else {
        QR::Query
    };
    let rawqs = raw_questions(&raw);
    let codes = match parse_question_codes(buf, rawqs.len()) {
        Some(v) => v,
        None => {
            return Err(DnsError::new(Rcode::ServFail).with_info(
                String::from_str("DnsQuestion section doesn't line up with decoded message"),
            ));
        },
    };
    let mut questions: Vec<DnsQuestion> = Vec::new();
    let mut i: usize = 0;
    while i < rawqs.len()
        invariant
            codes@.len() == rawqs@.len(),
            0 <= i <= rawqs@.len(),
        decreases rawqs@.len() - i,
    {
        let (tcode, ccode) = codes[i];
        let qtype = match qtype_of_code(tcode) {
            Some(t) => t,
            None => {
                return Err(DnsError::new(Rcode::ServFail).with_info(
                    String::from_str("Unknown question type code"),
                ));
            },
        };
        let qclass = match qclass_of_code(ccode) {
            Some(c) => c,
            None => {
                return Err(DnsError::new(Rcode::ServFail).with_info(
                    String::from_str("Unknown question class code"),
                ));
            },
        };
        questions.push(
            DnsQuestion { name: raw_question_name(&rawqs[i]), qtype, qclass },
        );
        i = i + 1;
    }
    let extension = match raw_extension_payload(&raw) {
        Some(payload_size) => Some(Extension { payload_size }),
        None => None,
    };
    Ok(
        DnsMessage {
            qr,
            rd: raw_rd(&raw),
            questions,
            answers: records_of_raw(&raw_answers(&raw)),
            authoritys: records_of_raw(&raw_authoritys(&raw)),
            additionals: records_of_raw(&raw_additionals(&raw)),
            extension,
        },
    )
}

/// Converts one decoded record into the model.
fn record_of_raw(r: &rustdns::Record) -> DnsRecord {
    let (name, c, ttl, res) = raw_record_parts(r);
    DnsRecord { name, class: qclass_of_raw(c), ttl, resource: resource_of_raw(res) }
}

/// Converts a decoded record section into the model.
fn records_of_raw(rs: &Vec<rustdns::Record>) -> Vec<DnsRecord> {
    let mut out: Vec<DnsRecord> = Vec::new();
    let mut i: usize = 0;
    while i < rs.len()
        decreases rs@.len() - i,
    {
        out.push(record_of_raw(&rs[i]));
        i = i + 1;
    }
    out
}

/// Encodes a query of the message model to wire format: its
/// recursion flag, its questions (each name IDNA-normalised by the
/// codec), and its EDNS(0) payload size if it carries an extension.
/// The codec assigns a fresh random id. A message the codec cannot
/// encode yields `ServFail` carrying the codec's error text.
pub fn encode_query(msg: &DnsMessage) -> Result<Vec<u8>, DnsError>
    requires
        msg.qr == QR::Query,
{
    let mut raw = raw_new_query(msg.rd);
    let mut i: usize = 0;
    while i < msg.questions.len()
        decreases msg.questions@.len() - i,
    {
        let q = &msg.questions[i];
        match raw_add_question(&mut raw, q.name.as_str(), raw_type_of(&q.qtype), raw_class_of(
            &q.qclass,
        )) {
            Ok(_) => {},
            Err(e) => {
                return Err(DnsError::new(Rcode::ServFail).with_info(e));
            },
        }
        i = i + 1;
    }
    let payload_size = match &msg.extension {
        Some(e) => Some(e.payload_size),
        None => None,
    };
    match raw_finish_query(&mut raw, payload_size) {
        Ok(bytes) => Ok(bytes),
        Err(e) => Err(DnsError::new(Rcode::ServFail).with_info(e)),
    }
}

} // verus!
