//! The data model of decoded DNS messages that the resolver, cache and
//! job logic work over: questions, resource records, and the message
//! itself, together with the canonical text renderings used for cache
//! keys and client replies.

use vstd::prelude::*;

verus! {

/// Whether a message is a query or a response.
#[derive(Clone, Copy, Debug, PartialEq, Eq, Structural)]
pub enum QR {
    Query,
    Response,
}

/// Record type, for example A, CNAME or SOA.
#[derive(Clone, Copy, Debug, PartialEq, Eq, Structural)]
pub enum QType {
    Reserved,
    A,
    NS,
    CNAME,
    SOA,
    PTR,
    MX,
    TXT,
    AAAA,
    SRV,
    OPT,
    SPF,
    ANY,
}

impl QType {
    /// What `text` returns for each record type.
    pub open spec fn spec_text(self) -> Seq<char> {
        match self {
            QType::Reserved => "Reserved"@,
            QType::A => "A"@,
            QType::NS => "NS"@,
            QType::CNAME => "CNAME"@,
            QType::SOA => "SOA"@,
            QType::PTR => "PTR"@,
            QType::MX => "MX"@,
            QType::TXT => "TXT"@,
            QType::AAAA => "AAAA"@,
            QType::SRV => "SRV"@,
            QType::OPT => "OPT"@,
            QType::SPF => "SPF"@,
            QType::ANY => "ANY"@,
        }
    }

    /// The canonical name of this record type, as it appears in a
    /// question fingerprint.
    pub fn text(&self) -> (r: &'static str)
        ensures
            r@ == self.spec_text(),
    {
        match self {
            QType::Reserved => "Reserved",
            QType::A => "A",
            QType::NS => "NS",
            QType::CNAME => "CNAME",
            QType::SOA => "SOA",
            QType::PTR => "PTR",
            QType::MX => "MX",
            QType::TXT => "TXT",
            QType::AAAA => "AAAA",
            QType::SRV => "SRV",
            QType::OPT => "OPT",
            QType::SPF => "SPF",
            QType::ANY => "ANY",
        }
    }
}

/// Record class, for example Internet.
#[derive(Clone, Copy, Debug, PartialEq, Eq, Structural)]
pub enum QClass {
    Reserved,
    Internet,
    CsNet,
    Chaos,
    Hesiod,
    /// No class specified.
    NoClass,
    Any,
}

impl QClass {
    /// What `text` returns for each class.
    pub open spec fn spec_text(self) -> Seq<char> {
        match self {
            QClass::Reserved => "Reserved"@,
            QClass::Internet => "IN"@,
            QClass::CsNet => "CS"@,
            QClass::Chaos => "CH"@,
            QClass::Hesiod => "HS"@,
            QClass::NoClass => "None"@,
            QClass::Any => "*"@,
        }
    }

    /// The canonical name of this class, as it appears in a question
    /// fingerprint.
    pub fn text(&self) -> (r: &'static str)
        ensures
            r@ == self.spec_text(),
    {
        match self {
            QClass::Reserved => "Reserved",
            QClass::Internet => "IN",
            QClass::CsNet => "CS",
            QClass::Chaos => "CH",
            QClass::Hesiod => "HS",
            QClass::NoClass => "None",
            QClass::Any => "*",
        }
    }
}

/// A question: a domain name together with the record type and class
/// asked for.
#[derive(Clone, Debug)]
pub struct DnsQuestion {
    pub name: String,
    pub qtype: QType,
    pub qclass: QClass,
}

/// The payload of a resource record. Address records carry their
/// octets or groups; name records carry the target name. Payloads the
/// resolver never reads are carried without their data.
#[derive(Clone, Debug)]
pub enum Rdata {
    A([u8; 4]),
    AAAA([u16; 8]),
    CNAME(String),
    NS(String),
    PTR(String),
    TXT,
    SPF,
    MX,
    SOA,
    SRV,
    OPT,
    ANY,
}

/// A resource record: a name, its class, a time to live in seconds,
/// and the payload.
#[derive(Clone, Debug)]
pub struct DnsRecord {
    pub name: String,
    pub class: QClass,
    pub ttl: u64,
    pub resource: Rdata,
}

/// An EDNS(0) extension record; only the advertised payload size is
/// carried.
#[derive(Clone, Copy, Debug, PartialEq, Eq, Structural)]
pub struct Extension {
    pub payload_size: u16,
}

/// A decoded DNS message: the header flags the resolver reads, the
/// four record sections, and an optional EDNS(0) extension.
#[derive(Clone, Debug)]
pub struct DnsMessage {
    pub qr: QR,
    pub rd: bool,
    pub questions: Vec<DnsQuestion>,
    pub answers: Vec<DnsRecord>,
    pub authoritys: Vec<DnsRecord>,
    pub additionals: Vec<DnsRecord>,
    pub extension: Option<Extension>,
}

impl DnsMessage {
    /// A query with recursion desired, the given questions, and an
    /// EDNS(0) extension advertising the given payload size.
    pub fn new_query(questions: Vec<DnsQuestion>, payload_size: u16) -> (r: DnsMessage)
        ensures
            r.qr == QR::Query,
            r.rd == true,
            r.questions == questions,
            r.answers@ == Seq::<DnsRecord>::empty(),
            r.authoritys@ == Seq::<DnsRecord>::empty(),
            r.additionals@ == Seq::<DnsRecord>::empty(),
            r.extension == Some(Extension { payload_size }),
    {
        DnsMessage {
            qr: QR::Query,
            rd: true,
            questions,
            answers: Vec::new(),
            authoritys: Vec::new(),
            additionals: Vec::new(),
            extension: Some(Extension { payload_size }),
        }
    }
}

/// The mathematical value of a question: its name as a character
/// sequence together with type and class.
pub ghost struct DnsQuestionV {
    pub name: Seq<char>,
    pub qtype: QType,
    pub qclass: QClass,
}

impl DeepView for DnsQuestion {
    type V = DnsQuestionV;

    open spec fn deep_view(&self) -> DnsQuestionV {
        DnsQuestionV { name: self.name@, qtype: self.qtype, qclass: self.qclass }
    }
}

/// The mathematical value of a record payload.
pub ghost enum RdataV {
    A([u8; 4]),
    AAAA([u16; 8]),
    CNAME(Seq<char>),
    NS(Seq<char>),
    PTR(Seq<char>),
    TXT,
    SPF,
    MX,
    SOA,
    SRV,
    OPT,
    ANY,
}

impl DeepView for Rdata {
    type V = RdataV;

    open spec fn deep_view(&self) -> RdataV {
        match self {
            Rdata::A(a) => RdataV::A(*a),
            Rdata::AAAA(a) => RdataV::AAAA(*a),
            Rdata::CNAME(n) => RdataV::CNAME(n@),
            Rdata::NS(n) => RdataV::NS(n@),
            Rdata::PTR(n) => RdataV::PTR(n@),
            Rdata::TXT => RdataV::TXT,
            Rdata::SPF => RdataV::SPF,
            Rdata::MX => RdataV::MX,
            Rdata::SOA => RdataV::SOA,
            Rdata::SRV => RdataV::SRV,
            Rdata::OPT => RdataV::OPT,
            Rdata::ANY => RdataV::ANY,
        }
    }
}

/// The mathematical value of a resource record.
pub ghost struct DnsRecordV {
    pub name: Seq<char>,
    pub class: QClass,
    pub ttl: u64,
    pub resource: RdataV,
}

impl DeepView for DnsRecord {
    type V = DnsRecordV;

    open spec fn deep_view(&self) -> DnsRecordV {
        DnsRecordV {
            name: self.name@,
            class: self.class,
            ttl: self.ttl,
            resource: self.resource.deep_view(),
        }
    }
}

/// The mathematical value of a message.
pub ghost struct DnsMessageV {
    pub qr: QR,
    pub rd: bool,
    pub questions: Seq<DnsQuestionV>,
    pub answers: Seq<DnsRecordV>,
    pub authoritys: Seq<DnsRecordV>,
    pub additionals: Seq<DnsRecordV>,
    pub extension: Option<Extension>,
}

impl DeepView for DnsMessage {
    type V = DnsMessageV;

    open spec fn deep_view(&self) -> DnsMessageV {
        DnsMessageV {
            qr: self.qr,
            rd: self.rd,
            questions: self.questions.deep_view(),
            answers: self.answers.deep_view(),
            authoritys: self.authoritys.deep_view(),
            additionals: self.additionals.deep_view(),
            extension: self.extension,
        }
    }
}

impl Rdata {
    /// A copy of this payload, equal to it in value.
    pub fn duplicate(&self) -> (r: Rdata)
        ensures
            r.deep_view() == self.deep_view(),
    {
        match self {
            Rdata::A(a) => Rdata::A(*a),
            Rdata::AAAA(a) => Rdata::AAAA(*a),
            Rdata::CNAME(n) => Rdata::CNAME(n.clone()),
            Rdata::NS(n) => Rdata::NS(n.clone()),
            Rdata::PTR(n) => Rdata::PTR(n.clone()),
            Rdata::TXT => Rdata::TXT,
            Rdata::SPF => Rdata::SPF,
            Rdata::MX => Rdata::MX,
            Rdata::SOA => Rdata::SOA,
            Rdata::SRV => Rdata::SRV,
            Rdata::OPT => Rdata::OPT,
            Rdata::ANY => Rdata::ANY,
        }
    }
}

impl DnsRecord {
    /// A copy of this record, equal to it in value.
    pub fn duplicate(&self) -> (r: DnsRecord)
        ensures
            r.deep_view() == self.deep_view(),
    {
        DnsRecord {
            name: self.name.clone(),
            class: self.class,
            ttl: self.ttl,
            resource: self.resource.duplicate(),
        }
    }
}

impl DnsQuestion {
    /// A copy of this question, equal to it in value.
    pub fn duplicate(&self) -> (r: DnsQuestion)
        ensures
            r.deep_view() == self.deep_view(),
    {
        DnsQuestion { name: self.name.clone(), qtype: self.qtype, qclass: self.qclass }
    }
}

/// A copy of a record section, equal to it in value.
pub fn duplicate_records(v: &Vec<DnsRecord>) -> (r: Vec<DnsRecord>)
    ensures
        r.deep_view() == v.deep_view(),
{
    let mut r: Vec<DnsRecord> = Vec::new();
    let mut i: usize = 0;
    while i < v.len()
        invariant
            0 <= i <= v@.len(),
            r@.len() == i,
            forall|j: int| 0 <= j < i as int ==> #[trigger] r@[j].deep_view() == v@[j].deep_view(),
        decreases v@.len() - i,
    {
        r.push(v[i].duplicate());
        i = i + 1;
    }
    proof {
        assert(r.deep_view() =~= v.deep_view());
    }
    r
}

/// A copy of a question section, equal to it in value.
pub fn duplicate_questions(v: &Vec<DnsQuestion>) -> (r: Vec<DnsQuestion>)
    ensures
        r.deep_view() == v.deep_view(),
{
    let mut r: Vec<DnsQuestion> = Vec::new();
    let mut i: usize = 0;
    while i < v.len()
        invariant
            0 <= i <= v@.len(),
            r@.len() == i,
            forall|j: int| 0 <= j < i as int ==> #[trigger] r@[j].deep_view() == v@[j].deep_view(),
        decreases v@.len() - i,
    {
        r.push(v[i].duplicate());
        i = i + 1;
    }
    proof {
        assert(r.deep_view() =~= v.deep_view());
    }
    r
}

impl DnsMessage {
    /// A copy of this message, equal to it in value.
    pub fn duplicate(&self) -> (r: DnsMessage)
        ensures
            r.deep_view() == self.deep_view(),
    {
        DnsMessage {
            qr: self.qr,
            rd: self.rd,
            questions: duplicate_questions(&self.questions),
            answers: duplicate_records(&self.answers),
            authoritys: duplicate_records(&self.authoritys),
            additionals: duplicate_records(&self.additionals),
            extension: self.extension,
        }
    }
}

/// True iff no character of `s` is a space.
pub open spec fn spec_no_space(s: Seq<char>) -> bool {
    forall|i: int| 0 <= i < s.len() ==> s[i] != ' '
}

/// The canonical name of a record type is non-empty and contains no
/// space.
pub proof fn lemma_qtype_text_no_space(t: QType)
    ensures
        spec_no_space(t.spec_text()),
        t.spec_text().len() > 0,
{
    reveal_strlit("Reserved");
    reveal_strlit("A");
    reveal_strlit("NS");
    reveal_strlit("CNAME");
    reveal_strlit("SOA");
    reveal_strlit("PTR");
    reveal_strlit("MX");
    reveal_strlit("TXT");
    reveal_strlit("AAAA");
    reveal_strlit("SRV");
    reveal_strlit("OPT");
    reveal_strlit("SPF");
    reveal_strlit("ANY");
}

/// Distinct record types have distinct canonical names.
#[verifier::rlimit(50)]
pub proof fn lemma_qtype_text_injective(t1: QType, t2: QType)
    requires
        t1.spec_text() == t2.spec_text(),
    ensures
        t1 == t2,
{
    reveal_strlit("Reserved");
    reveal_strlit("A");
    reveal_strlit("NS");
    reveal_strlit("CNAME");
    reveal_strlit("SOA");
    reveal_strlit("PTR");
    reveal_strlit("MX");
    reveal_strlit("TXT");
    reveal_strlit("AAAA");
    reveal_strlit("SRV");
    reveal_strlit("OPT");
    reveal_strlit("SPF");
    reveal_strlit("ANY");
    // Make length and leading-character terms of every name
    // available: names of different lengths are told apart by
    // length, the rest by their characters.
    assert("Reserved"@.len() == 8);
    assert("A"@.len() == 1);
    assert("NS"@.len() == 2);
    assert("CNAME"@.len() == 5);
    assert("SOA"@.len() == 3);
    assert("PTR"@.len() == 3);
    assert("MX"@.len() == 2);
    assert("TXT"@.len() == 3);
    assert("AAAA"@.len() == 4);
    assert("SRV"@.len() == 3);
    assert("OPT"@.len() == 3);
    assert("SPF"@.len() == 3);
    assert("ANY"@.len() == 3);
    assert("NS"@[0] == 'N');
    assert("MX"@[0] == 'M');
    assert("SOA"@[0] == 'S');
    assert("PTR"@[0] == 'P');
    assert("TXT"@[0] == 'T');
    assert("SRV"@[0] == 'S');
    assert("OPT"@[0] == 'O');
    assert("SPF"@[0] == 'S');
    assert("ANY"@[0] == 'A');
    assert("SOA"@[1] == 'O');
    assert("SRV"@[1] == 'R');
    assert("SPF"@[1] == 'P');
    assert(t2 is Reserved || t2 is A || t2 is NS || t2 is CNAME || t2 is SOA || t2 is PTR
        || t2 is MX || t2 is TXT || t2 is AAAA || t2 is SRV || t2 is OPT || t2 is SPF
        || t2 is ANY);
    match t1 {
        QType::Reserved => assert(t2 is Reserved),
        QType::A => assert(t2 is A),
        QType::NS => assert(t2 is NS),
        QType::CNAME => assert(t2 is CNAME),
        QType::SOA => assert(t2 is SOA),
        QType::PTR => assert(t2 is PTR),
        QType::MX => assert(t2 is MX),
        QType::TXT => assert(t2 is TXT),
        QType::AAAA => assert(t2 is AAAA),
        QType::SRV => assert(t2 is SRV),
        QType::OPT => assert(t2 is OPT),
        QType::SPF => assert(t2 is SPF),
        QType::ANY => assert(t2 is ANY),
    }
}

/// The canonical name of a record class is non-empty and contains
/// no space.
pub proof fn lemma_qclass_text_no_space(c: QClass)
    ensures
        spec_no_space(c.spec_text()),
        c.spec_text().len() > 0,
{
    reveal_strlit("Reserved");
    reveal_strlit("IN");
    reveal_strlit("CS");
    reveal_strlit("CH");
    reveal_strlit("HS");
    reveal_strlit("None");
    reveal_strlit("*");
}

/// Distinct record classes have distinct canonical names.
#[verifier::rlimit(50)]
pub proof fn lemma_qclass_text_injective(c1: QClass, c2: QClass)
    requires
        c1.spec_text() == c2.spec_text(),
    ensures
        c1 == c2,
{
    reveal_strlit("Reserved");
    reveal_strlit("IN");
    reveal_strlit("CS");
    reveal_strlit("CH");
    reveal_strlit("HS");
    reveal_strlit("None");
    reveal_strlit("*");
    // Make length and leading-character terms of every name
    // available: names of different lengths are told apart by
    // length, the rest by their characters.
    assert("Reserved"@.len() == 8);
    assert("IN"@.len() == 2);
    assert("CS"@.len() == 2);
    assert("CH"@.len() == 2);
    assert("HS"@.len() == 2);
    assert("None"@.len() == 4);
    assert("*"@.len() == 1);
    assert("IN"@[0] == 'I');
    assert("CS"@[0] == 'C');
    assert("CH"@[0] == 'C');
    assert("HS"@[0] == 'H');
    assert("CS"@[1] == 'S');
    assert("CH"@[1] == 'H');
    assert(c2 is Reserved || c2 is Internet || c2 is CsNet || c2 is Chaos || c2 is Hesiod
        || c2 is NoClass || c2 is Any);
    match c1 {
        QClass::Reserved => assert(c2 is Reserved),
        QClass::Internet => assert(c2 is Internet),
        QClass::CsNet => assert(c2 is CsNet),
        QClass::Chaos => assert(c2 is Chaos),
        QClass::Hesiod => assert(c2 is Hesiod),
        QClass::NoClass => assert(c2 is NoClass),
        QClass::Any => assert(c2 is Any),
    }
}

/// The decimal digit character for `d`, which must be below ten.
pub open spec fn spec_dec_digit(d: u8) -> char {
    if d == 0 { '0' }
    else if d == 1 { '1' }
    else if d == 2 { '2' }
    else if d == 3 { '3' }
    else if d == 4 { '4' }
    else if d == 5 { '5' }
    else if d == 6 { '6' }
    else if d == 7 { '7' }
    else if d == 8 { '8' }
    else { '9' }
}

/// The shortest decimal rendering of an eight-bit value.
pub open spec fn spec_u8_dec(x: u8) -> Seq<char> {
    if x < 10 {
        seq![spec_dec_digit(x)]
    } else if x < 100 {
        seq![spec_dec_digit(x / 10), spec_dec_digit(x % 10)]
    } else {
        seq![spec_dec_digit(x / 100), spec_dec_digit((x / 10) % 10), spec_dec_digit(x % 10)]
    }
}

/// The decimal digit for `d` as a one-character string slice.
fn dec_digit_str(d: u8) -> (r: &'static str)
    requires
        d < 10,
    ensures
        r@ == seq![spec_dec_digit(d)],
{
    proof {
        reveal_strlit("0");
        reveal_strlit("1");
        reveal_strlit("2");
        reveal_strlit("3");
        reveal_strlit("4");
        reveal_strlit("5");
        reveal_strlit("6");
        reveal_strlit("7");
        reveal_strlit("8");
        reveal_strlit("9");
    }
    if d == 0 { "0" }
    else if d == 1 { "1" }
    else if d == 2 { "2" }
    else if d == 3 { "3" }
    else if d == 4 { "4" }
    else if d == 5 { "5" }
    else if d == 6 { "6" }
    else if d == 7 { "7" }
    else if d == 8 { "8" }
    else { "9" }
}

/// The shortest decimal rendering of an eight-bit value.
pub fn u8_dec(x: u8) -> (r: String)
    ensures
        r@ == spec_u8_dec(x),
{
    if x < 10 {
        String::from_str(dec_digit_str(x))
    } else if x < 100 {
        let mut s = String::from_str(dec_digit_str(x / 10));
        s.append(dec_digit_str(x % 10));
        assert(s@ =~= spec_u8_dec(x));
        s
    } else {
        let mut s = String::from_str(dec_digit_str(x / 100));
        s.append(dec_digit_str((x / 10) % 10));
        s.append(dec_digit_str(x % 10));
        assert(s@ =~= spec_u8_dec(x));
        s
    }
}

/// The dotted-decimal rendering of an IPv4 address.
pub open spec fn spec_ipv4_text(o: [u8; 4]) -> Seq<char> {
    spec_u8_dec(o[0]) + seq!['.'] + spec_u8_dec(o[1]) + seq!['.'] + spec_u8_dec(o[2]) + seq!['.']
        + spec_u8_dec(o[3])
}

/// The dotted-decimal rendering of an IPv4 address.
pub fn ipv4_text(o: &[u8; 4]) -> (r: String)
    ensures
        r@ == spec_ipv4_text(*o),
{
    proof {
        reveal_strlit(".");
    }
    let mut s = u8_dec(o[0]);
    s.append(".");
    let p1 = u8_dec(o[1]);
    s.append(p1.as_str());
    s.append(".");
    let p2 = u8_dec(o[2]);
    s.append(p2.as_str());
    s.append(".");
    let p3 = u8_dec(o[3]);
    s.append(p3.as_str());
    assert(s@ =~= spec_ipv4_text(*o));
    s
}

/// The hexadecimal digit character for `d`, which must be below
/// sixteen.
pub open spec fn spec_hex_digit(d: u16) -> char {
    if d < 10 {
        spec_dec_digit(d as u8)
    } else if d == 10 { 'a' }
    else if d == 11 { 'b' }
    else if d == 12 { 'c' }
    else if d == 13 { 'd' }
    else if d == 14 { 'e' }
    else { 'f' }
}

/// The shortest lowercase hexadecimal rendering of a sixteen-bit
/// group.
pub open spec fn spec_u16_hex(x: u16) -> Seq<char> {
    if x < 0x10 {
        seq![spec_hex_digit(x)]
    } else if x < 0x100 {
        seq![spec_hex_digit(x / 0x10), spec_hex_digit(x % 0x10)]
    } else if x < 0x1000 {
        seq![
            spec_hex_digit(x / 0x100),
            spec_hex_digit((x / 0x10) % 0x10),
            spec_hex_digit(x % 0x10),
        ]
    } else {
        seq![
            spec_hex_digit(x / 0x1000),
            spec_hex_digit((x / 0x100) % 0x10),
            spec_hex_digit((x / 0x10) % 0x10),
            spec_hex_digit(x % 0x10),
        ]
    }
}

/// The hexadecimal digit for `d` as a one-character string slice.
fn hex_digit_str(d: u16) -> (r: &'static str)
    requires
        d < 16,
    ensures
        r@ == seq![spec_hex_digit(d)],
{
    proof {
        reveal_strlit("a");
        reveal_strlit("b");
        reveal_strlit("c");
        reveal_strlit("d");
        reveal_strlit("e");
        reveal_strlit("f");
    }
    if d < 10 {
        dec_digit_str(d as u8)
    } else if d == 10 { "a" }
    else if d == 11 { "b" }
    else if d == 12 { "c" }
    else if d == 13 { "d" }
    else if d == 14 { "e" }
    else { "f" }
}

/// The shortest lowercase hexadecimal rendering of a sixteen-bit
/// group.
pub fn u16_hex(x: u16) -> (r: String)
    ensures
        r@ == spec_u16_hex(x),
{
    if x < 0x10 {
        String::from_str(hex_digit_str(x))
    } else if x < 0x100 {
        let mut s = String::from_str(hex_digit_str(x / 0x10));
        s.append(hex_digit_str(x % 0x10));
        assert(s@ =~= spec_u16_hex(x));
        s
    } else if x < 0x1000 {
        let mut s = String::from_str(hex_digit_str(x / 0x100));
        s.append(hex_digit_str((x / 0x10) % 0x10));
        s.append(hex_digit_str(x % 0x10));
        assert(s@ =~= spec_u16_hex(x));
        s
    } else {
        let mut s = String::from_str(hex_digit_str(x / 0x1000));
        s.append(hex_digit_str((x / 0x100) % 0x10));
        s.append(hex_digit_str((x / 0x10) % 0x10));
        s.append(hex_digit_str(x % 0x10));
        assert(s@ =~= spec_u16_hex(x));
        s
    }
}

/// The colon-separated hexadecimal rendering of an IPv6 address:
/// each group in shortest lowercase hexadecimal, no zero-run
/// compression.
pub open spec fn spec_ipv6_text(g: [u16; 8]) -> Seq<char> {
    spec_u16_hex(g[0]) + seq![':'] + spec_u16_hex(g[1]) + seq![':'] + spec_u16_hex(g[2])
        + seq![':'] + spec_u16_hex(g[3]) + seq![':'] + spec_u16_hex(g[4]) + seq![':']
        + spec_u16_hex(g[5]) + seq![':'] + spec_u16_hex(g[6]) + seq![':'] + spec_u16_hex(g[7])
}

/// The colon-separated hexadecimal rendering of an IPv6 address.
pub fn ipv6_text(g: &[u16; 8]) -> (r: String)
    ensures
        r@ == spec_ipv6_text(*g),
{
    proof {
        reveal_strlit(":");
    }
    let mut s = u16_hex(g[0]);
    let mut i: usize = 1;
    while i < 8
        invariant
            1 <= i <= 8,
            s@ == spec_ipv6_prefix(*g, i as int),
        decreases 8 - i,
    {
        proof {
            reveal_strlit(":");
        }
        s.append(":");
        let p = u16_hex(g[i]);
        s.append(p.as_str());
        assert(s@ =~= spec_ipv6_prefix(*g, (i + 1) as int));
        i = i + 1;
    }
    proof {
        reveal_with_fuel(spec_ipv6_prefix, 9);
        assert(s@ =~= spec_ipv6_text(*g));
    }
    s
}

/// The rendering of the first `n` groups of an IPv6 address, used to
/// state the loop invariant of `ipv6_text`.
spec fn spec_ipv6_prefix(g: [u16; 8], n: int) -> Seq<char>
    decreases n,
{
    if n <= 1 {
        spec_u16_hex(g[0])
    } else {
        spec_ipv6_prefix(g, n - 1) + seq![':'] + spec_u16_hex(g[n - 1])
    }
}

} // verus!
