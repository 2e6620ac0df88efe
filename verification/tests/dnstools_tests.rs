//! Tests of the pure message inspectors: answer presence, section
//! access, the question fingerprint, and TTL extraction.

use dash::dns::{DnsMessage, DnsQuestion, DnsRecord, Extension, QClass, QR, QType, Rdata};
use dash::dnserror::Rcode;
use dash::dnstools::{
    get_answer, get_authoritys, get_glue, has_answer, parse_answer_a, parse_ttl_from_answer,
    string_of_question,
};

fn question(name: &str, qtype: QType, qclass: QClass) -> DnsQuestion {
    DnsQuestion { name: name.to_string(), qtype, qclass }
}

fn record(name: &str, ttl: u64, resource: Rdata) -> DnsRecord {
    DnsRecord { name: name.to_string(), class: QClass::Internet, ttl, resource }
}

fn message(qr: QR, rd: bool, questions: Vec<DnsQuestion>) -> DnsMessage {
    DnsMessage {
        qr,
        rd,
        questions,
        answers: Vec::new(),
        authoritys: Vec::new(),
        additionals: Vec::new(),
        extension: None,
    }
}

#[test]
fn has_answer_reflects_answer_section() {
    let mut m = message(QR::Response, true, Vec::new());
    assert!(!has_answer(&m));
    assert!(get_answer(&m).is_none());
    m.answers.push(record("example.com.", 60, Rdata::A([93, 184, 216, 34])));
    assert!(has_answer(&m));
    assert_eq!(get_answer(&m).unwrap().len(), 1);
}

#[test]
fn glue_and_authority_sections() {
    let mut m = message(QR::Response, true, Vec::new());
    assert!(get_glue(&m).is_none());
    assert!(get_authoritys(&m).is_none());
    m.additionals.push(record("a.gtld-servers.net.", 60, Rdata::A([192, 0, 2, 1])));
    m.authoritys.push(record("com.", 60, Rdata::NS("a.gtld-servers.net.".to_string())));
    assert_eq!(get_glue(&m).unwrap().len(), 1);
    assert_eq!(get_authoritys(&m).unwrap().len(), 1);
}

#[test]
fn parse_answer_a_returns_first_a_record() {
    let mut m = message(QR::Response, true, Vec::new());
    m.answers.push(record("example.com.", 60, Rdata::A([93, 184, 216, 34])));
    let (name, addr) = parse_answer_a(&m).unwrap();
    assert_eq!(name, "example.com.");
    assert_eq!(addr, [93, 184, 216, 34]);
}

#[test]
fn parse_answer_a_without_answer_is_servfail() {
    let m = message(QR::Response, true, Vec::new());
    let e = parse_answer_a(&m).unwrap_err();
    assert_eq!(e.code, Rcode::ServFail);
}

#[test]
fn parse_answer_a_with_wrong_type_is_nxdomain() {
    let mut m = message(QR::Response, true, Vec::new());
    m.answers.push(record("example.com.", 60, Rdata::CNAME("other.example.".to_string())));
    let e = parse_answer_a(&m).unwrap_err();
    assert_eq!(e.code, Rcode::NXDomain);
}

#[test]
fn fingerprint_has_canonical_form() {
    let m = message(
        QR::Query,
        true,
        vec![question("example.com.", QType::A, QClass::Internet)],
    );
    assert_eq!(string_of_question(&m).unwrap(), "example.com. A IN");
}

#[test]
fn fingerprint_ignores_other_fields() {
    let q = question("example.com.", QType::AAAA, QClass::Internet);
    let m1 = message(QR::Query, true, vec![q.clone()]);
    let mut m2 = message(QR::Response, false, vec![q]);
    m2.answers.push(record("example.com.", 60, Rdata::A([1, 2, 3, 4])));
    m2.extension = Some(Extension { payload_size: 4096 });
    assert_eq!(
        string_of_question(&m1).unwrap(),
        string_of_question(&m2).unwrap()
    );
}

#[test]
fn fingerprint_distinguishes_name_type_and_class() {
    let base = message(
        QR::Query,
        true,
        vec![question("example.com.", QType::A, QClass::Internet)],
    );
    let other_name = message(
        QR::Query,
        true,
        vec![question("example.org.", QType::A, QClass::Internet)],
    );
    let other_type = message(
        QR::Query,
        true,
        vec![question("example.com.", QType::AAAA, QClass::Internet)],
    );
    let other_class = message(
        QR::Query,
        true,
        vec![question("example.com.", QType::A, QClass::Chaos)],
    );
    let fp = string_of_question(&base).unwrap();
    assert_ne!(fp, string_of_question(&other_name).unwrap());
    assert_ne!(fp, string_of_question(&other_type).unwrap());
    assert_ne!(fp, string_of_question(&other_class).unwrap());
}

#[test]
fn ttl_of_first_answer() {
    let mut m = message(QR::Response, true, Vec::new());
    m.answers.push(record("example.com.", 300, Rdata::A([1, 2, 3, 4])));
    m.answers.push(record("example.com.", 60, Rdata::A([5, 6, 7, 8])));
    assert_eq!(parse_ttl_from_answer(&m).unwrap(), 300);
}
