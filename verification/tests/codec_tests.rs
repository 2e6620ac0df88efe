//! Tests of the wire codec boundary: encoding queries, decoding
//! datagrams, and the question-code mapping. Decoded messages are
//! checked both through the library's own round trip and against
//! messages encoded by the codec crate directly.

use dash::codec::{decode_message, encode_query, qclass_of_code, qtype_of_code};
use dash::dns::{DnsMessage, DnsQuestion, QClass, QR, QType, Rdata};

fn query(name: &str) -> DnsMessage {
    DnsMessage {
        qr: QR::Query,
        rd: true,
        questions: vec![DnsQuestion {
            name: name.to_string(),
            qtype: QType::A,
            qclass: QClass::Internet,
        }],
        answers: Vec::new(),
        authoritys: Vec::new(),
        additionals: Vec::new(),
        extension: Some(dash::dns::Extension { payload_size: 4096 }),
    }
}

#[test]
fn encoded_query_round_trips_through_decode() {
    let bytes = encode_query(&query("example.com")).unwrap();
    let m = decode_message(&bytes).unwrap();
    assert_eq!(m.qr, QR::Query);
    assert!(m.rd);
    assert_eq!(m.questions.len(), 1);
    assert_eq!(m.questions[0].name, "example.com.");
    assert_eq!(m.questions[0].qtype, QType::A);
    assert_eq!(m.questions[0].qclass, QClass::Internet);
    assert_eq!(m.extension.unwrap().payload_size, 4096);
    assert!(m.answers.is_empty());
}

#[test]
fn question_type_and_class_survive_the_round_trip() {
    let mut q = query("example.com");
    q.questions[0].qtype = QType::AAAA;
    q.questions[0].qclass = QClass::Chaos;
    let bytes = encode_query(&q).unwrap();
    let m = decode_message(&bytes).unwrap();
    assert_eq!(m.questions[0].qtype, QType::AAAA);
    assert_eq!(m.questions[0].qclass, QClass::Chaos);
}

#[test]
fn decoding_a_response_with_answers() {
    let mut raw = rustdns::Message::default();
    raw.try_add_question("example.com", rustdns::Type::A, rustdns::Class::Internet)
        .unwrap();
    raw.qr = rustdns::QR::Response;
    raw.answers.push(rustdns::Record::new(
        "example.com.",
        rustdns::Class::Internet,
        std::time::Duration::from_secs(300),
        rustdns::Resource::A("93.184.216.34".parse().unwrap()),
    ));
    raw.authoritys.push(rustdns::Record::new(
        "com.",
        rustdns::Class::Internet,
        std::time::Duration::from_secs(60),
        rustdns::Resource::NS("a.gtld-servers.net.".to_string()),
    ));
    let bytes = raw.to_vec().unwrap();
    let m = decode_message(&bytes).unwrap();
    assert_eq!(m.qr, QR::Response);
    assert_eq!(m.answers.len(), 1);
    assert_eq!(m.answers[0].name, "example.com.");
    assert_eq!(m.answers[0].ttl, 300);
    match m.answers[0].resource {
        Rdata::A(a) => assert_eq!(a, [93, 184, 216, 34]),
        _ => panic!("expected an A record"),
    }
    assert_eq!(m.authoritys.len(), 1);
    match &m.authoritys[0].resource {
        Rdata::NS(n) => assert_eq!(n, "a.gtld-servers.net."),
        _ => panic!("expected an NS record"),
    }
}

#[test]
fn garbage_fails_to_decode() {
    assert!(decode_message(&[1, 2, 3]).is_err());
}

#[test]
fn type_codes_map_to_types() {
    assert_eq!(qtype_of_code(1), Some(QType::A));
    assert_eq!(qtype_of_code(2), Some(QType::NS));
    assert_eq!(qtype_of_code(5), Some(QType::CNAME));
    assert_eq!(qtype_of_code(12), Some(QType::PTR));
    assert_eq!(qtype_of_code(28), Some(QType::AAAA));
    assert_eq!(qtype_of_code(7), None);
}

#[test]
fn class_codes_map_to_classes() {
    assert_eq!(qclass_of_code(1), Some(QClass::Internet));
    assert_eq!(qclass_of_code(3), Some(QClass::Chaos));
    assert_eq!(qclass_of_code(254), Some(QClass::NoClass));
    assert_eq!(qclass_of_code(9), None);
}
