//! Tests of the per-query job's pure parts: the client reply
//! projection and the cache expiry arithmetic, together with the
//! error rendering they log with.

use dash::dashjob::{cache_expiry, project_answer};
use dash::dns::{DnsMessage, DnsRecord, QClass, QR, Rdata};
use dash::dnserror::{DnsError, Rcode};

fn response(resource: Rdata) -> DnsMessage {
    DnsMessage {
        qr: QR::Response,
        rd: true,
        questions: Vec::new(),
        answers: vec![DnsRecord {
            name: "example.com.".to_string(),
            class: QClass::Internet,
            ttl: 60,
            resource,
        }],
        authoritys: Vec::new(),
        additionals: Vec::new(),
        extension: None,
    }
}

#[test]
fn a_record_projects_to_dotted_decimal() {
    let m = response(Rdata::A([93, 184, 216, 34]));
    assert_eq!(project_answer(&m).unwrap(), "93.184.216.34");
    let zeros = response(Rdata::A([0, 0, 0, 0]));
    assert_eq!(project_answer(&zeros).unwrap(), "0.0.0.0");
    let wide = response(Rdata::A([255, 10, 7, 100]));
    assert_eq!(project_answer(&wide).unwrap(), "255.10.7.100");
}

#[test]
fn aaaa_record_projects_to_colon_hex() {
    let m = response(Rdata::AAAA([0x2001, 0xdb8, 0, 0, 0, 0, 0x1f, 1]));
    assert_eq!(project_answer(&m).unwrap(), "2001:db8:0:0:0:0:1f:1");
}

#[test]
fn name_records_project_to_their_target() {
    let cname = response(Rdata::CNAME("other.example.".to_string()));
    assert_eq!(project_answer(&cname).unwrap(), "other.example.");
    let ns = response(Rdata::NS("ns.example.".to_string()));
    assert_eq!(project_answer(&ns).unwrap(), "ns.example.");
    let ptr = response(Rdata::PTR("host.example.".to_string()));
    assert_eq!(project_answer(&ptr).unwrap(), "host.example.");
}

#[test]
fn other_records_project_to_the_placeholder() {
    let m = response(Rdata::TXT);
    assert_eq!(
        project_answer(&m).unwrap(),
        "Unhandled answer record resource type"
    );
}

#[test]
fn expiry_is_now_plus_ttl() {
    assert_eq!(cache_expiry(1000, 300), 1300);
    assert_eq!(cache_expiry(0, 0), 0);
}

#[test]
fn dns_error_renders_its_code() {
    let e = DnsError::new(Rcode::ServFail).with_info("upstream timed out".to_string());
    assert_eq!(e.text(), "DNS Error. Code ServFail");
    assert_eq!(e.info, "upstream timed out");
    assert_eq!(DnsError::new(Rcode::FormErr).text(), "DNS Error. Code FormErr");
}
