use google_dns_rs::api::{Dns, DoH};
use google_dns_rs::error::Error;

const SAMPLE_BODY: &str = r#"{
  "Status": 0,
  "TC": false,
  "RD": true,
  "RA": true,
  "AD": false,
  "CD": false,
  "Question": [
    { "name": "google.com.", "type": 1 }
  ],
  "Answer": [
    { "name": "google.com.", "type": 1, "TTL": 300, "data": "216.58.208.110" }
  ],
  "Comment": "Response from 2001:4860:4802:32::a."
}"#;

#[test]
fn url_with_only_name_has_one_parameter() {
    let url = DoH::new("google.com".to_string()).build_url();
    assert_eq!(url, "https://dns.google/resolve?name=google.com");
}

#[test]
fn url_lists_each_present_field_once_in_fixed_order() {
    let url = DoH::new("example.com.".to_string())
        .set_cd(true)
        .set_ct("application/x-javascript".to_string())
        .set_edns_client_subnet("1.2.3.4/24".to_string())
        .set_type(28)
        .build_url();
    assert_eq!(
        url,
        "https://dns.google/resolve?name=example.com.&cd=true&ct=application/x-javascript&edns_client_subnet=1.2.3.4/24&type=28"
    );
}

#[test]
fn url_omits_absent_fields() {
    let url = DoH::new("example.com.".to_string()).set_type(2).build_url();
    assert_eq!(url, "https://dns.google/resolve?name=example.com.&type=2");

    let url = DoH::new("example.com.".to_string()).set_cd(false).build_url();
    assert_eq!(url, "https://dns.google/resolve?name=example.com.&cd=false");
}

#[test]
fn url_never_renders_the_dnssec_ok_flag() {
    let url = DoH::new("example.com.".to_string()).set_do(true).build_url();
    assert_eq!(url, "https://dns.google/resolve?name=example.com.");
}

#[test]
fn url_respects_a_custom_base() {
    let url = DoH::new("example.com.".to_string())
        .set_base_url("http://127.0.0.1:18443")
        .build_url();
    assert_eq!(url, "http://127.0.0.1:18443/resolve?name=example.com.");
}

#[test]
fn url_renders_type_bounds_in_decimal() {
    let url = DoH::new("a.".to_string()).set_type(0).build_url();
    assert_eq!(url, "https://dns.google/resolve?name=a.&type=0");
    let url = DoH::new("a.".to_string()).set_type(4294967295).build_url();
    assert_eq!(url, "https://dns.google/resolve?name=a.&type=4294967295");
}

#[test]
fn new_leaves_every_option_absent() {
    let d = DoH::new("google.com".to_string());
    assert_eq!(d.base_url, "https://dns.google");
    assert_eq!(d.name, "google.com");
    assert!(d.record_type.is_none());
    assert!(d.cd.is_none());
    assert!(d.ct.is_none());
    assert!(d.dnssec_ok.is_none());
    assert!(d.edns_client_subnet.is_none());
}

#[test]
fn setters_populate_exactly_their_field() {
    let d = DoH::new("google.com".to_string()).set_cd(true).set_do(false);
    assert_eq!(d.cd, Some(true));
    assert_eq!(d.dnssec_ok, Some(false));
    assert!(d.record_type.is_none());
    assert!(d.ct.is_none());
    assert!(d.edns_client_subnet.is_none());
    assert_eq!(d.name, "google.com");
}

#[test]
fn decodes_a_well_formed_body() {
    let result = Dns::decode(SAMPLE_BODY).unwrap();

    assert_eq!(result.status, 0);
    assert_eq!(result.tc, false);
    assert_eq!(result.ad, false);
    assert_eq!(result.cd, false);
    assert_eq!(
        result.comment,
        Some("Response from 2001:4860:4802:32::a.".to_string())
    );

    let answers = result.answer.unwrap();
    assert_eq!(answers.len(), 1);
    assert_eq!(answers[0].record_type, 1);
    assert_eq!(answers[0].ttl, 300);
    assert_eq!(answers[0].data, "216.58.208.110".to_string());

    assert_eq!(result.question.len(), 1);
    assert_eq!(result.question[0].record_type, 1);
    assert_eq!(result.question[0].name, "google.com.");
}

#[test]
fn a_body_missing_status_fails_with_a_decode_error() {
    let body = r#"{
      "TC": false, "AD": false, "CD": false,
      "Question": [ { "name": "google.com.", "type": 1 } ]
    }"#;
    match Dns::decode(body) {
        Err(Error::IO(_)) => {}
        Err(Error::Http(_)) => panic!("a decode failure must not be a transport failure"),
        Ok(_) => panic!("a body without Status must not decode"),
    }
}

#[test]
fn a_mistyped_field_fails_with_a_decode_error() {
    let body = r#"{
      "Status": "0", "TC": false, "AD": false, "CD": false,
      "Question": [ { "name": "google.com.", "type": 1 } ]
    }"#;
    assert!(matches!(Dns::decode(body), Err(Error::IO(_))));

    let body = r#"{
      "Status": 4294967296, "TC": false, "AD": false, "CD": false,
      "Question": [ { "name": "google.com.", "type": 1 } ]
    }"#;
    assert!(matches!(Dns::decode(body), Err(Error::IO(_))));
}

#[test]
fn a_body_that_is_no_json_fails_with_a_decode_error() {
    match Dns::decode("not a JSON document") {
        Err(e @ Error::IO(_)) => {
            assert!(!e.message().is_empty());
        }
        _ => panic!("a malformed body must fail with a decode error"),
    }
}

#[test]
fn an_omitted_answer_decodes_as_absent() {
    let body = r#"{
      "Status": 3, "TC": false, "AD": true, "CD": false,
      "Question": [ { "name": "nosuchname.example.", "type": 28 } ],
      "Comment": null
    }"#;
    let result = Dns::decode(body).unwrap();
    assert_eq!(result.status, 3);
    assert_eq!(result.ad, true);
    assert!(result.answer.is_none());
    assert!(result.comment.is_none());
    assert_eq!(result.question[0].name, "nosuchname.example.");
    assert_eq!(result.question[0].record_type, 28);
}

#[test]
fn an_empty_answer_list_stays_distinct_from_an_absent_one() {
    let body = r#"{
      "Status": 0, "TC": false, "AD": false, "CD": false,
      "Question": [ { "name": "google.com.", "type": 1 } ],
      "Answer": []
    }"#;
    let result = Dns::decode(body).unwrap();
    let answers = result.answer.expect("an empty list is present, not absent");
    assert!(answers.is_empty());
}

#[test]
fn decoding_the_same_body_twice_gives_equal_results() {
    let a = Dns::decode(SAMPLE_BODY).unwrap();
    let b = Dns::decode(SAMPLE_BODY).unwrap();
    assert_eq!(a.status, b.status);
    assert_eq!(a.tc, b.tc);
    assert_eq!(a.ad, b.ad);
    assert_eq!(a.cd, b.cd);
    assert_eq!(a.comment, b.comment);
    assert_eq!(a.question.len(), b.question.len());
    for (qa, qb) in a.question.iter().zip(b.question.iter()) {
        assert_eq!(qa.name, qb.name);
        assert_eq!(qa.record_type, qb.record_type);
    }
    let (aa, ab) = (a.answer.unwrap(), b.answer.unwrap());
    assert_eq!(aa.len(), ab.len());
    for (ra, rb) in aa.iter().zip(ab.iter()) {
        assert_eq!(ra.record_type, rb.record_type);
        assert_eq!(ra.ttl, rb.ttl);
        assert_eq!(ra.data, rb.data);
    }
}

#[test]
fn messages_name_the_failure_kind() {
    let transport = Error::Http("connection refused".to_string());
    assert_eq!(transport.message(), "Http Error: connection refused");
    let decode = Error::IO("missing field".to_string());
    assert_eq!(decode.message(), "Decode Error: missing field");
}
