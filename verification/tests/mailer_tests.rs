use rustypub::composer::Method;
use rustypub::envelope::{delivery_outcome, fetch_outcome, OutboundEnvelope, TransportReply};
use rustypub::error::{ConfigurationError, DeliveryError};
use rustypub::headers::{find_header, Header};
use rustypub::mailer::{
    attach_signature, deliver_to_inbox, fetch_object, generate_request_headers, prepare_signature,
    sign_request, user_agent,
};
use rustypub::signer::KeyError;
use rustypub::target::Target;
use std::collections::BTreeMap;

const EARLY: u64 = 784111777;
const EARLY_DATE: &str = "Sun, 06 Nov 1994 08:49:37 GMT";
const EMPTY_DIGEST: &str = "SHA-256=47DEQpj8HBSa+/TImW+5JCeuQeRkm5NMpJWZG3hSuFU=";
const HELLO_DIGEST: &str = "SHA-256=uU0nuZNNPgilLlLX2n2r+sSE7+N6U4DukIj3rOLvzek=";

fn key_pair() -> (String, Vec<u8>) {
    let rsa = openssl::rsa::Rsa::generate(2048).unwrap();
    let private_pem = String::from_utf8(rsa.private_key_to_pem().unwrap()).unwrap();
    let public_pem = rsa.public_key_to_pem().unwrap();
    (private_pem, public_pem)
}

fn signature_verifies(public_pem: &[u8], message: &str, signature: &str) -> bool {
    let raw = match base64::Engine::decode(&base64::engine::general_purpose::STANDARD, signature) {
        Ok(raw) => raw,
        Err(_) => return false,
    };
    let key = openssl::pkey::PKey::public_key_from_pem(public_pem).unwrap();
    let mut verifier =
        openssl::sign::Verifier::new(openssl::hash::MessageDigest::sha256(), &key).unwrap();
    verifier.update(message.as_bytes()).unwrap();
    verifier.verify(&raw).unwrap_or(false)
}

fn now() -> u64 {
    std::time::SystemTime::now().duration_since(std::time::UNIX_EPOCH).unwrap().as_secs()
}

fn names(headers: &Vec<Header>) -> Vec<String> {
    headers.iter().map(|h| h.name.clone()).collect()
}

fn inbox() -> Target {
    Target::parse("https://social.example/users/alice/inbox").unwrap()
}

fn reference_verifies(envelope: &OutboundEnvelope, public_pem: &[u8], key_id: &str) -> bool {
    let mut received: BTreeMap<String, String> = BTreeMap::new();
    for h in &envelope.headers {
        received.insert(h.name.clone(), h.value.clone());
    }
    received.insert("Host".to_string(), envelope.target.host_header().unwrap());
    let config = http_signature_normalization::Config::default().mastodon_compat().require_digest();
    let unverified = config
        .begin_verify(envelope.method.as_name(), &envelope.target.path_and_query(), received)
        .unwrap();
    if unverified.key_id() != key_id {
        return false;
    }
    let announced = matches!(
        unverified.algorithm(),
        Some(http_signature_normalization::verify::Algorithm::Deprecated(
            http_signature_normalization::verify::DeprecatedAlgorithm::RsaSha256
        ))
    );
    announced
        && unverified
            .verify(|signature, signing_string| {
                signature_verifies(public_pem, signing_string, signature)
            })
}

#[test]
fn user_agent_names_product_version_and_domain() {
    assert_eq!(user_agent(Some("feeds.example")), Ok("rustypub/0.1.0; +feeds.example)".to_string()));
}

#[test]
fn user_agent_without_a_domain_fails() {
    assert_eq!(user_agent(None), Err(ConfigurationError::MissingDomainName));
}

#[test]
fn user_agent_with_a_blank_domain_fails() {
    assert_eq!(user_agent(Some("")), Err(ConfigurationError::MissingDomainName));
}

#[test]
fn request_headers_are_user_agent_and_date() {
    let headers = generate_request_headers(&inbox(), Some("feeds.example"), EARLY).unwrap();
    assert_eq!(headers.len(), 2);
    assert_eq!(headers[0].name, "User-Agent");
    assert_eq!(headers[0].value, "rustypub/0.1.0; +feeds.example)");
    assert_eq!(headers[1].name, "Date");
    assert_eq!(headers[1].value, EARLY_DATE);
}

#[test]
fn request_headers_without_a_domain_fail() {
    assert_eq!(
        generate_request_headers(&inbox(), None, EARLY).err(),
        Some(ConfigurationError::MissingDomainName)
    );
}

#[test]
fn prepared_delivery_has_the_fixture_signing_string() {
    let request = OutboundEnvelope {
        method: Method::Post,
        target: inbox(),
        headers: generate_request_headers(&inbox(), Some("feeds.example"), EARLY).unwrap(),
        body: String::new(),
    };
    let prepared = prepare_signature(request, "hello world".to_string(), EARLY).unwrap();
    assert_eq!(
        prepared.signing_string,
        format!(
            "(request-target): post /users/alice/inbox\nhost: social.example\ndate: {}\ndigest: {}",
            EARLY_DATE, HELLO_DIGEST
        )
    );
    assert_eq!(prepared.envelope.body, "hello world");
    assert_eq!(names(&prepared.envelope.headers), vec!["User-Agent", "Date", "Digest"]);
    assert_eq!(find_header(&prepared.envelope.headers, "digest"), Some(HELLO_DIGEST));
    assert_eq!(prepared.envelope.target.href, "https://social.example/users/alice/inbox");
    assert_eq!(prepared.envelope.method, Method::Post);
}

#[test]
fn prepared_request_gets_a_date_when_it_has_none() {
    let request = OutboundEnvelope {
        method: Method::Get,
        target: Target::parse("http://social.example:8080/o/1?x=1").unwrap(),
        headers: vec![Header { name: "Accept".to_string(), value: "a/b".to_string() }],
        body: "stale".to_string(),
    };
    let prepared = prepare_signature(request, String::new(), EARLY).unwrap();
    assert_eq!(
        prepared.signing_string,
        format!(
            "(request-target): get /o/1?x=1\nhost: social.example:8080\ndate: {}\ndigest: {}",
            EARLY_DATE, EMPTY_DIGEST
        )
    );
    assert_eq!(names(&prepared.envelope.headers), vec!["Accept", "Date", "Digest"]);
    assert_eq!(prepared.envelope.body, "");
}

#[test]
fn prepared_request_keeps_the_date_it_has_and_replaces_its_digest() {
    let request = OutboundEnvelope {
        method: Method::Post,
        target: inbox(),
        headers: vec![
            Header { name: "digest".to_string(), value: "SHA-256=stale".to_string() },
            Header { name: "date".to_string(), value: "Mon, 01 Jan 2001 00:00:00 GMT".to_string() },
        ],
        body: String::new(),
    };
    let prepared = prepare_signature(request, "hello world".to_string(), EARLY).unwrap();
    assert_eq!(
        prepared.signing_string,
        format!(
            "(request-target): post /users/alice/inbox\nhost: social.example\ndate: Mon, 01 Jan 2001 00:00:00 GMT\ndigest: {}",
            HELLO_DIGEST
        )
    );
    assert_eq!(names(&prepared.envelope.headers), vec!["date", "Digest"]);
    assert_eq!(prepared.envelope.headers[1].value, HELLO_DIGEST);
}

#[test]
fn request_to_an_address_without_host_cannot_be_prepared() {
    let request = OutboundEnvelope {
        method: Method::Post,
        target: Target::parse("mailto:alice@social.example").unwrap(),
        headers: Vec::new(),
        body: String::new(),
    };
    match prepare_signature(request, String::new(), EARLY) {
        Err(DeliveryError::Transport(cause)) => assert_eq!(cause, "request URL has no host"),
        _ => panic!("an address without host is a transport error"),
    }
}

#[test]
fn attached_signature_is_the_last_header() {
    let request = OutboundEnvelope {
        method: Method::Post,
        target: inbox(),
        headers: vec![
            Header { name: "Signature".to_string(), value: "stale".to_string() },
            Header { name: "Date".to_string(), value: EARLY_DATE.to_string() },
        ],
        body: "b".to_string(),
    };
    let signed = attach_signature(request, "https://feeds.example/f#main-key", "c2ln");
    assert_eq!(names(&signed.headers), vec!["Date", "Signature"]);
    assert_eq!(
        signed.headers[1].value,
        "keyId=\"https://feeds.example/f#main-key\",algorithm=\"rsa-sha256\",headers=\"(request-target) host date digest\",signature=\"c2ln\""
    );
    assert_eq!(signed.body, "b");
    assert_eq!(signed.method, Method::Post);
}

#[test]
fn delivery_is_a_signed_post() {
    let (private_pem, public_pem) = key_pair();
    let json = "{\"type\":\"Create\"}";
    let envelope = deliver_to_inbox(
        &inbox(),
        "https://feeds.example/feed/news",
        &private_pem,
        json,
        Some("feeds.example"),
        EARLY,
    )
    .unwrap();
    assert_eq!(envelope.method, Method::Post);
    assert_eq!(envelope.target.href, "https://social.example/users/alice/inbox");
    assert_eq!(envelope.body, json);
    assert_eq!(names(&envelope.headers), vec!["User-Agent", "Date", "Digest", "Signature"]);
    assert_eq!(envelope.headers[0].value, "rustypub/0.1.0; +feeds.example)");
    assert_eq!(envelope.headers[1].value, EARLY_DATE);
    let hash = <sha2::Sha256 as sha2::Digest>::digest(json.as_bytes());
    let digest = format!(
        "SHA-256={}",
        base64::Engine::encode(&base64::engine::general_purpose::STANDARD, hash)
    );
    assert_eq!(envelope.headers[2].value, digest);
    let signature_header = &envelope.headers[3].value;
    let prefix = "keyId=\"https://feeds.example/feed/news#main-key\",algorithm=\"rsa-sha256\",headers=\"(request-target) host date digest\",signature=\"";
    assert!(signature_header.starts_with(prefix));
    assert!(signature_header.ends_with("\""));
    let signature = &signature_header[prefix.len()..signature_header.len() - 1];
    let signing_string = format!(
        "(request-target): post /users/alice/inbox\nhost: social.example\ndate: {}\ndigest: {}",
        EARLY_DATE, digest
    );
    assert!(signature_verifies(&public_pem, &signing_string, signature));
}

#[test]
fn delivery_verifies_under_a_reference_verifier() {
    let (private_pem, public_pem) = key_pair();
    let target = Target::parse("https://social.example:8443/users/alice/inbox?shared=1").unwrap();
    let envelope = deliver_to_inbox(
        &target,
        "https://feeds.example/feed/news",
        &private_pem,
        "{\"type\":\"Create\",\"object\":{\"type\":\"Note\",\"content\":\"gr\u{fc}\u{df}e\"}}",
        Some("feeds.example"),
        now(),
    )
    .unwrap();
    assert!(reference_verifies(
        &envelope,
        &public_pem,
        "https://feeds.example/feed/news#main-key"
    ));
}

#[test]
fn delivery_digest_is_over_the_body_that_is_sent() {
    let (private_pem, _) = key_pair();
    let envelope = deliver_to_inbox(
        &inbox(),
        "https://feeds.example/feed/news",
        &private_pem,
        "hello world",
        Some("feeds.example"),
        EARLY,
    )
    .unwrap();
    assert_eq!(find_header(&envelope.headers, "digest"), Some(HELLO_DIGEST));
    assert_eq!(envelope.body, "hello world");
}

#[test]
fn delivery_without_a_domain_is_a_configuration_error() {
    let (private_pem, _) = key_pair();
    match deliver_to_inbox(&inbox(), "k", &private_pem, "{}", None, EARLY) {
        Err(DeliveryError::Configuration(e)) => {
            assert_eq!(e, ConfigurationError::MissingDomainName)
        }
        _ => panic!("a missing domain name is a configuration error"),
    }
}

#[test]
fn delivery_without_a_domain_fails_before_the_key_is_read() {
    match deliver_to_inbox(&inbox(), "k", "not a key", "{}", None, EARLY) {
        Err(DeliveryError::Configuration(_)) => {}
        _ => panic!("a missing domain name is a configuration error"),
    }
}

#[test]
fn delivery_to_an_address_without_host_is_a_transport_error() {
    let target = Target::parse("mailto:alice@social.example").unwrap();
    match deliver_to_inbox(&target, "k", "not a key", "{}", Some("feeds.example"), EARLY) {
        Err(DeliveryError::Transport(cause)) => assert_eq!(cause, "request URL has no host"),
        _ => panic!("an address without host is a transport error"),
    }
}

#[test]
fn delivery_with_a_malformed_key_is_a_key_error() {
    match deliver_to_inbox(&inbox(), "k", "not a key", "{}", Some("feeds.example"), EARLY) {
        Err(DeliveryError::Key(e)) => assert_eq!(e, KeyError::MalformedPem),
        _ => panic!("a malformed key is a key error"),
    }
}

#[test]
fn unsigned_fetch_accepts_activity_json() {
    let envelope =
        fetch_object("https://social.example/objects/1", None, None, Some("feeds.example"), EARLY)
            .unwrap();
    assert_eq!(envelope.method, Method::Get);
    assert_eq!(envelope.target.href, "https://social.example/objects/1");
    assert_eq!(envelope.body, "");
    assert_eq!(names(&envelope.headers), vec!["Accept", "User-Agent"]);
    assert_eq!(envelope.headers[0].value, "application/activity+json");
    assert_eq!(envelope.headers[1].value, "rustypub/0.1.0; +feeds.example)");
}

#[test]
fn fetch_with_half_an_identity_is_unsigned() {
    let only_id =
        fetch_object("https://social.example/o", Some("k"), None, Some("feeds.example"), EARLY)
            .unwrap();
    assert_eq!(names(&only_id.headers), vec!["Accept", "User-Agent"]);
    let only_key = fetch_object(
        "https://social.example/o",
        None,
        Some("not a key"),
        Some("feeds.example"),
        EARLY,
    )
    .unwrap();
    assert_eq!(names(&only_key.headers), vec!["Accept", "User-Agent"]);
}

#[test]
fn signed_fetch_verifies_under_a_reference_verifier() {
    let (private_pem, public_pem) = key_pair();
    let envelope = fetch_object(
        "https://social.example/objects/1?view=full",
        Some("https://feeds.example/feed/news#main-key"),
        Some(&private_pem),
        Some("feeds.example"),
        now(),
    )
    .unwrap();
    assert_eq!(envelope.method, Method::Get);
    assert_eq!(envelope.body, "");
    assert_eq!(
        names(&envelope.headers),
        vec!["Accept", "User-Agent", "Date", "Digest", "Signature"]
    );
    assert_eq!(find_header(&envelope.headers, "digest"), Some(EMPTY_DIGEST));
    assert!(reference_verifies(
        &envelope,
        &public_pem,
        "https://feeds.example/feed/news#main-key"
    ));
}

#[test]
fn fetch_of_text_that_is_no_url_is_a_transport_error() {
    match fetch_object("not a url", None, None, Some("feeds.example"), EARLY) {
        Err(DeliveryError::Transport(cause)) => assert_eq!(cause, "request URL is not valid"),
        _ => panic!("a text that is no URL is a transport error"),
    }
}

#[test]
fn fetch_without_a_domain_is_a_configuration_error() {
    match fetch_object("https://social.example/o", None, None, None, EARLY) {
        Err(DeliveryError::Configuration(e)) => {
            assert_eq!(e, ConfigurationError::MissingDomainName)
        }
        _ => panic!("a missing domain name is a configuration error"),
    }
    match fetch_object("not a url", None, None, None, EARLY) {
        Err(DeliveryError::Configuration(_)) => {}
        _ => panic!("a missing domain name comes first"),
    }
}

#[test]
fn signed_fetch_with_a_malformed_key_is_a_key_error() {
    match fetch_object(
        "https://social.example/o",
        Some("k"),
        Some("not a key"),
        Some("feeds.example"),
        EARLY,
    ) {
        Err(DeliveryError::Key(e)) => assert_eq!(e, KeyError::MalformedPem),
        _ => panic!("a malformed key is a key error"),
    }
}

#[test]
fn signed_fetch_of_an_address_without_host_is_a_transport_error() {
    match fetch_object(
        "mailto:alice@social.example",
        Some("k"),
        Some("not a key"),
        Some("feeds.example"),
        EARLY,
    ) {
        Err(DeliveryError::Transport(cause)) => assert_eq!(cause, "request URL has no host"),
        _ => panic!("an address without host is a transport error"),
    }
}

#[test]
fn sign_request_signs_under_the_key_id_as_given() {
    let (private_pem, public_pem) = key_pair();
    let request = OutboundEnvelope {
        method: Method::Post,
        target: inbox(),
        headers: Vec::new(),
        body: String::new(),
    };
    let signed = sign_request(
        request,
        "https://feeds.example/actor#key-2".to_string(),
        private_pem,
        "payload".to_string(),
        now(),
    )
    .unwrap();
    assert_eq!(names(&signed.headers), vec!["Date", "Digest", "Signature"]);
    assert_eq!(signed.body, "payload");
    assert!(reference_verifies(&signed, &public_pem, "https://feeds.example/actor#key-2"));
}

#[test]
fn fetch_then_not_found_is_absent() {
    let request =
        fetch_object("https://social.example/objects/1", None, None, Some("feeds.example"), EARLY);
    assert!(request.is_ok());
    let reply = TransportReply::Response {
        status: 404,
        reason: Some("Not Found".to_string()),
        body: String::new(),
    };
    match fetch_outcome(reply) {
        Ok(None) => {}
        _ => panic!("a 404 is an absent object"),
    }
}

#[test]
fn deliver_then_accepted_forbidden_or_refused() {
    let accepted = TransportReply::Response {
        status: 202,
        reason: Some("Accepted".to_string()),
        body: String::new(),
    };
    assert!(delivery_outcome(accepted).is_ok());
    let forbidden = TransportReply::Response {
        status: 403,
        reason: Some("Forbidden".to_string()),
        body: String::new(),
    };
    match delivery_outcome(forbidden) {
        Err(DeliveryError::Rejected { status_text, .. }) => assert!(status_text.contains("403")),
        _ => panic!("a 403 is a rejection"),
    }
    let refused = TransportReply::Failed { cause: "connection refused".to_string() };
    match delivery_outcome(refused) {
        Err(DeliveryError::Transport(_)) => {}
        _ => panic!("a refused connection is a transport error"),
    }
}
