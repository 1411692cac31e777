use rustypub::composer::{signature_header, signing_string, ComposeError, Method, Profile};
use rustypub::date::http_date;
use rustypub::digest::body_digest;
use rustypub::headers::{copy_headers, find_header, set_header, Header};
use rustypub::text::decimal_text;

fn header(name: &str, value: &str) -> Header {
    Header { name: name.to_string(), value: value.to_string() }
}

fn independent_digest(body: &[u8]) -> String {
    let hash = <sha2::Sha256 as sha2::Digest>::digest(body);
    let text = base64::Engine::encode(&base64::engine::general_purpose::STANDARD, hash);
    format!("SHA-256={}", text)
}

#[test]
fn digest_of_the_empty_body() {
    assert_eq!(body_digest(b""), "SHA-256=47DEQpj8HBSa+/TImW+5JCeuQeRkm5NMpJWZG3hSuFU=");
}

#[test]
fn digest_of_a_known_body() {
    assert_eq!(
        body_digest(b"hello world"),
        "SHA-256=uU0nuZNNPgilLlLX2n2r+sSE7+N6U4DukIj3rOLvzek="
    );
}

#[test]
fn digest_matches_an_independent_hash() {
    let bodies: Vec<&[u8]> = vec![
        b"",
        b"a",
        b"{\"type\":\"Create\"}",
        b"\x00\x01\x02\xff",
        "gr\u{fc}\u{df}e".as_bytes(),
    ];
    for body in bodies {
        assert_eq!(body_digest(body), independent_digest(body));
    }
}

#[test]
fn digest_differs_from_its_input() {
    let value = body_digest(b"SHA-256=");
    assert_ne!(value, "SHA-256=");
    assert_ne!(value, "SHA-256=SHA-256=");
    assert_eq!(value.len(), "SHA-256=".len() + 44);
}

#[test]
fn http_date_of_a_known_instant() {
    assert_eq!(http_date(784111777), "Sun, 06 Nov 1994 08:49:37 GMT");
}

#[test]
fn http_date_of_the_epoch_and_of_the_last_second() {
    assert_eq!(http_date(0), "Thu, 01 Jan 1970 00:00:00 GMT");
    assert_eq!(http_date(253402300799), "Fri, 31 Dec 9999 23:59:59 GMT");
}

#[test]
fn decimal_text_of_small_and_large_numbers() {
    assert_eq!(decimal_text(0), "0");
    assert_eq!(decimal_text(7), "7");
    assert_eq!(decimal_text(10), "10");
    assert_eq!(decimal_text(403), "403");
    assert_eq!(decimal_text(8080), "8080");
    assert_eq!(decimal_text(65535), "65535");
}

#[test]
fn method_spellings() {
    assert_eq!(Method::Get.as_token(), "get");
    assert_eq!(Method::Post.as_token(), "post");
    assert_eq!(Method::Get.as_name(), "GET");
    assert_eq!(Method::Post.as_name(), "POST");
}

#[test]
fn mastodon_profile_covers_four_components() {
    let profile = Profile::mastodon_compat();
    assert_eq!(profile.algorithm, "rsa-sha256");
    assert_eq!(profile.covered, vec!["(request-target)", "host", "date", "digest"]);
}

#[test]
fn signing_string_matches_the_fixture() {
    let headers = vec![
        header("User-Agent", "rustypub/0.1.0; +feeds.example)"),
        header("Date", "Sun, 06 Nov 1994 08:49:37 GMT"),
        header("Digest", "SHA-256=uU0nuZNNPgilLlLX2n2r+sSE7+N6U4DukIj3rOLvzek="),
        header("Host", "social.example"),
    ];
    let text = signing_string(
        &Profile::mastodon_compat(),
        Method::Post,
        "/users/alice/inbox",
        &headers,
    );
    let expected = "(request-target): post /users/alice/inbox\n\
                    host: social.example\n\
                    date: Sun, 06 Nov 1994 08:49:37 GMT\n\
                    digest: SHA-256=uU0nuZNNPgilLlLX2n2r+sSE7+N6U4DukIj3rOLvzek=";
    match text {
        Ok(text) => assert_eq!(text, expected),
        Err(_) => panic!("the request has every covered header"),
    }
}

#[test]
fn signing_string_is_the_same_on_every_run() {
    let headers = vec![
        header("host", "social.example:8443"),
        header("date", "Sun, 06 Nov 1994 08:49:37 GMT"),
        header("digest", "SHA-256=47DEQpj8HBSa+/TImW+5JCeuQeRkm5NMpJWZG3hSuFU="),
    ];
    let profile = Profile::mastodon_compat();
    let first = signing_string(&profile, Method::Get, "/objects/1?page=2", &headers);
    let second = signing_string(&profile, Method::Get, "/objects/1?page=2", &headers);
    match (first, second) {
        (Ok(a), Ok(b)) => {
            assert_eq!(a, b);
            assert_eq!(
                a,
                "(request-target): get /objects/1?page=2\nhost: social.example:8443\ndate: Sun, 06 Nov 1994 08:49:37 GMT\ndigest: SHA-256=47DEQpj8HBSa+/TImW+5JCeuQeRkm5NMpJWZG3hSuFU="
            );
        }
        _ => panic!("the request has every covered header"),
    }
}

#[test]
fn signing_string_ignores_the_order_and_case_of_the_headers() {
    let headers = vec![
        header("DIGEST", "d"),
        header("Accept", "application/activity+json"),
        header("dAtE", "t"),
        header("HOST", "h"),
    ];
    let text = signing_string(&Profile::mastodon_compat(), Method::Post, "/", &headers);
    match text {
        Ok(text) => assert_eq!(text, "(request-target): post /\nhost: h\ndate: t\ndigest: d"),
        Err(_) => panic!("the request has every covered header"),
    }
}

#[test]
fn signing_string_takes_the_first_header_of_a_name() {
    let headers = vec![
        header("Host", "first"),
        header("host", "second"),
        header("Date", "t"),
        header("Digest", "d"),
    ];
    let text = signing_string(&Profile::mastodon_compat(), Method::Post, "/", &headers);
    match text {
        Ok(text) => assert_eq!(text, "(request-target): post /\nhost: first\ndate: t\ndigest: d"),
        Err(_) => panic!("the request has every covered header"),
    }
}

#[test]
fn signing_string_names_the_first_missing_header() {
    let headers = vec![header("Host", "h")];
    let text = signing_string(&Profile::mastodon_compat(), Method::Post, "/", &headers);
    match text {
        Err(ComposeError::MissingHeader(name)) => assert_eq!(name, "date"),
        Ok(_) => panic!("the request lacks two covered headers"),
    }
}

#[test]
fn signing_string_of_a_custom_profile() {
    let profile = Profile {
        algorithm: "hs2019".to_string(),
        covered: vec!["Content-Type".to_string(), "(Request-Target)".to_string()],
    };
    let headers = vec![header("content-type", "application/activity+json")];
    let text = signing_string(&profile, Method::Get, "/a", &headers);
    match text {
        Ok(text) => assert_eq!(
            text,
            "content-type: application/activity+json\n(request-target): get /a"
        ),
        Err(_) => panic!("the request has every covered header"),
    }
}

#[test]
fn signing_string_of_an_empty_profile_is_empty() {
    let profile = Profile { algorithm: "rsa-sha256".to_string(), covered: Vec::new() };
    let text = signing_string(&profile, Method::Get, "/", &Vec::new());
    match text {
        Ok(text) => assert_eq!(text, ""),
        Err(_) => panic!("nothing is covered"),
    }
}

#[test]
fn signature_header_matches_the_fixture() {
    let value = signature_header(
        "https://feeds.example/feed/news#main-key",
        &Profile::mastodon_compat(),
        "c2lnbmF0dXJl",
    );
    assert_eq!(
        value,
        "keyId=\"https://feeds.example/feed/news#main-key\",algorithm=\"rsa-sha256\",headers=\"(request-target) host date digest\",signature=\"c2lnbmF0dXJl\""
    );
}

#[test]
fn signature_header_lists_covered_names_in_lower_case() {
    let profile = Profile {
        algorithm: "hs2019".to_string(),
        covered: vec!["(request-target)".to_string(), "Content-Type".to_string()],
    };
    let value = signature_header("k", &profile, "s");
    assert_eq!(
        value,
        "keyId=\"k\",algorithm=\"hs2019\",headers=\"(request-target) content-type\",signature=\"s\""
    );
}

#[test]
fn find_header_matches_without_regard_to_case() {
    let headers = vec![header("User-Agent", "ua"), header("Date", "d1"), header("date", "d2")];
    assert_eq!(find_header(&headers, "DATE"), Some("d1"));
    assert_eq!(find_header(&headers, "user-agent"), Some("ua"));
    assert_eq!(find_header(&headers, "digest"), None);
    assert_eq!(find_header(&Vec::new(), "date"), None);
}

#[test]
fn set_header_replaces_every_header_of_the_name() {
    let mut headers = vec![
        header("Digest", "old"),
        header("Date", "d"),
        header("digest", "older"),
    ];
    set_header(&mut headers, "Digest", "new".to_string());
    assert_eq!(headers.len(), 2);
    assert_eq!(headers[0].name, "Date");
    assert_eq!(headers[0].value, "d");
    assert_eq!(headers[1].name, "Digest");
    assert_eq!(headers[1].value, "new");
    assert_eq!(find_header(&headers, "digest"), Some("new"));
    assert_eq!(find_header(&headers, "date"), Some("d"));
}

#[test]
fn copy_headers_keeps_names_values_and_order() {
    let headers = vec![header("A", "1"), header("B", "2")];
    let same = copy_headers(&headers);
    assert_eq!(same.len(), 2);
    assert_eq!(same[0].name, "A");
    assert_eq!(same[0].value, "1");
    assert_eq!(same[1].name, "B");
    assert_eq!(same[1].value, "2");
}
