//! The delivery client: builds the signed or unsigned request of a fetch
//! or a delivery. Sending it, and reading the clock and the configuration,
//! is the caller's part; the reply goes to the classifiers in
//! [`crate::envelope`].
use vstd::prelude::*;
use vstd::utf8::encode_utf8;
use crate::composer::{
    lemma_mastodon_signature_header,
    lemma_mastodon_signing_string,
    mastodon_profile,
    mastodon_signature_header,
    mastodon_signing_string,
    signature_header,
    signature_header_of,
    signing_string,
    Method,
    Profile,
};
use crate::date::{http_date, http_date_of, HTTP_DATE_LIMIT};
use crate::digest::{body_digest, digest_value};
use crate::envelope::{EnvelopeView, OutboundEnvelope};
use crate::error::{ConfigurationError, DeliveryError, DeliveryErrorView};
use crate::headers::{
    copy_headers,
    find_header,
    header_value,
    header_views,
    lacks_header,
    lemma_set_fresh,
    lemma_set_keeps_others,
    lemma_set_then_found,
    set_header,
    with_header,
    Header,
    HeaderView,
};
use crate::signer::{is_signature_by, KeyError, PEM_LIMIT};
use crate::target::{parsed_url, Target, TargetView};
use crate::text::{lowercase, same_ignoring_case};

verus! {

/// Product name and version, as every user agent of this build starts.
pub open spec fn base_user_agent() -> Seq<char> {
    "rustypub/0.1.0"@
}

/// The user agent of an instance that runs under `domain_name`.
pub open spec fn user_agent_of(domain_name: Seq<char>) -> Seq<char> {
    base_user_agent() + "; +"@ + domain_name + ")"@
}

/// Whether a configured domain name identifies the instance: it is there
/// and not empty.
pub open spec fn domain_is_configured(domain_name: Option<&str>) -> bool {
    domain_name matches Some(domain) && domain@.len() > 0
}

/// Builds the user agent for the running instance.
///
/// Without a configured domain name there is no user agent: the call
/// fails rather than leave the domain blank.
pub fn user_agent(domain_name: Option<&str>) -> (agent: Result<String, ConfigurationError>)
    ensures
        domain_is_configured(domain_name) ==> (agent matches Ok(text) && text@ == user_agent_of(
            domain_name.unwrap()@,
        )),
        !domain_is_configured(domain_name) ==> agent == Err::<String, ConfigurationError>(
            ConfigurationError::MissingDomainName,
        ),
        agent is Ok ==> domain_is_configured(domain_name),
{
    match domain_name {
        None => Err(ConfigurationError::MissingDomainName),
        Some(domain) => {
            if domain.is_empty() {
                return Err(ConfigurationError::MissingDomainName);
            }
            let mut text: String = String::from_str("rustypub/0.1.0");
            text.append("; +");
            text.append(domain);
            text.append(")");
            Ok(text)
        },
    }
}

/// The headers that every delivery starts from.
pub open spec fn request_headers_of(domain_name: Seq<char>, date: Seq<char>) -> Seq<HeaderView> {
    seq![
        HeaderView { name: "User-Agent"@, value: user_agent_of(domain_name) },
        HeaderView { name: "Date"@, value: date },
    ]
}

/// Builds the headers that every delivery starts from: the user agent and
/// the date of `now`, given in seconds since the Unix epoch.
pub fn generate_request_headers(_inbox: &Target, domain_name: Option<&str>, now: u64) -> (headers:
    Result<Vec<Header>, ConfigurationError>)
    requires
        now < HTTP_DATE_LIMIT,
    ensures
        domain_is_configured(domain_name) ==> (headers matches Ok(list) && header_views(list@)
            == request_headers_of(domain_name.unwrap()@, http_date_of(now as nat))),
        !domain_is_configured(domain_name) ==> (headers matches Err(e) && e
            == ConfigurationError::MissingDomainName),
{
    let agent: String = match user_agent(domain_name) {
        Ok(agent) => agent,
        Err(e) => {
            return Err(e);
        },
    };
    let mut list: Vec<Header> = Vec::new();
    list.push(Header { name: String::from_str("User-Agent"), value: agent });
    list.push(Header { name: String::from_str("Date"), value: http_date(now) });
    assert(header_views(list@) =~= request_headers_of(
        domain_name.unwrap()@,
        http_date_of(now as nat),
    ));
    Ok(list)
}

/// The cause reported for an address without a host.
pub open spec fn no_host_cause() -> Seq<char> {
    "request URL has no host"@
}

/// The cause reported for a text that is not an absolute URL.
pub open spec fn invalid_url_cause() -> Seq<char> {
    "request URL is not valid"@
}

/// Whether a request still lacks its `Date` header, so that the clock is
/// needed to prepare it.
pub open spec fn needs_date(headers: Seq<HeaderView>) -> bool {
    header_value(headers, "date"@) is None
}

/// The headers with a `Date` header made sure of: one that is there
/// stays, else `date` is added.
pub open spec fn dated_headers(headers: Seq<HeaderView>, date: Seq<char>) -> Seq<HeaderView> {
    if header_value(headers, "date"@) is Some {
        headers
    } else {
        headers.push(HeaderView { name: "Date"@, value: date })
    }
}

/// The date that a request carries once it is prepared.
pub open spec fn date_in_effect(headers: Seq<HeaderView>, date: Seq<char>) -> Seq<char> {
    match header_value(headers, "date"@) {
        Some(present) => present,
        None => date,
    }
}

/// The request as it stands before the signature is attached: dated, with
/// the digest of `payload`, and with `payload` as its body.
pub open spec fn prepared_envelope(
    request: EnvelopeView,
    payload: Seq<char>,
    date: Seq<char>,
) -> EnvelopeView {
    EnvelopeView {
        method: request.method,
        target: request.target,
        headers: with_header(
            dated_headers(request.headers, date),
            "Digest"@,
            digest_value(encode_utf8(payload)),
        ),
        body: payload,
    }
}

/// The signing string of a prepared request to a target with a host.
pub open spec fn prepared_signing_string(
    request: EnvelopeView,
    payload: Seq<char>,
    date: Seq<char>,
) -> Seq<char> {
    mastodon_signing_string(
        request.method,
        request.target.path_and_query(),
        request.target.host_header().unwrap(),
        date_in_effect(request.headers, date),
        digest_value(encode_utf8(payload)),
    )
}

/// The request with `signature` attached for the key `key_id`.
pub open spec fn with_signature(
    prepared: EnvelopeView,
    key_id: Seq<char>,
    signature: Seq<char>,
) -> EnvelopeView {
    EnvelopeView {
        method: prepared.method,
        target: prepared.target,
        headers: with_header(
            prepared.headers,
            "Signature"@,
            signature_header_of(key_id, mastodon_profile(), signature),
        ),
        body: prepared.body,
    }
}

/// The signed request: prepared, then with the signature attached.
pub open spec fn signed_envelope(
    request: EnvelopeView,
    key_id: Seq<char>,
    payload: Seq<char>,
    date: Seq<char>,
    signature: Seq<char>,
) -> EnvelopeView {
    with_signature(prepared_envelope(request, payload, date), key_id, signature)
}

/// Whether `signature` is the base64 form of a signature that the signing
/// engine made with the key in `private_key` over the signing string of
/// the prepared request.
pub open spec fn signs_request(
    signature: Seq<char>,
    private_key: Seq<char>,
    request: EnvelopeView,
    payload: Seq<char>,
    date: Seq<char>,
) -> bool {
    is_signature_by(
        signature,
        encode_utf8(private_key),
        encode_utf8(prepared_signing_string(request, payload, date)),
    )
}

/// A request that awaits its signature, with the string to sign.
#[derive(Debug)]
pub struct Prepared {
    pub envelope: OutboundEnvelope,
    pub signing_string: String,
}

/// How the header names that this client writes relate to the names that
/// the profile covers.
proof fn lemma_header_names()
    ensures
        same_ignoring_case("Host"@, "host"@),
        same_ignoring_case("Date"@, "date"@),
        same_ignoring_case("Digest"@, "digest"@),
        same_ignoring_case("Signature"@, "signature"@),
        !same_ignoring_case("Host"@, "date"@),
        !same_ignoring_case("Host"@, "digest"@),
        !same_ignoring_case("Digest"@, "date"@),
        !same_ignoring_case("Signature"@, "digest"@),
        !same_ignoring_case("Signature"@, "date"@),
{
    reveal_strlit("Host");
    reveal_strlit("host");
    reveal_strlit("Date");
    reveal_strlit("date");
    reveal_strlit("Digest");
    reveal_strlit("digest");
    reveal_strlit("Signature");
    reveal_strlit("signature");
    assert(lowercase("Host"@) =~= lowercase("host"@));
    assert(lowercase("Date"@) =~= lowercase("date"@));
    assert(lowercase("Digest"@) =~= lowercase("digest"@));
    assert(lowercase("Signature"@) =~= lowercase("signature"@));
    assert(lowercase("Host"@)[0] != lowercase("date"@)[0]);
    assert(lowercase("Host"@).len() != lowercase("digest"@).len());
    assert(lowercase("Digest"@).len() != lowercase("date"@).len());
    assert(lowercase("Signature"@).len() != lowercase("digest"@).len());
    assert(lowercase("Signature"@).len() != lowercase("date"@).len());
}

/// Prepares `request` for signing: makes sure of the `Date` header, sets
/// the `Digest` header over `payload`, makes `payload` the body, and
/// composes the signing string under the Mastodon-compatible profile.
/// `now`, in seconds since the Unix epoch, is read only where the request
/// has no `Date` header yet.
///
/// Fails exactly when the target has no host.
pub fn prepare_signature(request: OutboundEnvelope, payload: String, now: u64) -> (prepared: Result<
    Prepared,
    DeliveryError,
>)
    requires
        needs_date(request@.headers) ==> now < HTTP_DATE_LIMIT,
    ensures
        match request@.target.host_header() {
            Some(host) => prepared matches Ok(p) && p.envelope@ == prepared_envelope(
                request@,
                payload@,
                http_date_of(now as nat),
            ) && p.signing_string@ == prepared_signing_string(
                request@,
                payload@,
                http_date_of(now as nat),
            ),
            None => prepared matches Err(e) && e@ == DeliveryErrorView::Transport(no_host_cause()),
        },
{
    let host: String = match request.target.host_header() {
        Some(host) => host,
        None => {
            return Err(DeliveryError::Transport(String::from_str("request URL has no host")));
        },
    };
    let ghost given = request@;
    let ghost date = http_date_of(now as nat);
    let OutboundEnvelope { method, target, headers, body: _ } = request;
    let mut headers: Vec<Header> = headers;
    let dated: bool = find_header(&headers, "date").is_some();
    if !dated {
        let ghost before = header_views(headers@);
        headers.push(Header { name: String::from_str("Date"), value: http_date(now) });
        assert(header_views(headers@) =~= before.push(HeaderView { name: "Date"@, value: date }));
        assert(header_views(headers@).drop_last() =~= before);
    }
    assert(header_views(headers@) == dated_headers(given.headers, date));
    proof {
        lemma_header_names();
    }
    assert(header_value(header_views(headers@), "date"@) == Some(
        date_in_effect(given.headers, date),
    ));
    let ghost dated_list = header_views(headers@);
    let digest: String = body_digest(payload.as_str().as_bytes());
    let mut covered: Vec<Header> = copy_headers(&headers);
    set_header(&mut headers, "Digest", digest.clone());
    set_header(&mut covered, "Digest", digest);
    set_header(&mut covered, "Host", host);
    let ghost sent_list = header_views(headers@);
    let ghost digest_text = digest_value(encode_utf8(payload@));
    let ghost host_text = given.target.host_header().unwrap();
    proof {
        lemma_set_then_found(sent_list, "Host"@, host_text, "host"@);
        lemma_set_keeps_others(sent_list, "Host"@, host_text, "digest"@);
        lemma_set_keeps_others(sent_list, "Host"@, host_text, "date"@);
        lemma_set_then_found(dated_list, "Digest"@, digest_text, "digest"@);
        lemma_set_keeps_others(dated_list, "Digest"@, digest_text, "date"@);
        lemma_mastodon_signing_string(
            method,
            given.target.path_and_query(),
            header_views(covered@),
            host_text,
            date_in_effect(given.headers, date),
            digest_text,
        );
    }
    let profile: Profile = Profile::mastodon_compat();
    let path: String = target.path_and_query();
    let text: String = match signing_string(&profile, method, path.as_str(), &covered) {
        Ok(text) => text,
        Err(_) => {
            assert(false);
            vstd::pervasive::unreached()
        },
    };
    Ok(
        Prepared {
            envelope: OutboundEnvelope { method, target, headers, body: payload },
            signing_string: text,
        },
    )
}

/// Attaches `signature` to a prepared request: sets the `Signature`
/// header for the key `key_id` under the Mastodon-compatible profile.
pub fn attach_signature(prepared: OutboundEnvelope, key_id: &str, signature: &str) -> (signed:
    OutboundEnvelope)
    ensures
        signed@ == with_signature(prepared@, key_id@, signature@),
{
    let OutboundEnvelope { method, target, headers, body } = prepared;
    let mut headers: Vec<Header> = headers;
    let profile: Profile = Profile::mastodon_compat();
    let value: String = signature_header(key_id, &profile, signature);
    set_header(&mut headers, "Signature", value);
    OutboundEnvelope { method, target, headers, body }
}

/// Signs `request`: sets its `Date` header if it has none, its `Digest`
/// header over `payload`, its body to `payload`, and its `Signature`
/// header to an RSA-SHA256 signature made with `private_key` for `key_id`.
///
/// Whether the key can be used is the signing engine's decision, so a
/// target with a host may still end in a key error, and does for certain
/// where the key text is too long to be read. A request that comes back
/// carries a signature made with `private_key` over the signing string of
/// the prepared request.
pub fn sign_request(
    request: OutboundEnvelope,
    key_id: String,
    private_key: String,
    payload: String,
    now: u64,
) -> (signed: Result<OutboundEnvelope, DeliveryError>)
    requires
        needs_date(request@.headers) ==> now < HTTP_DATE_LIMIT,
    ensures
        match signed {
            Ok(envelope) => request@.target.host_header() is Some && exists|signature: Seq<char>|
                #[trigger] signs_request(
                    signature,
                    private_key@,
                    request@,
                    payload@,
                    http_date_of(now as nat),
                ) && envelope@ == signed_envelope(
                    request@,
                    key_id@,
                    payload@,
                    http_date_of(now as nat),
                    signature,
                ),
            Err(e) => match e@ {
                DeliveryErrorView::Transport(cause) => request@.target.host_header() is None
                    && cause == no_host_cause(),
                DeliveryErrorView::Key(_) => request@.target.host_header() is Some,
                _ => false,
            },
        },
        request@.target.host_header() is Some && encode_utf8(private_key@).len() > PEM_LIMIT
            ==> (signed matches Err(e) && e@ == DeliveryErrorView::Key(KeyError::MalformedPem)),
{
    let prepared: Prepared = match prepare_signature(request, payload, now) {
        Ok(prepared) => prepared,
        Err(e) => {
            return Err(e);
        },
    };
    let signature: String = match crate::signer::sign(
        prepared.signing_string.as_str().as_bytes(),
        private_key.as_str(),
    ) {
        Ok(signature) => signature,
        Err(e) => {
            return Err(DeliveryError::Key(e));
        },
    };
    let envelope: OutboundEnvelope = attach_signature(
        prepared.envelope,
        key_id.as_str(),
        signature.as_str(),
    );
    assert(signs_request(
        signature@,
        private_key@,
        request@,
        payload@,
        http_date_of(now as nat),
    ) && envelope@ == signed_envelope(
        request@,
        key_id@,
        payload@,
        http_date_of(now as nat),
        signature@,
    ));
    Ok(envelope)
}

/// The key identifier that a delivery signs under: the actor's key
/// identifier with the fragment of its main key.
pub open spec fn main_key_id(key_id: Seq<char>) -> Seq<char> {
    key_id + "#main-key"@
}

/// The request of a delivery before it is signed.
pub open spec fn delivery_request(
    inbox: TargetView,
    json: Seq<char>,
    domain_name: Seq<char>,
    date: Seq<char>,
) -> EnvelopeView {
    EnvelopeView {
        method: Method::Post,
        target: inbox,
        headers: request_headers_of(domain_name, date),
        body: json,
    }
}

/// The request of a delivery, signed with `signature`.
pub open spec fn delivery_envelope(
    inbox: TargetView,
    key_id: Seq<char>,
    json: Seq<char>,
    domain_name: Seq<char>,
    date: Seq<char>,
    signature: Seq<char>,
) -> EnvelopeView {
    signed_envelope(
        delivery_request(inbox, json, domain_name, date),
        main_key_id(key_id),
        json,
        date,
        signature,
    )
}

/// Builds the signed request that delivers `json` to `inbox`: a POST with
/// the user agent of `domain_name`, the date of `now`, the digest of
/// `json`, and a signature made with `private_key` under the main key of
/// `key_id`.
///
/// A missing domain name is a configuration error, whatever else holds;
/// with a domain name, an inbox without a host is a transport error. Past
/// both, a key text too long to be read is refused as malformed, and any
/// other key is the signing engine's to accept or to refuse with a key
/// error. A request that comes back carries a signature made with
/// `private_key` over the signing string of this delivery.
pub fn deliver_to_inbox(
    inbox: &Target,
    key_id: &str,
    private_key: &str,
    json: &str,
    domain_name: Option<&str>,
    now: u64,
) -> (request: Result<OutboundEnvelope, DeliveryError>)
    requires
        now < HTTP_DATE_LIMIT,
    ensures
        match request {
            Ok(envelope) => domain_is_configured(domain_name) && inbox@.host_header() is Some
                && exists|signature: Seq<char>|
                #[trigger] signs_request(
                    signature,
                    private_key@,
                    delivery_request(
                        inbox@,
                        json@,
                        domain_name.unwrap()@,
                        http_date_of(now as nat),
                    ),
                    json@,
                    http_date_of(now as nat),
                ) && envelope@ == delivery_envelope(
                    inbox@,
                    key_id@,
                    json@,
                    domain_name.unwrap()@,
                    http_date_of(now as nat),
                    signature,
                ),
            Err(e) => match e@ {
                DeliveryErrorView::Configuration(c) => !domain_is_configured(domain_name) && c
                    == ConfigurationError::MissingDomainName,
                DeliveryErrorView::Transport(cause) => domain_is_configured(domain_name)
                    && inbox@.host_header() is None && cause == no_host_cause(),
                DeliveryErrorView::Key(_) => domain_is_configured(domain_name)
                    && inbox@.host_header() is Some,
                DeliveryErrorView::Rejected { .. } => false,
            },
        },
        !domain_is_configured(domain_name) ==> request is Err,
        inbox@.host_header() is None ==> request is Err,
        domain_is_configured(domain_name) && inbox@.host_header() is Some && encode_utf8(
            private_key@,
        ).len() > PEM_LIMIT ==> (request matches Err(e) && e@ == DeliveryErrorView::Key(
            KeyError::MalformedPem,
        )),
{
    let heads: Vec<Header> = match generate_request_headers(inbox, domain_name, now) {
        Ok(heads) => heads,
        Err(e) => {
            return Err(DeliveryError::Configuration(e));
        },
    };
    let unsigned = OutboundEnvelope {
        method: Method::Post,
        target: inbox.copy(),
        headers: heads,
        body: String::from_str(json),
    };
    let mut main_key: String = String::from_str(key_id);
    main_key.append("#main-key");
    sign_request(unsigned, main_key, String::from_str(private_key), String::from_str(json), now)
}

/// The headers of every fetch.
pub open spec fn fetch_headers_of(domain_name: Seq<char>) -> Seq<HeaderView> {
    seq![
        HeaderView { name: "Accept"@, value: "application/activity+json"@ },
        HeaderView { name: "User-Agent"@, value: user_agent_of(domain_name) },
    ]
}

/// The request of a fetch before it is signed.
pub open spec fn fetch_request(target: TargetView, domain_name: Seq<char>) -> EnvelopeView {
    EnvelopeView {
        method: Method::Get,
        target,
        headers: fetch_headers_of(domain_name),
        body: Seq::empty(),
    }
}

/// Whether a fetch is to be signed: only with both halves of a signing
/// identity.
pub open spec fn fetch_is_signed(key_id: Option<&str>, private_key: Option<&str>) -> bool {
    key_id is Some && private_key is Some
}

/// Builds the request that fetches the object at `url`: a GET that accepts
/// ActivityPub JSON and carries the user agent of `domain_name`. With both
/// `key_id` and `private_key` the request is signed as of `now`, over an
/// empty body.
///
/// A missing domain name is a configuration error, whatever else holds;
/// with a domain name, a text that is no absolute URL is a transport
/// error, and so is, for a signed fetch, an address without a host. Past
/// these, an unsigned fetch succeeds. For a signed one, a key text too
/// long to be read is refused as malformed, and any other key is the
/// signing engine's to accept or to refuse with a key error; a request
/// that comes back carries a signature made with `private_key` over the
/// signing string of this fetch.
pub fn fetch_object(
    url: &str,
    key_id: Option<&str>,
    private_key: Option<&str>,
    domain_name: Option<&str>,
    now: u64,
) -> (request: Result<OutboundEnvelope, DeliveryError>)
    requires
        fetch_is_signed(key_id, private_key) ==> now < HTTP_DATE_LIMIT,
    ensures
        match request {
            Ok(envelope) => domain_is_configured(domain_name) && parsed_url(url@) is Some
                && if fetch_is_signed(
                key_id,
                private_key,
            ) {
                parsed_url(url@).unwrap().host_header() is Some && exists|signature: Seq<char>|
                    #[trigger] signs_request(
                        signature,
                        private_key.unwrap()@,
                        fetch_request(parsed_url(url@).unwrap(), domain_name.unwrap()@),
                        Seq::empty(),
                        http_date_of(now as nat),
                    ) && envelope@ == signed_envelope(
                        fetch_request(parsed_url(url@).unwrap(), domain_name.unwrap()@),
                        key_id.unwrap()@,
                        Seq::empty(),
                        http_date_of(now as nat),
                        signature,
                    )
            } else {
                envelope@ == fetch_request(parsed_url(url@).unwrap(), domain_name.unwrap()@)
            },
            Err(e) => match e@ {
                DeliveryErrorView::Configuration(c) => !domain_is_configured(domain_name) && c
                    == ConfigurationError::MissingDomainName,
                DeliveryErrorView::Transport(cause) => domain_is_configured(domain_name)
                    && match parsed_url(url@) {
                    None => cause == invalid_url_cause(),
                    Some(target) => fetch_is_signed(key_id, private_key) && target.host_header()
                        is None && cause == no_host_cause(),
                },
                DeliveryErrorView::Key(_) => domain_is_configured(domain_name) && fetch_is_signed(
                    key_id,
                    private_key,
                ) && parsed_url(url@) is Some && parsed_url(url@).unwrap().host_header() is Some,
                DeliveryErrorView::Rejected { .. } => false,
            },
        },
        !domain_is_configured(domain_name) ==> request is Err,
        parsed_url(url@) is None ==> request is Err,
        domain_is_configured(domain_name) && parsed_url(url@) is Some && !fetch_is_signed(
            key_id,
            private_key,
        ) ==> request is Ok,
        domain_is_configured(domain_name) && fetch_is_signed(key_id, private_key) && parsed_url(
            url@,
        ) is Some && parsed_url(url@).unwrap().host_header() is Some && encode_utf8(
            private_key.unwrap()@,
        ).len() > PEM_LIMIT ==> (request matches Err(e) && e@ == DeliveryErrorView::Key(
            KeyError::MalformedPem,
        )),
{
    let agent: String = match user_agent(domain_name) {
        Ok(agent) => agent,
        Err(e) => {
            return Err(DeliveryError::Configuration(e));
        },
    };
    let target: Target = match Target::parse(url) {
        Some(target) => target,
        None => {
            return Err(DeliveryError::Transport(String::from_str("request URL is not valid")));
        },
    };
    let mut headers: Vec<Header> = Vec::new();
    headers.push(
        Header {
            name: String::from_str("Accept"),
            value: String::from_str("application/activity+json"),
        },
    );
    headers.push(Header { name: String::from_str("User-Agent"), value: agent });
    assert(header_views(headers@) =~= fetch_headers_of(domain_name.unwrap()@));
    let unsigned = OutboundEnvelope { method: Method::Get, target, headers, body: String::new() };
    match (key_id, private_key) {
        (Some(key_id), Some(private_key)) => sign_request(
            unsigned,
            String::from_str(key_id),
            String::from_str(private_key),
            String::new(),
            now,
        ),
        _ => Ok(unsigned),
    }
}

/// A signed request carries the digest of exactly the body that it
/// carries, and the signature header names exactly the key it was signed
/// for.
pub proof fn lemma_signed_request_is_bound(
    request: EnvelopeView,
    key_id: Seq<char>,
    payload: Seq<char>,
    date: Seq<char>,
    signature: Seq<char>,
)
    ensures
        ({
            let signed = signed_envelope(request, key_id, payload, date, signature);
            &&& signed.body == payload
            &&& header_value(signed.headers, "digest"@) == Some(
                digest_value(encode_utf8(signed.body)),
            )
            &&& header_value(signed.headers, "date"@) == Some(date_in_effect(request.headers, date))
            &&& header_value(signed.headers, "signature"@) == Some(
                signature_header_of(key_id, mastodon_profile(), signature),
            )
        }),
{
    lemma_header_names();
    let dated = dated_headers(request.headers, date);
    let digest = digest_value(encode_utf8(payload));
    let prepared = with_header(dated, "Digest"@, digest);
    let value = signature_header_of(key_id, mastodon_profile(), signature);
    if header_value(request.headers, "date"@) is None {
        assert(dated.drop_last() =~= request.headers);
    }
    lemma_set_then_found(dated, "Digest"@, digest, "digest"@);
    lemma_set_keeps_others(dated, "Digest"@, digest, "date"@);
    lemma_set_keeps_others(prepared, "Signature"@, value, "digest"@);
    lemma_set_keeps_others(prepared, "Signature"@, value, "date"@);
    lemma_set_then_found(prepared, "Signature"@, value, "signature"@);
}

/// The names of the headers that this client writes differ from one
/// another, also without regard to case.
proof fn lemma_distinct_names()
    ensures
        !same_ignoring_case("Accept"@, "date"@),
        !same_ignoring_case("User-Agent"@, "date"@),
        !same_ignoring_case("Accept"@, "Digest"@),
        !same_ignoring_case("User-Agent"@, "Digest"@),
        !same_ignoring_case("Date"@, "Digest"@),
        !same_ignoring_case("Accept"@, "Signature"@),
        !same_ignoring_case("User-Agent"@, "Signature"@),
        !same_ignoring_case("Date"@, "Signature"@),
        !same_ignoring_case("Digest"@, "Signature"@),
        same_ignoring_case("Date"@, "date"@),
{
    reveal_strlit("Accept");
    reveal_strlit("User-Agent");
    reveal_strlit("Date");
    reveal_strlit("date");
    reveal_strlit("Digest");
    reveal_strlit("Signature");
    assert(lowercase("Date"@) =~= lowercase("date"@));
    assert(lowercase("Accept"@).len() != lowercase("date"@).len());
    assert(lowercase("User-Agent"@).len() != lowercase("date"@).len());
    assert(lowercase("Accept"@)[0] != lowercase("Digest"@)[0]);
    assert(lowercase("User-Agent"@).len() != lowercase("Digest"@).len());
    assert(lowercase("Date"@).len() != lowercase("Digest"@).len());
    assert(lowercase("Accept"@).len() != lowercase("Signature"@).len());
    assert(lowercase("User-Agent"@).len() != lowercase("Signature"@).len());
    assert(lowercase("Date"@).len() != lowercase("Signature"@).len());
    assert(lowercase("Digest"@).len() != lowercase("Signature"@).len());
}

/// The headers of a delivery on the wire, in order: user agent, date,
/// digest of the payload, and the signature under the actor's main key.
/// The signed request carries the payload as its body, unchanged.
pub proof fn lemma_delivery_on_the_wire(
    inbox: TargetView,
    key_id: Seq<char>,
    json: Seq<char>,
    domain_name: Seq<char>,
    date: Seq<char>,
    signature: Seq<char>,
)
    ensures
        ({
            let sent = delivery_envelope(inbox, key_id, json, domain_name, date, signature);
            &&& sent.method == Method::Post
            &&& sent.target == inbox
            &&& sent.body == json
            &&& sent.headers == seq![
                HeaderView { name: "User-Agent"@, value: user_agent_of(domain_name) },
                HeaderView { name: "Date"@, value: date },
                HeaderView { name: "Digest"@, value: digest_value(encode_utf8(json)) },
                HeaderView {
                    name: "Signature"@,
                    value: mastodon_signature_header(main_key_id(key_id), signature),
                },
            ]
        }),
{
    lemma_distinct_names();
    lemma_mastodon_signature_header(main_key_id(key_id), signature);
    let agent = HeaderView { name: "User-Agent"@, value: user_agent_of(domain_name) };
    let dated = HeaderView { name: "Date"@, value: date };
    let digest = HeaderView { name: "Digest"@, value: digest_value(encode_utf8(json)) };
    let base = request_headers_of(domain_name, date);
    assert(base.drop_last() =~= seq![agent]);
    assert(lacks_header(seq![agent], "date"@));
    lemma_set_fresh(seq![agent], "date"@, date);
    assert(header_value(base, "date"@) == Some(date));
    assert(dated_headers(base, date) == base);
    assert(lacks_header(base, "Digest"@));
    lemma_set_fresh(base, "Digest"@, digest.value);
    let prepared = base.push(digest);
    assert(lacks_header(prepared, "Signature"@));
    lemma_set_fresh(
        prepared,
        "Signature"@,
        signature_header_of(main_key_id(key_id), mastodon_profile(), signature),
    );
    let sent = delivery_envelope(inbox, key_id, json, domain_name, date, signature);
    assert(sent.headers =~= seq![
        agent,
        dated,
        digest,
        HeaderView {
            name: "Signature"@,
            value: mastodon_signature_header(main_key_id(key_id), signature),
        },
    ]);
}

/// The headers of a signed fetch on the wire, in order: what is accepted,
/// user agent, date, digest of the empty body, and the signature under the
/// key as given. The body is empty.
pub proof fn lemma_signed_fetch_on_the_wire(
    target: TargetView,
    key_id: Seq<char>,
    domain_name: Seq<char>,
    date: Seq<char>,
    signature: Seq<char>,
)
    ensures
        ({
            let sent = signed_envelope(
                fetch_request(target, domain_name),
                key_id,
                Seq::empty(),
                date,
                signature,
            );
            &&& sent.method == Method::Get
            &&& sent.target == target
            &&& sent.body == Seq::<char>::empty()
            &&& sent.headers == seq![
                HeaderView { name: "Accept"@, value: "application/activity+json"@ },
                HeaderView { name: "User-Agent"@, value: user_agent_of(domain_name) },
                HeaderView { name: "Date"@, value: date },
                HeaderView { name: "Digest"@, value: digest_value(encode_utf8(Seq::empty())) },
                HeaderView { name: "Signature"@, value: mastodon_signature_header(key_id, signature) },
            ]
        }),
{
    lemma_distinct_names();
    lemma_mastodon_signature_header(key_id, signature);
    let accept = HeaderView { name: "Accept"@, value: "application/activity+json"@ };
    let agent = HeaderView { name: "User-Agent"@, value: user_agent_of(domain_name) };
    let dated = HeaderView { name: "Date"@, value: date };
    let digest = HeaderView { name: "Digest"@, value: digest_value(encode_utf8(Seq::empty())) };
    let base = fetch_headers_of(domain_name);
    assert(lacks_header(base, "date"@));
    lemma_set_fresh(base, "date"@, date);
    let with_date = base.push(dated);
    assert(dated_headers(base, date) == with_date);
    assert(lacks_header(with_date, "Digest"@));
    lemma_set_fresh(with_date, "Digest"@, digest.value);
    let prepared = with_date.push(digest);
    assert(lacks_header(prepared, "Signature"@));
    lemma_set_fresh(
        prepared,
        "Signature"@,
        signature_header_of(key_id, mastodon_profile(), signature),
    );
    let sent = signed_envelope(
        fetch_request(target, domain_name),
        key_id,
        Seq::empty(),
        date,
        signature,
    );
    assert(sent.headers =~= seq![
        accept,
        agent,
        dated,
        digest,
        HeaderView { name: "Signature"@, value: mastodon_signature_header(key_id, signature) },
    ]);
}

} // verus!
