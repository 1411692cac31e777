//! The request signer: an RSA-SHA256 signature over a signing string, in
//! base64.
use vstd::prelude::*;
use vstd::utf8::encode_utf8;
use crate::digest::{base64_fits, base64_of, base64_text};

verus! {

/// Why no signature could be made.
#[derive(Debug, Clone, Copy, PartialEq, Eq, Structural)]
pub enum KeyError {
    /// The text is not a PEM-encoded private key that can be read without
    /// a passphrase.
    MalformedPem,
    /// The key is not an RSA key, or cannot sign with SHA-256.
    AlgorithmMismatch,
    /// The signing engine failed while hashing or signing.
    SignerFailure,
}

/// `openssl::error::ErrorStack`: what the signing engine reports on a
/// failure. It is carried through and never read.
#[verifier::external_type_specification]
#[verifier::external_body]
pub struct ExErrorStack(openssl::error::ErrorStack);

/// `openssl::pkey::Private`: the marker of keys that have a private half.
#[verifier::external_type_specification]
#[verifier::external_body]
pub struct ExPrivate(openssl::pkey::Private);

/// `openssl::pkey::PKey`: a key as the signing engine holds it. It is
/// carried from the reader to the signer and never read.
#[verifier::external_type_specification]
#[verifier::external_body]
#[verifier::reject_recursive_types(T)]
pub struct ExPKey<T>(openssl::pkey::PKey<T>);

/// `openssl::sign::Signer`: a signature in the making. It is carried from
/// one step to the next and never read.
#[verifier::external_type_specification]
#[verifier::external_body]
pub struct ExSigner<'a>(openssl::sign::Signer<'a>);

/// The longest PEM text that the key reader takes: it holds the length in
/// a C `int`.
pub const PEM_LIMIT: usize = 0x7fff_ffff;

/// The PEM text that a key was read from.
pub uninterp spec fn key_source(key: openssl::pkey::PKey<openssl::pkey::Private>) -> Seq<u8>;

/// The PEM text of the key that a signer signs with.
pub uninterp spec fn signer_source(signer: openssl::sign::Signer<'_>) -> Seq<u8>;

/// The bytes that a signer was fed so far, in order.
pub uninterp spec fn signer_input(signer: openssl::sign::Signer<'_>) -> Seq<u8>;

/// Whether `raw` is a signature that the signing engine made over
/// `message` with SHA-256 and the private key read from `pem`.
pub uninterp spec fn signs(pem: Seq<u8>, message: Seq<u8>, raw: Seq<u8>) -> bool;

/// `openssl::pkey::PKey::private_key_from_pem_passphrase` with an empty
/// passphrase, so that an encrypted key is refused and nothing is asked of
/// a terminal. Whether a key comes back is not claimed; one that does was
/// read from the text given. The call panics on a text longer than a C
/// `int` can count, which the precondition rules out.
#[verifier::external_body]
fn read_private_key(pem: &[u8]) -> (key: Result<
    openssl::pkey::PKey<openssl::pkey::Private>,
    openssl::error::ErrorStack,
>)
    requires
        pem@.len() <= PEM_LIMIT,
    ensures
        key matches Ok(k) ==> key_source(k) == pem@,
{
    openssl::pkey::PKey::private_key_from_pem_passphrase(pem, b"")
}

/// `openssl::pkey::PKey::rsa`: fails when the key is not an RSA key.
/// Nothing is claimed of the outcome.
#[verifier::external_body]
fn require_rsa(key: &openssl::pkey::PKey<openssl::pkey::Private>) -> (rsa: Result<
    (),
    openssl::error::ErrorStack,
>) {
    key.rsa().map(|_| ())
}

/// `openssl::sign::Signer::new` with `MessageDigest::sha256`. Whether a
/// signer comes back is not claimed; one that does signs with the key
/// given and was fed nothing yet.
#[verifier::external_body]
fn sha256_signer<'a>(key: &'a openssl::pkey::PKey<openssl::pkey::Private>) -> (signer: Result<
    openssl::sign::Signer<'a>,
    openssl::error::ErrorStack,
>)
    ensures
        signer matches Ok(s) ==> signer_source(s) == key_source(*key) && signer_input(s)
            == Seq::<u8>::empty(),
{
    openssl::sign::Signer::new(openssl::hash::MessageDigest::sha256(), key)
}

/// `openssl::sign::Signer::update`: feeds bytes to the signer. Whether
/// the engine takes them is not claimed; the key stays the same, and bytes
/// that were taken follow those fed before.
#[verifier::external_body]
fn signer_update(signer: &mut openssl::sign::Signer<'_>, data: &[u8]) -> (fed: Result<
    (),
    openssl::error::ErrorStack,
>)
    ensures
        signer_source(*final(signer)) == signer_source(*old(signer)),
        fed is Ok ==> signer_input(*final(signer)) == signer_input(*old(signer)) + data@,
{
    signer.update(data)
}

/// `openssl::sign::Signer::sign_to_vec`: the signature over what was fed,
/// made with the signer's key. Whether one comes back is not claimed, nor
/// which bytes: two calls on the same input may return different ones.
#[verifier::external_body]
fn signer_finish(signer: &openssl::sign::Signer<'_>) -> (signature: Result<
    Vec<u8>,
    openssl::error::ErrorStack,
>)
    ensures
        signature matches Ok(raw) ==> signs(signer_source(*signer), signer_input(*signer), raw@),
{
    signer.sign_to_vec()
}

/// Turns raw signature bytes into the text that goes into the header:
/// their base64 form. Bytes too many to encode count as a signer failure.
pub fn signature_text(raw: &[u8]) -> (text: Result<String, KeyError>)
    ensures
        base64_fits(raw@.len()) ==> (text matches Ok(encoded) && encoded@ == base64_of(raw@)),
        !base64_fits(raw@.len()) ==> text == Err::<String, KeyError>(KeyError::SignerFailure),
{
    if raw.len() / 3 > (usize::MAX - 4) / 4 {
        Err(KeyError::SignerFailure)
    } else {
        Ok(base64_text(raw))
    }
}

/// Whether `text` is the base64 form of a signature that the signing
/// engine made over `message` with the private key read from `pem`.
pub open spec fn is_signature_by(text: Seq<char>, pem: Seq<u8>, message: Seq<u8>) -> bool {
    exists|raw: Seq<u8>| text == #[trigger] base64_of(raw) && signs(pem, message, raw)
}

/// Signs `signing_string` with the RSA private key in `private_key_pem`
/// and returns the signature in base64.
///
/// Whether a key can be read and used is the signing engine's decision,
/// so success is not promised. A text too long to be a key is refused for
/// certain, and a signature that comes back was made with this key over
/// exactly these bytes.
pub fn sign(signing_string: &[u8], private_key_pem: &str) -> (signature: Result<String, KeyError>)
    ensures
        encode_utf8(private_key_pem@).len() > PEM_LIMIT ==> signature == Err::<String, KeyError>(
            KeyError::MalformedPem,
        ),
        signature matches Ok(text) ==> is_signature_by(
            text@,
            encode_utf8(private_key_pem@),
            signing_string@,
        ),
{
    let pem: &[u8] = private_key_pem.as_bytes();
    if pem.len() > PEM_LIMIT {
        return Err(KeyError::MalformedPem);
    }
    let key = match read_private_key(pem) {
        Ok(key) => key,
        Err(_) => {
            return Err(KeyError::MalformedPem);
        },
    };
    match require_rsa(&key) {
        Ok(_) => {},
        Err(_) => {
            return Err(KeyError::AlgorithmMismatch);
        },
    }
    let mut signer = match sha256_signer(&key) {
        Ok(signer) => signer,
        Err(_) => {
            return Err(KeyError::AlgorithmMismatch);
        },
    };
    match signer_update(&mut signer, signing_string) {
        Ok(_) => {},
        Err(_) => {
            return Err(KeyError::SignerFailure);
        },
    }
    assert(signer_input(signer) =~= signing_string@);
    match signer_finish(&signer) {
        Ok(raw) => signature_text(raw.as_slice()),
        Err(_) => Err(KeyError::SignerFailure),
    }
}

} // verus!
