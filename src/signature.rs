use vstd::prelude::*;
use vstd::utf8::encode_utf8;

use crate::decimal::{decimal, decimal_string};
use crate::error::Error;

verus! {

/// What `sha2::Sha256` yields for the given bytes.
pub uninterp spec fn sha256_of(data: Seq<u8>) -> Seq<u8>;

/// What HMAC-SHA512 from `hmac` yields for the given key and message.
pub uninterp spec fn hmac_sha512_of(key: Seq<u8>, data: Seq<u8>) -> Seq<u8>;

/// What base64's `STANDARD` engine yields when encoding the given bytes.
pub uninterp spec fn base64_of(data: Seq<u8>) -> Seq<char>;

/// What base64's `STANDARD` engine yields when decoding the given text:
/// `None` where the text is not valid padded base64.
pub uninterp spec fn base64_decoded(text: Seq<char>) -> Option<Seq<u8>>;

/// Relies on `sha2::Sha256` through `Digest::digest`: the 32-byte SHA-256 digest.
#[verifier::external_body]
fn sha256(data: &[u8]) -> (r: Vec<u8>)
    ensures
        r@ == sha256_of(data@),
        r@.len() == 32,
{
    <sha2::Sha256 as sha2::Digest>::digest(data).to_vec()
}

/// Relies on `hmac::Hmac<sha2::Sha512>` (`new_from_slice`, `update`, `finalize`):
/// the 64-byte HMAC-SHA512 tag. `new_from_slice` accepts a key of any length.
#[verifier::external_body]
fn hmac_sha512(key: &[u8], data: &[u8]) -> (r: Vec<u8>)
    ensures
        r@ == hmac_sha512_of(key@, data@),
        r@.len() == 64,
{
    let mut mac = <hmac::Hmac<sha2::Sha512> as hmac::Mac>::new_from_slice(key).expect("HMAC takes a key of any length");
    hmac::Mac::update(&mut mac, data);
    hmac::Mac::finalize(mac).into_bytes().to_vec()
}

/// Relies on `base64::Engine::encode` with the `STANDARD` engine: padded base64,
/// four characters for each started group of three bytes, which `decode`
/// with the same engine turns back into the input.
#[verifier::external_body]
fn base64_encode(data: &[u8]) -> (r: String)
    requires
        data@.len() <= usize::MAX / 2,
    ensures
        r@ == base64_of(data@),
        r@.len() == 4 * ((data@.len() + 2) / 3),
        base64_decoded(r@) == Some(data@),
{
    base64::Engine::encode(&base64::engine::general_purpose::STANDARD, data)
}

/// Relies on `base64::Engine::decode` with the `STANDARD` engine.
#[verifier::external_body]
fn base64_decode(text: &str) -> (r: Result<Vec<u8>, base64::DecodeError>)
    ensures
        match r {
            Ok(v) => base64_decoded(text@) == Some(v@),
            Err(_) => base64_decoded(text@) is None,
        },
{
    base64::Engine::decode(&base64::engine::general_purpose::STANDARD, text)
}

/// The message whose SHA-256 digest is signed: the nonce in decimal followed
/// by the request body, as UTF-8.
pub open spec fn nonce_message(nonce: nat, body: Seq<char>) -> Seq<u8> {
    encode_utf8(decimal(nonce) + body)
}

/// The input to the HMAC: the URL path as UTF-8 followed by the digest.
pub open spec fn signing_input(url_path: Seq<char>, digest: Seq<u8>) -> Seq<u8> {
    encode_utf8(url_path) + digest
}

/// The signature of a request under the raw secret `key`.
pub open spec fn signature_with_key(
    url_path: Seq<char>,
    body: Seq<char>,
    nonce: nat,
    key: Seq<u8>,
) -> Seq<char> {
    base64_of(hmac_sha512_of(key, signing_input(url_path, sha256_of(nonce_message(nonce, body)))))
}

/// The signature of a request under the base64-encoded secret, or `None` where
/// the secret does not decode.
pub open spec fn signature_of(
    url_path: Seq<char>,
    body: Seq<char>,
    nonce: nat,
    secret: Seq<char>,
) -> Option<Seq<char>> {
    match base64_decoded(secret) {
        Some(key) => Some(signature_with_key(url_path, body, nonce, key)),
        None => None,
    }
}

/// Signing is deterministic: the same path, body, nonce and secret always
/// give the same outcome, signature or failure.
pub proof fn lemma_signature_deterministic(
    url_path: Seq<char>,
    body: Seq<char>,
    nonce: nat,
    secret: Seq<char>,
    other_path: Seq<char>,
    other_body: Seq<char>,
    other_nonce: nat,
    other_secret: Seq<char>,
)
    requires
        url_path == other_path,
        body == other_body,
        nonce == other_nonce,
        secret == other_secret,
    ensures
        signature_of(url_path, body, nonce, secret) == signature_of(
            other_path,
            other_body,
            other_nonce,
            other_secret,
        ),
{
}

/// UTF-8 encoding loses nothing: distinct texts have distinct encodings.
pub proof fn lemma_encode_utf8_injective(a: Seq<char>, b: Seq<char>)
    requires
        encode_utf8(a) == encode_utf8(b),
    ensures
        a == b,
{
    vstd::utf8::encode_utf8_decode_utf8(a);
    vstd::utf8::encode_utf8_decode_utf8(b);
}

/// Two requests that differ only in their body hand distinct messages to SHA-256.
pub proof fn lemma_body_changes_message(nonce: nat, body: Seq<char>, other_body: Seq<char>)
    requires
        body != other_body,
    ensures
        nonce_message(nonce, body) != nonce_message(nonce, other_body),
{
    if nonce_message(nonce, body) == nonce_message(nonce, other_body) {
        let d = decimal(nonce);
        lemma_encode_utf8_injective(d + body, d + other_body);
        assert((d + body).subrange(d.len() as int, (d + body).len() as int) =~= body);
        assert((d + other_body).subrange(d.len() as int, (d + other_body).len() as int) =~= other_body);
    }
}

/// Two requests that differ only in their nonce hand distinct messages to SHA-256.
pub proof fn lemma_nonce_changes_message(nonce: nat, other_nonce: nat, body: Seq<char>)
    requires
        nonce != other_nonce,
    ensures
        nonce_message(nonce, body) != nonce_message(other_nonce, body),
{
    if nonce_message(nonce, body) == nonce_message(other_nonce, body) {
        let (d, e) = (decimal(nonce), decimal(other_nonce));
        lemma_encode_utf8_injective(d + body, e + body);
        assert((d + body).subrange(0, d.len() as int) =~= d);
        assert((e + body).subrange(0, e.len() as int) =~= e);
        crate::decimal::lemma_decimal_injective(nonce, other_nonce);
    }
}

/// Two requests that differ only in their URL path hand distinct inputs to the
/// HMAC, whatever the digest.
pub proof fn lemma_path_changes_signing_input(url_path: Seq<char>, other_path: Seq<char>, digest: Seq<u8>)
    requires
        url_path != other_path,
    ensures
        signing_input(url_path, digest) != signing_input(other_path, digest),
{
    if signing_input(url_path, digest) == signing_input(other_path, digest) {
        let (a, b) = (encode_utf8(url_path), encode_utf8(other_path));
        assert((a + digest).subrange(0, a.len() as int) =~= a);
        assert((b + digest).subrange(0, b.len() as int) =~= b);
        lemma_encode_utf8_injective(url_path, other_path);
    }
}

/// The bytes of `nonce_message`.
pub fn nonce_message_bytes(nonce: u128, body: &str) -> (r: Vec<u8>)
    ensures
        r@ == nonce_message(nonce as nat, body@),
{
    let mut text = decimal_string(nonce);
    text.append(body);
    text.as_str().as_bytes_vec()
}

/// The bytes of `signing_input`.
pub fn signing_input_bytes(url_path: &str, digest: &[u8]) -> (r: Vec<u8>)
    ensures
        r@ == signing_input(url_path@, digest@),
{
    let mut input = url_path.as_bytes_vec();
    input.extend_from_slice(digest);
    input
}

/// Signs a request with the raw (already decoded) secret `key`.
pub fn sign_with_key(url_path: &str, body: &str, nonce: u128, key: &[u8]) -> (r: String)
    ensures
        r@ == signature_with_key(url_path@, body@, nonce as nat, key@),
        r@.len() == 88,
        base64_decoded(r@) matches Some(tag) && tag.len() == 64,
{
    let digest = sha256(nonce_message_bytes(nonce, body).as_slice());
    let input = signing_input_bytes(url_path, digest.as_slice());
    let tag = hmac_sha512(key, input.as_slice());
    base64_encode(tag.as_slice())
}

/// The `API-Sign` value of a private request: HMAC-SHA512, under the decoded
/// secret, of the URL path followed by SHA-256 of the nonce and the body; in base64.
/// Fails only where the secret is not valid base64.
pub fn get_signature(url_path: &str, data: &str, nonce: u128, secret: &str) -> (r: Result<
    String,
    Error,
>)
    ensures
        match signature_of(url_path@, data@, nonce as nat, secret@) {
            Some(s) => r is Ok && r->Ok_0@ == s,
            None => r is Err && r->Err_0 is Base64DecodeError,
        },
        r is Ok ==> r->Ok_0@.len() == 88,
        r is Ok ==> (base64_decoded(r->Ok_0@) matches Some(tag) && tag.len() == 64),
{
    match base64_decode(secret) {
        Ok(key) => Ok(sign_with_key(url_path, data, nonce, key.as_slice())),
        Err(e) => Err(Error::Base64DecodeError(e)),
    }
}

} // verus!

verus! {

/// Marks `std::time::SystemTime` as a type that signatures may carry.
#[verifier::external_type_specification]
#[verifier::external_body]
pub struct ExSystemTime(std::time::SystemTime);

/// Relies on `SystemTime::now`: the current time, of which nothing is known.
pub assume_specification[ std::time::SystemTime::now ]() -> std::time::SystemTime;

/// Relies on `SystemTime::duration_since`: fails where `earlier` is later than the time.
pub assume_specification[ std::time::SystemTime::duration_since ](
    t: &std::time::SystemTime,
    earlier: std::time::SystemTime,
) -> Result<core::time::Duration, std::time::SystemTimeError>;

/// Relies on `Duration::as_millis`: the whole milliseconds of the duration.
pub assume_specification[ core::time::Duration::as_millis ](d: &core::time::Duration) -> u128;

/// Relies on `std::time::UNIX_EPOCH`: the time value of the Unix epoch.
#[verifier::external_body]
fn unix_epoch() -> std::time::SystemTime {
    std::time::UNIX_EPOCH
}

/// The nonce of a private request: milliseconds since the Unix epoch.
/// The only failure is a clock that reads a time before the epoch.
pub fn nonce() -> (r: Result<u128, Error>)
    ensures
        r is Err ==> r->Err_0 is SystemTimeError,
{
    let now = std::time::SystemTime::now();
    match now.duration_since(unix_epoch()) {
        Ok(elapsed) => Ok(elapsed.as_millis()),
        Err(e) => Err(Error::SystemTimeError(e)),
    }
}

} // verus!
