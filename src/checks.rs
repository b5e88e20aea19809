//! The two cryptographic checks of a record: the body hash and the
//! signature over the headers.
use vstd::prelude::*;
use vstd::utf8::encode_utf8;
use crate::crypto::{
    base64_bytes_of, base64_decode, base64_encode, base64_text_of, pkcs1v15_accepts,
    pkcs1v15_verify, rsa_public_key_pem_valid, sha256, sha256_of, PublicKey,
};
use crate::text::utf8_bytes;

verus! {

/// The length of a SHA-256 digest in bytes.
pub const SHA256_LEN: usize = 32;

/// The DER DigestInfo prefix that names SHA-256 (OID 2.16.840.1.101.3.4.2.1)
/// in an RSASSA-PKCS1-v1.5 signature.
pub open spec fn sha256_digest_info_prefix() -> Seq<u8> {
    seq![
        0x30u8, 0x31, 0x30, 0x0d, 0x06, 0x09, 0x60, 0x86, 0x48, 0x01, 0x65, 0x03, 0x04, 0x02, 0x01,
        0x05, 0x00, 0x04, 0x20,
    ]
}

/// The DigestInfo prefix that names SHA-256.
pub fn sha256_prefix() -> (r: Vec<u8>)
    ensures
        r@ == sha256_digest_info_prefix(),
{
    let r = vec![
        0x30u8, 0x31, 0x30, 0x0d, 0x06, 0x09, 0x60, 0x86, 0x48, 0x01, 0x65, 0x03, 0x04, 0x02, 0x01,
        0x05, 0x00, 0x04, 0x20,
    ];
    assert(r@ =~= sha256_digest_info_prefix());
    r
}

/// The body hash check over bytes: the base64 of the SHA-256 digest of the
/// body is the expected text.
pub open spec fn body_hash_accepted(body: Seq<u8>, expected: Seq<char>) -> bool {
    base64_text_of(sha256_of(body)) == expected
}

/// Whether a computed base64 digest is, character for character, the
/// expected one.
pub fn digest_text_matches(computed: &String, expected: &str) -> (r: bool)
    ensures
        r == (computed@ == expected@),
{
    let expected_owned = expected.to_owned();
    *computed == expected_owned
}

/// Whether the base64 (standard, padded) of the SHA-256 digest of the body's
/// bytes is exactly `expected_base64_digest`.
pub fn verify_body(body: &str, expected_base64_digest: &str) -> (r: bool)
    ensures
        r == body_hash_accepted(encode_utf8(body@), expected_base64_digest@),
{
    let digest = sha256(utf8_bytes(body));
    let computed = base64_encode(digest.as_slice());
    digest_text_matches(&computed, expected_base64_digest)
}

/// Input that is not well formed: the pipeline stops on it.
#[derive(Debug, Clone, Copy, PartialEq, Eq, Structural)]
pub enum MalformedInputError {
    /// The public key is not a SubjectPublicKeyInfo PEM text.
    PublicKey,
    /// The signature is not standard, padded base64.
    Signature,
}

/// The signature check over bytes: the key read from `pem` accepts the
/// signature over the SHA-256 digest of the headers.
pub open spec fn signature_accepted(pem: Seq<char>, headers: Seq<u8>, signature: Seq<u8>) -> bool {
    pkcs1v15_accepts(pem, sha256_digest_info_prefix(), SHA256_LEN as nat, sha256_of(headers), signature)
}

/// What `verify_signature` returns for a key text, headers and signature text.
pub open spec fn signature_result(
    pem: Seq<char>,
    headers: Seq<u8>,
    signature_b64: Seq<char>,
) -> Result<bool, MalformedInputError> {
    if !rsa_public_key_pem_valid(pem) {
        Err(MalformedInputError::PublicKey)
    } else {
        match base64_bytes_of(signature_b64) {
            None => Err(MalformedInputError::Signature),
            Some(sig) => Ok(signature_accepted(pem, headers, sig)),
        }
    }
}

/// Whether the key accepts an RSASSA-PKCS1-v1.5 signature with SHA-256 over
/// the given digest.
pub fn digest_signature_valid(key: &PublicKey, digest: &[u8], signature: &[u8]) -> (r: bool)
    ensures
        r == pkcs1v15_accepts(
            key.pem(),
            sha256_digest_info_prefix(),
            SHA256_LEN as nat,
            digest@,
            signature@,
        ),
{
    let prefix = sha256_prefix();
    pkcs1v15_verify(key, prefix.as_slice(), SHA256_LEN, digest, signature)
}

/// Checks the RSASSA-PKCS1-v1.5 SHA-256 signature, in base64, over the bytes
/// of the headers, with the key in PEM. A key or a signature that cannot be
/// decoded is an error; a signature that the key does not accept is `Ok(false)`.
pub fn verify_signature(headers: &str, signature_b64: &str, public_key_pem: &str) -> (r: Result<
    bool,
    MalformedInputError,
>)
    ensures
        r == signature_result(public_key_pem@, encode_utf8(headers@), signature_b64@),
{
    let digest = sha256(utf8_bytes(headers));
    let key = match PublicKey::from_pem(public_key_pem) {
        Some(k) => k,
        None => return Err(MalformedInputError::PublicKey),
    };
    let signature = match base64_decode(signature_b64) {
        Some(s) => s,
        None => return Err(MalformedInputError::Signature),
    };
    Ok(digest_signature_valid(&key, digest.as_slice(), signature.as_slice()))
}

/// Any body is accepted against the base64 of its own SHA-256 digest.
pub proof fn lemma_own_digest_accepted(body: Seq<u8>)
    ensures
        body_hash_accepted(body, base64_text_of(sha256_of(body))),
{
}

/// A key that cannot be read, or a signature that is not base64, gives the
/// malformed-input error and never a verdict.
pub proof fn lemma_malformed_input_is_error(pem: Seq<char>, headers: Seq<u8>, signature_b64: Seq<char>)
    requires
        !rsa_public_key_pem_valid(pem) || base64_bytes_of(signature_b64) is None,
    ensures
        signature_result(pem, headers, signature_b64) is Err,
{
}

} // verus!
