//! The cryptographic primitives, taken from the sha2, base64 and rsa crates.
//! Their results are named here and not restated.
use vstd::prelude::*;
use base64::Engine;
use rsa::pkcs8::DecodePublicKey;
use sha2::Digest;

verus! {

/// The SHA-256 digest of a byte sequence.
pub uninterp spec fn sha256_of(data: Seq<u8>) -> Seq<u8>;

/// The standard, padded base64 text of a byte sequence.
pub uninterp spec fn base64_text_of(data: Seq<u8>) -> Seq<char>;

/// The bytes that a standard, padded base64 text decodes to, or `None` where
/// the text is not such base64.
pub uninterp spec fn base64_bytes_of(text: Seq<char>) -> Option<Seq<u8>>;

/// Whether a text is the PEM form of an RSA public key (SubjectPublicKeyInfo).
pub uninterp spec fn rsa_public_key_pem_valid(pem: Seq<char>) -> bool;

/// Whether an RSASSA-PKCS1-v1.5 signature is accepted by the key whose PEM
/// text is `pem`, for the given DigestInfo prefix, digest length and digest.
pub uninterp spec fn pkcs1v15_accepts(
    pem: Seq<char>,
    prefix: Seq<u8>,
    hash_len: nat,
    hashed: Seq<u8>,
    signature: Seq<u8>,
) -> bool;

#[verifier::external_type_specification]
#[verifier::external_body]
pub struct ExRsaPublicKey(rsa::RsaPublicKey);

/// Relies on sha2::Sha256::digest: the 32-byte SHA-256 digest of the data.
#[verifier::external_body]
pub(crate) fn sha256(data: &[u8]) -> (r: Vec<u8>)
    ensures
        r@ == sha256_of(data@),
        r@.len() == 32,
{
    sha2::Sha256::digest(data).to_vec()
}

/// Relies on base64's STANDARD engine, `Engine::encode`: padded base64 with
/// the standard alphabet. It panics where the encoded length overflows.
#[verifier::external_body]
pub(crate) fn base64_encode(data: &[u8]) -> (r: String)
    requires
        data@.len() <= usize::MAX / 2,
    ensures
        r@ == base64_text_of(data@),
{
    base64::prelude::BASE64_STANDARD.encode(data)
}

/// Relies on base64's STANDARD engine, `Engine::decode`: the decoded bytes, or
/// an error where the text is not padded standard base64.
#[verifier::external_body]
pub(crate) fn base64_decode(text: &str) -> (r: Option<Vec<u8>>)
    ensures
        match r {
            Some(v) => base64_bytes_of(text@) == Some(v@),
            None => base64_bytes_of(text@) is None,
        },
{
    base64::prelude::BASE64_STANDARD.decode(text).ok()
}

/// Relies on rsa's `DecodePublicKey::from_public_key_pem` for `RsaPublicKey`:
/// a key where the text is a valid SubjectPublicKeyInfo PEM, an error otherwise.
#[verifier::external_body]
pub(crate) fn parse_public_key_pem(pem: &str) -> (r: Option<rsa::RsaPublicKey>)
    ensures
        r is Some == rsa_public_key_pem_valid(pem@),
{
    rsa::RsaPublicKey::from_public_key_pem(pem).ok()
}

/// An RSA public key, with the PEM text it was read from.
pub struct PublicKey {
    key: rsa::RsaPublicKey,
    pem: String,
}

impl PublicKey {
    /// The PEM text the key was read from.
    pub closed spec fn pem(&self) -> Seq<char> {
        self.pem@
    }

    /// Reads an RSA public key from its SubjectPublicKeyInfo PEM text.
    pub fn from_pem(pem: &str) -> (r: Option<PublicKey>)
        ensures
            r is Some == rsa_public_key_pem_valid(pem@),
            r matches Some(k) ==> k.pem() == pem@,
    {
        match parse_public_key_pem(pem) {
            Some(key) => Some(PublicKey { key, pem: pem.to_owned() }),
            None => None,
        }
    }
}

/// Relies on rsa's `RsaPublicKey::verify` with a `Pkcs1v15Sign` padding made of
/// `prefix` and `Some(hash_len)`: whether the signature is accepted. A key is
/// only made by `PublicKey::from_pem`, so the result is a function of the PEM
/// text it was read from.
#[verifier::external_body]
pub(crate) fn pkcs1v15_verify(
    key: &PublicKey,
    prefix: &[u8],
    hash_len: usize,
    hashed: &[u8],
    signature: &[u8],
) -> (r: bool)
    ensures
        r == pkcs1v15_accepts(key.pem(), prefix@, hash_len as nat, hashed@, signature@),
{
    let padding = rsa::Pkcs1v15Sign { hash_len: Some(hash_len), prefix: prefix.into() };
    key.key.verify(padding, hashed, signature).is_ok()
}

} // verus!
