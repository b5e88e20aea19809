//! The record read from a DKIM-signed email, and the output of its
//! verification.
use vstd::prelude::*;
use vstd::utf8::encode_utf8;
use crate::checks::{body_hash_accepted, signature_result, verify_body, verify_signature, MalformedInputError};
use crate::claim::{claim_phrase, claim_token, extract_claim, lemma_no_phrase_empty_claim};
use crate::sender::{sender_trusted, verify_from_address};
use crate::subject::{has_subject_marker, verify_subject_marker};
use crate::text::{chars_of, occurs_at};

verus! {

/// The DKIM fields of one email, as an upstream extractor wrote them.
/// `signing_domain`, `selector`, `algo`, `format` and `modulus_length` are
/// carried along and not checked here.
pub struct EmailAuthenticationRecord {
    /// The signer's RSA public key, SubjectPublicKeyInfo in PEM.
    pub public_key: String,
    /// The RSA signature over the headers, in base64.
    pub signature: String,
    /// The canonicalized header block, lines joined by CRLF.
    pub headers: String,
    /// The canonicalized body, as it was signed.
    pub body: String,
    /// The base64 SHA-256 digest of the body that the signature declares.
    pub body_hash: String,
    pub signing_domain: String,
    pub selector: String,
    pub algo: String,
    pub format: String,
    pub modulus_length: u32,
}

/// The results of one verification, in their fixed order.
#[derive(Debug, PartialEq, Eq)]
pub struct VerificationOutput {
    pub body_verified: bool,
    pub signature_verified: bool,
    pub from_address_verified: bool,
    pub subject_marker_verified: bool,
    pub extracted_claim: String,
    pub claim_proven: bool,
}

/// The claim is proven: every check passed and a claim was found.
pub open spec fn claim_proven_of(
    body_verified: bool,
    signature_verified: bool,
    from_address_verified: bool,
    subject_marker_verified: bool,
    claim: Seq<char>,
) -> bool {
    body_verified && signature_verified && from_address_verified && subject_marker_verified
        && claim.len() > 0
}

impl VerificationOutput {
    /// The output for the given check results and claim.
    pub fn combine(
        body_verified: bool,
        signature_verified: bool,
        from_address_verified: bool,
        subject_marker_verified: bool,
        extracted_claim: String,
    ) -> (r: VerificationOutput)
        ensures
            r.body_verified == body_verified,
            r.signature_verified == signature_verified,
            r.from_address_verified == from_address_verified,
            r.subject_marker_verified == subject_marker_verified,
            r.extracted_claim@ == extracted_claim@,
            r.claim_proven == claim_proven_of(
                body_verified,
                signature_verified,
                from_address_verified,
                subject_marker_verified,
                extracted_claim@,
            ),
    {
        let claim_proven = body_verified && signature_verified && from_address_verified
            && subject_marker_verified && !extracted_claim.as_str().is_empty();
        VerificationOutput {
            body_verified,
            signature_verified,
            from_address_verified,
            subject_marker_verified,
            extracted_claim,
            claim_proven,
        }
    }
}

/// `o` holds what each check gives on the record, with `signature_verified`
/// as the signature's verdict, and the claim is proven as `claim_proven_of`
/// says.
pub open spec fn is_output_of(
    o: VerificationOutput,
    record: EmailAuthenticationRecord,
    trusted_suffixes: Seq<String>,
    signature_verified: bool,
) -> bool {
    &&& o.body_verified == body_hash_accepted(encode_utf8(record.body@), record.body_hash@)
    &&& o.signature_verified == signature_verified
    &&& o.from_address_verified == sender_trusted(encode_utf8(record.headers@), trusted_suffixes)
    &&& o.subject_marker_verified == has_subject_marker(encode_utf8(record.headers@))
    &&& o.extracted_claim@ == chars_of(claim_token(encode_utf8(record.body@)))
    &&& o.claim_proven == claim_proven_of(
        o.body_verified,
        o.signature_verified,
        o.from_address_verified,
        o.subject_marker_verified,
        o.extracted_claim@,
    )
}

/// The suffix that the sender's address must end with where no other list
/// is given.
pub fn default_trusted_suffixes() -> (r: Vec<String>)
    ensures
        r@.len() == 1,
        r@[0]@ == "@x.com"@,
{
    let mut r: Vec<String> = Vec::new();
    r.push("@x.com".to_owned());
    r
}

/// Verifies a record: the body hash, the signature, the sender, the subject
/// line and the claim, every one of them computed. A key or signature that
/// cannot be decoded is an error.
pub fn evaluate(record: &EmailAuthenticationRecord, trusted_suffixes: &Vec<String>) -> (r: Result<
    VerificationOutput,
    MalformedInputError,
>)
    ensures
        match signature_result(
            record.public_key@,
            encode_utf8(record.headers@),
            record.signature@,
        ) {
            Err(e) => r == Err::<VerificationOutput, MalformedInputError>(e),
            Ok(signature_verified) => r matches Ok(o) && is_output_of(
                o,
                *record,
                trusted_suffixes@,
                signature_verified,
            ),
        },
{
    let body_verified = verify_body(record.body.as_str(), record.body_hash.as_str());
    let signature = verify_signature(
        record.headers.as_str(),
        record.signature.as_str(),
        record.public_key.as_str(),
    );
    let from_address_verified = verify_from_address(record.headers.as_str(), trusted_suffixes);
    let subject_marker_verified = verify_subject_marker(record.headers.as_str());
    let claim = extract_claim(record.body.as_str());
    match signature {
        Ok(signature_verified) => Ok(
            VerificationOutput::combine(
                body_verified,
                signature_verified,
                from_address_verified,
                subject_marker_verified,
                claim,
            ),
        ),
        Err(e) => Err(e),
    }
}

/// A claim is proven only with every check passed and a claim found: turning
/// any one check to failure, or emptying the claim, leaves it unproven.
pub proof fn lemma_each_check_needed(
    body_verified: bool,
    signature_verified: bool,
    from_address_verified: bool,
    subject_marker_verified: bool,
    claim: Seq<char>,
)
    requires
        claim_proven_of(
            body_verified,
            signature_verified,
            from_address_verified,
            subject_marker_verified,
            claim,
        ),
    ensures
        body_verified && signature_verified && from_address_verified && subject_marker_verified,
        claim.len() > 0,
        !claim_proven_of(false, signature_verified, from_address_verified, subject_marker_verified, claim),
        !claim_proven_of(body_verified, false, from_address_verified, subject_marker_verified, claim),
        !claim_proven_of(body_verified, signature_verified, false, subject_marker_verified, claim),
        !claim_proven_of(body_verified, signature_verified, from_address_verified, false, claim),
        !claim_proven_of(
            body_verified,
            signature_verified,
            from_address_verified,
            subject_marker_verified,
            Seq::empty(),
        ),
{
}

/// A body without the claim phrase leaves the claim unproven, whatever the
/// other checks give.
pub proof fn lemma_no_phrase_not_proven(
    body: Seq<u8>,
    body_verified: bool,
    signature_verified: bool,
    from_address_verified: bool,
    subject_marker_verified: bool,
)
    requires
        forall|i: int| !occurs_at(body, i, claim_phrase()),
    ensures
        chars_of(claim_token(body)).len() == 0,
        !claim_proven_of(
            body_verified,
            signature_verified,
            from_address_verified,
            subject_marker_verified,
            chars_of(claim_token(body)),
        ),
{
    lemma_no_phrase_empty_claim(body);
}

} // verus!
