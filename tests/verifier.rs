use base64::Engine;
use dkim_verifier::checks::{verify_body, verify_signature, MalformedInputError};
use dkim_verifier::claim::extract_claim;
use dkim_verifier::record::{default_trusted_suffixes, evaluate, EmailAuthenticationRecord, VerificationOutput};
use dkim_verifier::sender::verify_from_address;
use dkim_verifier::subject::verify_subject_marker;

const SIGNER_KEY: &str = "-----BEGIN PUBLIC KEY-----\nMIIBIjANBgkqhkiG9w0BAQEFAAOCAQ8AMIIBCgKCAQEAm+eJ4TxjBLMW+JhptdNK\n4lUPJAsQduTSF4WBgBu59OZj/gmn/bKL2e6pn2toX4QK4y8HxbRMuqqHCryDIGrc\n9CDOgGxkAqf93K4TmR6wsL0Ip3Qg2aqcScvtX4AonfWhHvZpK2EV/9VQE9L5PyLo\nUMSqx6krd/d0sokZWKikzqIBM6Fv5eeGbsQDpLqVHhwZ5ACzVgv2y+NBISYxkng7\n5RNpQMcirR/UUlFxDcyabys55wtbQZi1WYn7MiUtnWh9LlgE9mIz2/3h8/5GOFd1\nRrw6WB3SrIwTNAbHSRYKmvfyRXY66G2FR0nErdQQU1Nc8Vi6Qp0ND9g9EYy1xNRa\nAQIDAQAB\n-----END PUBLIC KEY-----\n";

const OTHER_KEY: &str = "-----BEGIN PUBLIC KEY-----\nMIIBIjANBgkqhkiG9w0BAQEFAAOCAQ8AMIIBCgKCAQEA3JvV/FpOuvyK9Jbv8BQO\nvwb0dsntoEGc+UNd+tZ1sOySq4/2uiqD5k3xyDvuvRqkKUIcinOo4VYijhr89Jee\nWIXXTkAI7FSizZJ3PAwQfo/S6By7K1TZLvAEIqfPN0fz7i5VM7H+ofgNHWJAVLH3\nXdMz/0BQvofycDqGTb/XRLqAZejW/ofXlk5CyBefICITtlsdavABFGkZWNfJcZjj\ntRVGMwz4ACCI6Zxiek9f1W1tZOMEXGhCUluNi+70tBlZCAJBFJPJkO7sSltJRszo\ng1zjHCwuY6OQNugfheYz5pRAVvk0/JTMA8MbOOIOzG3g/XD4v98iwJbWILGKEoQN\nfQIDAQAB\n-----END PUBLIC KEY-----\n";

const HEADERS: &str = "to:bob@example.com\r\nfrom:X Support <info@x.com>\r\nsubject:Password reset request\r\ndkim-signature:v=1; a=rsa-sha256; d=x.com; s=dkim; b=";

const BODY: &str = "Reset your password.\r\nThis email was meant for @alice_01 and nobody else.\r\n";

const SIGNATURE: &str = "CxJtteyHkZ2+uVjHAMtMm3sSfnIN0ToDrAshDxDXPDEMpkGtSHowCO7z9VJQZlN3g5dsaRDSCnPVM8B/tFyurPFDZJo+G2229LREZz4TKxfdZuf0BLU5GoDIDDWxdrTpYIgAJiQulSm4nbHC1YXZkLpFkTibG760PKoN4c7T8ZzZ24TdEV1tOEQi5H7DqYchcoxrc87Ng5JCgcm6WnOjuBdslVcU72y+kNdvkERBtX7yf5pOgBbee/es6ukvFgqlz3FUrAouDeZ/mrauDusHmvoz7vJlYIISYeqKfV3jTbHIqDN7kjabW+xYwg2b4wSj0I2NsgAmoMe02jGJHIBDsA==";

const BODY_HASH: &str = "D2rCFDa1AngiU6MbIrJ17NmAxIo30MV5ITzKx8/VpX8=";

fn x_com() -> Vec<String> {
    vec!["@x.com".to_string()]
}

fn valid_record() -> EmailAuthenticationRecord {
    EmailAuthenticationRecord {
        public_key: SIGNER_KEY.to_string(),
        signature: SIGNATURE.to_string(),
        headers: HEADERS.to_string(),
        body: BODY.to_string(),
        body_hash: BODY_HASH.to_string(),
        signing_domain: "x.com".to_string(),
        selector: "dkim".to_string(),
        algo: "rsa-sha256".to_string(),
        format: "relaxed/relaxed".to_string(),
        modulus_length: 2048,
    }
}

fn flip_first_char(s: &str) -> String {
    let mut bytes = s.as_bytes().to_vec();
    bytes[0] = if bytes[0] == b'A' { b'B' } else { b'A' };
    String::from_utf8(bytes).unwrap()
}

#[test]
fn body_hash_of_own_digest_accepted() {
    assert!(verify_body(BODY, BODY_HASH));
    assert!(verify_body("", "47DEQpj8HBSa+/TImW+5JCeuQeRkm5NMpJWZG3hSuFU="));
    assert!(verify_body("hello", "LPJNul+wow4m6DsqxbninhsWHlwfp0JecwQzYpOLmCQ="));
}

#[test]
fn body_hash_single_byte_change_refused() {
    assert!(!verify_body("hellp", "LPJNul+wow4m6DsqxbninhsWHlwfp0JecwQzYpOLmCQ="));
    assert!(!verify_body("hello ", "LPJNul+wow4m6DsqxbninhsWHlwfp0JecwQzYpOLmCQ="));
    assert!(!verify_body(BODY, "47DEQpj8HBSa+/TImW+5JCeuQeRkm5NMpJWZG3hSuFU="));
}

#[test]
fn body_hash_compared_exactly() {
    let lower = BODY_HASH.to_lowercase();
    assert!(!verify_body(BODY, &lower));
    let unpadded = BODY_HASH.trim_end_matches('=');
    assert!(!verify_body(BODY, unpadded));
}

#[test]
fn signature_by_signer_accepted() {
    assert_eq!(verify_signature(HEADERS, SIGNATURE, SIGNER_KEY), Ok(true));
}

#[test]
fn signature_with_flipped_bit_refused() {
    let mut sig = base64_decode_for_test(SIGNATURE);
    sig[10] ^= 0x01;
    let flipped = base64_encode_for_test(&sig);
    assert_eq!(verify_signature(HEADERS, &flipped, SIGNER_KEY), Ok(false));
}

#[test]
fn signature_under_other_key_refused() {
    assert_eq!(verify_signature(HEADERS, SIGNATURE, OTHER_KEY), Ok(false));
}

#[test]
fn signature_over_changed_headers_refused() {
    let changed = HEADERS.replace("info@x.com", "info@y.com");
    assert_eq!(verify_signature(&changed, SIGNATURE, SIGNER_KEY), Ok(false));
}

#[test]
fn signature_not_base64_is_malformed() {
    assert_eq!(
        verify_signature(HEADERS, "not base64!!", SIGNER_KEY),
        Err(MalformedInputError::Signature)
    );
}

#[test]
fn public_key_not_pem_is_malformed() {
    assert_eq!(
        verify_signature(HEADERS, SIGNATURE, "-----BEGIN PUBLIC KEY-----\nxyz\n-----END PUBLIC KEY-----\n"),
        Err(MalformedInputError::PublicKey)
    );
    assert_eq!(verify_signature(HEADERS, "not base64!!", ""), Err(MalformedInputError::PublicKey));
}

#[test]
fn short_signature_refused() {
    assert_eq!(verify_signature(HEADERS, "AAAA", SIGNER_KEY), Ok(false));
}

#[test]
fn from_single_trusted_line_accepted() {
    assert!(verify_from_address("to:a@b.c\r\nfrom:X <info@x.com>\r\nsubject:s", &x_com()));
    assert!(verify_from_address("to:a@b.c\r\nfrom:<info@x.com>", &x_com()));
}

#[test]
fn from_missing_refused() {
    assert!(!verify_from_address("to:a@b.c\r\nsubject:s", &x_com()));
    assert!(!verify_from_address("", &x_com()));
    // The first line has no line break before it.
    assert!(!verify_from_address("from:X <info@x.com>\r\nto:a@b.c", &x_com()));
    // No angle brackets on the line.
    assert!(!verify_from_address("to:a\r\nfrom:info@x.com\r\nx:<a@x.com>", &x_com()));
}

#[test]
fn from_twice_refused() {
    let h = "to:a\r\nfrom:A <a@x.com>\r\nfrom:B <b@x.com>";
    assert!(!verify_from_address(h, &x_com()));
    let h = "to:a\r\nfrom:A <a@evil.com>\r\nfrom:B <b@x.com>";
    assert!(!verify_from_address(h, &x_com()));
}

#[test]
fn from_other_domain_refused() {
    assert!(!verify_from_address("to:a\r\nfrom:A <a@evil.com>", &x_com()));
    assert!(!verify_from_address("to:a\r\nfrom:A <a@x.com.evil>", &x_com()));
    assert!(!verify_from_address("to:a\r\nfrom:A <a@box.com>", &x_com()));
}

#[test]
fn from_takes_first_bracketed_address() {
    assert!(!verify_from_address("to:a\r\nfrom:A <a@evil.com> <b@x.com>", &x_com()));
    assert!(verify_from_address("to:a\r\nfrom:A <a@x.com> <b@evil.com>", &x_com()));
    // An empty pair of brackets takes the `>` as the first address byte.
    assert!(verify_from_address("to:a\r\nfrom:A <>b@x.com>", &x_com()));
}

#[test]
fn from_header_name_is_lower_case() {
    assert!(!verify_from_address("to:a\r\nFrom:A <a@x.com>", &x_com()));
}

#[test]
fn from_allow_list_of_suffixes() {
    let list = vec!["@y.org".to_string(), "@x.com".to_string()];
    assert!(verify_from_address("to:a\r\nfrom:A <a@x.com>", &list));
    assert!(verify_from_address("to:a\r\nfrom:A <a@y.org>", &list));
    assert!(!verify_from_address("to:a\r\nfrom:A <a@z.net>", &list));
    assert!(!verify_from_address("to:a\r\nfrom:A <a@x.com>", &Vec::new()));
}

#[test]
fn default_suffix_is_x_com() {
    assert_eq!(default_trusted_suffixes(), vec!["@x.com".to_string()]);
}

#[test]
fn subject_exact_line_accepted() {
    assert!(verify_subject_marker("to:a\r\nsubject:Password reset request\r\nx:y"));
    assert!(verify_subject_marker("to:a\r\nsubject:Password reset request"));
}

#[test]
fn subject_other_phrasing_refused() {
    assert!(!verify_subject_marker("to:a\r\nSubject: password reset request\r\nx:y"));
    assert!(!verify_subject_marker("to:a\r\nsubject:password reset request\r\nx:y"));
    assert!(!verify_subject_marker("to:a\r\nsubject: Password reset request\r\nx:y"));
    assert!(!verify_subject_marker("to:a\r\nsubject:Password reset requested\r\nx:y"));
    assert!(!verify_subject_marker("subject:Password reset request\r\nx:y"));
    assert!(!verify_subject_marker(""));
}

#[test]
fn claim_token_extracted() {
    let body = "...This email was meant for @alice and nobody else...";
    assert_eq!(extract_claim(body), "@alice");
    assert_eq!(extract_claim(BODY), "@alice_01");
}

#[test]
fn claim_missing_is_empty() {
    assert_eq!(extract_claim("Hello, reset your password."), "");
    assert_eq!(extract_claim(""), "");
    assert_eq!(extract_claim("This email was meant for alice"), "");
    assert_eq!(extract_claim("This email was meant for @"), "");
    assert_eq!(extract_claim("This email was meant for @ bob"), "");
}

#[test]
fn claim_first_match_only() {
    let body = "This email was meant for @bob. This email was meant for @carol.";
    assert_eq!(extract_claim(body), "@bob");
    let body = "This email was meant for @!. This email was meant for @carol.";
    assert_eq!(extract_claim(body), "@carol");
    assert_eq!(extract_claim("This email was meant for @a-b"), "@a");
}

#[test]
fn valid_record_proves_claim() {
    let out = evaluate(&valid_record(), &default_trusted_suffixes()).unwrap();
    assert_eq!(
        out,
        VerificationOutput {
            body_verified: true,
            signature_verified: true,
            from_address_verified: true,
            subject_marker_verified: true,
            extracted_claim: "@alice_01".to_string(),
            claim_proven: true,
        }
    );
}

#[test]
fn bad_body_hash_not_proven() {
    let mut r = valid_record();
    r.body_hash = flip_first_char(BODY_HASH);
    let out = evaluate(&r, &x_com()).unwrap();
    assert!(!out.body_verified);
    assert!(out.signature_verified && out.from_address_verified && out.subject_marker_verified);
    assert_eq!(out.extracted_claim, "@alice_01");
    assert!(!out.claim_proven);
}

#[test]
fn bad_signature_not_proven() {
    let mut r = valid_record();
    r.public_key = OTHER_KEY.to_string();
    let out = evaluate(&r, &x_com()).unwrap();
    assert!(!out.signature_verified);
    assert!(out.body_verified && out.from_address_verified && out.subject_marker_verified);
    assert!(!out.claim_proven);
}

#[test]
fn untrusted_sender_not_proven() {
    let out = evaluate(&valid_record(), &vec!["@y.org".to_string()]).unwrap();
    assert!(!out.from_address_verified);
    assert!(out.body_verified && out.signature_verified && out.subject_marker_verified);
    assert!(!out.claim_proven);
}

#[test]
fn missing_subject_not_proven() {
    let mut r = valid_record();
    r.headers = HEADERS.replace("Password reset request", "Password changed");
    let out = evaluate(&r, &x_com()).unwrap();
    assert!(!out.subject_marker_verified);
    assert!(!out.signature_verified);
    assert!(out.body_verified && out.from_address_verified);
    assert!(!out.claim_proven);
}

#[test]
fn missing_claim_not_proven() {
    let body = "Reset your password.\r\n";
    let mut r = valid_record();
    r.body = body.to_string();
    r.body_hash = "sPZ8FgjjbMCpNdfTHTP2NcVzj2Di4VnMhHx/S+iyZ68=".to_string();
    let out = evaluate(&r, &x_com()).unwrap();
    assert!(out.body_verified && out.signature_verified);
    assert!(out.from_address_verified && out.subject_marker_verified);
    assert_eq!(out.extracted_claim, "");
    assert!(!out.claim_proven);
}

#[test]
fn malformed_record_is_error() {
    let mut r = valid_record();
    r.signature = "%%%".to_string();
    assert_eq!(evaluate(&r, &x_com()), Err(MalformedInputError::Signature));
    let mut r = valid_record();
    r.public_key = "not a key".to_string();
    assert_eq!(evaluate(&r, &x_com()), Err(MalformedInputError::PublicKey));
}

#[test]
fn combine_requires_every_check() {
    let all = VerificationOutput::combine(true, true, true, true, "@a".to_string());
    assert!(all.claim_proven);
    assert!(!VerificationOutput::combine(false, true, true, true, "@a".to_string()).claim_proven);
    assert!(!VerificationOutput::combine(true, false, true, true, "@a".to_string()).claim_proven);
    assert!(!VerificationOutput::combine(true, true, false, true, "@a".to_string()).claim_proven);
    assert!(!VerificationOutput::combine(true, true, true, false, "@a".to_string()).claim_proven);
    let empty = VerificationOutput::combine(true, true, true, true, String::new());
    assert!(!empty.claim_proven);
    assert_eq!(empty.extracted_claim, "");
}

fn base64_decode_for_test(s: &str) -> Vec<u8> {
    base64::prelude::BASE64_STANDARD.decode(s).unwrap()
}

fn base64_encode_for_test(b: &[u8]) -> String {
    base64::prelude::BASE64_STANDARD.encode(b)
}
