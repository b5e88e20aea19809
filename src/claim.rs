//! The claim rule: the handle that follows the first
//! `This email was meant for ` in the body.
use vstd::prelude::*;
use vstd::utf8::encode_utf8;
use crate::text::{ascii_of, bytes_at, chars_of, literal_bytes, occurs_at, push_char, utf8_bytes};

verus! {

pub const AT_SIGN: u8 = 64;

/// The phrase that introduces the handle.
pub open spec fn claim_phrase() -> Seq<u8> {
    ascii_of("This email was meant for "@)
}

/// An ASCII letter, digit or underscore.
pub open spec fn is_word_byte(b: u8) -> bool {
    (48 <= b <= 57) || (65 <= b <= 90) || (97 <= b <= 122) || b == 95
}

/// The number of word bytes in a row from position `k`.
pub open spec fn word_run(s: Seq<u8>, k: int) -> nat
    decreases s.len() - k,
{
    if 0 <= k < s.len() && is_word_byte(s[k]) {
        1 + word_run(s, k + 1)
    } else {
        0
    }
}

/// A claim starts at `i`: the phrase, then `@`, then at least one word byte.
pub open spec fn claim_at(s: Seq<u8>, i: int) -> bool {
    let h = i + claim_phrase().len();
    occurs_at(s, i, claim_phrase()) && 0 <= h < s.len() && s[h] == AT_SIGN && word_run(s, h + 1) > 0
}

/// The first position at or after `i` where a claim starts.
pub open spec fn first_claim(s: Seq<u8>, i: int) -> Option<int>
    decreases s.len() - i,
{
    if i < 0 || i >= s.len() {
        None
    } else if claim_at(s, i) {
        Some(i)
    } else {
        first_claim(s, i + 1)
    }
}

/// The handle of the first claim, `@` and all its word bytes, or nothing.
pub open spec fn claim_token(s: Seq<u8>) -> Seq<u8> {
    match first_claim(s, 0) {
        Some(i) => {
            let h = i + claim_phrase().len();
            s.subrange(h, h + 1 + word_run(s, h + 1))
        },
        None => Seq::empty(),
    }
}

/// Whether `b` is an ASCII letter, digit or underscore.
pub fn word_byte(b: u8) -> (r: bool)
    ensures
        r == is_word_byte(b),
{
    (48 <= b && b <= 57) || (65 <= b && b <= 90) || (97 <= b && b <= 122) || b == 95
}

fn claim_phrase_bytes() -> (r: &'static [u8])
    ensures
        r@ == claim_phrase(),
        r@.len() == 25,
{
    proof {
        reveal_strlit("This email was meant for ");
    }
    literal_bytes("This email was meant for ")
}

/// The end of the run of word bytes that starts at `k`.
fn word_run_end(s: &[u8], k: usize) -> (r: usize)
    requires
        k <= s@.len(),
    ensures
        r == k + word_run(s@, k as int),
        r <= s@.len(),
{
    let mut j: usize = k;
    while j < s.len() && word_byte(s[j])
        invariant
            k <= j <= s@.len(),
            word_run(s@, k as int) == (j - k) + word_run(s@, j as int),
        decreases s.len() - j,
    {
        j += 1;
    }
    j
}

/// The handle that follows the first `This email was meant for ` in the body:
/// `@` and the letters, digits and underscores after it. Empty where no such
/// phrase is followed by `@` and at least one of them.
pub fn extract_claim(body: &str) -> (r: String)
    ensures
        r@ == chars_of(claim_token(encode_utf8(body@))),
{
    let s = utf8_bytes(body);
    let phrase = claim_phrase_bytes();
    let mut i: usize = 0;
    let mut start: Option<usize> = None;
    while i < s.len() && start.is_none()
        invariant
            s@ == encode_utf8(body@),
            phrase@ == claim_phrase(),
            phrase@.len() == 25,
            i <= s@.len(),
            start is None ==> first_claim(s@, 0) == first_claim(s@, i as int),
            start matches Some(h) ==> first_claim(s@, 0) == Some(h - 25) && 25 <= h && h
                + 1 < s@.len() && word_run(s@, h + 1) > 0,
        decreases s.len() - i,
    {
        if bytes_at(s, i, phrase) {
            let h = i + 25;
            if h < s.len() && s[h] == AT_SIGN && h + 1 < s.len() && word_byte(s[h + 1]) {
                assert(claim_at(s@, i as int));
                start = Some(h);
            }
        }
        i += 1;
    }
    let mut token = String::new();
    if let Some(h) = start {
        let end = word_run_end(s, h + 1);
        let mut j: usize = h;
        while j < end
            invariant
                h <= j <= end <= s@.len(),
                token@ == chars_of(s@.subrange(h as int, j as int)),
            decreases end - j,
        {
            push_char(&mut token, s[j] as char);
            assert(chars_of(s@.subrange(h as int, j + 1)) =~= chars_of(
                s@.subrange(h as int, j as int),
            ).push(s@[j as int] as char));
            j += 1;
        }
    } else {
        assert(chars_of(Seq::<u8>::empty()) =~= Seq::<char>::empty());
    }
    token
}

/// Where the phrase does not occur at `k` or later, no claim starts there.
proof fn lemma_no_phrase_no_claim_after(s: Seq<u8>, k: int)
    requires
        0 <= k,
        forall|i: int| k <= i ==> !occurs_at(s, i, claim_phrase()),
    ensures
        first_claim(s, k) is None,
    decreases s.len() - k,
{
    if k < s.len() {
        lemma_no_phrase_no_claim_after(s, k + 1);
    }
}

/// A body without the phrase yields an empty claim.
pub proof fn lemma_no_phrase_empty_claim(s: Seq<u8>)
    requires
        forall|i: int| !occurs_at(s, i, claim_phrase()),
    ensures
        claim_token(s).len() == 0,
{
    lemma_no_phrase_no_claim_after(s, 0);
}

} // verus!
