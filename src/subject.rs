//! The subject rule: the headers hold the exact line
//! `subject:Password reset request`, after a line break.
use vstd::prelude::*;
use vstd::utf8::encode_utf8;
use crate::text::{ascii_of, bytes_at, literal_bytes, occurs_at, utf8_bytes};

verus! {

/// The line break and subject line that mark a password reset request.
pub open spec fn subject_marker() -> Seq<u8> {
    ascii_of("\r\nsubject:Password reset request"@)
}

/// A line break.
pub open spec fn crlf() -> Seq<u8> {
    ascii_of("\r\n"@)
}

/// The marked subject line starts at `i` and is a whole line: the text ends
/// right after it, or a line break follows.
pub open spec fn subject_line_at(s: Seq<u8>, i: int) -> bool {
    occurs_at(s, i, subject_marker()) && (i + subject_marker().len() == s.len() || occurs_at(
        s,
        i + subject_marker().len(),
        crlf(),
    ))
}

/// The headers hold the marked subject line.
pub open spec fn has_subject_marker(s: Seq<u8>) -> bool {
    exists|i: int| subject_line_at(s, i)
}

fn subject_marker_bytes() -> (r: &'static [u8])
    ensures
        r@ == subject_marker(),
        r@.len() == 32,
{
    proof {
        reveal_strlit("\r\nsubject:Password reset request");
    }
    literal_bytes("\r\nsubject:Password reset request")
}

fn crlf_bytes() -> (r: &'static [u8])
    ensures
        r@ == crlf(),
{
    proof {
        reveal_strlit("\r\n");
    }
    literal_bytes("\r\n")
}

/// Whether the headers hold the line `subject:Password reset request`,
/// exactly, in this case and with nothing else on the line.
pub fn verify_subject_marker(headers: &str) -> (r: bool)
    ensures
        r == has_subject_marker(encode_utf8(headers@)),
{
    let s = utf8_bytes(headers);
    let marker = subject_marker_bytes();
    let line_break = crlf_bytes();
    let mut i: usize = 0;
    while i < s.len()
        invariant
            s@ == encode_utf8(headers@),
            marker@ == subject_marker(),
            marker@.len() == 32,
            line_break@ == crlf(),
            i <= s@.len(),
            forall|j: int| 0 <= j < i ==> !subject_line_at(s@, j),
        decreases s.len() - i,
    {
        if bytes_at(s, i, marker) {
            let end = i + 32;
            if end == s.len() || bytes_at(s, end, line_break) {
                assert(subject_line_at(s@, i as int));
                return true;
            }
        }
        i += 1;
    }
    assert forall|j: int| !subject_line_at(s@, j) by {
        if j >= s@.len() {
            assert(!occurs_at(s@, j, subject_marker()));
        }
    }
    false
}

} // verus!
