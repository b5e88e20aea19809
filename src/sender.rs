//! The sender rule: the headers hold exactly one `From:` line, and the address
//! between its angle brackets ends with one of the trusted suffixes.
//!
//! A `From:` line is the text `\r\nfrom:`, then, on the same line, the first
//! `<` that opens an address: one or more bytes up to the nearest `>`. Neither
//! part crosses a line feed, so two `From:` lines never overlap and each start
//! position that opens one is counted once.
use vstd::prelude::*;
use vstd::utf8::encode_utf8;
use crate::text::{ascii_of, bytes_at, bytes_end_with, ends_with, literal_bytes, occurs_at, utf8_bytes};

verus! {

pub const LF: u8 = 10;

pub const OPEN_ANGLE: u8 = 60;

pub const CLOSE_ANGLE: u8 = 62;

/// The text that opens a `From:` header line.
pub open spec fn from_marker() -> Seq<u8> {
    ascii_of("\r\nfrom:"@)
}

/// The first `>` at or after `k`, before the end of the line.
pub open spec fn close_angle(s: Seq<u8>, k: int) -> Option<int>
    decreases s.len() - k,
{
    if k < 0 || k >= s.len() || s[k] == LF {
        None
    } else if s[k] == CLOSE_ANGLE {
        Some(k)
    } else {
        close_angle(s, k + 1)
    }
}

/// Where the address that a `<` at `p` opens is closed: it holds at least one
/// byte, and ends at the nearest `>` after that byte, on the same line.
pub open spec fn address_close(s: Seq<u8>, p: int) -> Option<int> {
    if 0 <= p && p + 1 < s.len() && s[p] == OPEN_ANGLE && s[p + 1] != LF {
        close_angle(s, p + 2)
    } else {
        None
    }
}

/// The first `<` at or after `k`, on the same line, that opens an address,
/// with the position of its `>`.
pub open spec fn first_address(s: Seq<u8>, k: int) -> Option<(int, int)>
    decreases s.len() - k,
{
    if k < 0 || k >= s.len() || s[k] == LF {
        None
    } else {
        match address_close(s, k) {
            Some(q) => Some((k, q)),
            None => first_address(s, k + 1),
        }
    }
}

/// The angle brackets of the `From:` line that starts at `i`, if one does.
pub open spec fn from_line_at(s: Seq<u8>, i: int) -> Option<(int, int)> {
    if occurs_at(s, i, from_marker()) {
        first_address(s, i + from_marker().len())
    } else {
        None
    }
}

/// The number of `From:` lines that start at `i` or later.
pub open spec fn from_lines_after(s: Seq<u8>, i: int) -> nat
    decreases s.len() - i,
{
    if i < 0 || i >= s.len() {
        0
    } else {
        (if from_line_at(s, i) is Some { 1nat } else { 0nat }) + from_lines_after(s, i + 1)
    }
}

/// The number of `From:` lines in the headers.
pub open spec fn from_line_count(s: Seq<u8>) -> nat {
    from_lines_after(s, 0)
}

/// The angle brackets of the first `From:` line that starts at `i` or later.
pub open spec fn first_from_line(s: Seq<u8>, i: int) -> Option<(int, int)>
    decreases s.len() - i,
{
    if i < 0 || i >= s.len() {
        None
    } else if from_line_at(s, i) is Some {
        from_line_at(s, i)
    } else {
        first_from_line(s, i + 1)
    }
}

/// The address ends with one of the trusted suffixes.
pub open spec fn trusted_address(address: Seq<u8>, suffixes: Seq<String>) -> bool {
    exists|k: int| 0 <= k < suffixes.len() && ends_with(address, encode_utf8(suffixes[k]@))
}

/// The sender rule over the bytes of the headers.
pub open spec fn sender_trusted(s: Seq<u8>, suffixes: Seq<String>) -> bool {
    from_line_count(s) == 1 && match first_from_line(s, 0) {
        Some((p, q)) => trusted_address(s.subrange(p + 1, q), suffixes),
        None => false,
    }
}

/// The bytes that open a `From:` header line.
fn from_marker_bytes() -> (r: &'static [u8])
    ensures
        r@ == from_marker(),
        r@.len() == 7,
{
    proof {
        reveal_strlit("\r\nfrom:");
    }
    literal_bytes("\r\nfrom:")
}

/// The nearest `>` at or after `k`, before the end of the line.
fn find_close_angle(s: &[u8], k: usize) -> (r: Option<usize>)
    ensures
        match r {
            Some(q) => close_angle(s@, k as int) == Some(q as int) && k <= q < s@.len(),
            None => close_angle(s@, k as int) is None,
        },
{
    let mut j: usize = k;
    while j < s.len()
        invariant
            k <= j,
            close_angle(s@, k as int) == close_angle(s@, j as int),
        decreases s.len() - j,
    {
        if s[j] == LF {
            return None;
        }
        if s[j] == CLOSE_ANGLE {
            return Some(j);
        }
        j += 1;
    }
    None
}

/// The first `<` at or after `k`, on the same line, that opens an address,
/// with the position of its `>`.
fn find_address(s: &[u8], k: usize) -> (r: Option<(usize, usize)>)
    ensures
        match r {
            Some((p, q)) => first_address(s@, k as int) == Some((p as int, q as int)) && p + 2
                <= q < s@.len(),
            None => first_address(s@, k as int) is None,
        },
{
    let mut p: usize = k;
    while p < s.len()
        invariant
            k <= p,
            first_address(s@, k as int) == first_address(s@, p as int),
        decreases s.len() - p,
    {
        if s[p] == LF {
            return None;
        }
        if s[p] == OPEN_ANGLE && p + 1 < s.len() && s[p + 1] != LF {
            if let Some(q) = find_close_angle(s, p + 2) {
                return Some((p, q));
            }
        }
        p += 1;
    }
    None
}

/// The angle brackets of the `From:` line that starts at `i`, if one does.
fn from_line(s: &[u8], i: usize) -> (r: Option<(usize, usize)>)
    ensures
        match r {
            Some((p, q)) => from_line_at(s@, i as int) == Some((p as int, q as int)) && p + 2
                <= q < s@.len(),
            None => from_line_at(s@, i as int) is None,
        },
{
    let marker = from_marker_bytes();
    if bytes_at(s, i, marker) {
        let n = s.len();
        assert(i + 7 <= n);
        find_address(s, i + 7)
    } else {
        None
    }
}

/// Whether the address ends with one of the trusted suffixes.
pub fn address_trusted(address: &[u8], trusted_suffixes: &Vec<String>) -> (r: bool)
    ensures
        r == trusted_address(address@, trusted_suffixes@),
{
    let mut k: usize = 0;
    while k < trusted_suffixes.len()
        invariant
            k <= trusted_suffixes@.len(),
            forall|j: int|
                0 <= j < k ==> !ends_with(address@, encode_utf8(#[trigger] trusted_suffixes@[j]@)),
        decreases trusted_suffixes@.len() - k,
    {
        let suffix = utf8_bytes(trusted_suffixes[k].as_str());
        if bytes_end_with(address, suffix) {
            return true;
        }
        k += 1;
    }
    false
}

/// Whether the headers hold exactly one `From:` line, and its address ends
/// with one of the trusted suffixes. Zero or several `From:` lines are
/// refused whatever their addresses.
pub fn verify_from_address(headers: &str, trusted_suffixes: &Vec<String>) -> (r: bool)
    ensures
        r == sender_trusted(encode_utf8(headers@), trusted_suffixes@),
{
    let s = utf8_bytes(headers);
    let mut count: usize = 0;
    let mut found: (usize, usize) = (0, 0);
    let mut i: usize = 0;
    while i < s.len()
        invariant
            s@ == encode_utf8(headers@),
            i <= s@.len(),
            count <= 1,
            count + from_lines_after(s@, i as int) == from_line_count(s@),
            count == 0 ==> first_from_line(s@, 0) == first_from_line(s@, i as int),
            count == 1 ==> first_from_line(s@, 0) == Some((found.0 as int, found.1 as int)),
            count == 1 ==> found.0 + 2 <= found.1 < s@.len(),
        decreases s.len() - i,
    {
        if let Some((p, q)) = from_line(s, i) {
            if count == 1 {
                assert(from_lines_after(s@, i as int) >= 1);
                return false;
            }
            count = 1;
            found = (p, q);
        }
        i += 1;
    }
    if count == 0 {
        return false;
    }
    let address = vstd::slice::slice_subrange(s, found.0 + 1, found.1);
    address_trusted(address, trusted_suffixes)
}

/// Counting from `k` finds no more lines than counting from an earlier `m`.
proof fn lemma_count_monotone(s: Seq<u8>, m: int, k: int)
    requires
        0 <= m <= k,
    ensures
        from_lines_after(s, m) >= from_lines_after(s, k),
    decreases k - m,
{
    if m < k {
        lemma_count_monotone(s, m + 1, k);
    }
}

/// Where no `From:` line starts at `k` or later, none is counted.
proof fn lemma_count_none_after(s: Seq<u8>, k: int)
    requires
        0 <= k,
        forall|i: int| k <= i ==> from_line_at(s, i) is None,
    ensures
        from_lines_after(s, k) == 0,
        first_from_line(s, k) is None,
    decreases s.len() - k,
{
    if k < s.len() {
        lemma_count_none_after(s, k + 1);
    }
}

/// Where the one `From:` line at or after `k` starts at `i`, it is the first
/// one and the only one counted.
proof fn lemma_count_single_after(s: Seq<u8>, k: int, i: int)
    requires
        0 <= k <= i,
        from_line_at(s, i) is Some,
        forall|j: int| k <= j && j != i ==> from_line_at(s, j) is None,
    ensures
        from_lines_after(s, k) == 1,
        first_from_line(s, k) == from_line_at(s, i),
    decreases i - k,
{
    if k < i {
        lemma_count_single_after(s, k + 1, i);
    } else {
        lemma_count_none_after(s, i + 1);
    }
}

/// Headers without a `From:` line are refused.
pub proof fn lemma_no_from_line_refused(s: Seq<u8>, suffixes: Seq<String>)
    requires
        forall|i: int| from_line_at(s, i) is None,
    ensures
        !sender_trusted(s, suffixes),
{
    lemma_count_none_after(s, 0);
}

/// Headers with two `From:` lines are refused, whatever their addresses.
pub proof fn lemma_two_from_lines_refused(s: Seq<u8>, i: int, j: int, suffixes: Seq<String>)
    requires
        i < j,
        from_line_at(s, i) is Some,
        from_line_at(s, j) is Some,
    ensures
        !sender_trusted(s, suffixes),
{
    lemma_count_monotone(s, 0, i);
    lemma_count_monotone(s, i + 1, j);
}

/// Headers with exactly one `From:` line are accepted exactly where its
/// address ends with a trusted suffix.
pub proof fn lemma_single_from_line(s: Seq<u8>, i: int, suffixes: Seq<String>)
    requires
        from_line_at(s, i) is Some,
        forall|j: int| j != i ==> from_line_at(s, j) is None,
    ensures
        sender_trusted(s, suffixes) == trusted_address(
            s.subrange(from_line_at(s, i).unwrap().0 + 1, from_line_at(s, i).unwrap().1),
            suffixes,
        ),
{
    lemma_count_single_after(s, 0, i);
}

} // verus!
