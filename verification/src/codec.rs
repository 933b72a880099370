//! Line-protocol codec: scanning a byte stream for the first occurrence of
//! the fixed delimiter that terminates every response, splitting off the
//! response body, and framing outbound commands.

use vstd::prelude::*;

verus! {

use crate::fault::Fault;
use vstd::slice::{slice_subrange, slice_to_vec};

/// The pattern `p` occupies the `p.len()` bytes of `s` that end at `end`.
pub open spec fn match_at(s: Seq<u8>, p: Seq<u8>, end: int) -> bool {
    &&& p.len() <= end <= s.len()
    &&& s.subrange(end - p.len(), end) == p
}

/// `p` occurs somewhere in `s`, starting at byte `from` or later.
pub open spec fn has_pattern_from(s: Seq<u8>, p: Seq<u8>, from: int) -> bool {
    exists|end: int| from + p.len() <= end && match_at(s, p, end)
}

/// `end` closes the first occurrence of `p` in `s` that starts at byte `from`
/// or later. At most one `end` satisfies this.
pub open spec fn first_pattern_end_from(s: Seq<u8>, p: Seq<u8>, from: int, end: int) -> bool {
    &&& from + p.len() <= end
    &&& match_at(s, p, end)
    &&& forall|j: int| from + p.len() <= j < end ==> !match_at(s, p, j)
}

/// Two positions that both close the first occurrence are the same position.
pub proof fn lemma_first_pattern_end_unique(s: Seq<u8>, p: Seq<u8>, from: int, e1: int, e2: int)
    requires
        first_pattern_end_from(s, p, from, e1),
        first_pattern_end_from(s, p, from, e2),
    ensures
        e1 == e2,
{
}

/// `i` is where a left-to-right scan of `s` for the byte `b`, begun at
/// `from`, stops: the first position at or after `from` holding `b`, or the
/// end of `s` when no such position exists. At most one `i` satisfies this.
pub open spec fn scan_stop_at(s: Seq<u8>, from: int, b: u8, i: int) -> bool {
    &&& from <= i <= s.len()
    &&& (i < s.len() ==> s[i] == b)
    &&& forall|j: int| from <= j < i ==> s[j] != b
}

pub proof fn lemma_scan_stop_unique(s: Seq<u8>, from: int, b: u8, i1: int, i2: int)
    requires
        scan_stop_at(s, from, b, i1),
        scan_stop_at(s, from, b, i2),
    ensures
        i1 == i2,
{
}

/// Index of the scan stop for byte `b` in `v` starting at `from`: the first
/// position at or after `from` holding `b`, or `v`'s length.
pub fn find_byte_from(v: &Vec<u8>, from: usize, b: u8) -> (i: usize)
    requires
        from <= v@.len(),
    ensures
        scan_stop_at(v@, from as int, b, i as int),
        from <= i <= v@.len(),
{
    let mut i: usize = from;
    while i < v.len()
        invariant
            from <= i <= v@.len(),
            forall|j: int| from <= j < i ==> v@[j] != b,
        decreases v@.len() - i,
    {
        if v[i] == b {
            return i;
        }
        i += 1;
    }
    i
}

/// Copy of the bytes of `v` from `from` (inclusive) to `to` (exclusive).
pub fn subvec(v: &Vec<u8>, from: usize, to: usize) -> (r: Vec<u8>)
    requires
        from <= to <= v@.len(),
    ensures
        r@ == v@.subrange(from as int, to as int),
{
    slice_to_vec(slice_subrange(v.as_slice(), from, to))
}

/// Append a copy of every byte of `src` to `dst`.
pub fn push_all(dst: &mut Vec<u8>, src: &Vec<u8>)
    ensures
        final(dst)@ == old(dst)@ + src@,
{
    let mut i: usize = 0;
    while i < src.len()
        invariant
            i <= src@.len(),
            dst@ == old(dst)@ + src@.subrange(0, i as int),
        decreases src@.len() - i,
    {
        dst.push(src[i]);
        proof {
            assert(old(dst)@ + src@.subrange(0, i as int) + seq![src@[i as int]] =~= old(
                dst,
            )@ + src@.subrange(0, i + 1));
        }
        i += 1;
    }
    proof {
        assert(old(dst)@ + src@.subrange(0, src@.len() as int) =~= old(dst)@ + src@);
    }
}

fn match_at_exec(s: &Vec<u8>, p: &Vec<u8>, end: usize) -> (r: bool)
    ensures
        r == match_at(s@, p@, end as int),
{
    if end > s.len() || end < p.len() {
        return false;
    }
    let start = end - p.len();
    let mut i: usize = 0;
    while i < p.len()
        invariant
            start + p@.len() == end <= s@.len(),
            i <= p@.len(),
            forall|j: int| 0 <= j < i ==> s@[start + j] == p@[j],
        decreases p@.len() - i,
    {
        if s[start + i] != p[i] {
            proof {
                assert(s@.subrange(end - p@.len(), end as int)[i as int] == s@[start + i]);
            }
            return false;
        }
        i += 1;
    }
    proof {
        assert(s@.subrange(end - p@.len(), end as int) =~= p@);
    }
    true
}

/// Position just past the first occurrence of `p` in `s` that starts at byte
/// `from` or later, or `None` when no such occurrence exists.
pub fn find_pattern_from(s: &Vec<u8>, p: &Vec<u8>, from: usize) -> (r: Option<usize>)
    ensures
        match r {
            Some(end) => first_pattern_end_from(s@, p@, from as int, end as int) && end <= s@.len(),
            None => !has_pattern_from(s@, p@, from as int),
        },
{
    if s.len() < p.len() || from > s.len() - p.len() {
        return None;
    }
    let mut end: usize = from + p.len();
    while end < s.len()
        invariant
            from + p@.len() <= end <= s@.len(),
            forall|j: int| from + p@.len() <= j < end ==> !match_at(s@, p@, j),
        decreases s@.len() - end,
    {
        if match_at_exec(s, p, end) {
            return Some(end);
        }
        end += 1;
    }
    if match_at_exec(s, p, end) {
        return Some(end);
    }
    proof {
        assert forall|j: int| from + p@.len() <= j implies !match_at(s@, p@, j) by {
            if j < end {
            } else if j == end {
            } else {
            }
        }
    }
    None
}

/// Scan `stream` for the first occurrence of the delimiter `delim` and return
/// the bytes that precede it, together with how many bytes of the stream the
/// exchange consumed (response body plus delimiter). Fails exactly when the
/// stream runs out before the delimiter ever appears.
pub fn read_until_delimiter(stream: &Vec<u8>, delim: &Vec<u8>) -> (r: Result<
    (Vec<u8>, usize),
    Fault,
>)
    requires
        delim@.len() >= 1,
    ensures
        r is Ok <==> has_pattern_from(stream@, delim@, 0),
        match r {
            Ok(pair) => {
                &&& first_pattern_end_from(stream@, delim@, 0, pair.1 as int)
                &&& pair.0@ == stream@.subrange(0, pair.1 - delim@.len())
            },
            Err(f) => f matches Fault::ProtocolFault(m) && m@ == "delimiter not found"@,
        },
{
    match find_pattern_from(stream, delim, 0) {
        Some(end) => Ok((subvec(stream, 0, end - delim.len()), end)),
        None => Err(Fault::ProtocolFault("delimiter not found")),
    }
}

/// Frame an outbound command: the line followed by the single trailing line
/// terminator the wire protocol asks for.
pub fn frame_command(line: &Vec<u8>) -> (r: Vec<u8>)
    ensures
        r@ == line@.push(10u8),
{
    let mut r = subvec(line, 0, line.len());
    r.push(10u8);
    proof {
        assert(line@.subrange(0, line@.len() as int) =~= line@);
    }
    r
}

/// Law: a well-formed response — one holding the delimiter at its end and
/// nowhere earlier — is consumed whole by the scan, which hands back exactly
/// the bytes standing before the delimiter. The two `requires` on `consumed`
/// and `out` are what `read_until_delimiter` ensures of its result on the
/// stream `body + d`.
pub proof fn lemma_read_well_formed_response(body: Seq<u8>, d: Seq<u8>, out: Seq<u8>, consumed: int)
    requires
        d.len() >= 1,
        forall|j: int| j < body.len() + d.len() ==> !match_at(body + d, d, j),
        first_pattern_end_from(body + d, d, 0, consumed),
        out == (body + d).subrange(0, consumed - d.len()),
    ensures
        consumed == body.len() + d.len(),
        out == body,
{
    let s = body + d;
    assert(match_at(s, d, s.len() as int)) by {
        assert(s.subrange(s.len() - d.len(), s.len() as int) =~= d);
    }
    assert(consumed == s.len());
    assert(out =~= body);
}

/// Law: every stream holding the delimiter somewhere is split successfully;
/// one never holding it is refused. This is the `<==>` that
/// `read_until_delimiter` ensures, restated over a stream built as
/// `body + d + rest`.
pub proof fn lemma_delimited_stream_has_pattern(body: Seq<u8>, d: Seq<u8>, rest: Seq<u8>)
    requires
        d.len() >= 1,
    ensures
        has_pattern_from(body + d + rest, d, 0),
{
    let s = body + d + rest;
    let end = body.len() + d.len();
    assert(match_at(s, d, end as int)) by {
        assert(s.subrange(end - d.len(), end as int) =~= d);
    }
}

} // verus!
