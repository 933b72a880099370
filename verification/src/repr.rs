//! A printable single-line rendering of raw bytes for diagnostics.

use vstd::prelude::*;

verus! {

/// The lower-case hexadecimal digit of a value below 16.
pub open spec fn hex_digit(v: u8) -> u8 {
    if v < 10 {
        (48 + v) as u8
    } else {
        (87 + v) as u8
    }
}

/// The escape of one byte, after Rust's byte-escape convention: tab,
/// carriage return, newline, backslash and the two quote characters as
/// two-character backslash escapes; other printable ASCII as itself;
/// anything else as `\xNN` with lower-case hex digits.
pub open spec fn escape_byte(b: u8) -> Seq<u8> {
    if b == 9 {
        seq![92u8, 116u8]
    } else if b == 13 {
        seq![92u8, 114u8]
    } else if b == 10 {
        seq![92u8, 110u8]
    } else if b == 92 {
        seq![92u8, 92u8]
    } else if b == 39 {
        seq![92u8, 39u8]
    } else if b == 34 {
        seq![92u8, 34u8]
    } else if 32 <= b && b < 127 {
        seq![b]
    } else {
        seq![92u8, 120u8, hex_digit((b / 16) as u8), hex_digit((b % 16) as u8)]
    }
}

/// The escapes of a whole byte string, concatenated in order.
pub open spec fn escape_bytes(bs: Seq<u8>) -> Seq<u8>
    decreases bs.len(),
{
    if bs.len() == 0 {
        Seq::empty()
    } else {
        escape_byte(bs[0]) + escape_bytes(bs.drop_first())
    }
}

/// The printable form of a byte string: `b'` then every byte escaped, then
/// a closing quote.
pub open spec fn debug_repr_bytes(bs: Seq<u8>) -> Seq<u8> {
    seq![98u8, 39u8] + escape_bytes(bs) + seq![39u8]
}

proof fn lemma_escape_bytes_snoc(s: Seq<u8>, x: u8)
    ensures
        escape_bytes(s.push(x)) == escape_bytes(s) + escape_byte(x),
    decreases s.len(),
{
    reveal_with_fuel(escape_bytes, 3);
    if s.len() == 0 {
        assert(s.push(x)[0] == x);
        assert(s.push(x).drop_first() =~= Seq::<u8>::empty());
        assert(escape_byte(x) + Seq::<u8>::empty() =~= escape_byte(x));
        assert(escape_bytes(s) + escape_byte(x) =~= escape_byte(x));
        assert(escape_bytes(s.push(x)) =~= escape_bytes(s) + escape_byte(x));
    } else {
        assert(s.push(x).drop_first() =~= s.drop_first().push(x));
        lemma_escape_bytes_snoc(s.drop_first(), x);
        assert(s.push(x)[0] == s[0]);
        assert(escape_byte(s[0]) + (escape_bytes(s.drop_first()) + escape_byte(x)) =~= (
        escape_byte(s[0]) + escape_bytes(s.drop_first())) + escape_byte(x));
        assert(escape_bytes(s.push(x)) =~= escape_bytes(s) + escape_byte(x));
    }
}

fn escape_byte_exec(b: u8) -> (r: Vec<u8>)
    ensures
        r@ == escape_byte(b),
        forall|j: int| 0 <= j < r@.len() ==> r@[j] < 128,
{
    let mut r: Vec<u8> = Vec::new();
    if b == 9 {
        r.push(92);
        r.push(116);
    } else if b == 13 {
        r.push(92);
        r.push(114);
    } else if b == 10 {
        r.push(92);
        r.push(110);
    } else if b == 92 {
        r.push(92);
        r.push(92);
    } else if b == 39 {
        r.push(92);
        r.push(39);
    } else if b == 34 {
        r.push(92);
        r.push(34);
    } else if 32 <= b && b < 127 {
        r.push(b);
    } else {
        r.push(92);
        r.push(120);
        let hi = b / 16;
        let lo = b % 16;
        r.push(if hi < 10 { 48 + hi } else { 87 + hi });
        r.push(if lo < 10 { 48 + lo } else { 87 + lo });
    }
    proof {
        assert(r@ =~= escape_byte(b));
    }
    r
}

/// Relies on String::from_utf8: bytes below 128 are valid UTF-8 and decode
/// to one character each, the character of the byte itself, so the error arm
/// cannot be reached for the inputs the contract admits.
#[verifier::external_body]
fn ascii_string(b: Vec<u8>) -> (r: String)
    requires
        forall|i: int| 0 <= i < b@.len() ==> b@[i] < 128,
    ensures
        r@.len() == b@.len(),
        forall|i: int| 0 <= i < r@.len() ==> r@[i] as u8 == b@[i],
{
    String::from_utf8(b).unwrap_or_default()
}

/// The printable, single-line form of a byte string, as a diagnostic message
/// shows it: `b'...'` with every byte escaped.
pub fn bytes_debug_repr(bytes: &[u8]) -> (r: String)
    ensures
        r@.len() == debug_repr_bytes(bytes@).len(),
        forall|i: int| 0 <= i < r@.len() ==> r@[i] as u8 == debug_repr_bytes(bytes@)[i],
{
    let mut acc: Vec<u8> = Vec::new();
    acc.push(98);
    acc.push(39);
    let mut i: usize = 0;
    while i < bytes.len()
        invariant
            i <= bytes@.len(),
            acc@ == seq![98u8, 39u8] + escape_bytes(bytes@.subrange(0, i as int)),
            forall|k: int| 0 <= k < acc@.len() ==> acc@[k] < 128,
        decreases bytes@.len() - i,
    {
        let piece = escape_byte_exec(bytes[i]);
        let ghost prefix = bytes@.subrange(0, i as int);
        crate::codec::push_all(&mut acc, &piece);
        proof {
            assert(bytes@.subrange(0, i + 1) =~= prefix.push(bytes@[i as int]));
            lemma_escape_bytes_snoc(prefix, bytes@[i as int]);
            assert(seq![98u8, 39u8] + escape_bytes(prefix) + escape_byte(bytes@[i as int]) =~= seq![
                98u8,
                39u8,
            ] + escape_bytes(bytes@.subrange(0, i + 1)));
        }
        i += 1;
    }
    acc.push(39);
    proof {
        assert(bytes@.subrange(0, bytes@.len() as int) =~= bytes@);
        assert(acc@ =~= debug_repr_bytes(bytes@));
    }
    ascii_string(acc)
}

} // verus!
