//! Little-endian, length-prefixed byte encoding of instruction arguments.
use vstd::prelude::*;
use vstd::string::StrSliceExecFns;
use vstd::utf8::encode_utf8;

verus! {

/// The `n` low bytes of `x`, least significant first.
pub open spec fn le_bytes(x: nat, n: nat) -> Seq<u8>
    decreases n,
{
    if n == 0 {
        seq![]
    } else {
        seq![(x % 256) as u8] + le_bytes(x / 256, (n - 1) as nat)
    }
}

pub open spec fn bool_byte(b: bool) -> Seq<u8> {
    seq![if b { 1u8 } else { 0u8 }]
}

/// A string: its UTF-8 length as four bytes, then its UTF-8 bytes.
pub open spec fn string_bytes(s: Seq<char>) -> Seq<u8> {
    le_bytes(encode_utf8(s).len(), 4) + encode_utf8(s)
}

/// Appends the `n` low bytes of `x`, least significant first.
fn push_le(out: &mut Vec<u8>, x: u64, n: usize)
    requires
        n <= 8,
    ensures
        final(out)@ == old(out)@ + le_bytes(x as nat, n as nat),
{
    let ghost start = out@;
    let mut cur: u64 = x;
    let mut i: usize = 0;
    while i < n
        invariant
            i <= n,
            start + le_bytes(x as nat, n as nat) == out@ + le_bytes(cur as nat, (n - i) as nat),
        decreases n - i,
    {
        let ghost before = out@;
        out.push((cur % 256) as u8);
        assert(le_bytes(cur as nat, (n - i) as nat) == seq![(cur % 256) as u8] + le_bytes(
            (cur / 256) as nat,
            (n - i - 1) as nat,
        ));
        assert(out@ + le_bytes((cur / 256) as nat, (n - i - 1) as nat) =~= before + le_bytes(
            cur as nat,
            (n - i) as nat,
        ));
        cur = cur / 256;
        i = i + 1;
    }
    assert(out@ =~= out@ + le_bytes(cur as nat, 0));
}

pub fn push_u8(out: &mut Vec<u8>, x: u8)
    ensures
        final(out)@ == old(out)@ + seq![x],
{
    out.push(x);
}

pub fn push_bool(out: &mut Vec<u8>, b: bool)
    ensures
        final(out)@ == old(out)@ + bool_byte(b),
{
    out.push(if b { 1u8 } else { 0u8 });
    assert(final(out)@ =~= old(out)@ + bool_byte(b));
}

pub fn push_u32(out: &mut Vec<u8>, x: u32)
    ensures
        final(out)@ == old(out)@ + le_bytes(x as nat, 4),
{
    push_le(out, x as u64, 4);
}

pub fn push_u64(out: &mut Vec<u8>, x: u64)
    ensures
        final(out)@ == old(out)@ + le_bytes(x as nat, 8),
{
    push_le(out, x, 8);
}

/// Appends `s` as a length-prefixed UTF-8 string.
pub fn push_string(out: &mut Vec<u8>, s: &String)
    requires
        encode_utf8(s@).len() <= u32::MAX,
    ensures
        final(out)@ == old(out)@ + string_bytes(s@),
{
    let bytes = s.as_str().as_bytes_vec();
    let len = bytes.len();
    push_u32(out, len as u32);
    let mut i: usize = 0;
    let ghost mid = out@;
    while i < len
        invariant
            i <= len,
            len == bytes@.len(),
            bytes@ == encode_utf8(s@),
            out@ == mid + bytes@.subrange(0, i as int),
        decreases len - i,
    {
        out.push(bytes[i]);
        assert(bytes@.subrange(0, i + 1) =~= bytes@.subrange(0, i as int) + seq![bytes@[i as int]]);
        i = i + 1;
    }
    assert(bytes@.subrange(0, len as int) =~= bytes@);
    assert(out@ =~= old(out)@ + string_bytes(s@));
}

} // verus!
