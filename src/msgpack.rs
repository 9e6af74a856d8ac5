//! MessagePack encoding of the primitive values that actions are built from.
//!
//! Every writer picks the most compact representation, in the same way as
//! the reference encoder the venue uses when it recomputes an action hash.
use vstd::prelude::*;

verus! {

/// The `k` low-order bytes of `n`, most significant first.
pub open spec fn be_bytes(n: nat, k: nat) -> Seq<u8>
    decreases k,
{
    if k == 0 {
        Seq::empty()
    } else {
        be_bytes(n / 256, (k - 1) as nat).push((n % 256) as u8)
    }
}

pub open spec fn uint_bytes(v: u64) -> Seq<u8> {
    if v < 128 {
        seq![v as u8]
    } else if v < 0x100 {
        seq![0xccu8] + be_bytes(v as nat, 1)
    } else if v < 0x1_0000 {
        seq![0xcdu8] + be_bytes(v as nat, 2)
    } else if v < 0x1_0000_0000 {
        seq![0xceu8] + be_bytes(v as nat, 4)
    } else {
        seq![0xcfu8] + be_bytes(v as nat, 8)
    }
}

pub open spec fn sint_bytes(v: i64) -> Seq<u8> {
    if v >= 0 {
        uint_bytes(v as u64)
    } else if v >= -32 {
        seq![(v + 0x100) as u8]
    } else if v >= -0x80 {
        seq![0xd0u8] + be_bytes((v + 0x100) as nat, 1)
    } else if v >= -0x8000 {
        seq![0xd1u8] + be_bytes((v + 0x1_0000) as nat, 2)
    } else if v >= -0x8000_0000 {
        seq![0xd2u8] + be_bytes((v + 0x1_0000_0000) as nat, 4)
    } else {
        seq![0xd3u8] + be_bytes((v + 0x1_0000_0000_0000_0000) as nat, 8)
    }
}

pub open spec fn bool_bytes(b: bool) -> Seq<u8> {
    if b {
        seq![0xc3u8]
    } else {
        seq![0xc2u8]
    }
}

pub open spec fn nil_bytes() -> Seq<u8> {
    seq![0xc0u8]
}

/// Header of a string of `len` bytes.
pub open spec fn str_header(len: nat) -> Seq<u8> {
    if len < 32 {
        seq![(0xa0 + len) as u8]
    } else if len < 0x100 {
        seq![0xd9u8] + be_bytes(len, 1)
    } else if len < 0x1_0000 {
        seq![0xdau8] + be_bytes(len, 2)
    } else {
        seq![0xdbu8] + be_bytes(len, 4)
    }
}

/// A string given by its UTF-8 bytes.
pub open spec fn str_bytes(s: Seq<u8>) -> Seq<u8> {
    str_header(s.len()) + s
}

/// A string given by its characters.
#[verifier::opaque]
pub open spec fn text_bytes(s: Seq<char>) -> Seq<u8> {
    str_bytes(vstd::utf8::encode_utf8(s))
}

pub open spec fn map_header(len: nat) -> Seq<u8> {
    if len < 16 {
        seq![(0x80 + len) as u8]
    } else if len < 0x1_0000 {
        seq![0xdeu8] + be_bytes(len, 2)
    } else {
        seq![0xdfu8] + be_bytes(len, 4)
    }
}

pub open spec fn array_header(len: nat) -> Seq<u8> {
    if len < 16 {
        seq![(0x90 + len) as u8]
    } else if len < 0x1_0000 {
        seq![0xdcu8] + be_bytes(len, 2)
    } else {
        seq![0xddu8] + be_bytes(len, 4)
    }
}

/// Whether a string of these characters fits the format's 32-bit length.
pub open spec fn text_fits(s: Seq<char>) -> bool {
    vstd::utf8::encode_utf8(s).len() <= u32::MAX
}

/// Appends the `k` low-order bytes of `v`, most significant first.
pub fn push_be(out: &mut Vec<u8>, v: u64, k: usize)
    requires
        k <= 8,
    ensures
        final(out)@ == old(out)@ + be_bytes(v as nat, k as nat),
    decreases k,
{
    if k > 0 {
        push_be(out, v / 256, k - 1);
        out.push((v % 256) as u8);
        proof {
            assert((v / 256) as nat == (v as nat) / 256);
        }
    } else {
        assert(old(out)@ + be_bytes(v as nat, 0) =~= old(out)@);
    }
}

/// Appends the bytes of `src` to `out`.
pub fn push_all(out: &mut Vec<u8>, src: &[u8])
    ensures
        final(out)@ == old(out)@ + src@,
{
    let ghost start = out@;
    let mut i: usize = 0;
    while i < src.len()
        invariant
            i <= src@.len(),
            out@ == start + src@.subrange(0, i as int),
        decreases src@.len() - i,
    {
        out.push(src[i]);
        i = i + 1;
        assert(out@ =~= start + src@.subrange(0, i as int));
    }
    assert(src@.subrange(0, i as int) =~= src@);
}

pub fn write_uint(out: &mut Vec<u8>, v: u64)
    ensures
        final(out)@ == old(out)@ + uint_bytes(v),
{
    let ghost start = out@;
    if v < 128 {
        out.push(v as u8);
    } else if v < 0x100 {
        out.push(0xcc);
        push_be(out, v, 1);
    } else if v < 0x1_0000 {
        out.push(0xcd);
        push_be(out, v, 2);
    } else if v < 0x1_0000_0000 {
        out.push(0xce);
        push_be(out, v, 4);
    } else {
        out.push(0xcf);
        push_be(out, v, 8);
    }
    assert(out@ =~= start + uint_bytes(v));
}

pub fn write_sint(out: &mut Vec<u8>, v: i64)
    ensures
        final(out)@ == old(out)@ + sint_bytes(v),
{
    let ghost start = out@;
    if v >= 0 {
        write_uint(out, v as u64);
    } else if v >= -32 {
        out.push((v + 0x100) as u8);
    } else if v >= -0x80 {
        out.push(0xd0);
        push_be(out, (v + 0x100) as u64, 1);
    } else if v >= -0x8000 {
        out.push(0xd1);
        push_be(out, (v + 0x1_0000) as u64, 2);
    } else if v >= -0x8000_0000 {
        out.push(0xd2);
        push_be(out, (v + 0x1_0000_0000) as u64, 4);
    } else {
        out.push(0xd3);
        push_be(out, (v as i128 + 0x1_0000_0000_0000_0000i128) as u64, 8);
    }
    assert(out@ =~= start + sint_bytes(v));
}

pub fn write_bool(out: &mut Vec<u8>, b: bool)
    ensures
        final(out)@ == old(out)@ + bool_bytes(b),
{
    let ghost start = out@;
    if b {
        out.push(0xc3);
    } else {
        out.push(0xc2);
    }
    assert(out@ =~= start + bool_bytes(b));
}

pub fn write_nil(out: &mut Vec<u8>)
    ensures
        final(out)@ == old(out)@ + nil_bytes(),
{
    let ghost start = out@;
    out.push(0xc0);
    assert(out@ =~= start + nil_bytes());
}

fn write_header(out: &mut Vec<u8>, len: usize, fix: u8, fix_limit: usize, m8: u8, m16: u8, m32: u8)
    requires
        len <= u32::MAX,
        fix_limit == 16 || fix_limit == 32,
        fix as int + fix_limit <= 256,
    ensures
        final(out)@ == old(out)@ + (if len < fix_limit {
            seq![(fix + len) as u8]
        } else if len < 0x100 && fix_limit == 32 {
            seq![m8] + be_bytes(len as nat, 1)
        } else if len < 0x1_0000 {
            seq![m16] + be_bytes(len as nat, 2)
        } else {
            seq![m32] + be_bytes(len as nat, 4)
        }),
{
    if len < fix_limit {
        out.push(fix + len as u8);
    } else if len < 0x100 && fix_limit == 32 {
        out.push(m8);
        push_be(out, len as u64, 1);
    } else if len < 0x1_0000 {
        out.push(m16);
        push_be(out, len as u64, 2);
    } else {
        out.push(m32);
        push_be(out, len as u64, 4);
    }
}

pub fn write_map_len(out: &mut Vec<u8>, len: usize)
    requires
        len <= u32::MAX,
    ensures
        final(out)@ == old(out)@ + map_header(len as nat),
{
    write_header(out, len, 0x80, 16, 0, 0xde, 0xdf);
}

pub fn write_array_len(out: &mut Vec<u8>, len: usize)
    requires
        len <= u32::MAX,
    ensures
        final(out)@ == old(out)@ + array_header(len as nat),
{
    write_header(out, len, 0x90, 16, 0, 0xdc, 0xdd);
}

/// Appends the header of a string of `len` bytes.
pub fn write_str_header(out: &mut Vec<u8>, len: usize)
    requires
        len <= u32::MAX,
    ensures
        final(out)@ == old(out)@ + str_header(len as nat),
{
    write_header(out, len, 0xa0, 32, 0xd9, 0xda, 0xdb);
}

/// Appends a string given by its characters.
pub fn write_str(out: &mut Vec<u8>, s: &str)
    requires
        text_fits(s@),
    ensures
        final(out)@ == old(out)@ + text_bytes(s@),
{
    let bytes = s.as_bytes();
    let ghost start = out@;
    write_header(out, bytes.len(), 0xa0, 32, 0xd9, 0xda, 0xdb);
    push_all(out, bytes);
    reveal(text_bytes);
    assert(out@ =~= start + text_bytes(s@));
}

/// Appends a short ASCII string, such as a field name.
pub fn write_key(out: &mut Vec<u8>, k: &str)
    requires
        vstd::string::is_ascii(k),
        k@.len() < 32,
    ensures
        final(out)@ == old(out)@ + text_bytes(k@),
{
    proof {
        vstd::string::is_ascii_spec_bytes(k);
    }
    write_str(out, k);
}

/// The number that a big-endian byte string denotes.
pub open spec fn be_value(s: Seq<u8>) -> nat
    decreases s.len(),
{
    if s.len() == 0 {
        0
    } else {
        be_value(s.drop_last()) * 256 + s.last() as nat
    }
}

pub open spec fn pow256(k: nat) -> nat
    decreases k,
{
    if k == 0 {
        1
    } else {
        256 * pow256((k - 1) as nat)
    }
}

/// `be_bytes(n, k)` holds `k` bytes that denote `n` modulo `256^k`.
pub proof fn lemma_be_bytes_value(n: nat, k: nat)
    ensures
        be_bytes(n, k).len() == k,
        be_value(be_bytes(n, k)) == n % pow256(k),
        pow256(k) > 0,
    decreases k,
{
    if k > 0 {
        let km = (k - 1) as nat;
        lemma_be_bytes_value(n / 256, km);
        let s = be_bytes(n, k);
        assert(s.drop_last() =~= be_bytes(n / 256, km));
        vstd::arithmetic::div_mod::lemma_mod_breakdown(n as int, 256, pow256(km) as int);
        assert(be_value(s) == ((n / 256) % pow256(km)) * 256 + n % 256);
        assert(pow256(k) == 256 * pow256(km));
        assert(((n / 256) % pow256(km)) * 256 == 256 * ((n / 256) % pow256(km))) by (nonlinear_arith);
        assert(pow256(k) > 0) by (nonlinear_arith)
            requires
                pow256(k) == 256 * pow256(km),
                pow256(km) > 0,
        ;
    } else {
        assert(n % 1 == 0);
    }
}

/// Eight big-endian bytes determine a 64-bit number.
pub proof fn lemma_be_u64_injective(a: u64, b: u64)
    requires
        be_bytes(a as nat, 8) == be_bytes(b as nat, 8),
    ensures
        a == b,
{
    lemma_be_bytes_value(a as nat, 8);
    lemma_be_bytes_value(b as nat, 8);
    assert(pow256(0) == 1);
    assert(pow256(1) == 256);
    assert(pow256(2) == 0x1_0000);
    assert(pow256(3) == 0x100_0000);
    assert(pow256(4) == 0x1_0000_0000);
    assert(pow256(5) == 0x100_0000_0000);
    assert(pow256(6) == 0x1_0000_0000_0000);
    assert(pow256(7) == 0x100_0000_0000_0000);
    assert(pow256(8) == 0x1_0000_0000_0000_0000);
}

} // verus!
