//! 20-byte account addresses and their `0x`-prefixed hexadecimal text.
use vstd::prelude::*;

verus! {

/// A 20-byte account address.
#[derive(Clone, Copy, Debug, PartialEq, Eq)]
pub struct Address {
    pub bytes: [u8; 20],
}

/// Lower-case hexadecimal digit of a value below 16.
pub open spec fn hex_digit(n: u8) -> u8 {
    if n < 10 {
        (48 + n) as u8
    } else {
        (87 + n) as u8
    }
}

/// Value of a hexadecimal digit of either case.
pub open spec fn hex_value(c: u8) -> Option<u8> {
    if 48 <= c <= 57 {
        Some((c - 48) as u8)
    } else if 97 <= c <= 102 {
        Some((c - 87) as u8)
    } else if 65 <= c <= 70 {
        Some((c - 55) as u8)
    } else {
        None
    }
}

/// Two lower-case digits per byte, high nibble first.
pub open spec fn hex_text(b: Seq<u8>) -> Seq<u8> {
    Seq::new(
        2 * b.len(),
        |i: int|
            if i % 2 == 0 {
                hex_digit(b[i / 2] / 16)
            } else {
                hex_digit(b[i / 2] % 16)
            },
    )
}

/// The ASCII characters `0x`.
pub open spec fn hex_prefix() -> Seq<u8> {
    seq![48u8, 120u8]
}

/// The textual form of an address: `0x` and forty lower-case digits.
pub open spec fn address_text(a: Address) -> Seq<u8> {
    hex_prefix() + hex_text(a.bytes@)
}

/// The digits of an address text, with or without its `0x` prefix.
pub open spec fn address_digits(t: Seq<u8>) -> Seq<u8> {
    if t.len() >= 2 && t[0] == 48 && t[1] == 120 {
        t.subrange(2, t.len() as int)
    } else {
        t
    }
}

/// Whether `t` denotes an address: forty hexadecimal digits of either case,
/// optionally after `0x`.
pub open spec fn is_address_text(t: Seq<u8>) -> bool {
    let d = address_digits(t);
    d.len() == 40 && forall|i: int| 0 <= i < 40 ==> (#[trigger] hex_value(d[i])) is Some
}

/// The bytes that an address text denotes.
pub open spec fn address_bytes_of(t: Seq<u8>) -> Seq<u8> {
    let d = address_digits(t);
    Seq::new(20, |i: int| (hex_value(d[2 * i])->0 * 16 + hex_value(d[2 * i + 1])->0) as u8)
}

fn digit(n: u8) -> (r: u8)
    requires
        n < 16,
    ensures
        r == hex_digit(n),
{
    if n < 10 {
        48 + n
    } else {
        87 + n
    }
}

fn value(c: u8) -> (r: Option<u8>)
    ensures
        r == hex_value(c),
{
    if 48 <= c && c <= 57 {
        Some(c - 48)
    } else if 97 <= c && c <= 102 {
        Some(c - 87)
    } else if 65 <= c && c <= 70 {
        Some(c - 55)
    } else {
        None
    }
}

/// Appends the lower-case hexadecimal digits of `b`.
pub fn push_hex(out: &mut Vec<u8>, b: &[u8])
    ensures
        final(out)@ == old(out)@ + hex_text(b@),
{
    let ghost start = out@;
    let mut i: usize = 0;
    while i < b.len()
        invariant
            i <= b@.len(),
            out@ == start + hex_text(b@.subrange(0, i as int)),
        decreases b@.len() - i,
    {
        let ghost before = out@;
        out.push(digit(b[i] / 16));
        out.push(digit(b[i] % 16));
        i = i + 1;
        assert(out@ =~= start + hex_text(b@.subrange(0, i as int))) by {
            let h = hex_text(b@.subrange(0, i as int));
            assert forall|j: int| 0 <= j < h.len() implies #[trigger] h[j] == out@[start.len() + j] by {
                if j < 2 * (i - 1) {
                    assert(before[start.len() + j] == hex_text(b@.subrange(0, i - 1))[j]);
                }
            }
        }
    }
    assert(b@.subrange(0, i as int) =~= b@);
}

impl Address {
    /// Appends the textual form of this address.
    pub fn push_text(&self, out: &mut Vec<u8>)
        ensures
            final(out)@ == old(out)@ + address_text(*self),
    {
        let ghost start = out@;
        out.push(48);
        out.push(120);
        push_hex(out, self.bytes.as_slice());
        assert(out@ =~= start + address_text(*self));
    }

    /// Reads an address from forty hexadecimal digits, with or without a
    /// `0x` prefix.
    pub fn parse(s: &str) -> (r: Option<Address>)
        ensures
            r is Some <==> is_address_text(vstd::utf8::encode_utf8(s@)),
            r is Some ==> r->0.bytes@ == address_bytes_of(vstd::utf8::encode_utf8(s@)),
    {
        let t = s.as_bytes();
        let start: usize = if t.len() >= 2 && t[0] == 48 && t[1] == 120 {
            2
        } else {
            0
        };
        let ghost d = address_digits(t@);
        assert(d =~= t@.subrange(start as int, t@.len() as int));
        if t.len() - start != 40 {
            return None;
        }
        let mut bytes = [0u8; 20];
        let mut i: usize = 0;
        while i < 20
            invariant
                0 <= i <= 20,
                start <= 2,
                t@ == vstd::utf8::encode_utf8(s@),
                t@.len() == start + 40,
                d =~= t@.subrange(start as int, t@.len() as int),
                forall|j: int| 0 <= j < 2 * i ==> (#[trigger] hex_value(d[j])) is Some,
                forall|j: int|
                    0 <= j < i ==> bytes@[j] == (hex_value(d[2 * j])->0 * 16 + hex_value(
                        d[2 * j + 1],
                    )->0) as u8,
            decreases 20 - i,
        {
            let hi = value(t[start + 2 * i]);
            let lo = value(t[start + 2 * i + 1]);
            match (hi, lo) {
                (Some(h), Some(l)) => {
                    assert(hex_value(d[2 * i as int]) == hi);
                    assert(hex_value(d[2 * i + 1]) == lo);
                    assert(h < 16 && l < 16);
                    bytes[i] = h * 16 + l;
                },
                _ => {
                    assert(hex_value(d[2 * i as int]) == hi);
                    assert(hex_value(d[2 * i + 1]) == lo);
                    let ghost k: int = if hi is None {
                        2 * i as int
                    } else {
                        2 * i + 1
                    };
                    assert(hex_value(d[k]) is None);
                    assert(!is_address_text(t@));
                    return None;
                },
            }
            i = i + 1;
        }
        assert(bytes@ =~= address_bytes_of(t@));
        Some(Address { bytes })
    }
}

} // verus!
