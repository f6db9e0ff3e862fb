//! The compact binary wire format of the request and response envelopes.
//!
//! Each value class the envelopes use has a specification function giving
//! its exact byte image, an executable writer proved against it, and — for
//! the classes that appear in responses — a specification-level parser with
//! an executable reader proved against that. Writers always pick the
//! shortest form that holds the value; readers accept the forms listed in
//! their parser, which cover everything the host's codec emits for these
//! schemas.
//!
//! Format bytes: small unsigned values stand alone below `0x80`, wider ones
//! follow `0xcc`/`0xcd`/`0xce`; strings carry a `0xa0`-family or
//! `0xd9`/`0xda`/`0xdb` header; arrays a `0x90`-family, `0xdc` or `0xdd`
//! header; maps a `0x80`-family, `0xde` or `0xdf` header; `0xc0` is the
//! unit value. Multi-byte lengths and values are big-endian.

use vstd::prelude::*;

verus! {

/// Largest length a 32-bit header can carry; longer values have no image
/// in this format.
pub const MAX_WIRE_LEN: usize = 0xFFFF_FFFF;

pub open spec fn be16(v: int) -> Seq<u8> {
    seq![(v / 0x100) as u8, (v % 0x100) as u8]
}

pub open spec fn be32(v: int) -> Seq<u8> {
    seq![
        (v / 0x1000000) as u8,
        ((v / 0x10000) % 0x100) as u8,
        ((v / 0x100) % 0x100) as u8,
        (v % 0x100) as u8,
    ]
}

/// Byte image of an unsigned 32-bit value, shortest form.
pub open spec fn uint_value(v: u32) -> Seq<u8> {
    if v < 0x80 {
        seq![v as u8]
    } else if v < 0x100 {
        seq![0xccu8, v as u8]
    } else if v < 0x10000 {
        seq![0xcdu8] + be16(v as int)
    } else {
        seq![0xceu8] + be32(v as int)
    }
}

/// Header announcing a string of `n` bytes.
pub open spec fn str_header(n: int) -> Seq<u8> {
    if n < 32 {
        seq![(0xa0 + n) as u8]
    } else if n < 0x100 {
        seq![0xd9u8, n as u8]
    } else if n < 0x10000 {
        seq![0xdau8] + be16(n)
    } else {
        seq![0xdbu8] + be32(n)
    }
}

/// Header announcing an array of `n` elements.
pub open spec fn array_header(n: int) -> Seq<u8> {
    if n < 16 {
        seq![(0x90 + n) as u8]
    } else if n < 0x10000 {
        seq![0xdcu8] + be16(n)
    } else {
        seq![0xddu8] + be32(n)
    }
}

/// Header announcing a map of `n` key-value pairs.
pub open spec fn map_header(n: int) -> Seq<u8> {
    if n < 16 {
        seq![(0x80 + n) as u8]
    } else if n < 0x10000 {
        seq![0xdeu8] + be16(n)
    } else {
        seq![0xdfu8] + be32(n)
    }
}

/// Byte image of a string whose encoded characters are `s`.
pub open spec fn str_value(s: Seq<u8>) -> Seq<u8> {
    str_header(s.len() as int) + s
}

/// Element images of a byte sequence: each byte written as an unsigned
/// value of its own.
pub open spec fn u8_elems(b: Seq<u8>) -> Seq<u8>
    decreases b.len(),
{
    if b.len() == 0 {
        Seq::empty()
    } else {
        u8_elems(b.drop_last()) + uint_value(b.last() as u32)
    }
}

/// Byte image of a byte sequence: an array of its bytes.
pub open spec fn bytes_array_value(b: Seq<u8>) -> Seq<u8> {
    array_header(b.len() as int) + u8_elems(b)
}

pub open spec fn u32_elems(d: Seq<u32>) -> Seq<u8>
    decreases d.len(),
{
    if d.len() == 0 {
        Seq::empty()
    } else {
        u32_elems(d.drop_last()) + uint_value(d.last())
    }
}

/// Byte image of a sequence of unsigned 32-bit values.
pub open spec fn u32_array_value(d: Seq<u32>) -> Seq<u8> {
    array_header(d.len() as int) + u32_elems(d)
}

pub open spec fn bins_elems(bs: Seq<Seq<u8>>) -> Seq<u8>
    decreases bs.len(),
{
    if bs.len() == 0 {
        Seq::empty()
    } else {
        bins_elems(bs.drop_last()) + bytes_array_value(bs.last())
    }
}

/// Byte image of a list of byte sequences: an array of byte arrays.
pub open spec fn bins_array_value(bs: Seq<Seq<u8>>) -> Seq<u8> {
    array_header(bs.len() as int) + bins_elems(bs)
}

/// Byte image of the unit value.
pub open spec fn nil_value() -> Seq<u8> {
    seq![0xc0u8]
}

fn push_be16(out: &mut Vec<u8>, v: u32)
    requires
        v < 0x10000,
    ensures
        final(out)@ == old(out)@ + be16(v as int),
{
    out.push((v / 0x100) as u8);
    out.push((v % 0x100) as u8);
    assert(out@ =~= old(out)@ + be16(v as int));
}

fn push_be32(out: &mut Vec<u8>, v: u32)
    ensures
        final(out)@ == old(out)@ + be32(v as int),
{
    out.push((v / 0x1000000) as u8);
    out.push(((v / 0x10000) % 0x100) as u8);
    out.push(((v / 0x100) % 0x100) as u8);
    out.push((v % 0x100) as u8);
    assert(out@ =~= old(out)@ + be32(v as int));
}

/// Writes an unsigned 32-bit value in its shortest form.
pub fn push_uint(out: &mut Vec<u8>, v: u32)
    ensures
        final(out)@ == old(out)@ + uint_value(v),
{
    if v < 0x80 {
        out.push(v as u8);
    } else if v < 0x100 {
        out.push(0xcc);
        out.push(v as u8);
    } else if v < 0x10000 {
        out.push(0xcd);
        push_be16(out, v);
    } else {
        out.push(0xce);
        push_be32(out, v);
    }
    assert(out@ =~= old(out)@ + uint_value(v));
}

pub fn push_str_header(out: &mut Vec<u8>, n: u32)
    ensures
        final(out)@ == old(out)@ + str_header(n as int),
{
    if n < 32 {
        out.push(0xa0 + n as u8);
    } else if n < 0x100 {
        out.push(0xd9);
        out.push(n as u8);
    } else if n < 0x10000 {
        out.push(0xda);
        push_be16(out, n);
    } else {
        out.push(0xdb);
        push_be32(out, n);
    }
    assert(out@ =~= old(out)@ + str_header(n as int));
}

pub fn push_array_header(out: &mut Vec<u8>, n: u32)
    ensures
        final(out)@ == old(out)@ + array_header(n as int),
{
    if n < 16 {
        out.push(0x90 + n as u8);
    } else if n < 0x10000 {
        out.push(0xdc);
        push_be16(out, n);
    } else {
        out.push(0xdd);
        push_be32(out, n);
    }
    assert(out@ =~= old(out)@ + array_header(n as int));
}

pub fn push_map_header(out: &mut Vec<u8>, n: u32)
    ensures
        final(out)@ == old(out)@ + map_header(n as int),
{
    if n < 16 {
        out.push(0x80 + n as u8);
    } else if n < 0x10000 {
        out.push(0xde);
        push_be16(out, n);
    } else {
        out.push(0xdf);
        push_be32(out, n);
    }
    assert(out@ =~= old(out)@ + map_header(n as int));
}

/// Writes a string value: header, then the already-encoded characters.
pub fn push_str_value(out: &mut Vec<u8>, s: &[u8])
    requires
        s@.len() <= MAX_WIRE_LEN,
    ensures
        final(out)@ == old(out)@ + str_value(s@),
{
    push_str_header(out, s.len() as u32);
    out.extend_from_slice(s);
    assert(out@ =~= old(out)@ + str_value(s@));
}

proof fn lemma_u8_elems_snoc(b: Seq<u8>, i: int)
    requires
        0 <= i < b.len(),
    ensures
        u8_elems(b.take(i + 1)) == u8_elems(b.take(i)) + uint_value(b[i] as u32),
{
    assert(b.take(i + 1).drop_last() =~= b.take(i));
    assert(b.take(i + 1).last() == b[i]);
}

/// Writes a byte sequence as an array of unsigned values.
pub fn push_bytes_array(out: &mut Vec<u8>, b: &[u8])
    requires
        b@.len() <= MAX_WIRE_LEN,
    ensures
        final(out)@ == old(out)@ + bytes_array_value(b@),
{
    push_array_header(out, b.len() as u32);
    let ghost base = out@;
    let mut i: usize = 0;
    while i < b.len()
        invariant
            i <= b@.len(),
            out@ == base + u8_elems(b@.take(i as int)),
        decreases b@.len() - i,
    {
        proof {
            lemma_u8_elems_snoc(b@, i as int);
        }
        push_uint(out, b[i] as u32);
        i = i + 1;
    }
    assert(b@.take(b@.len() as int) =~= b@);
    assert(out@ =~= old(out)@ + bytes_array_value(b@));
}

proof fn lemma_u32_elems_snoc(d: Seq<u32>, i: int)
    requires
        0 <= i < d.len(),
    ensures
        u32_elems(d.take(i + 1)) == u32_elems(d.take(i)) + uint_value(d[i]),
{
    assert(d.take(i + 1).drop_last() =~= d.take(i));
    assert(d.take(i + 1).last() == d[i]);
}

/// Writes a sequence of unsigned 32-bit values as an array.
pub fn push_u32_array(out: &mut Vec<u8>, d: &[u32])
    requires
        d@.len() <= MAX_WIRE_LEN,
    ensures
        final(out)@ == old(out)@ + u32_array_value(d@),
{
    push_array_header(out, d.len() as u32);
    let ghost base = out@;
    let mut i: usize = 0;
    while i < d.len()
        invariant
            i <= d@.len(),
            out@ == base + u32_elems(d@.take(i as int)),
        decreases d@.len() - i,
    {
        proof {
            lemma_u32_elems_snoc(d@, i as int);
        }
        push_uint(out, d[i]);
        i = i + 1;
    }
    assert(d@.take(d@.len() as int) =~= d@);
    assert(out@ =~= old(out)@ + u32_array_value(d@));
}

/// Reads one unsigned 32-bit value starting at the head of `s`; yields the
/// value and how many bytes it occupied.
pub open spec fn parse_uint(s: Seq<u8>) -> Option<(u32, int)> {
    if s.len() >= 1 && s[0] < 0x80 {
        Some((s[0] as u32, 1))
    } else if s.len() >= 2 && s[0] == 0xcc {
        Some((s[1] as u32, 2))
    } else if s.len() >= 3 && s[0] == 0xcd {
        Some(((s[1] as int * 0x100 + s[2] as int) as u32, 3))
    } else if s.len() >= 5 && s[0] == 0xce {
        Some((
            (s[1] as int * 0x1000000 + s[2] as int * 0x10000 + s[3] as int * 0x100
                + s[4] as int) as u32,
            5,
        ))
    } else {
        None
    }
}

/// Reads an array header at the head of `s`; yields the element count and
/// how many bytes the header occupied.
pub open spec fn parse_array_header(s: Seq<u8>) -> Option<(u32, int)> {
    if s.len() >= 1 && 0x90 <= s[0] && s[0] < 0xa0 {
        Some(((s[0] as int - 0x90) as u32, 1))
    } else if s.len() >= 3 && s[0] == 0xdc {
        Some(((s[1] as int * 0x100 + s[2] as int) as u32, 3))
    } else if s.len() >= 5 && s[0] == 0xdd {
        Some((
            (s[1] as int * 0x1000000 + s[2] as int * 0x10000 + s[3] as int * 0x100
                + s[4] as int) as u32,
            5,
        ))
    } else {
        None
    }
}

/// Reads one byte-sized element, in either form the host's codec writes
/// one: bare below `0x80`, behind `0xcc` otherwise.
pub open spec fn parse_u8_elem(s: Seq<u8>) -> Option<(u8, int)> {
    if s.len() >= 1 && s[0] < 0x80 {
        Some((s[0], 1))
    } else if s.len() >= 2 && s[0] == 0xcc {
        Some((s[1], 2))
    } else {
        None
    }
}

/// Reads exactly `n` byte-sized elements from the head of `s`.
pub open spec fn parse_u8_elems(s: Seq<u8>, n: nat) -> Option<(Seq<u8>, int)>
    decreases n,
{
    if n == 0 {
        Some((Seq::empty(), 0))
    } else {
        match parse_u8_elem(s) {
            None => None,
            Some((b, used)) => match parse_u8_elems(s.skip(used), (n - 1) as nat) {
                None => None,
                Some((rest, used2)) => Some((seq![b] + rest, used + used2)),
            },
        }
    }
}

/// Reads the value and length of one unsigned 32-bit value at offset
/// `from`.
pub fn decode_uint(s: &[u8], from: usize) -> (r: Option<(u32, usize)>)
    requires
        from <= s@.len(),
    ensures
        match r {
            Some((v, used)) => parse_uint(s@.skip(from as int)) == Some((v, used as int))
                && from + used <= s@.len(),
            None => parse_uint(s@.skip(from as int)) is None,
        },
{
    let rem = s.len() - from;
    if rem >= 1 && s[from] < 0x80 {
        Some((s[from] as u32, 1))
    } else if rem >= 2 && s[from] == 0xcc {
        Some((s[from + 1] as u32, 2))
    } else if rem >= 3 && s[from] == 0xcd {
        Some(((s[from + 1] as u32) * 0x100 + (s[from + 2] as u32), 3))
    } else if rem >= 5 && s[from] == 0xce {
        let v = (s[from + 1] as u32) * 0x1000000 + (s[from + 2] as u32) * 0x10000
            + (s[from + 3] as u32) * 0x100 + (s[from + 4] as u32);
        Some((v, 5))
    } else {
        None
    }
}

/// Reads the element count and length of one array header at offset
/// `from`.
pub fn decode_array_header(s: &[u8], from: usize) -> (r: Option<(u32, usize)>)
    requires
        from <= s@.len(),
    ensures
        match r {
            Some((n, used)) => parse_array_header(s@.skip(from as int)) == Some((
                n,
                used as int,
            )) && from + used <= s@.len(),
            None => parse_array_header(s@.skip(from as int)) is None,
        },
{
    let rem = s.len() - from;
    if rem >= 1 && 0x90 <= s[from] && s[from] < 0xa0 {
        Some(((s[from] - 0x90) as u32, 1))
    } else if rem >= 3 && s[from] == 0xdc {
        Some(((s[from + 1] as u32) * 0x100 + (s[from + 2] as u32), 3))
    } else if rem >= 5 && s[from] == 0xdd {
        let n = (s[from + 1] as u32) * 0x1000000 + (s[from + 2] as u32) * 0x10000
            + (s[from + 3] as u32) * 0x100 + (s[from + 4] as u32);
        Some((n, 5))
    } else {
        None
    }
}

/// Reads exactly `n` byte-sized elements at offset `from`, returning the
/// bytes and the offset just past them.
pub fn decode_u8_elems(s: &[u8], from: usize, n: u32) -> (r: Option<(Vec<u8>, usize)>)
    requires
        from <= s@.len(),
    ensures
        match r {
            Some((v, end)) => from <= end <= s@.len() && parse_u8_elems(
                s@.skip(from as int),
                n as nat,
            ) == Some((v@, end - from)),
            None => parse_u8_elems(s@.skip(from as int), n as nat) is None,
        },
{
    let mut acc: Vec<u8> = Vec::new();
    let mut at: usize = from;
    let mut i: u32 = 0;
    while i < n
        invariant
            i <= n,
            from <= at <= s@.len(),
            acc@.len() == i,
            parse_u8_elems(s@.skip(from as int), n as nat) == match parse_u8_elems(
                s@.skip(at as int),
                (n - i) as nat,
            ) {
                None => None::<(Seq<u8>, int)>,
                Some((rest, used)) => Some((acc@ + rest, at - from + used)),
            },
        decreases n - i,
    {
        let ghost pre = s@.skip(at as int);
        let rem = s.len() - at;
        let (b, used): (u8, usize) = if rem >= 1 && s[at] < 0x80 {
            (s[at], 1)
        } else if rem >= 2 && s[at] == 0xcc {
            (s[at + 1], 2)
        } else {
            proof {
                assert(parse_u8_elem(pre) is None);
            }
            return None;
        };
        proof {
            assert(parse_u8_elem(pre) == Some((b, used as int)));
            assert(s@.skip(at as int).skip(used as int) =~= s@.skip(at + used as int));
        }
        acc.push(b);
        at = at + used;
        i = i + 1;
        proof {
            assert(forall|rest: Seq<u8>| acc@.drop_last() + (seq![b] + rest) =~= acc@ + rest);
        }
    }
    Some((acc, at))
}

} // verus!
