//! Byte layout shared by instruction payloads and stored records: strings are a
//! four-byte little-endian length followed by UTF-8 bytes, integers are
//! little-endian, a flag is one byte (0 or 1), an address is 32 raw bytes.
use vstd::prelude::*;
use vstd::utf8::*;
use vstd::string::StringSliceAdditionalSpecFns;

verus! {

/// The four little-endian bytes of `n`.
pub open spec fn le32_bytes(n: u32) -> Seq<u8> {
    seq![
        (n & 0xff) as u8,
        ((n >> 8u32) & 0xff) as u8,
        ((n >> 16u32) & 0xff) as u8,
        ((n >> 24u32) & 0xff) as u8,
    ]
}

/// The number held by four little-endian bytes.
pub open spec fn le32_value(b0: u8, b1: u8, b2: u8, b3: u8) -> u32 {
    (b0 as u32) | ((b1 as u32) << 8u32) | ((b2 as u32) << 16u32) | ((b3 as u32) << 24u32)
}

/// The eight little-endian bytes of `n`.
pub open spec fn le64_bytes(n: u64) -> Seq<u8> {
    seq![
        (n & 0xff) as u8,
        ((n >> 8u64) & 0xff) as u8,
        ((n >> 16u64) & 0xff) as u8,
        ((n >> 24u64) & 0xff) as u8,
        ((n >> 32u64) & 0xff) as u8,
        ((n >> 40u64) & 0xff) as u8,
        ((n >> 48u64) & 0xff) as u8,
        ((n >> 56u64) & 0xff) as u8,
    ]
}

/// The eight big-endian bytes of `n`.
pub open spec fn be64_bytes(n: u64) -> Seq<u8> {
    Seq::new(8, |i: int| ((n >> (8 * (7 - i)) as u64) & 0xff) as u8)
}

/// The number held by eight little-endian bytes.
pub open spec fn le64_value(b0: u8, b1: u8, b2: u8, b3: u8, b4: u8, b5: u8, b6: u8, b7: u8) -> u64 {
    (b0 as u64) | ((b1 as u64) << 8u64) | ((b2 as u64) << 16u64) | ((b3 as u64) << 24u64)
        | ((b4 as u64) << 32u64) | ((b5 as u64) << 40u64) | ((b6 as u64) << 48u64) | ((b7 as u64)
        << 56u64)
}

/// A length-prefixed string: its length as four little-endian bytes, then its bytes.
pub open spec fn string_encoding(s: Seq<u8>) -> Seq<u8> {
    le32_bytes(s.len() as u32) + s
}

/// Reads a length-prefixed UTF-8 string from the front of `s`; gives its bytes and
/// what follows it.
pub open spec fn read_string(s: Seq<u8>) -> Option<(Seq<u8>, Seq<u8>)> {
    if s.len() < 4 {
        None
    } else {
        let n = le32_value(s[0], s[1], s[2], s[3]) as int;
        if s.len() < 4 + n {
            None
        } else if !valid_utf8(s.subrange(4, 4 + n)) {
            None
        } else {
            Some((s.subrange(4, 4 + n), s.subrange(4 + n, s.len() as int)))
        }
    }
}

/// Reads a flag byte from the front of `s`.
pub open spec fn read_flag(s: Seq<u8>) -> Option<(bool, Seq<u8>)> {
    if s.len() < 1 || s[0] > 1 {
        None
    } else {
        Some((s[0] == 1, s.subrange(1, s.len() as int)))
    }
}

/// Reads a little-endian 64-bit integer from the front of `s`.
pub open spec fn read_u64(s: Seq<u8>) -> Option<(u64, Seq<u8>)> {
    if s.len() < 8 {
        None
    } else {
        Some((le64_value(s[0], s[1], s[2], s[3], s[4], s[5], s[6], s[7]), s.subrange(8, s.len() as int)))
    }
}

/// Reads a 32-byte address from the front of `s`.
pub open spec fn read_address(s: Seq<u8>) -> Option<(Seq<u8>, Seq<u8>)> {
    if s.len() < 32 {
        None
    } else {
        Some((s.subrange(0, 32), s.subrange(32, s.len() as int)))
    }
}

/// The byte encoding of a flag.
pub open spec fn flag_byte(b: bool) -> u8 {
    if b {
        1
    } else {
        0
    }
}

/// Four little-endian bytes read back as the number they were made from.
pub proof fn lemma_le32_round_trip(n: u32)
    ensures
        le32_value(
            le32_bytes(n)[0],
            le32_bytes(n)[1],
            le32_bytes(n)[2],
            le32_bytes(n)[3],
        ) == n,
{
    assert(((n & 0xff) as u8) as u32 | ((((n >> 8u32) & 0xff) as u8) as u32) << 8u32 | ((((n
        >> 16u32) & 0xff) as u8) as u32) << 16u32 | ((((n >> 24u32) & 0xff) as u8) as u32)
        << 24u32 == n) by (bit_vector);
}

/// A string written with its length prefix reads back as itself, leaving what follows.
pub proof fn lemma_read_string_encoding(s: Seq<u8>, rest: Seq<u8>)
    requires
        s.len() <= u32::MAX,
        valid_utf8(s),
    ensures
        read_string(string_encoding(s) + rest) == Some((s, rest)),
{
    let all = string_encoding(s) + rest;
    lemma_le32_round_trip(s.len() as u32);
    assert(all.subrange(4, 4 + s.len() as int) =~= s);
    assert(all.subrange(4 + s.len() as int, all.len() as int) =~= rest);
}

/// Eight little-endian bytes read back as the number they were made from.
pub proof fn lemma_le64_round_trip(n: u64)
    ensures
        le64_value(
            le64_bytes(n)[0],
            le64_bytes(n)[1],
            le64_bytes(n)[2],
            le64_bytes(n)[3],
            le64_bytes(n)[4],
            le64_bytes(n)[5],
            le64_bytes(n)[6],
            le64_bytes(n)[7],
        ) == n,
{
    assert(((n & 0xff) as u8) as u64 | ((((n >> 8u64) & 0xff) as u8) as u64) << 8u64 | ((((n
        >> 16u64) & 0xff) as u8) as u64) << 16u64 | ((((n >> 24u64) & 0xff) as u8) as u64)
        << 24u64 | ((((n >> 32u64) & 0xff) as u8) as u64) << 32u64 | ((((n >> 40u64) & 0xff)
        as u8) as u64) << 40u64 | ((((n >> 48u64) & 0xff) as u8) as u64) << 48u64 | ((((n
        >> 56u64) & 0xff) as u8) as u64) << 56u64 == n) by (bit_vector);
}

/// An integer written as eight little-endian bytes reads back as itself.
pub proof fn lemma_read_u64_bytes(n: u64, rest: Seq<u8>)
    ensures
        read_u64(le64_bytes(n) + rest) == Some((n, rest)),
{
    lemma_le64_round_trip(n);
    assert((le64_bytes(n) + rest).subrange(8, rest.len() as int + 8) =~= rest);
}

/// A flag written as one byte reads back as itself.
pub proof fn lemma_read_flag_byte(b: bool, rest: Seq<u8>)
    ensures
        read_flag(seq![flag_byte(b)] + rest) == Some((b, rest)),
{
    assert((seq![flag_byte(b)] + rest).subrange(1, rest.len() as int + 1) =~= rest);
}

/// Appends the four little-endian bytes of `n`.
pub fn push_le32(out: &mut Vec<u8>, n: u32)
    ensures
        final(out)@ == old(out)@ + le32_bytes(n),
{
    out.push((n & 0xff) as u8);
    out.push(((n >> 8u32) & 0xff) as u8);
    out.push(((n >> 16u32) & 0xff) as u8);
    out.push(((n >> 24u32) & 0xff) as u8);
    assert(final(out)@ =~= old(out)@ + le32_bytes(n));
}

/// Appends the bytes of `b`.
pub fn push_bytes(out: &mut Vec<u8>, b: &[u8])
    ensures
        final(out)@ == old(out)@ + b@,
{
    let ghost start = out@;
    let mut i: usize = 0;
    while i < b.len()
        invariant
            i <= b@.len(),
            out@ == start + b@.subrange(0, i as int),
        decreases b@.len() - i,
    {
        out.push(b[i]);
        i = i + 1;
        assert(out@ =~= start + b@.subrange(0, i as int));
    }
    assert(b@.subrange(0, b@.len() as int) =~= b@);
}

/// Appends `s` with its length prefix.
pub fn push_string(out: &mut Vec<u8>, s: &str)
    requires
        s.spec_bytes().len() <= u32::MAX,
    ensures
        final(out)@ == old(out)@ + string_encoding(s.spec_bytes()),
{
    let b = s.as_bytes();
    push_le32(out, b.len() as u32);
    push_bytes(out, b);
    assert(final(out)@ =~= old(out)@ + string_encoding(s.spec_bytes()));
}

/// Appends the eight little-endian bytes of `n`.
pub fn push_le64(out: &mut Vec<u8>, n: u64)
    ensures
        final(out)@ == old(out)@ + le64_bytes(n),
{
    out.push((n & 0xff) as u8);
    out.push(((n >> 8u64) & 0xff) as u8);
    out.push(((n >> 16u64) & 0xff) as u8);
    out.push(((n >> 24u64) & 0xff) as u8);
    out.push(((n >> 32u64) & 0xff) as u8);
    out.push(((n >> 40u64) & 0xff) as u8);
    out.push(((n >> 48u64) & 0xff) as u8);
    out.push(((n >> 56u64) & 0xff) as u8);
    assert(final(out)@ =~= old(out)@ + le64_bytes(n));
}

/// Appends a flag byte.
pub fn push_flag(out: &mut Vec<u8>, f: bool)
    ensures
        final(out)@ == old(out)@.push(flag_byte(f)),
{
    if f {
        out.push(1u8);
    } else {
        out.push(0u8);
    }
}

/// Relies on std::str::from_utf8: it accepts exactly the valid UTF-8 byte
/// strings and hands back a string with the same bytes.
#[verifier::external_body]
fn utf8_str(b: &[u8]) -> (r: Option<&str>)
    ensures
        r.is_some() == valid_utf8(b@),
        r.is_some() ==> r.unwrap().spec_bytes() == b@,
{
    std::str::from_utf8(b).ok()
}

/// Reads a length-prefixed UTF-8 string at `pos`; gives the string and the
/// position after it.
pub fn take_string(data: &[u8], pos: usize) -> (r: Option<(String, usize)>)
    requires
        pos <= data@.len(),
    ensures
        match read_string(data@.subrange(pos as int, data@.len() as int)) {
            None => r.is_none(),
            Some((s, rest)) => r.is_some() && encode_utf8(r.unwrap().0@) == s && pos
                <= r.unwrap().1 <= data@.len() && data@.subrange(
                r.unwrap().1 as int,
                data@.len() as int,
            ) == rest,
        },
{
    let ghost tail = data@.subrange(pos as int, data@.len() as int);
    if data.len() - pos < 4 {
        return None;
    }
    let n = (data[pos] as u32) | ((data[pos + 1] as u32) << 8u32) | ((data[pos + 2] as u32)
        << 16u32) | ((data[pos + 3] as u32) << 24u32);
    assert(n == le32_value(tail[0], tail[1], tail[2], tail[3]));
    let start = pos + 4;
    if data.len() - start < n as usize {
        return None;
    }
    let end = start + n as usize;
    let bytes = &data[start..end];
    assert(bytes@ =~= tail.subrange(4, 4 + n));
    match utf8_str(bytes) {
        None => None,
        Some(s) => {
            let owned = String::from_str(s);
            assert(data@.subrange(end as int, data@.len() as int) =~= tail.subrange(
                4 + n,
                tail.len() as int,
            ));
            Some((owned, end))
        },
    }
}

/// Reads a flag byte at `pos`.
pub fn take_flag(data: &[u8], pos: usize) -> (r: Option<(bool, usize)>)
    requires
        pos <= data@.len(),
    ensures
        match read_flag(data@.subrange(pos as int, data@.len() as int)) {
            None => r.is_none(),
            Some((f, rest)) => r.is_some() && r.unwrap().0 == f && r.unwrap().1 == pos + 1 && data@.subrange(
                pos + 1,
                data@.len() as int,
            ) == rest,
        },
{
    if pos >= data.len() || data[pos] > 1 {
        None
    } else {
        assert(data@.subrange(pos + 1, data@.len() as int) =~= data@.subrange(
            pos as int,
            data@.len() as int,
        ).subrange(1, data@.len() - pos));
        Some((data[pos] == 1, pos + 1))
    }
}

/// Reads a little-endian 64-bit integer at `pos`.
pub fn take_u64(data: &[u8], pos: usize) -> (r: Option<(u64, usize)>)
    requires
        pos <= data@.len(),
    ensures
        match read_u64(data@.subrange(pos as int, data@.len() as int)) {
            None => r.is_none(),
            Some((v, rest)) => r.is_some() && r.unwrap().0 == v && r.unwrap().1 == pos + 8 && data@.subrange(
                pos + 8,
                data@.len() as int,
            ) == rest,
        },
{
    if data.len() - pos < 8 {
        return None;
    }
    let v = (data[pos] as u64) | ((data[pos + 1] as u64) << 8u64) | ((data[pos + 2] as u64)
        << 16u64) | ((data[pos + 3] as u64) << 24u64) | ((data[pos + 4] as u64) << 32u64) | ((
    data[pos + 5] as u64) << 40u64) | ((data[pos + 6] as u64) << 48u64) | ((data[pos + 7] as u64)
        << 56u64);
    assert(data@.subrange(pos + 8, data@.len() as int) =~= data@.subrange(
        pos as int,
        data@.len() as int,
    ).subrange(8, data@.len() - pos));
    Some((v, pos + 8))
}

/// Reads a 32-byte address at `pos`.
pub fn take_address(data: &[u8], pos: usize) -> (r: Option<([u8; 32], usize)>)
    requires
        pos <= data@.len(),
    ensures
        match read_address(data@.subrange(pos as int, data@.len() as int)) {
            None => r.is_none(),
            Some((a, rest)) => r.is_some() && r.unwrap().0@ == a && r.unwrap().1 == pos + 32
                && data@.subrange(pos + 32, data@.len() as int) == rest,
        },
{
    if data.len() - pos < 32 {
        return None;
    }
    let mut a: [u8; 32] = [0u8; 32];
    let mut k: usize = 0;
    while k < 32
        invariant
            k <= 32,
            pos + 32 <= data@.len(),
            data@.len() <= usize::MAX,
            forall|j: int| 0 <= j < k ==> a@[j] == data@[pos + j],
        decreases 32 - k,
    {
        a[k] = data[pos + k];
        k = k + 1;
    }
    assert(a@ =~= data@.subrange(pos as int, data@.len() as int).subrange(0, 32));
    assert(data@.subrange(pos + 32, data@.len() as int) =~= data@.subrange(
        pos as int,
        data@.len() as int,
    ).subrange(32, data@.len() - pos));
    Some((a, pos + 32))
}

} // verus!
