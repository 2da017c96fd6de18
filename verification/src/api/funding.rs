//! Funding: RLP encoding of raw Polygon transactions and the validation of
//! deposit wallet addresses.

use crate::api::{opt_str, CachedCredentials};
use crate::db::byte_len;
use crate::text::{is_trim_of, starts_with, str_starts_with, str_trim};
use vstd::prelude::*;
use vstd::string::*;
use vstd::utf8::*;

verus! {

// ---------------------------------------------------------------------------
// Hexadecimal digits and big-endian bytes
// ---------------------------------------------------------------------------

/// The lower-case hexadecimal digit of a value in `0..16`.
pub open spec fn hex_digit(d: int) -> char {
    if d < 10 {
        (48 + d) as char
    } else {
        (97 + (d - 10)) as char
    }
}

/// Lower-case hexadecimal of `n` without leading zeros (`"0"` for zero), as
/// `format!("{:x}", n)` writes it.
pub open spec fn lower_hex(n: nat) -> Seq<char>
    decreases n,
{
    if n < 16 {
        seq![hex_digit(n as int)]
    } else {
        lower_hex(n / 16).push(hex_digit((n % 16) as int))
    }
}

/// The value of a hexadecimal digit (either case), if it is one.
pub open spec fn hex_value(c: char) -> Option<int> {
    if '0' <= c && c <= '9' {
        Some(c as int - 48)
    } else if 'a' <= c && c <= 'f' {
        Some(c as int - 97 + 10)
    } else if 'A' <= c && c <= 'F' {
        Some(c as int - 65 + 10)
    } else {
        None
    }
}

/// The bytes that a string of hexadecimal digit pairs denotes: `None` for an
/// odd length or a character that is not a hexadecimal digit.
pub open spec fn hex_decode(s: Seq<char>) -> Option<Seq<u8>>
    decreases s.len(),
{
    if s.len() == 0 {
        Some(seq![])
    } else if s.len() == 1 {
        None
    } else {
        match (hex_decode(s.subrange(0, s.len() - 2)), hex_value(s[s.len() - 2]), hex_value(s[s.len() - 1])) {
            (Some(prefix), Some(hi), Some(lo)) => Some(prefix.push((hi * 16 + lo) as u8)),
            _ => None,
        }
    }
}

/// Minimal big-endian bytes of `n` (empty for zero).
pub open spec fn be_bytes(n: nat) -> Seq<u8>
    decreases n,
{
    if n == 0 {
        seq![]
    } else {
        be_bytes(n / 256).push((n % 256) as u8)
    }
}

/// The number that big-endian bytes denote.
pub open spec fn be_value(bytes: Seq<u8>) -> nat
    decreases bytes.len(),
{
    if bytes.len() == 0 {
        0
    } else {
        be_value(bytes.drop_last()) * 256 + bytes.last() as nat
    }
}

/// Hexadecimal of `n`, with a `0` in front when it has an odd number of digits.
pub open spec fn padded_hex(n: nat) -> Seq<char> {
    if lower_hex(n).len() % 2 == 0 {
        lower_hex(n)
    } else {
        seq!['0'] + lower_hex(n)
    }
}

/// Calls `format!("{:x}", value)`.
#[verifier::external_body]
fn format_lower_hex(value: u64) -> (s: String)
    ensures
        s@ == lower_hex(value as nat),
{
    format!("{:x}", value)
}

/// Calls `hex::decode`: it succeeds exactly on strings of hexadecimal digit
/// pairs and gives back the bytes they denote.
#[verifier::external_body]
fn decode_hex(s: &str) -> (res: Option<Vec<u8>>)
    ensures
        match res {
            Some(v) => hex_decode(s@) == Some(v@),
            None => hex_decode(s@) is None,
        },
{
    hex::decode(s).ok()
}

proof fn lemma_hex_decode_append(s: Seq<char>, a: char, b: char)
    ensures
        hex_decode(s + seq![a, b]) == match (hex_decode(s), hex_value(a), hex_value(b)) {
            (Some(prefix), Some(hi), Some(lo)) => Some(prefix.push((hi * 16 + lo) as u8)),
            _ => None::<Seq<u8>>,
        },
{
    let t = s + seq![a, b];
    assert(t.subrange(0, t.len() - 2) =~= s);
}

proof fn lemma_hex_digit_value(d: int)
    requires
        0 <= d < 16,
    ensures
        hex_value(hex_digit(d)) == Some(d),
{
}

proof fn lemma_lower_hex_ascii(n: nat)
    ensures
        is_ascii_chars(lower_hex(n)),
    decreases n,
{
    if n >= 16 {
        lemma_lower_hex_ascii(n / 16);
    }
}

/// The padded hexadecimal of a positive number decodes to its minimal
/// big-endian bytes.
proof fn lemma_padded_hex_decodes(n: nat)
    requires
        n > 0,
    ensures
        hex_decode(padded_hex(n)) == Some(be_bytes(n)),
    decreases n,
{
    if n < 16 {
        lemma_hex_digit_value(0);
        lemma_hex_digit_value(n as int);
        assert(lower_hex(n) == seq![hex_digit(n as int)]);
        assert(padded_hex(n) =~= Seq::<char>::empty() + seq!['0', hex_digit(n as int)]);
        lemma_hex_decode_append(Seq::<char>::empty(), '0', hex_digit(n as int));
        assert(be_bytes(n / 256) == Seq::<u8>::empty());
        assert(be_bytes(n) =~= seq![(n % 256) as u8]);
    } else if n < 256 {
        let hi = n / 16;
        let lo = n % 16;
        lemma_hex_digit_value(hi as int);
        lemma_hex_digit_value(lo as int);
        assert(lower_hex(hi) == seq![hex_digit(hi as int)]);
        assert(lower_hex(n) =~= Seq::<char>::empty() + seq![hex_digit(hi as int), hex_digit(lo as int)]);
        lemma_hex_decode_append(Seq::<char>::empty(), hex_digit(hi as int), hex_digit(lo as int));
        assert(be_bytes(n / 256) == Seq::<u8>::empty());
        assert(hi * 16 + lo == n);
        assert(be_bytes(n) =~= seq![(n % 256) as u8]);
    } else {
        let q = n / 256;
        let m = n / 16;
        let d1 = m % 16;
        let d0 = n % 16;
        assert(m / 16 == q) by (nonlinear_arith)
            requires
                m == n / 16,
                q == n / 256,
        ;
        assert(d1 * 16 + d0 == n % 256) by (nonlinear_arith)
            requires
                m == n / 16,
                d1 == m % 16,
                d0 == n % 16,
        ;
        assert(lower_hex(m) == lower_hex(q).push(hex_digit(d1 as int)));
        assert(lower_hex(n) =~= lower_hex(q) + seq![hex_digit(d1 as int), hex_digit(d0 as int)]);
        lemma_hex_digit_value(d1 as int);
        lemma_hex_digit_value(d0 as int);
        lemma_padded_hex_decodes(q);
        if lower_hex(q).len() % 2 == 0 {
            assert(padded_hex(n) =~= padded_hex(q) + seq![hex_digit(d1 as int), hex_digit(d0 as int)]);
        } else {
            assert(padded_hex(n) =~= padded_hex(q) + seq![hex_digit(d1 as int), hex_digit(d0 as int)]);
        }
        lemma_hex_decode_append(padded_hex(q), hex_digit(d1 as int), hex_digit(d0 as int));
    }
}

/// `256` to the power `k`.
pub open spec fn pow256(k: nat) -> nat
    decreases k,
{
    if k == 0 {
        1
    } else {
        256 * pow256((k - 1) as nat)
    }
}

proof fn lemma_be_bytes_len(n: nat, k: nat)
    requires
        n < pow256(k),
    ensures
        be_bytes(n).len() <= k,
    decreases n,
{
    if n > 0 {
        let p = pow256((k - 1) as nat);
        assert(n / 256 < p) by (nonlinear_arith)
            requires
                n < 256 * p,
        ;
        lemma_be_bytes_len(n / 256, (k - 1) as nat);
    }
}

proof fn lemma_lower_hex_len_bound(n: nat, k: nat)
    requires
        n < pow256(k),
        k >= 1,
    ensures
        lower_hex(n).len() <= 2 * k,
    decreases k,
{
    if n >= 256 {
        let p = pow256((k - 1) as nat);
        assert(n / 256 < p) by (nonlinear_arith)
            requires
                n < 256 * p,
        ;
        assert((n / 16) / 16 == n / 256) by (nonlinear_arith);
        assert(k - 1 >= 1) by {
            if k == 1 {
                assert(pow256(0) == 1);
            }
        }
        lemma_lower_hex_len_bound(n / 256, (k - 1) as nat);
        assert(lower_hex(n).len() == lower_hex(n / 16).len() + 1);
        assert(lower_hex(n / 16).len() == lower_hex(n / 256).len() + 1);
    } else if n >= 16 {
        assert(lower_hex(n / 16).len() == 1);
    }
}

/// A `u64` has at most sixteen hexadecimal digits.
proof fn lemma_lower_hex_u64(n: u64)
    ensures
        lower_hex(n as nat).len() <= 16,
{
    reveal_with_fuel(pow256, 9);
    assert(pow256(8) == 0x1_0000_0000_0000_0000);
    lemma_lower_hex_len_bound(n as nat, 8);
}

/// A `usize` has at most eight minimal big-endian bytes.
proof fn lemma_be_bytes_usize(n: usize)
    ensures
        be_bytes(n as nat).len() <= 8,
{
    reveal_with_fuel(pow256, 9);
    assert(pow256(8) == 0x1_0000_0000_0000_0000);
    lemma_be_bytes_len(n as nat, 8);
}

proof fn lemma_be_value_of_bytes(n: nat)
    ensures
        be_value(be_bytes(n)) == n,
    decreases n,
{
    if n > 0 {
        lemma_be_value_of_bytes(n / 256);
        let b = be_bytes(n);
        assert(b.drop_last() =~= be_bytes(n / 256));
    }
}

// ---------------------------------------------------------------------------
// RLP
// ---------------------------------------------------------------------------

/// The length bytes of a long RLP item: the minimal big-endian bytes of the
/// length.
pub open spec fn rlp_length_bytes(len: nat) -> Seq<u8> {
    be_bytes(len)
}

/// The RLP encoding of a byte string.
pub open spec fn rlp_bytes(data: Seq<u8>) -> Seq<u8> {
    if data.len() == 1 && data[0] < 0x80 {
        data
    } else if data.len() <= 55 {
        seq![(0x80 + data.len()) as u8] + data
    } else {
        let lb = rlp_length_bytes(data.len());
        seq![(0xb7 + lb.len()) as u8] + lb + data
    }
}

/// The RLP encoding of a list whose items are already encoded.
pub open spec fn rlp_list(items: Seq<Seq<u8>>) -> Seq<u8> {
    let flat = items.flatten();
    if flat.len() <= 55 {
        seq![(0xc0 + flat.len()) as u8] + flat
    } else {
        let lb = rlp_length_bytes(flat.len());
        seq![(0xf7 + lb.len()) as u8] + lb + flat
    }
}

/// The RLP encoding of an unsigned integer: its minimal big-endian bytes as a
/// byte string (zero is the empty string).
pub open spec fn rlp_uint(value: nat) -> Seq<u8> {
    rlp_bytes(be_bytes(value))
}

/// The big-endian bytes with their leading zeros removed.
pub open spec fn trim_leading_zeros(bytes: Seq<u8>) -> Seq<u8>
    decreases bytes.len(),
{
    if bytes.len() > 0 && bytes[0] == 0 {
        trim_leading_zeros(bytes.drop_first())
    } else {
        bytes
    }
}

/// The minimal big-endian bytes of a positive number: its hexadecimal,
/// `format!("{:x}", val)` padded with a leading `0` to an even number of
/// digits, through `hex::decode`.
fn be_bytes_of(val: u64) -> (out: Vec<u8>)
    requires
        val > 0,
    ensures
        out@ == be_bytes(val as nat),
        out@.len() <= 8,
{
    let hex_str = format_lower_hex(val);
    proof {
        lemma_padded_hex_decodes(val as nat);
        lemma_lower_hex_ascii(val as nat);
        lemma_lower_hex_u64(val);
        is_ascii_chars_encode_utf8(lower_hex(val as nat));
        reveal_with_fuel(pow256, 9);
        assert(pow256(8) == 0x1_0000_0000_0000_0000);
        lemma_be_bytes_len(val as nat, 8);
    }
    let hex_len = hex_str.as_str().len();
    assert(hex_len == lower_hex(val as nat).len());
    let bytes = if hex_len % 2 == 0 {
        decode_hex(hex_str.as_str())
    } else {
        let mut padded = "0".to_string();
        padded.append(hex_str.as_str());
        proof {
            reveal_strlit("0");
            assert(padded@ =~= padded_hex(val as nat));
        }
        decode_hex(padded.as_str())
    };
    match bytes {
        Some(b) => b,
        None => {
            assert(false);
            Vec::new()
        },
    }
}

/// Length bytes of a long item.
fn rlp_length_of(len: usize) -> (lb: Vec<u8>)
    requires
        len > 55,
    ensures
        lb@ == rlp_length_bytes(len as nat),
        lb@.len() <= 8,
{
    be_bytes_of(len as u64)
}

/// RLP-encodes a byte array (string).
pub fn rlp_encode_bytes(data: &[u8]) -> (out: Vec<u8>)
    ensures
        out@ == rlp_bytes(data@),
{
    if data.len() == 1 && data[0] < 0x80 {
        let mut out: Vec<u8> = Vec::new();
        out.push(data[0]);
        assert(out@ =~= data@);
        return out;
    }
    if data.len() <= 55 {
        let mut out: Vec<u8> = Vec::new();
        out.push(0x80 + data.len() as u8);
        out.extend_from_slice(data);
        assert(out@ =~= rlp_bytes(data@));
        return out;
    }
    let len_bytes = rlp_length_of(data.len());
    let mut out: Vec<u8> = Vec::new();
    out.push(0xb7 + len_bytes.len() as u8);
    out.extend_from_slice(&len_bytes);
    out.extend_from_slice(data);
    assert(out@ =~= rlp_bytes(data@));
    out
}

/// RLP-encodes a `u64`.
pub fn rlp_encode_u64(val: u64) -> (out: Vec<u8>)
    ensures
        out@ == rlp_uint(val as nat),
        rlp_decode_bytes(out@) matches Some(b) && be_value(b) == val && (b.len() == 0 || b[0] != 0),
{
    proof {
        lemma_rlp_uint_reads_back(val);
    }
    if val == 0 {
        let mut out: Vec<u8> = Vec::new();
        out.push(0x80);
        assert(be_bytes(0) =~= Seq::<u8>::empty());
        assert(out@ =~= rlp_uint(0));
        return out;
    }
    let bytes = be_bytes_of(val);
    rlp_encode_bytes(&bytes)
}

/// RLP-encodes a 256-bit unsigned integer given by its 32 big-endian bytes.
pub fn rlp_encode_u256(val: &[u8; 32]) -> (out: Vec<u8>)
    ensures
        out@ == rlp_bytes(trim_leading_zeros(val@)),
        rlp_decode_bytes(out@) matches Some(b) && be_value(b) == be_value(val@) && (b.len() == 0 || b[0] != 0),
{
    let mut start: usize = 0;
    assert(val@.subrange(0, 32) =~= val@);
    while start < 32 && val[start] == 0
        invariant
            0 <= start <= 32,
            val@.len() == 32,
            trim_leading_zeros(val@) == trim_leading_zeros(val@.subrange(start as int, 32)),
        decreases 32 - start,
    {
        proof {
            let s = val@.subrange(start as int, 32);
            assert(s.drop_first() =~= val@.subrange(start as int + 1, 32));
        }
        start = start + 1;
    }
    let trimmed = &val[start..32];
    proof {
        let s = val@.subrange(start as int, 32);
        assert(trimmed@ == s);
        if s.len() > 0 {
            assert(s[0] != 0);
        }
        assert(trim_leading_zeros(s) == s);
    }
    let out = rlp_encode_bytes(trimmed);
    proof {
        lemma_rlp_word_reads_back(val@);
    }
    out
}

/// RLP-encodes a list of already encoded items.
pub fn rlp_encode_list(items: &[Vec<u8>]) -> (out: Vec<u8>)
    ensures
        out@ == rlp_list(items@.map_values(|item: Vec<u8>| item@)),
{
    let ghost views = items@.map_values(|item: Vec<u8>| item@);
    let mut flat: Vec<u8> = Vec::new();
    let mut i: usize = 0;
    while i < items.len()
        invariant
            0 <= i <= items@.len(),
            views == items@.map_values(|item: Vec<u8>| item@),
            flat@ == views.take(i as int).flatten(),
        decreases items@.len() - i,
    {
        proof {
            assert(views.take(i as int + 1) =~= views.take(i as int).push(views[i as int]));
            views.take(i as int).lemma_flatten_push(views[i as int]);
        }
        flat.extend_from_slice(items[i].as_slice());
        i = i + 1;
    }
    proof {
        assert(views.take(items@.len() as int) =~= views);
    }
    if flat.len() <= 55 {
        let mut out: Vec<u8> = Vec::new();
        out.push(0xc0 + flat.len() as u8);
        out.extend_from_slice(&flat);
        assert(out@ =~= rlp_list(views));
        return out;
    }
    let len_bytes = rlp_length_of(flat.len());
    let mut out: Vec<u8> = Vec::new();
    out.push(0xf7 + len_bytes.len() as u8);
    out.extend_from_slice(&len_bytes);
    out.extend_from_slice(&flat);
    assert(out@ =~= rlp_list(views));
    out
}

} // verus!

verus! {

// ---------------------------------------------------------------------------
// Laws of the RLP encoding
// ---------------------------------------------------------------------------

/// Reads one RLP byte-string item that spans all of `enc`: the payload whose
/// length the prefix announces, or `None` when the prefix does not announce a
/// string of exactly the remaining length.
pub open spec fn rlp_decode_bytes(enc: Seq<u8>) -> Option<Seq<u8>> {
    if enc.len() == 0 {
        None
    } else if enc[0] < 0x80 {
        if enc.len() == 1 { Some(enc) } else { None }
    } else if enc[0] <= 0xb7 {
        if enc.len() == 1 + (enc[0] - 0x80) { Some(enc.subrange(1, enc.len() as int)) } else { None }
    } else if enc[0] <= 0xbf {
        let ll = enc[0] - 0xb7;
        if enc.len() < 1 + ll {
            None
        } else if enc.len() == 1 + ll + be_value(enc.subrange(1, 1 + ll)) {
            Some(enc.subrange(1 + ll, enc.len() as int))
        } else {
            None
        }
    } else {
        None
    }
}

/// Reads one RLP list item that spans all of `enc`: the concatenated encoded
/// items whose total length the prefix announces.
pub open spec fn rlp_decode_list_payload(enc: Seq<u8>) -> Option<Seq<u8>> {
    if enc.len() == 0 || enc[0] < 0xc0 {
        None
    } else if enc[0] <= 0xf7 {
        if enc.len() == 1 + (enc[0] - 0xc0) { Some(enc.subrange(1, enc.len() as int)) } else { None }
    } else {
        let ll = enc[0] - 0xf7;
        if enc.len() < 1 + ll {
            None
        } else if enc.len() == 1 + ll + be_value(enc.subrange(1, 1 + ll)) {
            Some(enc.subrange(1 + ll, enc.len() as int))
        } else {
            None
        }
    }
}

/// `n` as exactly `k` big-endian bytes (the lowest `k` bytes of `n`).
pub open spec fn be_fixed(n: nat, k: nat) -> Seq<u8>
    decreases k,
{
    if k == 0 {
        seq![]
    } else {
        be_fixed(n / 256, (k - 1) as nat).push((n % 256) as u8)
    }
}

proof fn lemma_be_bytes_first_nonzero(n: nat)
    requires
        n > 0,
    ensures
        be_bytes(n).len() > 0,
        be_bytes(n)[0] != 0,
    decreases n,
{
    if n / 256 > 0 {
        lemma_be_bytes_first_nonzero(n / 256);
        assert(be_bytes(n)[0] == be_bytes(n / 256)[0]);
    } else {
        assert(be_bytes(n / 256) == Seq::<u8>::empty());
        assert(be_bytes(n)[0] == (n % 256) as u8);
    }
}

proof fn lemma_be_fixed_is_padded(n: nat, k: nat)
    requires
        n < pow256(k),
    ensures
        be_bytes(n).len() <= k,
        be_fixed(n, k) == Seq::new((k - be_bytes(n).len()) as nat, |i: int| 0u8) + be_bytes(n),
    decreases k,
{
    lemma_be_bytes_len(n, k);
    if k > 0 {
        let p = pow256((k - 1) as nat);
        assert(n / 256 < p) by (nonlinear_arith)
            requires
                n < 256 * p,
        ;
        lemma_be_fixed_is_padded(n / 256, (k - 1) as nat);
        if n == 0 {
            assert(be_bytes(0) == Seq::<u8>::empty());
            assert(be_fixed(0, k) =~= Seq::new(k, |i: int| 0u8));
        } else {
            let z = Seq::new(((k - 1) - be_bytes(n / 256).len()) as nat, |i: int| 0u8);
            assert(be_fixed(n, k) =~= z + be_bytes(n));
        }
    } else {
        assert(be_bytes(n) == Seq::<u8>::empty());
    }
}

proof fn lemma_trim_zeros_prefix(z: nat, b: Seq<u8>)
    requires
        b.len() == 0 || b[0] != 0,
    ensures
        trim_leading_zeros(Seq::new(z, |i: int| 0u8) + b) == b,
    decreases z,
{
    let s = Seq::new(z, |i: int| 0u8) + b;
    if z > 0 {
        assert(s.drop_first() =~= Seq::new((z - 1) as nat, |i: int| 0u8) + b);
        lemma_trim_zeros_prefix((z - 1) as nat, b);
    } else {
        assert(s =~= b);
    }
}

/// A `u64` and the same value as a 256-bit integer have the same RLP
/// encoding: trimming the leading zeros of its 32 big-endian bytes leaves its
/// minimal big-endian bytes.
pub proof fn lemma_u256_encoding_matches_u64(value: u64)
    ensures
        rlp_bytes(trim_leading_zeros(be_fixed(value as nat, 32))) == rlp_uint(value as nat),
{
    reveal_with_fuel(pow256, 33);
    lemma_be_bytes_usize(value as usize);
    assert(pow256(8) <= pow256(32)) by {
        reveal_with_fuel(pow256, 33);
    }
    assert(value < pow256(32)) by {
        reveal_with_fuel(pow256, 9);
    }
    lemma_be_fixed_is_padded(value as nat, 32);
    if value > 0 {
        lemma_be_bytes_first_nonzero(value as nat);
    } else {
        assert(be_bytes(0) == Seq::<u8>::empty());
    }
    lemma_trim_zeros_prefix((32 - be_bytes(value as nat).len()) as nat, be_bytes(value as nat));
}

/// Decoding an encoded byte string gives it back.
pub proof fn lemma_rlp_bytes_roundtrip(data: Seq<u8>)
    requires
        data.len() <= usize::MAX,
    ensures
        rlp_decode_bytes(rlp_bytes(data)) == Some(data),
{
    let enc = rlp_bytes(data);
    if data.len() == 1 && data[0] < 0x80 {
        assert(enc == data);
    } else if data.len() <= 55 {
        assert(enc.subrange(1, enc.len() as int) =~= data);
    } else {
        let len = data.len();
        lemma_be_bytes_usize(len as usize);
        lemma_be_bytes_first_nonzero(len);
        lemma_be_value_of_bytes(len);
        let lb = be_bytes(len);
        assert(enc =~= seq![(0xb7 + lb.len()) as u8] + lb + data);
        assert(enc.subrange(1, 1 + lb.len() as int) =~= lb);
        assert(enc.subrange(1 + lb.len() as int, enc.len() as int) =~= data);
    }
}

/// Decoding an encoded list gives back the concatenation of its items.
pub proof fn lemma_rlp_list_roundtrip(items: Seq<Seq<u8>>)
    requires
        items.flatten().len() <= usize::MAX,
    ensures
        rlp_decode_list_payload(rlp_list(items)) == Some(items.flatten()),
{
    let flat = items.flatten();
    let enc = rlp_list(items);
    if flat.len() <= 55 {
        assert(enc.subrange(1, enc.len() as int) =~= flat);
    } else {
        let len = flat.len();
        lemma_be_bytes_usize(len as usize);
        lemma_be_bytes_first_nonzero(len);
        lemma_be_value_of_bytes(len);
        let lb = be_bytes(len);
        assert(enc =~= seq![(0xf7 + lb.len()) as u8] + lb + flat);
        assert(enc.subrange(1, 1 + lb.len() as int) =~= lb);
        assert(enc.subrange(1 + lb.len() as int, enc.len() as int) =~= flat);
    }
}

/// The length of the RLP item at the start of `enc`, prefix and payload
/// together, as its prefix announces it (0 when the prefix is cut off).
pub open spec fn rlp_item_len(enc: Seq<u8>) -> int {
    if enc.len() == 0 {
        0
    } else if enc[0] < 0x80 {
        1
    } else if enc[0] <= 0xb7 {
        1 + (enc[0] - 0x80)
    } else if enc[0] <= 0xbf {
        let ll = enc[0] - 0xb7;
        if enc.len() < 1 + ll { 0 } else { 1 + ll + be_value(enc.subrange(1, 1 + ll)) }
    } else if enc[0] <= 0xf7 {
        1 + (enc[0] - 0xc0)
    } else {
        let ll = enc[0] - 0xf7;
        if enc.len() < 1 + ll { 0 } else { 1 + ll + be_value(enc.subrange(1, 1 + ll)) }
    }
}

/// Cuts the payload of an RLP list into its encoded items, in order; `None`
/// when an item runs past the end.
pub open spec fn rlp_split(payload: Seq<u8>) -> Option<Seq<Seq<u8>>>
    decreases payload.len(),
{
    if payload.len() == 0 {
        Some(seq![])
    } else {
        let n = rlp_item_len(payload);
        if n <= 0 || n > payload.len() {
            None
        } else {
            match rlp_split(payload.subrange(n, payload.len() as int)) {
                Some(rest) => Some(seq![payload.subrange(0, n)] + rest),
                None => None,
            }
        }
    }
}

/// The encoded items of the RLP list that spans all of `enc`.
pub open spec fn rlp_list_items(enc: Seq<u8>) -> Option<Seq<Seq<u8>>> {
    match rlp_decode_list_payload(enc) {
        Some(payload) => rlp_split(payload),
        None => None,
    }
}

/// Each byte string RLP-encoded on its own.
pub open spec fn rlp_strings(datas: Seq<Seq<u8>>) -> Seq<Seq<u8>> {
    datas.map_values(|d: Seq<u8>| rlp_bytes(d))
}

/// The prefix of an encoded byte string announces its whole length, whatever
/// follows it.
pub proof fn lemma_rlp_item_len_of_bytes(data: Seq<u8>, rest: Seq<u8>)
    requires
        data.len() <= usize::MAX,
    ensures
        rlp_bytes(data).len() > 0,
        rlp_item_len(rlp_bytes(data) + rest) == rlp_bytes(data).len(),
{
    let enc = rlp_bytes(data);
    let all = enc + rest;
    if data.len() == 1 && data[0] < 0x80 {
        assert(all[0] == data[0]);
    } else if data.len() <= 55 {
        assert(all[0] == enc[0]);
    } else {
        let len = data.len();
        lemma_be_bytes_usize(len as usize);
        lemma_be_bytes_first_nonzero(len);
        lemma_be_value_of_bytes(len);
        let lb = be_bytes(len);
        assert(enc =~= seq![(0xb7 + lb.len()) as u8] + lb + data);
        assert(all[0] == enc[0]);
        assert(all.subrange(1, 1 + lb.len() as int) =~= lb);
    }
}

/// The payload made of encoded byte strings is cut back into exactly those
/// encodings.
pub proof fn lemma_rlp_split_strings(datas: Seq<Seq<u8>>)
    requires
        forall|i: int| 0 <= i < datas.len() ==> (#[trigger] datas[i]).len() <= usize::MAX,
    ensures
        rlp_split(rlp_strings(datas).flatten())
            == Some(rlp_strings(datas)),
    decreases datas.len(),
{
    let encs = rlp_strings(datas);
    if datas.len() > 0 {
        let tail = datas.drop_first();
        let tail_encs = rlp_strings(tail);
        assert(encs.drop_first() =~= tail_encs);
        assert(forall|i: int| 0 <= i < tail.len() ==> (#[trigger] tail[i]) == datas[i + 1]);
        lemma_rlp_split_strings(tail);
        let first = rlp_bytes(datas[0]);
        let flat = encs.flatten();
        assert(flat == first + tail_encs.flatten());
        lemma_rlp_item_len_of_bytes(datas[0], tail_encs.flatten());
        let n = first.len() as int;
        assert(flat.subrange(0, n) =~= first);
        assert(flat.subrange(n, flat.len() as int) =~= tail_encs.flatten());
        assert(seq![first] + tail_encs =~= encs);
    } else {
        assert(encs =~= Seq::<Seq<u8>>::empty());
    }
}

/// A list of encoded byte strings reads back as those strings, one item each,
/// in order.
pub proof fn lemma_rlp_list_of_strings_reads_back(datas: Seq<Seq<u8>>)
    requires
        forall|i: int| 0 <= i < datas.len() ==> (#[trigger] datas[i]).len() <= usize::MAX,
        rlp_list(rlp_strings(datas)).len() <= usize::MAX,
    ensures
        rlp_list_items(rlp_list(rlp_strings(datas)))
            == Some(rlp_strings(datas)),
        forall|i: int|
            0 <= i < datas.len() ==> rlp_decode_bytes(
                #[trigger] rlp_strings(datas)[i],
            ) == Some(datas[i]),
{
    let encs = rlp_strings(datas);
    let flat = encs.flatten();
    assert(flat.len() <= rlp_list(encs).len());
    lemma_rlp_list_roundtrip(encs);
    lemma_rlp_split_strings(datas);
    assert forall|i: int| 0 <= i < datas.len() implies rlp_decode_bytes(#[trigger] encs[i]) == Some(datas[i]) by {
        lemma_rlp_bytes_roundtrip(datas[i]);
    }
}

} // verus!

verus! {

// ---------------------------------------------------------------------------
// Signed transactions
// ---------------------------------------------------------------------------

/// A signed legacy (EIP-155) transaction: 256-bit quantities are given by
/// their 32 big-endian bytes.
pub struct SignedLegacyTx {
    pub nonce: u64,
    pub gas_price: [u8; 32],
    pub gas_limit: u64,
    pub to: [u8; 20],
    pub value: [u8; 32],
    pub data: Vec<u8>,
    pub v: u64,
    pub r: [u8; 32],
    pub s: [u8; 32],
}

/// The raw bytes of a signed transaction:
/// `[nonce, gasPrice, gasLimit, to, value, data, v, r, s]`, RLP-encoded.
pub open spec fn signed_tx_rlp(tx: SignedLegacyTx) -> Seq<u8> {
    rlp_list(
        seq![
            rlp_uint(tx.nonce as nat),
            rlp_bytes(trim_leading_zeros(tx.gas_price@)),
            rlp_uint(tx.gas_limit as nat),
            rlp_bytes(tx.to@),
            rlp_bytes(trim_leading_zeros(tx.value@)),
            rlp_bytes(tx.data@),
            rlp_uint(tx.v as nat),
            rlp_bytes(tx.r@),
            rlp_bytes(tx.s@),
        ],
    )
}

/// RLP-encodes a signed transaction for `eth_sendRawTransaction`.
pub fn encode_signed_transaction(tx: &SignedLegacyTx) -> (out: Vec<u8>)
    ensures
        out@ == signed_tx_rlp(*tx),
        rlp_list_items(out@) is Some,
        rlp_list_items(out@)->0.len() == 9,
        rlp_field(out@, 0) == Some(be_bytes(tx.nonce as nat)),
        rlp_field(out@, 1) == Some(trim_leading_zeros(tx.gas_price@)),
        rlp_field(out@, 2) == Some(be_bytes(tx.gas_limit as nat)),
        rlp_field(out@, 3) == Some(tx.to@),
        rlp_field(out@, 4) == Some(trim_leading_zeros(tx.value@)),
        rlp_field(out@, 5) == Some(tx.data@),
        rlp_field(out@, 6) == Some(be_bytes(tx.v as nat)),
        rlp_field(out@, 7) == Some(tx.r@),
        rlp_field(out@, 8) == Some(tx.s@),
{
    let mut items: Vec<Vec<u8>> = Vec::new();
    items.push(rlp_encode_u64(tx.nonce));
    items.push(rlp_encode_u256(&tx.gas_price));
    items.push(rlp_encode_u64(tx.gas_limit));
    items.push(rlp_encode_bytes(&tx.to));
    items.push(rlp_encode_u256(&tx.value));
    items.push(rlp_encode_bytes(tx.data.as_slice()));
    items.push(rlp_encode_u64(tx.v));
    items.push(rlp_encode_bytes(&tx.r));
    items.push(rlp_encode_bytes(&tx.s));
    let out = rlp_encode_list(items.as_slice());
    proof {
        let views = items@.map_values(|item: Vec<u8>| item@);
        assert(views =~= seq![
            rlp_uint(tx.nonce as nat),
            rlp_bytes(trim_leading_zeros(tx.gas_price@)),
            rlp_uint(tx.gas_limit as nat),
            rlp_bytes(tx.to@),
            rlp_bytes(trim_leading_zeros(tx.value@)),
            rlp_bytes(tx.data@),
            rlp_uint(tx.v as nat),
            rlp_bytes(tx.r@),
            rlp_bytes(tx.s@),
        ]);
    }
    proof {
        assert(out@.len() == out.len());
        assert(tx.data@.len() == tx.data.len());
        lemma_signed_tx_fields(*tx);
    }
    out
}

/// The byte string in position `k` of the RLP list that spans all of `enc`.
pub open spec fn rlp_field(enc: Seq<u8>, k: int) -> Option<Seq<u8>> {
    match rlp_list_items(enc) {
        Some(items) => if 0 <= k < items.len() { rlp_decode_bytes(items[k]) } else { None },
        None => None,
    }
}

proof fn lemma_be_bytes_u64(n: u64)
    ensures
        be_bytes(n as nat).len() <= 8,
{
    reveal_with_fuel(pow256, 9);
    assert(pow256(8) == 0x1_0000_0000_0000_0000);
    lemma_be_bytes_len(n as nat, 8);
}

proof fn lemma_trim_leading_zeros_len(bytes: Seq<u8>)
    ensures
        trim_leading_zeros(bytes).len() <= bytes.len(),
    decreases bytes.len(),
{
    if bytes.len() > 0 && bytes[0] == 0 {
        lemma_trim_leading_zeros_len(bytes.drop_first());
    }
}

proof fn lemma_be_value_zero_prefix(rest: Seq<u8>)
    ensures
        be_value(seq![0u8] + rest) == be_value(rest),
    decreases rest.len(),
{
    let s = seq![0u8] + rest;
    if rest.len() > 0 {
        assert(s.drop_last() =~= seq![0u8] + rest.drop_last());
        assert(s.last() == rest.last());
        lemma_be_value_zero_prefix(rest.drop_last());
        assert(be_value(s) == be_value(s.drop_last()) * 256 + s.last() as nat);
        assert(be_value(rest) == be_value(rest.drop_last()) * 256 + rest.last() as nat);
    } else {
        assert(s.drop_last() =~= Seq::<u8>::empty());
        assert(be_value(s) == be_value(s.drop_last()) * 256 + s.last() as nat);
    }
}

/// Trimming leading zeros keeps the number and leaves no leading zero.
proof fn lemma_trim_leading_zeros_value(bytes: Seq<u8>)
    ensures
        be_value(trim_leading_zeros(bytes)) == be_value(bytes),
        trim_leading_zeros(bytes).len() == 0 || trim_leading_zeros(bytes)[0] != 0,
    decreases bytes.len(),
{
    if bytes.len() > 0 && bytes[0] == 0 {
        lemma_trim_leading_zeros_value(bytes.drop_first());
        assert(bytes =~= seq![0u8] + bytes.drop_first());
        lemma_be_value_zero_prefix(bytes.drop_first());
    }
}

/// An RLP-encoded integer reads back as a byte string without leading zeros
/// whose big-endian value is the integer.
pub proof fn lemma_rlp_uint_reads_back(n: u64)
    ensures
        rlp_decode_bytes(rlp_uint(n as nat)) matches Some(b)
            && be_value(b) == n && (b.len() == 0 || b[0] != 0),
{
    lemma_be_bytes_u64(n);
    lemma_rlp_bytes_roundtrip(be_bytes(n as nat));
    lemma_be_value_of_bytes(n as nat);
    if n > 0 {
        lemma_be_bytes_first_nonzero(n as nat);
    }
}

/// A 256-bit integer given by its 32 big-endian bytes, RLP-encoded, reads
/// back as a byte string without leading zeros of the same big-endian value.
pub proof fn lemma_rlp_word_reads_back(word: Seq<u8>)
    requires
        word.len() == 32,
    ensures
        rlp_decode_bytes(rlp_bytes(trim_leading_zeros(word))) matches Some(b)
            && be_value(b) == be_value(word) && (b.len() == 0 || b[0] != 0),
{
    lemma_trim_leading_zeros_len(word);
    lemma_rlp_bytes_roundtrip(trim_leading_zeros(word));
    lemma_trim_leading_zeros_value(word);
}

/// The raw bytes of a signed transaction read back, as an RLP list, as nine
/// byte strings in the legacy field order: nonce, gas price, gas limit,
/// recipient, value, call data, v, r, s; the quantities by their minimal
/// big-endian bytes, the addresses, call data and signature as given.
pub proof fn lemma_signed_tx_fields(tx: SignedLegacyTx)
    requires
        tx.data@.len() <= usize::MAX,
        signed_tx_rlp(tx).len() <= usize::MAX,
    ensures
        rlp_list_items(signed_tx_rlp(tx)) is Some,
        rlp_list_items(signed_tx_rlp(tx))->0.len() == 9,
        rlp_field(signed_tx_rlp(tx), 0) == Some(be_bytes(tx.nonce as nat)),
        rlp_field(signed_tx_rlp(tx), 1) == Some(trim_leading_zeros(tx.gas_price@)),
        rlp_field(signed_tx_rlp(tx), 2) == Some(be_bytes(tx.gas_limit as nat)),
        rlp_field(signed_tx_rlp(tx), 3) == Some(tx.to@),
        rlp_field(signed_tx_rlp(tx), 4) == Some(trim_leading_zeros(tx.value@)),
        rlp_field(signed_tx_rlp(tx), 5) == Some(tx.data@),
        rlp_field(signed_tx_rlp(tx), 6) == Some(be_bytes(tx.v as nat)),
        rlp_field(signed_tx_rlp(tx), 7) == Some(tx.r@),
        rlp_field(signed_tx_rlp(tx), 8) == Some(tx.s@),
{
    let datas: Seq<Seq<u8>> = seq![
        be_bytes(tx.nonce as nat),
        trim_leading_zeros(tx.gas_price@),
        be_bytes(tx.gas_limit as nat),
        tx.to@,
        trim_leading_zeros(tx.value@),
        tx.data@,
        be_bytes(tx.v as nat),
        tx.r@,
        tx.s@,
    ];
    assert(rlp_strings(datas) =~= seq![
        rlp_uint(tx.nonce as nat),
        rlp_bytes(trim_leading_zeros(tx.gas_price@)),
        rlp_uint(tx.gas_limit as nat),
        rlp_bytes(tx.to@),
        rlp_bytes(trim_leading_zeros(tx.value@)),
        rlp_bytes(tx.data@),
        rlp_uint(tx.v as nat),
        rlp_bytes(tx.r@),
        rlp_bytes(tx.s@),
    ]);
    lemma_be_bytes_u64(tx.nonce);
    lemma_be_bytes_u64(tx.gas_limit);
    lemma_be_bytes_u64(tx.v);
    lemma_trim_leading_zeros_len(tx.gas_price@);
    lemma_trim_leading_zeros_len(tx.value@);
    assert(forall|i: int| 0 <= i < datas.len() ==> (#[trigger] datas[i]).len() <= usize::MAX);
    lemma_rlp_list_of_strings_reads_back(datas);
    let items = rlp_strings(datas);
    assert(rlp_list_items(signed_tx_rlp(tx)) == Some(items));
    assert(rlp_decode_bytes(items[0]) == Some(datas[0]));
    assert(rlp_decode_bytes(items[1]) == Some(datas[1]));
    assert(rlp_decode_bytes(items[2]) == Some(datas[2]));
    assert(rlp_decode_bytes(items[3]) == Some(datas[3]));
    assert(rlp_decode_bytes(items[4]) == Some(datas[4]));
    assert(rlp_decode_bytes(items[5]) == Some(datas[5]));
    assert(rlp_decode_bytes(items[6]) == Some(datas[6]));
    assert(rlp_decode_bytes(items[7]) == Some(datas[7]));
    assert(rlp_decode_bytes(items[8]) == Some(datas[8]));
}

// ---------------------------------------------------------------------------
// Deposit wallets
// ---------------------------------------------------------------------------

pub struct WalletInfoResponse {
    pub wallet_address: String,
    pub has_credentials: bool,
}

pub struct WrapResponse {
    pub success: bool,
    pub transaction_hash: Option<String>,
    pub amount_wrapped: String,
    pub approval_tx_hash: Option<String>,
    pub error: Option<String>,
}

pub struct FundingInfoResponse {
    pub pusd_collateral_address: String,
    pub collateral_onramp_address: String,
    pub chain_id: u64,
    pub chain_name: String,
    pub minimum_gas_matic: String,
}

pub struct DepositWalletResponse {
    pub success: bool,
    pub wallet_address: Option<String>,
    pub message: String,
}

pub struct SaveDepositWalletRequest {
    pub wallet_address: String,
}

pub struct DepositWalletInfoResponse {
    pub eoa_address: String,
    pub deposit_wallet_address: Option<String>,
    pub deposit_wallet_deployed: Option<bool>,
    pub message: String,
}

pub struct DeployWalletResponse {
    pub success: bool,
    pub transaction_hash: Option<String>,
    pub wallet_address: Option<String>,
    pub error: Option<String>,
}

/// The chain id of Polygon.
pub const POLYGON_CHAIN_ID: u64 = 137;

/// The funding information: the pUSD collateral and onramp contracts on
/// Polygon, and the recommended minimum of MATIC for gas.
pub fn funding_info(pusd_collateral: &str, collateral_onramp: &str) -> (r: FundingInfoResponse)
    ensures
        r.pusd_collateral_address@ == pusd_collateral@,
        r.collateral_onramp_address@ == collateral_onramp@,
        r.chain_id == POLYGON_CHAIN_ID,
        r.chain_name@ == "Polygon"@,
        r.minimum_gas_matic@ == "0.5"@,
{
    FundingInfoResponse {
        pusd_collateral_address: pusd_collateral.to_string(),
        collateral_onramp_address: collateral_onramp.to_string(),
        chain_id: POLYGON_CHAIN_ID,
        chain_name: "Polygon".to_string(),
        minimum_gas_matic: "0.5".to_string(),
    }
}

/// The wallet information for the user's credentials, if any were found.
pub fn wallet_info(wallet_address: Option<String>) -> (r: WalletInfoResponse)
    ensures
        r.has_credentials == wallet_address is Some,
        r.wallet_address@ == match wallet_address {
            Some(w) => w@,
            None => Seq::<char>::empty(),
        },
{
    match wallet_address {
        Some(w) => WalletInfoResponse { wallet_address: w, has_credentials: true },
        None => WalletInfoResponse { wallet_address: String::new(), has_credentials: false },
    }
}

/// Whether a deposit wallet address has the expected shape: `0x` and 40 more
/// bytes.
pub open spec fn valid_deposit_address(s: Seq<char>) -> bool {
    starts_with(s, "0x"@) && byte_len(s) == 42
}

/// Checks the address of a deposit wallet to save, trimmed; gives the trimmed
/// address.
pub fn check_deposit_wallet_address(req: &SaveDepositWalletRequest) -> (res: Result<String, DepositWalletResponse>)
    ensures
        match res {
            Ok(a) => is_trim_of(req.wallet_address@, a@) && valid_deposit_address(a@),
            Err(r) => {
                &&& !r.success
                &&& r.wallet_address is None
                &&& r.message@ == "Invalid address format. Must be 0x-prefixed hex (42 chars total)."@
                &&& exists|t: Seq<char>| is_trim_of(req.wallet_address@, t) && !valid_deposit_address(t)
            },
        },
{
    let addr = str_trim(req.wallet_address.as_str());
    assert(is_trim_of(req.wallet_address@, addr@));
    if !str_starts_with(addr, "0x") || addr.len() != 42 {
        assert(!valid_deposit_address(addr@));
        return Err(DepositWalletResponse {
            success: false,
            wallet_address: None,
            message: "Invalid address format. Must be 0x-prefixed hex (42 chars total).".to_string(),
        });
    }
    Ok(addr.to_string())
}

/// The credential cache entry after saving a deposit wallet: the user's
/// entry with the address set, or a new entry with only the address
/// (signature type 3).
pub fn with_deposit_wallet(entry: Option<CachedCredentials>, address: String) -> (c: CachedCredentials)
    ensures
        opt_str(c.deposit_wallet_address) == Some(address@),
        match entry {
            Some(e) => c == (CachedCredentials { deposit_wallet_address: c.deposit_wallet_address, ..e }),
            None => {
                &&& c.api_key@.len() == 0 && c.api_secret@.len() == 0 && c.api_passphrase@.len() == 0
                &&& c.private_key@.len() == 0 && c.wallet_address@.len() == 0
                &&& c.funder is None
                &&& c.signature_type == 3
            },
        },
{
    match entry {
        Some(e) => CachedCredentials { deposit_wallet_address: Some(address), ..e },
        None => CachedCredentials {
            api_key: String::new(),
            api_secret: String::new(),
            api_passphrase: String::new(),
            private_key: String::new(),
            funder: None,
            signature_type: 3,
            wallet_address: String::new(),
            deposit_wallet_address: Some(address),
        },
    }
}

/// The answer to saving a deposit wallet, by whether its contract is
/// deployed on-chain.
pub fn deposit_wallet_saved(address: String, deployed: bool) -> (r: DepositWalletResponse)
    ensures
        r.success,
        opt_str(r.wallet_address) == Some(address@),
        r.message@ == if deployed {
            "Deposit wallet address saved and confirmed deployed on-chain."@
        } else {
            "Deposit wallet address saved. Note: not yet visible on-chain \u{2014} it may be deployed when you place your first order."@
        },
{
    DepositWalletResponse {
        success: true,
        wallet_address: Some(address),
        message: if deployed {
            "Deposit wallet address saved and confirmed deployed on-chain.".to_string()
        } else {
            "Deposit wallet address saved. Note: not yet visible on-chain \u{2014} it may be deployed when you place your first order.".to_string()
        },
    }
}

/// The answer to fetching the deposit wallet from the relayer, given what
/// the relayer answered and, for an address, whether it is deployed.
pub fn deposit_wallet_fetched(answer: Result<Option<String>, String>, deployed: bool) -> (r: DepositWalletResponse)
    ensures
        r.success == (answer matches Ok(Some(_))),
        match answer {
            Ok(Some(a)) => opt_str(r.wallet_address) == Some(a@) && r.message@ == if deployed {
                "Deposit wallet fetched from relayer and confirmed deployed on-chain."@
            } else {
                "Deposit wallet address fetched from relayer."@
            },
            Ok(None) => r.wallet_address is None
                && r.message@ == "No relayer API keys found. Create one on Polymarket.com Settings \u{2192} API Keys first."@,
            Err(e) => r.wallet_address is None && r.message@ == "Failed to fetch from relayer: "@ + e@,
        },
{
    match answer {
        Ok(Some(a)) => DepositWalletResponse {
            success: true,
            wallet_address: Some(a),
            message: if deployed {
                "Deposit wallet fetched from relayer and confirmed deployed on-chain.".to_string()
            } else {
                "Deposit wallet address fetched from relayer.".to_string()
            },
        },
        Ok(None) => DepositWalletResponse {
            success: false,
            wallet_address: None,
            message: "No relayer API keys found. Create one on Polymarket.com Settings \u{2192} API Keys first.".to_string(),
        },
        Err(e) => {
            let mut message = "Failed to fetch from relayer: ".to_string();
            message.append(e.as_str());
            DepositWalletResponse { success: false, wallet_address: None, message }
        },
    }
}

/// The deposit wallet information: the cached address with whether it is
/// deployed, or a hint where to get one.
pub fn deposit_wallet_info(cached: Option<String>, deployed: bool) -> (r: DepositWalletInfoResponse)
    ensures
        r.eoa_address@.len() == 0,
        opt_str(r.deposit_wallet_address) == opt_str(cached),
        r.deposit_wallet_deployed == match cached {
            Some(_) => Some(deployed),
            None => None,
        },
        r.message@ == match cached {
            Some(_) => if deployed {
                "Deposit wallet found and deployed on-chain."@
            } else {
                "Deposit wallet address known but not yet deployed on-chain."@
            },
            None => "No deposit wallet saved. Get the address from Polymarket.com Settings \u{2192} API Keys."@,
        },
{
    match cached {
        Some(a) => DepositWalletInfoResponse {
            eoa_address: String::new(),
            deposit_wallet_address: Some(a),
            deposit_wallet_deployed: Some(deployed),
            message: if deployed {
                "Deposit wallet found and deployed on-chain.".to_string()
            } else {
                "Deposit wallet address known but not yet deployed on-chain.".to_string()
            },
        },
        None => DepositWalletInfoResponse {
            eoa_address: String::new(),
            deposit_wallet_address: None,
            deposit_wallet_deployed: None,
            message: "No deposit wallet saved. Get the address from Polymarket.com Settings \u{2192} API Keys.".to_string(),
        },
    }
}

fn deploy_failure(wallet_address: Option<String>, error: String) -> (r: DeployWalletResponse)
    ensures
        !r.success && r.transaction_hash is None && r.wallet_address == wallet_address,
        opt_str(r.error) == Some(error@),
{
    DeployWalletResponse { success: false, transaction_hash: None, wallet_address, error: Some(error) }
}

/// What a deposit wallet deployment starts from: the cached private key, EOA
/// address and deposit wallet address. There must be cached credentials with
/// an EOA address.
pub fn deploy_inputs(entry: Option<&CachedCredentials>) -> (res: Result<(String, String, Option<String>), DeployWalletResponse>)
    ensures
        match entry {
            None => res matches Err(r) && r.wallet_address is None && !r.success && r.transaction_hash is None
                && opt_str(r.error) == Some("No cached credentials found. Log in and set up API keys first."@),
            Some(c) => if c.wallet_address@.len() == 0 {
                res matches Err(r) && r.wallet_address is None && !r.success && r.transaction_hash is None
                    && opt_str(r.error) == Some("No EOA wallet address found in credentials."@)
            } else {
                res matches Ok(t) && t.0 == c.private_key && t.1 == c.wallet_address
                    && t.2 == c.deposit_wallet_address
            },
        },
{
    match entry {
        None => Err(deploy_failure(None, "No cached credentials found. Log in and set up API keys first.".to_string())),
        Some(c) => {
            if c.wallet_address.as_str().unicode_len() == 0 {
                return Err(deploy_failure(None, "No EOA wallet address found in credentials.".to_string()));
            }
            Ok((c.private_key.clone(), c.wallet_address.clone(), c.deposit_wallet_address.clone()))
        },
    }
}

/// The CREATE2 salt of a user's deposit wallet: the address left-padded with
/// zeros to 32 bytes.
pub fn deposit_wallet_salt(address: &[u8; 20]) -> (salt: [u8; 32])
    ensures
        salt@ == Seq::new(12, |i: int| 0u8) + address@,
{
    let mut salt: [u8; 32] = [0u8; 32];
    let mut i: usize = 0;
    while i < 20
        invariant
            0 <= i <= 20,
            salt@.len() == 32,
            forall|j: int| 0 <= j < 12 ==> salt@[j] == 0,
            forall|j: int| 12 <= j < 12 + i ==> salt@[j] == address@[j - 12],
        decreases 20 - i,
    {
        salt[12 + i] = address[i];
        i = i + 1;
    }
    assert(salt@ =~= Seq::new(12, |i: int| 0u8) + address@);
    salt
}

/// The answer to a deployment whose transaction was sent, given whether
/// waiting for its receipt succeeded.
pub fn deploy_sent(tx_hash: String, deposit_wallet: Option<String>, confirmed: Result<(), String>) -> (r: DeployWalletResponse)
    ensures
        r.success,
        opt_str(r.transaction_hash) == Some(tx_hash@),
        r.wallet_address == deposit_wallet,
        match confirmed {
            Ok(()) => r.error is None,
            Err(e) => opt_str(r.error) == Some("Transaction sent but waiting for confirmation failed: "@ + e@),
        },
{
    let error = match confirmed {
        Ok(()) => None,
        Err(e) => {
            let mut m = "Transaction sent but waiting for confirmation failed: ".to_string();
            m.append(e.as_str());
            Some(m)
        },
    };
    DeployWalletResponse { success: true, transaction_hash: Some(tx_hash), wallet_address: deposit_wallet, error }
}

/// The answer to a deployment whose transaction could not be sent.
pub fn deploy_not_sent(deposit_wallet: Option<String>, error: &str) -> (r: DeployWalletResponse)
    ensures
        !r.success && r.transaction_hash is None && r.wallet_address == deposit_wallet,
        opt_str(r.error) == Some("Deploy transaction failed: "@ + error@),
{
    let mut m = "Deploy transaction failed: ".to_string();
    m.append(error);
    deploy_failure(deposit_wallet, m)
}

} // verus!
