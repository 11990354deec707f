//! Byte-level encodings shared by the authentication and order-signing
//! components: ASCII decimal rendering of integers, lowercase hex, and
//! the correspondence between ASCII bytes and the characters of a `String`.

use vstd::prelude::*;

verus! {

/// The ASCII decimal digits of `n`, most significant digit first.
pub open spec fn dec_digits(n: nat) -> Seq<u8>
    decreases n,
{
    if n < 10 {
        seq![(48 + n) as u8]
    } else {
        dec_digits(n / 10) + seq![(48 + n % 10) as u8]
    }
}

/// The characters a `String` holds when its bytes are exactly `bytes`,
/// for ASCII contents.
pub open spec fn ascii_seq(bytes: Seq<u8>) -> Seq<char> {
    bytes.map_values(|b: u8| b as char)
}

/// A run of `n` zero bytes.
pub open spec fn zeros(n: nat) -> Seq<u8> {
    Seq::new(n, |i: int| 0u8)
}

/// The eight big-endian bytes of a 64-bit integer.
pub open spec fn be_u64_8(x: u64) -> Seq<u8> {
    seq![
        ((x >> 56) & 0xff) as u8,
        ((x >> 48) & 0xff) as u8,
        ((x >> 40) & 0xff) as u8,
        ((x >> 32) & 0xff) as u8,
        ((x >> 24) & 0xff) as u8,
        ((x >> 16) & 0xff) as u8,
        ((x >> 8) & 0xff) as u8,
        (x & 0xff) as u8,
    ]
}

/// A 64-bit integer widened to a 32-byte big-endian word.
pub open spec fn be_u64_32(x: u64) -> Seq<u8> {
    zeros(24) + be_u64_8(x)
}

/// Distinct 64-bit integers have distinct big-endian bytes.
pub proof fn lemma_be_u64_8_injective(x: u64, y: u64)
    requires
        be_u64_8(x) == be_u64_8(y),
    ensures
        x == y,
{
    assert(be_u64_8(x)[0] == be_u64_8(y)[0]);
    assert(be_u64_8(x)[1] == be_u64_8(y)[1]);
    assert(be_u64_8(x)[2] == be_u64_8(y)[2]);
    assert(be_u64_8(x)[3] == be_u64_8(y)[3]);
    assert(be_u64_8(x)[4] == be_u64_8(y)[4]);
    assert(be_u64_8(x)[5] == be_u64_8(y)[5]);
    assert(be_u64_8(x)[6] == be_u64_8(y)[6]);
    assert(be_u64_8(x)[7] == be_u64_8(y)[7]);
    assert((((x >> 56) & 0xff) as u8 == ((y >> 56) & 0xff) as u8 && ((x >> 48) & 0xff) as u8 == ((
    y >> 48) & 0xff) as u8 && ((x >> 40) & 0xff) as u8 == ((y >> 40) & 0xff) as u8 && ((x >> 32)
        & 0xff) as u8 == ((y >> 32) & 0xff) as u8 && ((x >> 24) & 0xff) as u8 == ((y >> 24)
        & 0xff) as u8 && ((x >> 16) & 0xff) as u8 == ((y >> 16) & 0xff) as u8 && ((x >> 8)
        & 0xff) as u8 == ((y >> 8) & 0xff) as u8 && (x & 0xff) as u8 == (y & 0xff) as u8) ==> x
        == y) by (bit_vector);
}

pub proof fn lemma_be_u64_32_injective(x: u64, y: u64)
    requires
        be_u64_32(x) == be_u64_32(y),
    ensures
        x == y,
{
    lemma_concat_cancel(zeros(24), be_u64_8(x), zeros(24), be_u64_8(y));
    lemma_be_u64_8_injective(x, y);
}

/// The 32-byte big-endian word of a 64-bit integer, as a vector.
pub fn be_u64_32_bytes(x: u64) -> (r: Vec<u8>)
    ensures
        r@ == be_u64_32(x),
{
    let mut r: Vec<u8> = Vec::new();
    let mut i: usize = 0;
    while i < 24
        invariant
            i <= 24,
            r@ =~= zeros(i as nat),
        decreases 24 - i,
    {
        r.push(0);
        i += 1;
    }
    assert(((x >> 56) & 0xff) < 256 && ((x >> 48) & 0xff) < 256 && ((x >> 40) & 0xff) < 256 && ((x
        >> 32) & 0xff) < 256 && ((x >> 24) & 0xff) < 256 && ((x >> 16) & 0xff) < 256 && ((x >> 8)
        & 0xff) < 256 && (x & 0xff) < 256) by (bit_vector);
    r.push(((x >> 56) & 0xff) as u8);
    r.push(((x >> 48) & 0xff) as u8);
    r.push(((x >> 40) & 0xff) as u8);
    r.push(((x >> 32) & 0xff) as u8);
    r.push(((x >> 24) & 0xff) as u8);
    r.push(((x >> 16) & 0xff) as u8);
    r.push(((x >> 8) & 0xff) as u8);
    r.push((x & 0xff) as u8);
    assert(r@ =~= be_u64_32(x));
    r
}

/// The lowercase hex digit for a nibble.
pub open spec fn hex_digit(n: u8) -> u8 {
    if n < 10 {
        (48 + n) as u8
    } else {
        (87 + n) as u8
    }
}

/// Lowercase hex rendering of a byte sequence, two digits per byte.
pub open spec fn hex_bytes(data: Seq<u8>) -> Seq<u8> {
    Seq::new(
        data.len() * 2,
        |i: int| if i % 2 == 0 {
            hex_digit(data[i / 2] / 16)
        } else {
            hex_digit(data[i / 2] % 16)
        },
    )
}

pub proof fn lemma_dec_digits_are_digits(n: nat)
    ensures
        forall|i: int| 0 <= i < dec_digits(n).len() ==> 48 <= #[trigger] dec_digits(n)[i] <= 57,
    decreases n,
{
    if n < 10 {
        assert(dec_digits(n) == seq![(48 + n) as u8]);
        assert(dec_digits(n)[0] == (48 + n) as u8);
        assert(48 + n < 58);
    } else {
        lemma_dec_digits_are_digits(n / 10);
        let last = (48 + n % 10) as u8;
        assert(dec_digits(n) == dec_digits(n / 10) + seq![last]);
        assert(48 + n % 10 < 58);
        assert forall|i: int| 0 <= i < dec_digits(n).len() implies 48 <= #[trigger] dec_digits(
            n,
        )[i] <= 57 by {
            if i < dec_digits(n / 10).len() {
                assert(dec_digits(n)[i] == dec_digits(n / 10)[i]);
            } else {
                assert(dec_digits(n)[i] == last);
            }
        }
    }
}

pub proof fn lemma_dec_digits_len(n: nat)
    ensures
        dec_digits(n).len() >= 1,
        n >= 10 ==> dec_digits(n).len() >= 2,
    decreases n,
{
    if n >= 10 {
        lemma_dec_digits_len(n / 10);
    }
}

/// Two distinct naturals never render to the same decimal digit string.
pub proof fn lemma_dec_digits_injective(a: nat, b: nat)
    requires
        dec_digits(a) == dec_digits(b),
    ensures
        a == b,
    decreases a,
{
    lemma_dec_digits_len(a);
    lemma_dec_digits_len(b);
    if a < 10 && b < 10 {
        let xa = (48 + a) as u8;
        let xb = (48 + b) as u8;
        assert(dec_digits(a) == seq![xa]);
        assert(dec_digits(b) == seq![xb]);
        assert(seq![xa][0] == xa);
        assert(seq![xb][0] == xb);
        assert(xa == xb);
        assert(48 + a < 256 && 48 + b < 256);
    } else if a < 10 {
        assert(dec_digits(a).len() == 1);
    } else if b < 10 {
        assert(dec_digits(b).len() == 1);
    } else {
        let da = dec_digits(a / 10);
        let db = dec_digits(b / 10);
        let la = (48 + a % 10) as u8;
        let lb = (48 + b % 10) as u8;
        assert(dec_digits(a) == da + seq![la]);
        assert(dec_digits(b) == db + seq![lb]);
        assert(da.len() == db.len());
        lemma_concat_cancel(da, seq![la], db, seq![lb]);
        assert(seq![la][0] == seq![lb][0]);
        assert(la == lb);
        assert(48 + a % 10 < 256 && 48 + b % 10 < 256);
        assert(a % 10 == b % 10);
        lemma_dec_digits_injective(a / 10, b / 10);
        assert(a == 10 * (a / 10) + a % 10);
        assert(b == 10 * (b / 10) + b % 10);
    }
}

/// Cancellation for concatenation: equal concatenations with equally long
/// left parts have equal parts.
pub proof fn lemma_concat_cancel<T>(a: Seq<T>, b: Seq<T>, c: Seq<T>, d: Seq<T>)
    requires
        a.len() == c.len(),
        a + b == c + d,
    ensures
        a == c,
        b == d,
{
    assert((a + b).len() == (c + d).len());
    assert((a + b).len() == a.len() + b.len());
    assert((c + d).len() == c.len() + d.len());
    assert(b.len() == d.len());
    assert forall|i: int| 0 <= i < a.len() implies a[i] == c[i] by {
        assert((a + b)[i] == a[i]);
        assert((c + d)[i] == c[i]);
    }
    assert(a =~= c);
    assert forall|i: int| 0 <= i < b.len() implies b[i] == d[i] by {
        assert(0 <= a.len() + i < (a + b).len());
        assert((a + b)[a.len() + i] == b[i]);
        assert((c + d)[a.len() + i] == d[i]);
    }
    assert(b =~= d);
}

/// Append the bytes of a slice to a vector.
pub fn extend_bytes(out: &mut Vec<u8>, s: &[u8])
    ensures
        final(out)@ == old(out)@ + s@,
{
    let len = s.len();
    let mut i: usize = 0;
    while i < len
        invariant
            len == s@.len(),
            i <= len,
            out@ == old(out)@ + s@.take(i as int),
        decreases len - i,
    {
        let b = s[i];
        out.push(b);
        proof {
            assert(old(out)@ + s@.take(i as int) + seq![s@[i as int]] =~= old(out)@ + s@.take(
                i + 1,
            ));
        }
        i += 1;
    }
    proof {
        assert(old(out)@ + s@.take(len as int) =~= old(out)@ + s@);
    }
}

/// The ASCII decimal digits of `n`, as a byte vector.
pub fn u64_dec_bytes(n: u64) -> (r: Vec<u8>)
    ensures
        r@ == dec_digits(n as nat),
    decreases n,
{
    if n < 10 {
        let mut r: Vec<u8> = Vec::new();
        r.push(48 + n as u8);
        assert(r@ =~= dec_digits(n as nat));
        r
    } else {
        let mut r = u64_dec_bytes(n / 10);
        r.push(48 + (n % 10) as u8);
        assert(r@ =~= dec_digits(n as nat));
        r
    }
}

/// Relies on `String::from_utf8`: a byte vector that holds only ASCII
/// bytes is valid UTF-8 and decodes to the string of exactly those
/// characters.
#[verifier::external_body]
pub fn ascii_string(bytes: Vec<u8>) -> (r: String)
    requires
        forall|i: int| 0 <= i < bytes@.len() ==> bytes@[i] < 128,
    ensures
        r@ == ascii_seq(bytes@),
{
    match String::from_utf8(bytes) {
        Ok(s) => s,
        Err(_) => String::new(),
    }
}

/// The decimal rendering of `n` as a string.
pub fn u64_dec_string(n: u64) -> (r: String)
    ensures
        r@ == ascii_seq(dec_digits(n as nat)),
{
    let bytes = u64_dec_bytes(n);
    proof {
        lemma_dec_digits_are_digits(n as nat);
    }
    ascii_string(bytes)
}

/// Lowercase hex digits of `data`, as bytes.
pub fn hex_bytes_of(data: &[u8]) -> (r: Vec<u8>)
    ensures
        r@ == hex_bytes(data@),
{
    let len = data.len();
    let mut r: Vec<u8> = Vec::new();
    let mut i: usize = 0;
    while i < len
        invariant
            len == data@.len(),
            i <= len,
            r@.len() == 2 * i,
            forall|j: int| 0 <= j < r@.len() ==> r@[j] == hex_bytes(data@)[j],
        decreases len - i,
    {
        let b = data[i];
        let hi = b / 16;
        let lo = b % 16;
        r.push(if hi < 10 { 48 + hi } else { 87 + hi });
        r.push(if lo < 10 { 48 + lo } else { 87 + lo });
        i += 1;
    }
    assert(r@ =~= hex_bytes(data@));
    r
}

pub proof fn lemma_hex_bytes_are_ascii(data: Seq<u8>)
    ensures
        forall|i: int| 0 <= i < hex_bytes(data).len() ==> #[trigger] hex_bytes(data)[i] < 128,
{
}

/// Lowercase hex rendering of `data`, prefixed with `0x`, as a string.
pub fn hex_string_0x(data: &[u8]) -> (r: String)
    ensures
        r@ == ascii_seq(seq![48u8, 120u8] + hex_bytes(data@)),
{
    let mut bytes: Vec<u8> = Vec::new();
    bytes.push(48);
    bytes.push(120);
    let mut hx = hex_bytes_of(data);
    bytes.append(&mut hx);
    proof {
        lemma_hex_bytes_are_ascii(data@);
        assert(bytes@ =~= seq![48u8, 120u8] + hex_bytes(data@));
    }
    ascii_string(bytes)
}

} // verus!

