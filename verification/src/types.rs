//! Core value types: addresses, 256-bit words, order side and signature
//! scheme, with verified hex parsing and rendering.

use vstd::prelude::*;
use vstd::string::StringSliceAdditionalSpecFns;

use crate::crypto::{keccak256, keccak256_of};
use crate::encode::{
    ascii_seq, be_u64_32, be_u64_32_bytes, hex_bytes, hex_bytes_of, hex_string_0x,
    lemma_hex_bytes_are_ascii,
};

verus! {

/// A 20-byte account address.
#[derive(Clone, Copy, Debug, PartialEq, Eq)]
pub struct Address(pub [u8; 20]);

/// A 256-bit unsigned word, big-endian.
#[derive(Clone, Copy, Debug, PartialEq, Eq)]
pub struct U256(pub [u8; 32]);

/// Which side of the book an order takes.
#[derive(Clone, Copy, Debug, PartialEq, Eq, Structural)]
pub enum Side {
    Buy,
    Sell,
}

/// The signature scheme under which an order is authorized.
#[derive(Clone, Copy, Debug, PartialEq, Eq, Structural)]
pub enum SignatureType {
    /// A plain externally-owned-account signature.
    Eoa,
    /// A proxy-wallet signature.
    PolyProxy,
    /// A Gnosis-Safe signature.
    PolyGnosisSafe,
}

impl View for Address {
    type V = Seq<u8>;

    open spec fn view(&self) -> Seq<u8> {
        self.0@
    }
}

impl View for U256 {
    type V = Seq<u8>;

    open spec fn view(&self) -> Seq<u8> {
        self.0@
    }
}

/// The wire code of an order side.
pub open spec fn side_code(s: Side) -> u8 {
    match s {
        Side::Buy => 0,
        Side::Sell => 1,
    }
}

/// The wire code of a signature scheme.
pub open spec fn sig_type_code(t: SignatureType) -> u8 {
    match t {
        SignatureType::Eoa => 0,
        SignatureType::PolyProxy => 1,
        SignatureType::PolyGnosisSafe => 2,
    }
}

/// The side codes are distinct.
pub proof fn lemma_side_code_injective(s1: Side, s2: Side)
    requires
        side_code(s1) == side_code(s2),
    ensures
        s1 == s2,
{
}

/// The signature-scheme codes are distinct.
pub proof fn lemma_sig_type_code_injective(t1: SignatureType, t2: SignatureType)
    requires
        sig_type_code(t1) == sig_type_code(t2),
    ensures
        t1 == t2,
{
}

/// True of a byte that is an ASCII hex digit, either case.
pub open spec fn is_hex_digit(c: u8) -> bool {
    (48 <= c <= 57) || (97 <= c <= 102) || (65 <= c <= 70)
}

/// The value of an ASCII hex digit.
pub open spec fn hex_val(c: u8) -> u8 {
    if 48 <= c <= 57 {
        (c - 48) as u8
    } else if 97 <= c <= 102 {
        (c - 87) as u8
    } else if 65 <= c <= 70 {
        (c - 55) as u8
    } else {
        0
    }
}

/// The bytes spelled by a sequence of hex digits, two digits per byte.
pub open spec fn hex_decoded(s: Seq<u8>) -> Seq<u8> {
    Seq::new(
        s.len() / 2,
        |i: int| (hex_val(s[2 * i]) * 16 + hex_val(s[2 * i + 1])) as u8,
    )
}

/// True of the byte content of a well-formed `0x`-prefixed address string:
/// exactly forty hex digits after the prefix.
pub open spec fn addr_hex_wf(s: Seq<u8>) -> bool {
    &&& s.len() == 42
    &&& s[0] == 48
    &&& s[1] == 120
    &&& forall|i: int| 2 <= i < 42 ==> is_hex_digit(#[trigger] s[i])
}

/// Decoding undoes lowercase hex encoding.
pub proof fn lemma_hex_round_trip(data: Seq<u8>)
    ensures
        hex_decoded(hex_bytes(data)) == data,
        forall|i: int| 0 <= i < hex_bytes(data).len() ==> is_hex_digit(#[trigger] hex_bytes(data)[i]),
{
    assert forall|i: int| 0 <= i < data.len() implies hex_decoded(hex_bytes(data))[i] == data[i] by {
        assert(hex_bytes(data)[2 * i] == crate::encode::hex_digit(data[i] / 16));
        assert(hex_bytes(data)[2 * i + 1] == crate::encode::hex_digit(data[i] % 16));
    }
    assert(hex_decoded(hex_bytes(data)) =~= data);
    assert forall|i: int| 0 <= i < hex_bytes(data).len() implies is_hex_digit(
        #[trigger] hex_bytes(data)[i],
    ) by {
        if i % 2 == 0 {
            assert(hex_bytes(data)[i] == crate::encode::hex_digit(data[i / 2] / 16));
        } else {
            assert(hex_bytes(data)[i] == crate::encode::hex_digit(data[i / 2] % 16));
        }
    }
}

fn hex_digit_check(c: u8) -> (r: bool)
    ensures
        r == is_hex_digit(c),
{
    (48 <= c && c <= 57) || (97 <= c && c <= 102) || (65 <= c && c <= 70)
}

fn hex_val_of(c: u8) -> (r: u8)
    requires
        is_hex_digit(c),
    ensures
        r == hex_val(c),
{
    if c >= 97 {
        c - 87
    } else if c >= 65 {
        c - 55
    } else {
        c - 48
    }
}

impl Address {
    /// The all-zero address, which marks an open order's taker.
    pub fn zero() -> (r: Address)
        ensures
            r@ == crate::encode::zeros(20),
    {
        let a = Address([0u8; 20]);
        assert(a@ =~= crate::encode::zeros(20));
        a
    }

    /// Parse a `0x`-prefixed, forty-digit hex address, either case.
    /// Returns `None` exactly on malformed input.
    pub fn from_hex(s: &str) -> (r: Option<Address>)
        ensures
            (r is Some) <==> addr_hex_wf(s.spec_bytes()),
            r matches Some(a) ==> a@ == hex_decoded(s.spec_bytes().skip(2)),
    {
        let b = s.as_bytes();
        if b.len() != 42 {
            return None;
        }
        if b[0] != 48 || b[1] != 120 {
            return None;
        }
        let mut out = [0u8; 20];
        let mut i: usize = 0;
        while i < 20
            invariant
                b@ == s.spec_bytes(),
                b@.len() == 42,
                b@[0] == 48,
                b@[1] == 120,
                i <= 20,
                forall|j: int| 2 <= j < 2 + 2 * i ==> is_hex_digit(#[trigger] b@[j]),
                forall|j: int| 0 <= j < i ==> out@[j] == hex_decoded(b@.skip(2))[j],
            decreases 20 - i,
        {
            let hi = b[2 + 2 * i];
            let lo = b[3 + 2 * i];
            if !hex_digit_check(hi) || !hex_digit_check(lo) {
                return None;
            }
            out[i] = hex_val_of(hi) * 16 + hex_val_of(lo);
            proof {
                assert(b@.skip(2)[2 * i as int] == b@[2 + 2 * i]);
                assert(b@.skip(2)[2 * i as int + 1] == b@[3 + 2 * i]);
            }
            i += 1;
        }
        let a = Address(out);
        proof {
            assert(a@ =~= hex_decoded(s.spec_bytes().skip(2)));
        }
        Some(a)
    }

    /// Lowercase `0x`-prefixed hex rendering.
    pub fn to_hex(&self) -> (r: String)
        ensures
            r@ == ascii_seq(seq![48u8, 120u8] + hex_bytes(self@)),
    {
        hex_string_0x(&self.0)
    }
}

impl U256 {
    /// The word holding a 64-bit value.
    pub fn from_u64(x: u64) -> (r: U256)
        ensures
            r@ == be_u64_32(x),
    {
        let v = be_u64_32_bytes(x);
        let mut out = [0u8; 32];
        let mut i: usize = 0;
        while i < 32
            invariant
                v@ == be_u64_32(x),
                i <= 32,
                forall|j: int| 0 <= j < i ==> out@[j] == v@[j],
            decreases 32 - i,
        {
            out[i] = v[i];
            i += 1;
        }
        let r = U256(out);
        assert(r@ =~= be_u64_32(x));
        r
    }

    /// The word holding the given thirty-two bytes, big-endian.
    pub fn from_bytes(bytes: [u8; 32]) -> (r: U256)
        ensures
            r@ == bytes@,
    {
        U256(bytes)
    }
}

/// The checksummed hex digits of an address: the lowercase hex rendering,
/// with a digit raised to upper case wherever the corresponding nibble of
/// the Keccak-256 digest of that rendering is eight or more.
pub open spec fn checksum_hex(addr: Seq<u8>) -> Seq<u8> {
    let h = hex_bytes(addr);
    let k = keccak256_of(h);
    Seq::new(
        h.len(),
        |i: int|
            {
                let nib = if i % 2 == 0 {
                    k[i / 2] / 16
                } else {
                    k[i / 2] % 16
                };
                if nib >= 8 && 97 <= h[i] <= 102 {
                    (h[i] - 32) as u8
                } else {
                    h[i]
                }
            },
    )
}

/// Law: checksumming only flips letter case, which the hex decoder does
/// not see — a checksummed rendering is well-formed and parses back to the
/// very address, whatever the digest bytes turn out to be.
pub proof fn lemma_checksum_preserves_decoding(addr: Seq<u8>)
    requires
        addr.len() == 20,
    ensures
        addr_hex_wf(seq![48u8, 120u8] + checksum_hex(addr)),
        hex_decoded(checksum_hex(addr)) == addr,
{
    let h = hex_bytes(addr);
    let c = checksum_hex(addr);
    lemma_hex_round_trip(addr);
    assert forall|i: int| 0 <= i < c.len() implies is_hex_digit(#[trigger] c[i]) && hex_val(c[i])
        == hex_val(h[i]) by {
        assert(is_hex_digit(h[i]));
        if c[i] != h[i] {
            assert(97 <= h[i] <= 102);
            assert(c[i] == (h[i] - 32) as u8);
        }
    }
    let full = seq![48u8, 120u8] + c;
    assert(full.len() == 42);
    assert(full[0] == 48 && full[1] == 120);
    assert forall|i: int| 2 <= i < 42 implies is_hex_digit(#[trigger] full[i]) by {
        assert(full[i] == c[i - 2]);
    }
    assert forall|i: int| 0 <= i < addr.len() implies hex_decoded(c)[i] == addr[i] by {
        assert(hex_val(c[2 * i]) == hex_val(h[2 * i]));
        assert(hex_val(c[2 * i + 1]) == hex_val(h[2 * i + 1]));
        assert(hex_decoded(h)[i] == addr[i]);
    }
    assert(hex_decoded(c) =~= addr);
}

impl Address {
    /// Checksummed `0x`-prefixed rendering, as wallets display it.
    pub fn to_checksum_hex(&self) -> (r: String)
        ensures
            r@ == ascii_seq(seq![48u8, 120u8] + checksum_hex(self@)),
    {
        let h = hex_bytes_of(&self.0);
        let k = keccak256(h.as_slice());
        let mut out: Vec<u8> = Vec::new();
        out.push(48);
        out.push(120);
        let mut i: usize = 0;
        while i < 40
            invariant
                h@ == hex_bytes(self@),
                h@.len() == 40,
                k@ == keccak256_of(h@),
                k@.len() == 32,
                i <= 40,
                out@.len() == 2 + i,
                out@[0] == 48,
                out@[1] == 120,
                forall|j: int| 0 <= j < i ==> out@[2 + j] == checksum_hex(self@)[j],
            decreases 40 - i,
        {
            let c = h[i];
            let kb = k[i / 2];
            let nib = if i % 2 == 0 {
                kb / 16
            } else {
                kb % 16
            };
            let up = if nib >= 8 && 97 <= c && c <= 102 {
                c - 32
            } else {
                c
            };
            out.push(up);
            i += 1;
        }
        proof {
            lemma_hex_bytes_are_ascii(self@);
            assert(out@ =~= seq![48u8, 120u8] + checksum_hex(self@));
            assert forall|j: int| 0 <= j < out@.len() implies out@[j] < 128 by {
                if 2 <= j {
                    assert(out@[j] == checksum_hex(self@)[j - 2]);
                    assert(hex_bytes(self@)[j - 2] < 128);
                }
            }
        }
        crate::encode::ascii_string(out)
    }
}

} // verus!
