//! Elements of the field that the Cairo machine computes in.
//!
//! A `Felt252` holds the four base 2^64 digits of a number below the field's
//! prime, least significant digit first. Its view is that number.

use vstd::prelude::*;
use crate::bigint::{
    be_bytes_value,
    decimal_digits,
    digit_base,
    digits_value,
    lemma_digits_value_4,
    BigInt,
};

verus! {

/// The prime of the field: 2^251 + 17 * 2^192 + 1.
pub open spec fn prime() -> nat {
    0x800000000000011000000000000000000000000000000000000000000000001nat
}

/// The number that four base 2^64 digits stand for, least significant first.
pub open spec fn limbs_value(d0: u64, d1: u64, d2: u64, d3: u64) -> nat {
    (d0 + 0x1_0000_0000_0000_0000 * (d1 + 0x1_0000_0000_0000_0000 * (d2 + 0x1_0000_0000_0000_0000
        * d3))) as nat
}

/// The negation of a field element, as a number below the prime.
pub open spec fn field_neg(v: nat) -> nat {
    if v == 0 {
        0
    } else {
        (prime() - v) as nat
    }
}

/// Calls `cairo_felt::Felt252::from_bytes_le`, the `Neg` of `Felt252` and
/// `Felt252::to_le_digits`. Claims that for digits of a number below the prime
/// the result holds the digits of that number's negation in the field: zero
/// for zero, the prime less the number otherwise.
#[verifier::external_body]
fn negate_limbs(d0: u64, d1: u64, d2: u64, d3: u64) -> (res: (u64, u64, u64, u64))
    requires
        limbs_value(d0, d1, d2, d3) < prime(),
    ensures
        limbs_value(res.0, res.1, res.2, res.3) == field_neg(limbs_value(d0, d1, d2, d3)),
{
    let mut bytes = [0u8; 32];
    bytes[..8].copy_from_slice(&d0.to_le_bytes());
    bytes[8..16].copy_from_slice(&d1.to_le_bytes());
    bytes[16..24].copy_from_slice(&d2.to_le_bytes());
    bytes[24..].copy_from_slice(&d3.to_le_bytes());
    let negated = (-cairo_felt::Felt252::from_bytes_le(&bytes)).to_le_digits();
    (negated[0], negated[1], negated[2], negated[3])
}

/// Calls `cairo_felt::Felt252::from_bytes_be` and `Felt252::to_le_digits`.
/// Claims that the result holds the digits of the number that the bytes stand
/// for, most significant byte first, reduced modulo the prime.
#[verifier::external_body]
fn limbs_from_bytes_be(bytes: &[u8]) -> (res: (u64, u64, u64, u64))
    ensures
        limbs_value(res.0, res.1, res.2, res.3) == be_bytes_value(bytes@) % prime(),
{
    let digits = cairo_felt::Felt252::from_bytes_be(bytes).to_le_digits();
    (digits[0], digits[1], digits[2], digits[3])
}

/// The bytes of a number, most significant byte first, with no zero byte in
/// front; zero is one zero byte.
pub open spec fn be_bytes(v: nat) -> Seq<u8>
    decreases v,
{
    if v < 256 {
        seq![v as u8]
    } else {
        be_bytes(v / 256).push((v % 256) as u8)
    }
}

/// Calls `cairo_felt::Felt252::from_bytes_le` and `Felt252::to_bytes_be`.
/// Claims that for digits of a number below the prime the result holds the
/// bytes of that number, most significant byte first, with no zero byte in
/// front, and one zero byte for zero.
#[verifier::external_body]
fn limbs_to_bytes_be(d0: u64, d1: u64, d2: u64, d3: u64) -> (res: Vec<u8>)
    requires
        limbs_value(d0, d1, d2, d3) < prime(),
    ensures
        res@ == be_bytes(limbs_value(d0, d1, d2, d3)),
{
    let mut bytes = [0u8; 32];
    bytes[..8].copy_from_slice(&d0.to_le_bytes());
    bytes[8..16].copy_from_slice(&d1.to_le_bytes());
    bytes[16..24].copy_from_slice(&d2.to_le_bytes());
    bytes[24..].copy_from_slice(&d3.to_le_bytes());
    cairo_felt::Felt252::from_bytes_le(&bytes).to_bytes_be()
}

/// An element of the field.
#[derive(Clone, Copy, Debug, Hash, PartialEq, Eq, Structural)]
pub struct Felt252 {
    d0: u64,
    d1: u64,
    d2: u64,
    d3: u64,
}

impl View for Felt252 {
    type V = nat;

    closed spec fn view(&self) -> nat {
        limbs_value(self.d0, self.d1, self.d2, self.d3)
    }
}

impl Felt252 {
    #[verifier::type_invariant]
    spec fn below_prime(self) -> bool {
        limbs_value(self.d0, self.d1, self.d2, self.d3) < prime()
    }

    /// The element zero.
    pub closed spec fn spec_zero() -> Felt252 {
        Felt252 { d0: 0, d1: 0, d2: 0, d3: 0 }
    }

    /// The element of a number below the prime.
    pub closed spec fn spec_from_nat(v: nat) -> Felt252 {
        Felt252 {
            d0: (v % 0x1_0000_0000_0000_0000) as u64,
            d1: ((v / 0x1_0000_0000_0000_0000) % 0x1_0000_0000_0000_0000) as u64,
            d2: ((v / 0x1_0000_0000_0000_0000 / 0x1_0000_0000_0000_0000)
                % 0x1_0000_0000_0000_0000) as u64,
            d3: ((v / 0x1_0000_0000_0000_0000 / 0x1_0000_0000_0000_0000
                / 0x1_0000_0000_0000_0000) % 0x1_0000_0000_0000_0000) as u64,
        }
    }

    /// The element of a number below the prime is that number, and the only
    /// element that is.
    pub proof fn lemma_spec_from_nat(v: nat)
        requires
            v < prime(),
        ensures
            Self::spec_from_nat(v)@ == v,
            forall|f: Felt252| f@ == v ==> f == Self::spec_from_nat(v),
    {
        let b = 0x1_0000_0000_0000_0000int;
        let q1 = v as int / b;
        let q2 = q1 / b;
        let q3 = q2 / b;
        assert forall|f: Felt252| f@ == v implies f == Self::spec_from_nat(v) by {
            Self::lemma_view_injective(f, Self::spec_from_nat(v));
        }
    }

    /// The element zero.
    pub fn zero() -> (res: Felt252)
        ensures
            res == Self::spec_zero(),
            res@ == 0,
    {
        Felt252 { d0: 0, d1: 0, d2: 0, d3: 0 }
    }

    /// Two elements with the same number are the same element.
    pub proof fn lemma_view_injective(a: Felt252, b: Felt252)
        requires
            a@ == b@,
        ensures
            a == b,
    {
        let xa = a.d1 + 0x1_0000_0000_0000_0000 * (a.d2 + 0x1_0000_0000_0000_0000 * a.d3);
        let xb = b.d1 + 0x1_0000_0000_0000_0000 * (b.d2 + 0x1_0000_0000_0000_0000 * b.d3);
        lemma_split_digit(a.d0 as int, xa, b.d0 as int, xb);
        let ya = a.d2 + 0x1_0000_0000_0000_0000 * a.d3;
        let yb = b.d2 + 0x1_0000_0000_0000_0000 * b.d3;
        lemma_split_digit(a.d1 as int, ya, b.d1 as int, yb);
        lemma_split_digit(a.d2 as int, a.d3 as int, b.d2 as int, b.d3 as int);
    }

    /// The element with the given digits in base 2^64, least significant
    /// first, if they stand for a number below the prime.
    pub fn from_le_digits(d0: u64, d1: u64, d2: u64, d3: u64) -> (res: Option<Felt252>)
        ensures
            res is Some <==> limbs_value(d0, d1, d2, d3) < prime(),
            res matches Some(f) ==> f@ == limbs_value(d0, d1, d2, d3),
    {
        if d3 < 0x0800_0000_0000_0011 || (d3 == 0x0800_0000_0000_0011 && d2 == 0 && d1 == 0 && d0
            == 0) {
            Some(Felt252 { d0, d1, d2, d3 })
        } else {
            None
        }
    }

    /// The digits in base 2^64, least significant first.
    pub fn to_le_digits(&self) -> (res: (u64, u64, u64, u64))
        ensures
            limbs_value(res.0, res.1, res.2, res.3) == self@,
            self@ < prime(),
    {
        proof {
            use_type_invariant(self);
        }
        (self.d0, self.d1, self.d2, self.d3)
    }

    /// The element of a 64-bit number.
    pub fn from_u64(n: u64) -> (res: Felt252)
        ensures
            res@ == n,
    {
        Felt252 { d0: n, d1: 0, d2: 0, d3: 0 }
    }

    /// The element of a machine-sized number.
    pub fn from_usize(n: usize) -> (res: Felt252)
        ensures
            res@ == n,
    {
        Felt252 { d0: n as u64, d1: 0, d2: 0, d3: 0 }
    }

    /// The element of the number that the bytes stand for, most significant
    /// byte first.
    pub fn from_bytes_be(bytes: &[u8]) -> (res: Felt252)
        ensures
            res@ == be_bytes_value(bytes@) % prime(),
    {
        let (d0, d1, d2, d3) = limbs_from_bytes_be(bytes);
        Felt252 { d0, d1, d2, d3 }
    }

    /// 2^251, the bound of the addresses of Starknet.
    pub fn two_pow_251() -> (res: Felt252)
        ensures
            res@ == 0x800000000000000000000000000000000000000000000000000000000000000nat,
    {
        Felt252 { d0: 0, d1: 0, d2: 0, d3: 0x0800_0000_0000_0000 }
    }

    /// Whether the number of this element is below the number of the other.
    pub fn less_than(&self, other: &Felt252) -> (less: bool)
        ensures
            less == (self@ < other@),
    {
        if self.d3 != other.d3 {
            self.d3 < other.d3
        } else if self.d2 != other.d2 {
            self.d2 < other.d2
        } else if self.d1 != other.d1 {
            self.d1 < other.d1
        } else {
            self.d0 < other.d0
        }
    }

    /// 2^251 - 256, the bound of the base addresses of the storage.
    pub fn storage_base_bound() -> (res: Felt252)
        ensures
            res@ == 0x800000000000000000000000000000000000000000000000000000000000000nat - 256,
    {
        Felt252 {
            d0: 0xffff_ffff_ffff_ff00,
            d1: 0xffff_ffff_ffff_ffff,
            d2: 0xffff_ffff_ffff_ffff,
            d3: 0x07ff_ffff_ffff_ffff,
        }
    }

    /// Whether the element is zero.
    pub fn is_zero(&self) -> (zero: bool)
        ensures
            zero == (self@ == 0),
    {
        self.d0 == 0 && self.d1 == 0 && self.d2 == 0 && self.d3 == 0
    }

    /// The number as a `usize`, if it is small enough.
    pub fn to_usize(&self) -> (res: Option<usize>)
        ensures
            res == if self@ <= usize::MAX {
                Some(self@ as usize)
            } else {
                None::<usize>
            },
    {
        if self.d1 == 0 && self.d2 == 0 && self.d3 == 0 && self.d0 <= usize::MAX as u64 {
            Some(self.d0 as usize)
        } else {
            None
        }
    }

    /// The negation in the field.
    pub fn neg(&self) -> (res: Felt252)
        ensures
            res@ == field_neg(self@),
    {
        proof {
            use_type_invariant(self);
        }
        let (d0, d1, d2, d3) = negate_limbs(self.d0, self.d1, self.d2, self.d3);
        Felt252 { d0, d1, d2, d3 }
    }

    /// The number as an integer of any size.
    pub fn to_bigint(&self) -> (res: BigInt)
        ensures
            res@ == self@,
    {
        let digits = vec![
            low_half(self.d0),
            high_half(self.d0),
            low_half(self.d1),
            high_half(self.d1),
            low_half(self.d2),
            high_half(self.d2),
            low_half(self.d3),
            high_half(self.d3),
        ];
        proof {
            lemma_digits_value_8(digits@);
        }
        BigInt::from_u32_digits(false, digits)
    }

    /// The bytes of the number, most significant byte first.
    pub fn to_bytes_be(&self) -> (res: Vec<u8>)
        ensures
            res@ == be_bytes(self@),
    {
        proof {
            use_type_invariant(self);
        }
        limbs_to_bytes_be(self.d0, self.d1, self.d2, self.d3)
    }

    /// The decimal text of the number.
    pub fn to_string(&self) -> (text: String)
        ensures
            text@ == decimal_digits(self@),
    {
        self.to_bigint().to_string()
    }
}

/// A number splits into its lowest base 2^64 digit and the rest in one way.
proof fn lemma_split_digit(a: int, x: int, b: int, y: int)
    by (nonlinear_arith)
    requires
        0 <= a < 0x1_0000_0000_0000_0000,
        0 <= b < 0x1_0000_0000_0000_0000,
        a + 0x1_0000_0000_0000_0000 * x == b + 0x1_0000_0000_0000_0000 * y,
    ensures
        a == b,
        x == y,
{
}

fn low_half(d: u64) -> (low: u32)
    ensures
        low == d % 0x1_0000_0000,
{
    assert((d & 0xffff_ffff) == d % 0x1_0000_0000) by (bit_vector);
    (d & 0xffff_ffff) as u32
}

fn high_half(d: u64) -> (high: u32)
    ensures
        high == d / 0x1_0000_0000,
{
    assert((d >> 32) == d / 0x1_0000_0000) by (bit_vector);
    (d >> 32) as u32
}

/// The value of eight digits, written out.
proof fn lemma_digits_value_8(d: Seq<u32>)
    requires
        d.len() == 8,
    ensures
        digits_value(d) == (d[0] + digit_base() * d[1]) + 0x1_0000_0000_0000_0000 * ((d[2]
            + digit_base() * d[3]) + 0x1_0000_0000_0000_0000 * ((d[4] + digit_base() * d[5])
            + 0x1_0000_0000_0000_0000 * (d[6] + digit_base() * d[7]))),
{
    let low = d.subrange(0, 4);
    let high = d.skip(4);
    lemma_digits_value_4(high);
    let d1 = d.skip(1);
    let d2 = d1.skip(1);
    let d3 = d2.skip(1);
    assert(d3.skip(1) =~= high);
    assert(digits_value(d3) == d[3] + digit_base() * digits_value(high));
    assert(digits_value(d1) == d[1] + digit_base() * digits_value(d2));
}

} // verus!
