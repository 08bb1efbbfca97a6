//! Signed integers of any size, as the immediates of CASM need them.
//!
//! A `BigInt` holds a sign and the base 2^32 digits of a magnitude, least
//! significant digit first. Its view is the mathematical integer.

use vstd::prelude::*;
use vstd::string::*;

verus! {

/// 2^32, the base of the digits.
pub open spec fn digit_base() -> nat {
    0x1_0000_0000
}

/// The number that base 2^32 digits stand for, least significant digit first.
pub open spec fn digits_value(digits: Seq<u32>) -> nat
    decreases digits.len(),
{
    if digits.len() == 0 {
        0
    } else {
        digits[0] as nat + digit_base() * digits_value(digits.skip(1))
    }
}

/// The number that bytes stand for, most significant byte first.
pub open spec fn be_bytes_value(bytes: Seq<u8>) -> nat
    decreases bytes.len(),
{
    if bytes.len() == 0 {
        0
    } else {
        256 * be_bytes_value(bytes.drop_last()) + bytes.last() as nat
    }
}

/// The character of one decimal digit.
pub open spec fn digit_char(d: nat) -> char {
    if d == 0 {
        '0'
    } else if d == 1 {
        '1'
    } else if d == 2 {
        '2'
    } else if d == 3 {
        '3'
    } else if d == 4 {
        '4'
    } else if d == 5 {
        '5'
    } else if d == 6 {
        '6'
    } else if d == 7 {
        '7'
    } else if d == 8 {
        '8'
    } else {
        '9'
    }
}

/// The decimal digits of a natural number, without leading zeros.
pub open spec fn decimal_digits(n: nat) -> Seq<char>
    decreases n,
{
    if n < 10 {
        seq![digit_char(n)]
    } else {
        decimal_digits(n / 10).push(digit_char(n % 10))
    }
}

/// The decimal text of an integer: a minus sign where it is negative, then
/// its digits.
pub open spec fn decimal_repr(v: int) -> Seq<char> {
    if v < 0 {
        seq!['-'] + decimal_digits((-v) as nat)
    } else {
        decimal_digits(v as nat)
    }
}

/// Calls `num_bigint::BigUint::from_slice` and `BigUint::to_str_radix` with
/// radix 10. Claims that the text is the decimal digits of the number that the
/// base 2^32 digits stand for, "0" for zero.
#[verifier::external_body]
fn magnitude_to_decimal(digits: &Vec<u32>) -> (text: String)
    ensures
        text@ == decimal_digits(digits_value(digits@)),
{
    num_bigint::BigUint::from_slice(digits.as_slice()).to_str_radix(10)
}

/// Calls `num_bigint::BigUint::from_bytes_be` and `BigUint::to_u32_digits`.
/// Claims that the digits stand for the number that the bytes stand for.
#[verifier::external_body]
fn magnitude_from_bytes_be(bytes: &[u8]) -> (digits: Vec<u32>)
    ensures
        digits_value(digits@) == be_bytes_value(bytes@),
{
    num_bigint::BigUint::from_bytes_be(bytes).to_u32_digits()
}

/// The four base 2^32 digits of a 128 bit number.
pub(crate) fn digits_of_u128(n: u128) -> (digits: Vec<u32>)
    ensures
        digits@.len() == 4,
        digits_value(digits@) == n,
{
    assert((n & 0xffff_ffff) <= 0xffff_ffff && ((n >> 32) & 0xffff_ffff) <= 0xffff_ffff && ((n
        >> 64) & 0xffff_ffff) <= 0xffff_ffff && ((n >> 96) & 0xffff_ffff) <= 0xffff_ffff)
        by (bit_vector);
    let d0: u32 = (n & 0xffff_ffff) as u32;
    let d1: u32 = ((n >> 32) & 0xffff_ffff) as u32;
    let d2: u32 = ((n >> 64) & 0xffff_ffff) as u32;
    let d3: u32 = ((n >> 96) & 0xffff_ffff) as u32;
    let digits = vec![d0, d1, d2, d3];
    proof {
        assert(n == (n & 0xffff_ffff) + 0x1_0000_0000 * (((n >> 32) & 0xffff_ffff) + 0x1_0000_0000
            * (((n >> 64) & 0xffff_ffff) + 0x1_0000_0000 * ((n >> 96) & 0xffff_ffff))))
            by (bit_vector);
        lemma_digits_value_4(digits@);
    }
    digits
}

/// The value of four digits, written out.
pub proof fn lemma_digits_value_4(d: Seq<u32>)
    requires
        d.len() == 4,
    ensures
        digits_value(d) == d[0] + digit_base() * (d[1] + digit_base() * (d[2] + digit_base() * d[3])),
{
    let d1 = d.skip(1);
    let d2 = d1.skip(1);
    let d3 = d2.skip(1);
    assert(digits_value(d3.skip(1)) == 0);
    assert(digits_value(d3) == d[3]);
    assert(digits_value(d1) == d[1] + digit_base() * digits_value(d2));
}

/// Whether every digit is zero.
fn magnitude_is_zero(digits: &Vec<u32>) -> (zero: bool)
    ensures
        zero == (digits_value(digits@) == 0),
{
    let mut i: usize = digits.len();
    while i > 0
        invariant
            i <= digits.len(),
            digits_value(digits@.skip(i as int)) == 0,
        decreases i,
    {
        i = i - 1;
        proof {
            let tail = digits@.skip(i as int);
            assert(tail.skip(1) =~= digits@.skip(i as int + 1));
        }
        if digits[i] != 0 {
            proof {
                lemma_nonzero_suffix(digits@, i as int);
            }
            return false;
        }
    }
    assert(digits@.skip(0) =~= digits@);
    true
}

/// Digits with a non-zero digit somewhere stand for a non-zero number.
proof fn lemma_nonzero_suffix(d: Seq<u32>, i: int)
    requires
        0 <= i < d.len(),
        d[i] != 0,
    ensures
        digits_value(d) != 0,
    decreases i,
{
    if i > 0 {
        lemma_nonzero_suffix(d.skip(1), i - 1);
    }
}

/// Digits without a zero at the most significant end.
pub open spec fn canonical(digits: Seq<u32>) -> bool {
    digits.len() == 0 || digits.last() != 0
}

/// A zero at the most significant end does not change the number.
pub proof fn lemma_drop_trailing_zero(d: Seq<u32>)
    requires
        d.len() > 0,
        d.last() == 0,
    ensures
        digits_value(d.drop_last()) == digits_value(d),
    decreases d.len(),
{
    if d.len() == 1 {
        assert(digits_value(d.skip(1)) == 0);
    } else {
        let tail = d.skip(1);
        let front = d.drop_last();
        lemma_drop_trailing_zero(tail);
        assert(front.skip(1) =~= tail.drop_last());
    }
}

/// Canonical digits of the same number are the same digits.
pub proof fn lemma_canonical_injective(a: Seq<u32>, b: Seq<u32>)
    requires
        canonical(a),
        canonical(b),
        digits_value(a) == digits_value(b),
    ensures
        a =~= b,
    decreases a.len(),
{
    if a.len() == 0 {
        if b.len() > 0 {
            lemma_nonzero_suffix(b, b.len() - 1);
        }
    } else if b.len() == 0 {
        lemma_nonzero_suffix(a, a.len() - 1);
    } else {
        let ta = a.skip(1);
        let tb = b.skip(1);
        let va = digits_value(ta);
        let vb = digits_value(tb);
        lemma_canonical_injective(ta, tb);
        assert forall|i: int| 0 <= i < a.len() implies a[i] == b[i] by {
            if i > 0 {
                assert(ta[i - 1] == a[i]);
            }
        }
    }
}

/// Takes the zeros at the most significant end away.
fn normalize(digits: Vec<u32>) -> (res: Vec<u32>)
    ensures
        canonical(res@),
        digits_value(res@) == digits_value(digits@),
{
    let mut res = digits;
    while res.len() > 0 && res[res.len() - 1] == 0
        invariant
            digits_value(res@) == digits_value(digits@),
        decreases res.len(),
    {
        proof {
            lemma_drop_trailing_zero(res@);
        }
        res.pop();
    }
    res
}

/// Whether two sequences of digits are the same.
fn same_digits(a: &Vec<u32>, b: &Vec<u32>) -> (same: bool)
    ensures
        same == (a@ =~= b@),
{
    if a.len() != b.len() {
        return false;
    }
    let mut i: usize = 0;
    while i < a.len()
        invariant
            i <= a.len(),
            a.len() == b.len(),
            forall|k: int| 0 <= k < i ==> a@[k] == b@[k],
        decreases a.len() - i,
    {
        if a[i] != b[i] {
            return false;
        }
        i = i + 1;
    }
    true
}

/// An integer of any size.
#[derive(Debug, PartialEq, Eq)]
pub struct BigInt {
    negative: bool,
    digits: Vec<u32>,
}

impl Clone for BigInt {
    fn clone(&self) -> (res: BigInt)
        ensures
            res@ == self@,
    {
        proof {
            use_type_invariant(self);
        }
        BigInt { negative: self.negative, digits: self.digits.clone() }
    }
}

impl View for BigInt {
    type V = int;

    closed spec fn view(&self) -> int {
        if self.negative {
            -(digits_value(self.digits@) as int)
        } else {
            digits_value(self.digits@) as int
        }
    }
}

impl BigInt {
    /// The magnitude has no zero at its most significant end, and zero has
    /// no sign.
    #[verifier::type_invariant]
    spec fn well_formed(self) -> bool {
        &&& canonical(self.digits@)
        &&& self.negative ==> digits_value(self.digits@) > 0
    }

    /// Whether two integers are the same number.
    pub fn equals(&self, other: &BigInt) -> (same: bool)
        ensures
            same == (self@ == other@),
    {
        proof {
            use_type_invariant(self);
            use_type_invariant(other);
            if self.negative == other.negative && self@ == other@ {
                lemma_canonical_injective(self.digits@, other.digits@);
            }
        }
        self.negative == other.negative && same_digits(&self.digits, &other.digits)
    }

    /// The integer with the given sign and magnitude. The digits of the
    /// magnitude are in base 2^32, least significant first.
    pub fn from_u32_digits(negative: bool, digits: Vec<u32>) -> (res: BigInt)
        ensures
            res@ == if negative {
                -(digits_value(digits@) as int)
            } else {
                digits_value(digits@) as int
            },
    {
        let digits = normalize(digits);
        let zero = magnitude_is_zero(&digits);
        BigInt { negative: negative && !zero, digits }
    }

    /// The sign, and the digits of the magnitude in base 2^32, least
    /// significant first.
    pub fn to_u32_digits(&self) -> (res: (bool, Vec<u32>))
        ensures
            res.0 == (self@ < 0),
            digits_value(res.1@) == if self@ < 0 {
                -self@
            } else {
                self@
            },
    {
        proof {
            use_type_invariant(self);
        }
        (self.negative, self.digits.clone())
    }

    /// The integer of a signed 128-bit number.
    pub fn from_i128(n: i128) -> (res: BigInt)
        ensures
            res@ == n,
    {
        if n >= 0 {
            BigInt { negative: false, digits: normalize(digits_of_u128(n as u128)) }
        } else {
            let magnitude: u128 = (-(n + 1)) as u128 + 1;
            BigInt { negative: true, digits: normalize(digits_of_u128(magnitude)) }
        }
    }

    /// The integer of an unsigned 128-bit number.
    pub fn from_u128(n: u128) -> (res: BigInt)
        ensures
            res@ == n,
    {
        BigInt { negative: false, digits: normalize(digits_of_u128(n)) }
    }

    /// The integer of a machine-sized number.
    pub fn from_usize(n: usize) -> (res: BigInt)
        ensures
            res@ == n,
    {
        Self::from_u128(n as u128)
    }

    /// The integer of a signed 16-bit number.
    pub fn from_i16(n: i16) -> (res: BigInt)
        ensures
            res@ == n,
    {
        Self::from_i128(n as i128)
    }

    /// The number that the bytes stand for, most significant byte first.
    pub fn from_bytes_be(bytes: &[u8]) -> (res: BigInt)
        ensures
            res@ == be_bytes_value(bytes@),
    {
        BigInt { negative: false, digits: normalize(magnitude_from_bytes_be(bytes)) }
    }

    /// Whether the integer is below zero.
    pub fn is_negative(&self) -> (negative: bool)
        ensures
            negative == (self@ < 0),
    {
        proof {
            use_type_invariant(self);
        }
        self.negative
    }

    /// The decimal text of the integer.
    pub fn to_string(&self) -> (text: String)
        ensures
            text@ == decimal_repr(self@),
    {
        proof {
            use_type_invariant(self);
        }
        let digits = magnitude_to_decimal(&self.digits);
        if self.negative {
            let mut text = String::from_str("-");
            proof {
                reveal_strlit("-");
            }
            text.append(digits.as_str());
            text
        } else {
            digits
        }
    }
}

} // verus!
