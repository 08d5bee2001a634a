//! Binary32 numbers as bit patterns, and their canonical hash keys.

use vstd::prelude::*;

verus! {

/// Bits of positive zero.
pub const ZERO_BITS: u32 = 0;

/// Bits of negative zero.
pub const NEG_ZERO_BITS: u32 = 0x8000_0000;

/// Bits of the number one.
pub const ONE_BITS: u32 = 0x3f80_0000;

/// Bits of positive infinity.
pub const INFINITY_BITS: u32 = 0x7f80_0000;

/// Bits of the one not-a-number pattern that stands for all of them in a hash key.
pub const CANONICAL_NAN_BITS: u32 = 0x7fc0_0000;

/// The magnitude of a bit pattern: the pattern without its sign bit.
pub open spec fn magnitude(bits: u32) -> int {
    if bits >= NEG_ZERO_BITS {
        bits - NEG_ZERO_BITS
    } else {
        bits as int
    }
}

/// A binary32 number, held as its bit pattern.
///
/// In contracts two values are the same value exactly when their bits are the
/// same. In executable code `==` is the numeric comparison, under which a
/// not-a-number equals nothing and the two zeros equal each other; contracts
/// call it [`FloatBits::numeric_eq`].
#[derive(Clone, Copy, Debug)]
pub struct FloatBits {
    pub bits: u32,
}

impl FloatBits {
    /// Whether the pattern encodes a not-a-number: all exponent bits set and a
    /// non-zero fraction.
    pub open spec fn spec_is_nan(self) -> bool {
        magnitude(self.bits) > INFINITY_BITS
    }

    /// Whether the pattern encodes positive or negative zero.
    pub open spec fn spec_is_zero(self) -> bool {
        magnitude(self.bits) == 0
    }

    /// Numeric equality of the two encoded numbers.
    pub open spec fn numeric_eq(self, other: FloatBits) -> bool {
        &&& !self.is_nan()
        &&& !other.is_nan()
        &&& (self.bits == other.bits || (self.is_zero() && other.is_zero()))
    }

    /// The bits under which the number is hashed: one pattern for every
    /// not-a-number, positive zero for both zeros, the number's own bits
    /// otherwise.
    pub open spec fn canonical_bits(self) -> u32 {
        if self.is_nan() {
            CANONICAL_NAN_BITS
        } else if self.is_zero() {
            ZERO_BITS
        } else {
            self.bits
        }
    }

    /// The place of the number in the total order: numbers by their value,
    /// the two zeros together, every not-a-number together above all else.
    pub open spec fn rank(self) -> int {
        if self.is_nan() {
            INFINITY_BITS + 1
        } else if self.bits >= NEG_ZERO_BITS {
            -magnitude(self.bits)
        } else {
            magnitude(self.bits)
        }
    }

    /// The number with the given bits.
    pub fn from_bits(bits: u32) -> (r: FloatBits)
        ensures
            r.bits == bits,
    {
        FloatBits { bits }
    }

    /// The bits of the number.
    pub fn to_bits(self) -> (r: u32)
        ensures
            r == self.bits,
    {
        self.bits
    }

    /// Positive zero.
    pub fn zero() -> (r: FloatBits)
        ensures
            r.bits == ZERO_BITS,
            r.is_zero(),
    {
        FloatBits { bits: ZERO_BITS }
    }

    /// Positive infinity.
    pub fn infinity() -> (r: FloatBits)
        ensures
            r.bits == INFINITY_BITS,
            !r.is_nan(),
            !r.is_zero(),
    {
        FloatBits { bits: INFINITY_BITS }
    }

    /// The pattern without its sign bit.
    fn abs_bits(self) -> (r: u32)
        ensures
            r == magnitude(self.bits),
    {
        if self.bits >= NEG_ZERO_BITS {
            self.bits - NEG_ZERO_BITS
        } else {
            self.bits
        }
    }

    /// Whether the number is a not-a-number.
    #[verifier::when_used_as_spec(spec_is_nan)]
    pub fn is_nan(self) -> (r: bool)
        ensures
            r == self.spec_is_nan(),
    {
        self.abs_bits() > INFINITY_BITS
    }

    /// Whether the number is positive or negative zero.
    #[verifier::when_used_as_spec(spec_is_zero)]
    pub fn is_zero(self) -> (r: bool)
        ensures
            r == self.spec_is_zero(),
    {
        self.abs_bits() == 0
    }

    /// Compares the two encoded numbers as the numbers they are.
    pub fn same_number(self, other: FloatBits) -> (r: bool)
        ensures
            r == self.numeric_eq(other),
    {
        !self.is_nan() && !other.is_nan() && (self.bits == other.bits || (self.is_zero()
            && other.is_zero()))
    }
}

impl PartialEq for FloatBits {
    /// Numeric equality, as the encoded numbers compare.
    fn eq(&self, other: &FloatBits) -> (r: bool) {
        self.same_number(*other)
    }
}

impl vstd::std_specs::cmp::PartialEqSpecImpl for FloatBits {
    open spec fn obeys_eq_spec() -> bool {
        true
    }

    open spec fn eq_spec(&self, other: &FloatBits) -> bool {
        self.numeric_eq(*other)
    }
}

/// The canonical form of a binary32 number: the key under which it is hashed
/// and compared where a total, hash-stable identity is needed.
#[derive(Clone, Copy, Debug, PartialEq, Eq, Structural)]
pub struct OrderedBits {
    key: u32,
}

impl OrderedBits {
    /// The canonical bits this key holds.
    pub closed spec fn key(self) -> u32 {
        self.key
    }

    /// Wraps a number: the key is its canonical bits, and its place in the
    /// order is the number's.
    pub fn new(value: FloatBits) -> (r: OrderedBits)
        ensures
            r.key() == value.canonical_bits(),
            r.rank() == value.rank(),
    {
        proof {
            lemma_rank_of_canonical(value);
        }
        let key: u32 = if value.is_nan() {
            CANONICAL_NAN_BITS
        } else if value.is_zero() {
            ZERO_BITS
        } else {
            value.bits
        };
        OrderedBits { key }
    }

    /// The canonical bits.
    pub fn bits(self) -> (r: u32)
        ensures
            r == self.key(),
    {
        self.key
    }

    /// The place of the key in the total order.
    pub open spec fn rank(self) -> int {
        (FloatBits { bits: self.key() }).rank()
    }

    fn exec_rank(self) -> (r: i64)
        ensures
            r == self.rank(),
    {
        let value = FloatBits { bits: self.key };
        if value.is_nan() {
            INFINITY_BITS as i64 + 1
        } else if self.key >= NEG_ZERO_BITS {
            -(value.abs_bits() as i64)
        } else {
            value.abs_bits() as i64
        }
    }

    /// Whether this key comes strictly before the other in the total order.
    pub fn lt(self, other: OrderedBits) -> (r: bool)
        ensures
            r == (self.rank() < other.rank()),
    {
        self.exec_rank() < other.exec_rank()
    }

    /// Whether this key comes before the other in the total order, or is it.
    pub fn le(self, other: OrderedBits) -> (r: bool)
        ensures
            r == (self.rank() <= other.rank()),
    {
        self.exec_rank() <= other.exec_rank()
    }
}

/// The canonical bits of a number have the number's place in the order, and
/// are their own canonical bits.
pub proof fn lemma_rank_of_canonical(value: FloatBits)
    ensures
        (FloatBits { bits: value.canonical_bits() }).rank() == value.rank(),
        (FloatBits { bits: value.canonical_bits() }).canonical_bits() == value.canonical_bits(),
{
}

/// The order is total on keys: two numbers have the same place exactly when
/// they have the same canonical bits, so of two keys one comes before the
/// other or they are the same key.
pub proof fn lemma_rank_decides_key(a: FloatBits, b: FloatBits)
    ensures
        a.rank() == b.rank() <==> a.canonical_bits() == b.canonical_bits(),
{
}

/// Among numbers, the order is the numeric one: a number comes before
/// another exactly when it is the smaller, the two zeros being one number;
/// every number comes before every not-a-number.
pub proof fn lemma_rank_orders_numbers(a: FloatBits, b: FloatBits)
    requires
        !a.is_nan(),
    ensures
        b.is_nan() ==> a.rank() < b.rank(),
        a.rank() == b.rank() <==> a.numeric_eq(b),
        a.bits < NEG_ZERO_BITS && b.bits < NEG_ZERO_BITS && !b.is_nan() ==> (a.rank() < b.rank()
            <==> a.bits < b.bits),
        a.bits >= NEG_ZERO_BITS && b.bits >= NEG_ZERO_BITS && !b.is_nan() ==> (a.rank() < b.rank()
            <==> a.bits > b.bits),
        a.bits >= NEG_ZERO_BITS && b.bits < NEG_ZERO_BITS ==> a.rank() <= b.rank(),
{
}

/// Two numbers have the same canonical bits exactly when both are
/// not-a-number or they are numerically equal.
pub proof fn lemma_canonical_bits_agree(a: FloatBits, b: FloatBits)
    ensures
        a.canonical_bits() == b.canonical_bits() <==> (a.is_nan() && b.is_nan()) || a.numeric_eq(b),
{
}

/// Numbers with the same bits have the same canonical bits.
pub proof fn lemma_same_bits_same_key(a: FloatBits, b: FloatBits)
    requires
        a.bits == b.bits,
    ensures
        a.canonical_bits() == b.canonical_bits(),
{
}

} // verus!
