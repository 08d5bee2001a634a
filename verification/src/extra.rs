//! The payload a text run carries for the painter, and what makes a payload.

use vstd::prelude::*;
use crate::float_bits::FloatBits;
use crate::float_bits::OrderedBits;
use crate::float_bits::ONE_BITS;
use crate::float_bits::ZERO_BITS;
use crate::hasher::HashItem;
use crate::hasher::SectionHasher;

verus! {

/// Red, green, blue and alpha.
pub type Color = [FloatBits; 4];

/// A payload that can be handed to a hasher.
///
/// A section asks nothing else of a payload in order to hash it; to compare
/// sections the payload must also have `==`, and to copy them, `Clone`.
pub trait HashExtra {
    /// The items this payload hands to a hasher.
    spec fn hash_stream(&self) -> Seq<HashItem>;

    /// Hands the payload to a hasher: its items follow what was written before.
    fn hash<H: SectionHasher>(&self, state: &mut H)
        ensures
            final(state).stream() == old(state).stream() + self.hash_stream(),
    ;
}

/// The canonical bits of a colour's four channels, as hash items.
pub open spec fn color_stream(color: Color) -> Seq<HashItem> {
    seq![
        HashItem::Bits(color[0].canonical_bits()),
        HashItem::Bits(color[1].canonical_bits()),
        HashItem::Bits(color[2].canonical_bits()),
        HashItem::Bits(color[3].canonical_bits()),
    ]
}

/// Whether two colours are numerically equal channel by channel.
pub open spec fn color_eq(a: Color, b: Color) -> bool {
    &&& a[0].numeric_eq(b[0])
    &&& a[1].numeric_eq(b[1])
    &&& a[2].numeric_eq(b[2])
    &&& a[3].numeric_eq(b[3])
}

fn hash_color<H: SectionHasher>(color: &Color, state: &mut H)
    ensures
        final(state).stream() == old(state).stream() + color_stream(*color),
{
    state.write_bits(OrderedBits::new(color[0]).bits());
    state.write_bits(OrderedBits::new(color[1]).bits());
    state.write_bits(OrderedBits::new(color[2]).bits());
    state.write_bits(OrderedBits::new(color[3]).bits());
    assert(state.stream() =~= old(state).stream() + color_stream(*color));
}

fn same_color(a: &Color, b: &Color) -> (r: bool)
    ensures
        r == color_eq(*a, *b),
{
    a[0].same_number(b[0]) && a[1].same_number(b[1]) && a[2].same_number(b[2])
        && a[3].same_number(b[3])
}

/// The default payload: fill colour, outline colour and depth.
#[derive(Clone, Copy, Debug)]
pub struct Extra {
    pub color: Color,
    pub outline_color: Color,
    pub z: FloatBits,
}

impl Extra {
    /// The default payload as a value of specifications: opaque black, no
    /// outline, depth zero.
    pub open spec fn is_default(self) -> bool {
        &&& self.color[0].bits == ZERO_BITS
        &&& self.color[1].bits == ZERO_BITS
        &&& self.color[2].bits == ZERO_BITS
        &&& self.color[3].bits == ONE_BITS
        &&& self.outline_color[0].bits == ZERO_BITS
        &&& self.outline_color[1].bits == ZERO_BITS
        &&& self.outline_color[2].bits == ZERO_BITS
        &&& self.outline_color[3].bits == ZERO_BITS
        &&& self.z.bits == ZERO_BITS
    }
}

impl Default for Extra {
    fn default() -> (r: Extra)
        ensures
            r.is_default(),
    {
        let zero = FloatBits::zero();
        Extra {
            color: [zero, zero, zero, FloatBits::from_bits(ONE_BITS)],
            outline_color: [zero, zero, zero, zero],
            z: zero,
        }
    }
}

impl PartialEq for Extra {
    /// Numeric equality of every channel and of the depth.
    fn eq(&self, other: &Extra) -> (r: bool) {
        same_color(&self.color, &other.color) && same_color(
            &self.outline_color,
            &other.outline_color,
        ) && self.z.same_number(other.z)
    }
}

impl vstd::std_specs::cmp::PartialEqSpecImpl for Extra {
    open spec fn obeys_eq_spec() -> bool {
        true
    }

    open spec fn eq_spec(&self, other: &Extra) -> bool {
        &&& color_eq(self.color, other.color)
        &&& color_eq(self.outline_color, other.outline_color)
        &&& self.z.numeric_eq(other.z)
    }
}

impl HashExtra for Extra {
    /// Fill colour, outline colour, then depth, each by its canonical bits.
    open spec fn hash_stream(&self) -> Seq<HashItem> {
        color_stream(self.color) + color_stream(self.outline_color) + seq![
            HashItem::Bits(self.z.canonical_bits()),
        ]
    }

    fn hash<H: SectionHasher>(&self, state: &mut H) {
        hash_color(&self.color, state);
        hash_color(&self.outline_color, state);
        state.write_bits(OrderedBits::new(self.z).bits());
        assert(state.stream() =~= old(state).stream() + self.hash_stream());
    }
}

/// A payload of one word, such as an index into a palette kept elsewhere.
impl HashExtra for u32 {
    /// The word itself.
    open spec fn hash_stream(&self) -> Seq<HashItem> {
        seq![HashItem::Bits(*self)]
    }

    fn hash<H: SectionHasher>(&self, state: &mut H) {
        state.write_bits(*self);
        assert(state.stream() =~= old(state).stream() + self.hash_stream());
    }
}

} // verus!
