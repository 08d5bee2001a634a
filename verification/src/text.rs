//! Text runs: a slice of text with its scale, font and payload.

use vstd::prelude::*;
use crate::extra::Color;
use crate::extra::Extra;
use crate::extra::HashExtra;
use crate::float_bits::FloatBits;
use crate::hasher::HashItem;
use vstd::std_specs::cmp::PartialEqSpec;

verus! {

/// Bits of the default pixel scale, sixteen.
pub const DEFAULT_SCALE_BITS: u32 = 0x4180_0000;

/// A pixel scale: horizontal and vertical, which need not agree.
#[derive(Clone, Copy, Debug)]
pub struct PxScale {
    pub x: FloatBits,
    pub y: FloatBits,
}

impl PxScale {
    /// Numeric equality of both directions.
    pub open spec fn numeric_eq(self, other: PxScale) -> bool {
        self.x.numeric_eq(other.x) && self.y.numeric_eq(other.y)
    }

    /// The same scale in both directions.
    pub fn uniform(scale: FloatBits) -> (r: PxScale)
        ensures
            r.x == scale,
            r.y == scale,
    {
        PxScale { x: scale, y: scale }
    }

    /// Compares two scales as the numbers they hold.
    pub fn same_scale(self, other: PxScale) -> (r: bool)
        ensures
            r == self.numeric_eq(other),
    {
        self.x.same_number(other.x) && self.y.same_number(other.y)
    }
}

impl PartialEq for PxScale {
    fn eq(&self, other: &PxScale) -> (r: bool) {
        self.same_scale(*other)
    }
}

impl vstd::std_specs::cmp::PartialEqSpecImpl for PxScale {
    open spec fn obeys_eq_spec() -> bool {
        true
    }

    open spec fn eq_spec(&self, other: &PxScale) -> bool {
        self.numeric_eq(*other)
    }
}

impl From<FloatBits> for PxScale {
    fn from(scale: FloatBits) -> (r: PxScale) {
        PxScale::uniform(scale)
    }
}

impl vstd::std_specs::convert::FromSpecImpl<FloatBits> for PxScale {
    open spec fn obeys_from_spec() -> bool {
        true
    }

    open spec fn from_spec(scale: FloatBits) -> PxScale {
        PxScale { x: scale, y: scale }
    }
}

/// A reference into a font collection kept elsewhere. Nothing here checks
/// that the collection has such a font.
#[derive(Clone, Copy, Debug, PartialEq, Eq, Structural)]
pub struct FontId(pub usize);

impl Default for FontId {
    fn default() -> (r: FontId)
        ensures
            r == FontId(0),
    {
        FontId(0)
    }
}

/// What the layout engine reads of a run: content, scale and font.
#[derive(Clone, Copy, Debug)]
pub struct SectionText<'a> {
    pub text: &'a str,
    pub scale: PxScale,
    pub font_id: FontId,
}

/// One styled slice of text.
#[derive(Copy, Debug)]
pub struct Text<'a, X = Extra> {
    /// The content.
    pub text: &'a str,
    /// The pixel scale, sixteen by default.
    pub scale: PxScale,
    /// The font to draw with.
    pub font_id: FontId,
    /// What the painter needs; the layout never reads it.
    pub extra: X,
}

impl<'a, X> Text<'a, X> {
    /// The same run with other content.
    pub fn with_text<'b>(self, text: &'b str) -> (r: Text<'b, X>)
        ensures
            r.text == text,
            r.scale == self.scale,
            r.font_id == self.font_id,
            r.extra == self.extra,
    {
        Text { text, scale: self.scale, font_id: self.font_id, extra: self.extra }
    }

    /// The same run at another scale.
    pub fn with_scale(self, scale: PxScale) -> (r: Text<'a, X>)
        ensures
            r.scale == scale,
            r.text == self.text,
            r.font_id == self.font_id,
            r.extra == self.extra,
    {
        Text { text: self.text, scale, font_id: self.font_id, extra: self.extra }
    }

    /// The same run in another font.
    pub fn with_font_id(self, font_id: FontId) -> (r: Text<'a, X>)
        ensures
            r.font_id == font_id,
            r.text == self.text,
            r.scale == self.scale,
            r.extra == self.extra,
    {
        Text { text: self.text, scale: self.scale, font_id, extra: self.extra }
    }

    /// The same run with another payload, of any type.
    pub fn with_extra<X2>(self, extra: X2) -> (r: Text<'a, X2>)
        ensures
            r.extra == extra,
            r.text == self.text,
            r.scale == self.scale,
            r.font_id == self.font_id,
    {
        Text { text: self.text, scale: self.scale, font_id: self.font_id, extra }
    }

    /// What the layout engine reads of this run; the payload stays behind.
    pub fn to_section_text(&self) -> (r: SectionText<'a>)
        ensures
            r.text == self.text,
            r.scale == self.scale,
            r.font_id == self.font_id,
    {
        SectionText { text: self.text, scale: self.scale, font_id: self.font_id }
    }
}

impl<'a, X> Text<'a, X> {
    /// What the run hands to a hasher of layout-relevant state: content,
    /// font, then the canonical bits of both scales. The payload is left out.
    pub open spec fn layout_stream(self) -> Seq<HashItem> {
        seq![
            HashItem::Text(self.text@),
            HashItem::Index(self.font_id.0),
            HashItem::Bits(self.scale.x.canonical_bits()),
            HashItem::Bits(self.scale.y.canonical_bits()),
        ]
    }
}

impl<'a, X: HashExtra> Text<'a, X> {
    /// What the run hands to a hasher of its whole state: content and font,
    /// the payload, then the canonical bits of both scales.
    pub open spec fn full_stream(self) -> Seq<HashItem> {
        seq![HashItem::Text(self.text@), HashItem::Index(self.font_id.0)]
            + self.extra.hash_stream() + seq![
            HashItem::Bits(self.scale.x.canonical_bits()),
            HashItem::Bits(self.scale.y.canonical_bits()),
        ]
    }
}

impl<'a, X: Clone> Clone for Text<'a, X> {
    /// The same content, scale and font around a clone of the payload.
    fn clone(&self) -> (r: Text<'a, X>)
        ensures
            r.text == self.text,
            r.scale == self.scale,
            r.font_id == self.font_id,
            cloned(self.extra, r.extra),
    {
        Text {
            text: self.text,
            scale: self.scale,
            font_id: self.font_id,
            extra: self.extra.clone(),
        }
    }
}

impl<X: Default> Default for Text<'static, X> {
    /// The empty run: scale sixteen, font zero, the payload's own default.
    fn default() -> (r: Text<'static, X>)
        ensures
            r.text@ == Seq::<char>::empty(),
            r.scale.x.bits == DEFAULT_SCALE_BITS,
            r.scale.y.bits == DEFAULT_SCALE_BITS,
            r.font_id == FontId(0),
            call_ensures(X::default, (), r.extra),
    {
        proof {
            reveal_strlit("");
        }
        Text {
            text: "",
            scale: PxScale::uniform(FloatBits::from_bits(DEFAULT_SCALE_BITS)),
            font_id: FontId(0),
            extra: X::default(),
        }
    }
}

/// Whether two slices hold the same characters: `==` of `str`, which compares
/// the contents and nothing else.
#[verifier::external_body]
fn same_content(a: &str, b: &str) -> (r: bool)
    ensures
        r == (a@ == b@),
{
    a == b
}

impl<'a, X: PartialEq> PartialEq for Text<'a, X> {
    /// Same content, numerically equal scale, same font, equal payload.
    fn eq(&self, other: &Text<'a, X>) -> (r: bool) {
        same_content(self.text, other.text) && self.scale.same_scale(other.scale)
            && self.font_id.0 == other.font_id.0 && self.extra == other.extra
    }
}

impl<'a, X: PartialEq> vstd::std_specs::cmp::PartialEqSpecImpl for Text<'a, X> {
    open spec fn obeys_eq_spec() -> bool {
        <X as PartialEqSpec>::obeys_eq_spec()
    }

    open spec fn eq_spec(&self, other: &Text<'a, X>) -> bool {
        self.equals(*other)
    }
}

impl<'a, X: PartialEq> Text<'a, X> {
    /// What `==` decides of two runs: the same characters, numerically equal
    /// scale, the same font, and payloads that their own `==` takes for equal.
    pub open spec fn equals(self, other: Text<'_, X>) -> bool {
        &&& self.text@ == other.text@
        &&& self.scale.numeric_eq(other.scale)
        &&& self.font_id == other.font_id
        &&& self.extra.eq_spec(&other.extra)
    }
}

impl<'a> Text<'a, Extra> {
    /// A run of the given content: scale sixteen, font zero, default payload.
    pub fn new(text: &'a str) -> (r: Text<'a, Extra>)
        ensures
            r.text == text,
            r.scale.x.bits == DEFAULT_SCALE_BITS,
            r.scale.y.bits == DEFAULT_SCALE_BITS,
            r.font_id == FontId(0),
            r.extra.is_default(),
    {
        Text {
            text,
            scale: PxScale::uniform(FloatBits::from_bits(DEFAULT_SCALE_BITS)),
            font_id: FontId(0),
            extra: Extra::default(),
        }
    }

    /// The same run filled with another colour.
    pub fn with_color(self, color: Color) -> (r: Text<'a, Extra>)
        ensures
            r.extra.color == color,
            r.extra.outline_color == self.extra.outline_color,
            r.extra.z == self.extra.z,
            r.text == self.text,
            r.scale == self.scale,
            r.font_id == self.font_id,
    {
        let extra = Extra { color, outline_color: self.extra.outline_color, z: self.extra.z };
        Text { text: self.text, scale: self.scale, font_id: self.font_id, extra }
    }

    /// The same run outlined in another colour.
    pub fn with_outline_color(self, color: Color) -> (r: Text<'a, Extra>)
        ensures
            r.extra.outline_color == color,
            r.extra.color == self.extra.color,
            r.extra.z == self.extra.z,
            r.text == self.text,
            r.scale == self.scale,
            r.font_id == self.font_id,
    {
        let extra = Extra { color: self.extra.color, outline_color: color, z: self.extra.z };
        Text { text: self.text, scale: self.scale, font_id: self.font_id, extra }
    }

    /// The same run at another depth.
    pub fn with_z(self, z: FloatBits) -> (r: Text<'a, Extra>)
        ensures
            r.extra.z == z,
            r.extra.color == self.extra.color,
            r.extra.outline_color == self.extra.outline_color,
            r.text == self.text,
            r.scale == self.scale,
            r.font_id == self.font_id,
    {
        let extra = Extra { color: self.extra.color, outline_color: self.extra.outline_color, z };
        Text { text: self.text, scale: self.scale, font_id: self.font_id, extra }
    }
}

} // verus!
