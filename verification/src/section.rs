//! Sections: ordered text runs that share a position, bounds and a layout.

use vstd::prelude::*;
use std::borrow::Cow;
use crate::extra::Extra;
use crate::extra::HashExtra;
use crate::float_bits::FloatBits;
use crate::float_bits::OrderedBits;
use crate::float_bits::INFINITY_BITS;
use crate::float_bits::ZERO_BITS;
use crate::hasher::HashItem;
use crate::hasher::SectionHasher;
use crate::layout::Layout;
use crate::text::Text;
use vstd::std_specs::cmp::PartialEqSpec;

verus! {

/// What a pair of pixel quantities hands to a hasher: the canonical bits of
/// the first, then of the second.
pub open spec fn pair_stream(pair: (FloatBits, FloatBits)) -> Seq<HashItem> {
    seq![HashItem::Bits(pair.0.canonical_bits()), HashItem::Bits(pair.1.canonical_bits())]
}

/// Numeric equality of both members of a pair.
pub open spec fn pair_eq(a: (FloatBits, FloatBits), b: (FloatBits, FloatBits)) -> bool {
    a.0.numeric_eq(b.0) && a.1.numeric_eq(b.1)
}

/// What the runs hand to a hasher of layout-relevant state: each run's
/// content, font and scale, in order, payloads left out.
pub open spec fn runs_layout_stream<X>(runs: Seq<Text<'_, X>>) -> Seq<HashItem> {
    runs.map_values(|run: Text<'_, X>| run.layout_stream()).flatten()
}

/// What the runs hand to a hasher of paint-relevant state: each run's
/// payload, in order, and nothing else.
pub open spec fn runs_extra_stream<X: HashExtra>(runs: Seq<Text<'_, X>>) -> Seq<HashItem> {
    runs.map_values(|run: Text<'_, X>| run.extra.hash_stream()).flatten()
}

/// What the runs hand to a hasher of their whole state, run by run.
pub open spec fn runs_full_stream<X: HashExtra>(runs: Seq<Text<'_, X>>) -> Seq<HashItem> {
    runs.map_values(|run: Text<'_, X>| run.full_stream()).flatten()
}

/// Where a section sits and how far it may extend.
#[derive(Clone, Copy, Debug)]
pub struct SectionGeometry {
    /// Position on screen, in pixels from the top left.
    pub screen_position: (FloatBits, FloatBits),
    /// Greatest width and height, in pixels.
    pub bounds: (FloatBits, FloatBits),
}

/// Everything needed to render a piece of text made of differently styled
/// runs under one layout.
#[derive(Debug)]
pub struct Section<'a, X = Extra> {
    /// Position on screen, in pixels from the top left. The origin by default.
    pub screen_position: (FloatBits, FloatBits),
    /// Greatest width and height, in pixels. Unbounded by default.
    pub bounds: (FloatBits, FloatBits),
    /// How the runs are laid out.
    pub layout: Layout,
    /// The runs, in the order in which they are rendered.
    pub text: Vec<Text<'a, X>>,
}

impl<'a, X> Section<'a, X> {
    /// The four canonical keys of position and bounds, as hash items.
    pub open spec fn geometry_stream(self) -> Seq<HashItem> {
        pair_stream(self.screen_position) + pair_stream(self.bounds)
    }

    /// The layout-relevant items of the runs.
    pub open spec fn text_stream(self) -> Seq<HashItem> {
        runs_layout_stream(self.text@)
    }

    /// Whether this is the empty section: at the origin, unbounded, default
    /// layout, no runs.
    pub open spec fn is_new(self) -> bool {
        &&& self.screen_position.0.bits == ZERO_BITS
        &&& self.screen_position.1.bits == ZERO_BITS
        &&& self.bounds.0.bits == INFINITY_BITS
        &&& self.bounds.1.bits == INFINITY_BITS
        &&& self.layout == Layout::spec_default()
        &&& self.text@.len() == 0
    }

    /// The empty section.
    pub fn new() -> (r: Section<'a, X>)
        ensures
            r.is_new(),
    {
        Section {
            screen_position: (FloatBits::zero(), FloatBits::zero()),
            bounds: (FloatBits::infinity(), FloatBits::infinity()),
            layout: Layout::default_wrap(),
            text: Vec::new(),
        }
    }

    /// The same section at another position.
    pub fn with_screen_position(self, position: (FloatBits, FloatBits)) -> (r: Section<'a, X>)
        ensures
            r.screen_position == position,
            r.bounds == self.bounds,
            r.layout == self.layout,
            r.text == self.text,
    {
        Section { screen_position: position, bounds: self.bounds, layout: self.layout, text: self.text }
    }

    /// The same section within other bounds. Any pair is taken as it is.
    pub fn with_bounds(self, bounds: (FloatBits, FloatBits)) -> (r: Section<'a, X>)
        ensures
            r.bounds == bounds,
            r.screen_position == self.screen_position,
            r.layout == self.layout,
            r.text == self.text,
    {
        Section { screen_position: self.screen_position, bounds, layout: self.layout, text: self.text }
    }

    /// The same section under another layout.
    pub fn with_layout(self, layout: Layout) -> (r: Section<'a, X>)
        ensures
            r.layout == layout,
            r.screen_position == self.screen_position,
            r.bounds == self.bounds,
            r.text == self.text,
    {
        Section { screen_position: self.screen_position, bounds: self.bounds, layout, text: self.text }
    }

    /// The same section with one more run at the end.
    pub fn add_text(self, text: Text<'a, X>) -> (r: Section<'a, X>)
        ensures
            r.text@ == self.text@.push(text),
            r.screen_position == self.screen_position,
            r.bounds == self.bounds,
            r.layout == self.layout,
    {
        let mut runs = self.text;
        runs.push(text);
        Section {
            screen_position: self.screen_position,
            bounds: self.bounds,
            layout: self.layout,
            text: runs,
        }
    }

    /// The same position, bounds and layout around other runs, whose payload
    /// may be of another type.
    pub fn with_text<'b, X2>(self, text: Vec<Text<'b, X2>>) -> (r: Section<'b, X2>)
        ensures
            r.text == text,
            r.screen_position == self.screen_position,
            r.bounds == self.bounds,
            r.layout == self.layout,
    {
        Section {
            text,
            screen_position: self.screen_position,
            bounds: self.bounds,
            layout: self.layout,
        }
    }

    /// Position and bounds, as the layout engine takes them.
    pub fn geometry(&self) -> (r: SectionGeometry)
        ensures
            r.screen_position == self.screen_position,
            r.bounds == self.bounds,
    {
        SectionGeometry { bounds: self.bounds, screen_position: self.screen_position }
    }
}

impl<'a, X: HashExtra> Section<'a, X> {
    /// The paint-relevant items of the runs.
    pub open spec fn extra_stream(self) -> Seq<HashItem> {
        runs_extra_stream(self.text@)
    }

    /// Everything the section hands to a hasher of its whole state: the
    /// layout, the geometry, then the runs with their payloads.
    pub open spec fn full_stream(self) -> Seq<HashItem> {
        self.layout.hash_stream() + self.geometry_stream() + runs_full_stream(self.text@)
    }
}

/// The runs' streams grow run by run: those of the first `i + 1` runs are
/// those of the first `i` followed by what run `i` adds.
pub proof fn lemma_runs_streams_step<X: HashExtra>(runs: Seq<Text<'_, X>>, i: int)
    requires
        0 <= i < runs.len(),
    ensures
        runs_layout_stream(runs.take(i + 1)) == runs_layout_stream(runs.take(i))
            + runs[i].layout_stream(),
        runs_extra_stream(runs.take(i + 1)) == runs_extra_stream(runs.take(i))
            + runs[i].extra.hash_stream(),
        runs_full_stream(runs.take(i + 1)) == runs_full_stream(runs.take(i))
            + runs[i].full_stream(),
{
    let longer = runs.take(i + 1);
    let shorter = runs.take(i);
    let layout = |run: Text<'_, X>| run.layout_stream();
    let extra = |run: Text<'_, X>| run.extra.hash_stream();
    let full = |run: Text<'_, X>| run.full_stream();
    assert(longer.map_values(layout) =~= shorter.map_values(layout).push(layout(runs[i])));
    assert(longer.map_values(extra) =~= shorter.map_values(extra).push(extra(runs[i])));
    assert(longer.map_values(full) =~= shorter.map_values(full).push(full(runs[i])));
    shorter.map_values(layout).lemma_flatten_push(layout(runs[i]));
    shorter.map_values(extra).lemma_flatten_push(extra(runs[i]));
    shorter.map_values(full).lemma_flatten_push(full(runs[i]));
}

/// The three parts of a section that are hashed apart from each other:
/// position and bounds as canonical keys, and the runs.
pub struct HashableSectionParts<'a, X> {
    geometry: [OrderedBits; 4],
    text: &'a [Text<'a, X>],
}

impl<'a, X> HashableSectionParts<'a, X> {
    /// The four canonical keys, as hash items.
    pub closed spec fn geometry_stream(self) -> Seq<HashItem> {
        seq![
            HashItem::Bits(self.geometry[0].key()),
            HashItem::Bits(self.geometry[1].key()),
            HashItem::Bits(self.geometry[2].key()),
            HashItem::Bits(self.geometry[3].key()),
        ]
    }

    /// The runs, in order.
    pub closed spec fn runs(self) -> Seq<Text<'a, X>> {
        self.text@
    }
}

impl<'a, X: HashExtra> HashableSectionParts<'a, X> {
    /// Hands the geometry to a hasher: the canonical keys of position x and
    /// y, then of the bounds' width and height.
    pub fn hash_geometry<H: SectionHasher>(&self, state: &mut H)
        ensures
            final(state).stream() == old(state).stream() + self.geometry_stream(),
    {
        state.write_bits(self.geometry[0].bits());
        state.write_bits(self.geometry[1].bits());
        state.write_bits(self.geometry[2].bits());
        state.write_bits(self.geometry[3].bits());
        assert(state.stream() =~= old(state).stream() + self.geometry_stream());
    }

    /// Hands the layout-relevant state of the runs to a hasher: run by run,
    /// content, font and the canonical keys of the scale. No payload is read.
    pub fn hash_text_no_extra<H: SectionHasher>(&self, state: &mut H)
        ensures
            final(state).stream() == old(state).stream() + runs_layout_stream(self.runs()),
    {
        let ghost before = state.stream();
        let mut i: usize = 0;
        assert(self.text@.take(0) =~= Seq::empty());
        assert(state.stream() =~= before + runs_layout_stream(self.text@.take(0)));
        while i < self.text.len()
            invariant
                i <= self.text@.len(),
                state.stream() == before + runs_layout_stream(self.text@.take(i as int)),
            decreases self.text@.len() - i,
        {
            let ghost entry = state.stream();
            let run = &self.text[i];
            state.write_text(run.text);
            state.write_index(run.font_id.0);
            state.write_bits(OrderedBits::new(run.scale.x).bits());
            state.write_bits(OrderedBits::new(run.scale.y).bits());
            proof {
                lemma_runs_streams_step(self.text@, i as int);
                assert(state.stream() =~= entry + run.layout_stream());
                assert(state.stream() =~= before + runs_layout_stream(
                    self.text@.take(i as int + 1),
                ));
            }
            i += 1;
        }
        assert(self.text@.take(i as int) =~= self.text@);
    }

    /// Hands the paint-relevant state of the runs to a hasher: run by run,
    /// the payload and nothing else.
    pub fn hash_extra<H: SectionHasher>(&self, state: &mut H)
        ensures
            final(state).stream() == old(state).stream() + runs_extra_stream(self.runs()),
    {
        let ghost before = state.stream();
        let mut i: usize = 0;
        assert(self.text@.take(0) =~= Seq::empty());
        assert(state.stream() =~= before + runs_extra_stream(self.text@.take(0)));
        while i < self.text.len()
            invariant
                i <= self.text@.len(),
                state.stream() == before + runs_extra_stream(self.text@.take(i as int)),
            decreases self.text@.len() - i,
        {
            self.text[i].extra.hash(state);
            proof {
                lemma_runs_streams_step(self.text@, i as int);
                assert(state.stream() =~= before + runs_extra_stream(
                    self.text@.take(i as int + 1),
                ));
            }
            i += 1;
        }
        assert(self.text@.take(i as int) =~= self.text@);
    }
}

/// Hands the whole state of the runs to a hasher: run by run, content and
/// font, the payload, then the canonical keys of the scale.
fn hash_section_text<X: HashExtra, H: SectionHasher>(state: &mut H, text: &[Text<'_, X>])
    ensures
        final(state).stream() == old(state).stream() + runs_full_stream(text@),
{
    let ghost before = state.stream();
    let mut i: usize = 0;
    assert(text@.take(0) =~= Seq::empty());
    assert(state.stream() =~= before + runs_full_stream(text@.take(0)));
    while i < text.len()
        invariant
            i <= text@.len(),
            state.stream() == before + runs_full_stream(text@.take(i as int)),
        decreases text@.len() - i,
    {
        let ghost entry = state.stream();
        let run = &text[i];
        state.write_text(run.text);
        state.write_index(run.font_id.0);
        run.extra.hash(state);
        state.write_bits(OrderedBits::new(run.scale.x).bits());
        state.write_bits(OrderedBits::new(run.scale.y).bits());
        proof {
            lemma_runs_streams_step(text@, i as int);
            assert(state.stream() =~= entry + run.full_stream());
            assert(state.stream() =~= before + runs_full_stream(text@.take(i as int + 1)));
        }
        i += 1;
    }
    assert(text@.take(i as int) =~= text@);
}

impl<'a, X: HashExtra> Section<'a, X> {
    /// Hands the whole section to a hasher: the layout, the geometry, then
    /// the runs with their payloads.
    pub fn hash<H: SectionHasher>(&self, state: &mut H)
        ensures
            final(state).stream() == old(state).stream() + self.full_stream(),
    {
        self.layout.hash(state);
        self.to_hashable_parts().hash_geometry(state);
        hash_section_text(state, self.text.as_slice());
        assert(state.stream() =~= old(state).stream() + self.full_stream());
    }
}

impl<'a, X> Section<'a, X> {
    /// Splits off what is hashed part by part: the geometry as canonical
    /// keys, and the runs. The layout is not among them.
    pub fn to_hashable_parts(&self) -> (r: HashableSectionParts<'_, X>)
        ensures
            r.geometry_stream() == self.geometry_stream(),
            r.runs() == self.text@,
    {
        let geometry = [
            OrderedBits::new(self.screen_position.0),
            OrderedBits::new(self.screen_position.1),
            OrderedBits::new(self.bounds.0),
            OrderedBits::new(self.bounds.1),
        ];
        let r = HashableSectionParts { geometry, text: self.text.as_slice() };
        assert(r.geometry_stream() =~= self.geometry_stream());
        r
    }
}

fn same_pair(a: (FloatBits, FloatBits), b: (FloatBits, FloatBits)) -> (r: bool)
    ensures
        r == pair_eq(a, b),
{
    a.0.same_number(b.0) && a.1.same_number(b.1)
}

impl<'a, X: PartialEq> PartialEq for Section<'a, X> {
    /// Numerically equal position and bounds, the same layout, and equal runs
    /// in the same order.
    fn eq(&self, other: &Section<'a, X>) -> (r: bool) {
        if !same_pair(self.screen_position, other.screen_position) || !same_pair(
            self.bounds,
            other.bounds,
        ) || self.layout != other.layout || self.text.len() != other.text.len() {
            return false;
        }
        let mut i: usize = 0;
        while i < self.text.len()
            invariant
                i <= self.text@.len(),
                self.text@.len() == other.text@.len(),
                <X as PartialEqSpec>::obeys_eq_spec() ==> forall|j: int|
                    0 <= j < i ==> (#[trigger] self.text@[j]).equals(other.text@[j]),
            decreases self.text@.len() - i,
        {
            if !(self.text[i] == other.text[i]) {
                return false;
            }
            i += 1;
        }
        true
    }
}

impl<'a, X: PartialEq> vstd::std_specs::cmp::PartialEqSpecImpl for Section<'a, X> {
    open spec fn obeys_eq_spec() -> bool {
        <X as PartialEqSpec>::obeys_eq_spec()
    }

    open spec fn eq_spec(&self, other: &Section<'a, X>) -> bool {
        self.equals(*other)
    }
}

impl<'a, X: PartialEq> Section<'a, X> {
    /// What `==` decides of two sections: numerically equal position and
    /// bounds, the same layout, as many runs, and run by run equal.
    pub open spec fn equals(self, other: Section<'_, X>) -> bool {
        &&& pair_eq(self.screen_position, other.screen_position)
        &&& pair_eq(self.bounds, other.bounds)
        &&& self.layout == other.layout
        &&& self.text@.len() == other.text@.len()
        &&& forall|i: int|
            0 <= i < self.text@.len() ==> (#[trigger] self.text@[i]).equals(other.text@[i])
    }
}

impl<'a, X> From<&Section<'a, X>> for SectionGeometry {
    fn from(section: &Section<'a, X>) -> (r: SectionGeometry) {
        section.geometry()
    }
}

impl<'a, X> vstd::std_specs::convert::FromSpecImpl<&Section<'a, X>> for SectionGeometry {
    open spec fn obeys_from_spec() -> bool {
        true
    }

    open spec fn from_spec(section: &Section<'a, X>) -> SectionGeometry {
        SectionGeometry { screen_position: section.screen_position, bounds: section.bounds }
    }
}

impl<'a, X: Clone> From<Section<'a, X>> for Cow<'a, Section<'a, X>> {
    fn from(owned: Section<'a, X>) -> (r: Cow<'a, Section<'a, X>>) {
        Cow::Owned(owned)
    }
}

impl<'a, X: Clone> vstd::std_specs::convert::FromSpecImpl<Section<'a, X>> for Cow<'a, Section<'a, X>> {
    open spec fn obeys_from_spec() -> bool {
        true
    }

    open spec fn from_spec(owned: Section<'a, X>) -> Cow<'a, Section<'a, X>> {
        Cow::Owned(owned)
    }
}

impl<'a, 'b, X: Clone> From<&'b Section<'a, X>> for Cow<'b, Section<'a, X>> {
    fn from(borrowed: &'b Section<'a, X>) -> (r: Cow<'b, Section<'a, X>>) {
        Cow::Borrowed(borrowed)
    }
}

impl<'a, 'b, X: Clone> vstd::std_specs::convert::FromSpecImpl<&'b Section<'a, X>> for Cow<'b, Section<'a, X>> {
    open spec fn obeys_from_spec() -> bool {
        true
    }

    open spec fn from_spec(borrowed: &'b Section<'a, X>) -> Cow<'b, Section<'a, X>> {
        Cow::Borrowed(borrowed)
    }
}

impl Default for Section<'static, Extra> {
    fn default() -> (r: Section<'static, Extra>)
        ensures
            r.is_new(),
    {
        Section::new()
    }
}

} // verus!
