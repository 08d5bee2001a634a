//! Layout configuration: carried, compared and hashed, never interpreted here.

use vstd::prelude::*;
use crate::hasher::HashItem;
use crate::hasher::SectionHasher;

verus! {

/// Where a line sits horizontally relative to the screen position.
#[derive(Clone, Copy, Debug, PartialEq, Eq, Structural)]
pub enum HorizontalAlign {
    Left,
    Center,
    Right,
}

/// Where the text sits vertically relative to the screen position.
#[derive(Clone, Copy, Debug, PartialEq, Eq, Structural)]
pub enum VerticalAlign {
    Top,
    Center,
    Bottom,
}

/// The rule that finds the places where a line may break.
#[derive(Clone, Copy, Debug, PartialEq, Eq, Structural)]
pub enum BuiltInLineBreaker {
    UnicodeLineBreaker,
    AnyCharLineBreaker,
}

/// How the runs of a section are laid out.
#[derive(Clone, Copy, Debug, PartialEq, Eq, Structural)]
pub enum Layout {
    /// Everything on one line, cut at the first hard break.
    SingleLine { line_breaker: BuiltInLineBreaker, h_align: HorizontalAlign, v_align: VerticalAlign },
    /// Lines wrapped at the bounds.
    Wrap { line_breaker: BuiltInLineBreaker, h_align: HorizontalAlign, v_align: VerticalAlign },
}

impl HorizontalAlign {
    pub open spec fn tag(self) -> u8 {
        match self {
            HorizontalAlign::Left => 0,
            HorizontalAlign::Center => 1,
            HorizontalAlign::Right => 2,
        }
    }

    fn exec_tag(self) -> (r: u8)
        ensures
            r == self.tag(),
    {
        match self {
            HorizontalAlign::Left => 0,
            HorizontalAlign::Center => 1,
            HorizontalAlign::Right => 2,
        }
    }
}

impl VerticalAlign {
    pub open spec fn tag(self) -> u8 {
        match self {
            VerticalAlign::Top => 0,
            VerticalAlign::Center => 1,
            VerticalAlign::Bottom => 2,
        }
    }

    fn exec_tag(self) -> (r: u8)
        ensures
            r == self.tag(),
    {
        match self {
            VerticalAlign::Top => 0,
            VerticalAlign::Center => 1,
            VerticalAlign::Bottom => 2,
        }
    }
}

impl BuiltInLineBreaker {
    pub open spec fn tag(self) -> u8 {
        match self {
            BuiltInLineBreaker::UnicodeLineBreaker => 0,
            BuiltInLineBreaker::AnyCharLineBreaker => 1,
        }
    }

    fn exec_tag(self) -> (r: u8)
        ensures
            r == self.tag(),
    {
        match self {
            BuiltInLineBreaker::UnicodeLineBreaker => 0,
            BuiltInLineBreaker::AnyCharLineBreaker => 1,
        }
    }
}

impl Layout {
    /// The default layout as a value of specifications: wrapped lines, broken
    /// by the Unicode rule, aligned left and top.
    pub open spec fn spec_default() -> Layout {
        Layout::Wrap {
            line_breaker: BuiltInLineBreaker::UnicodeLineBreaker,
            h_align: HorizontalAlign::Left,
            v_align: VerticalAlign::Top,
        }
    }

    pub open spec fn variant_tag(self) -> u8 {
        match self {
            Layout::SingleLine { .. } => 0,
            Layout::Wrap { .. } => 1,
        }
    }

    pub open spec fn spec_line_breaker(self) -> BuiltInLineBreaker {
        match self {
            Layout::SingleLine { line_breaker, .. } => line_breaker,
            Layout::Wrap { line_breaker, .. } => line_breaker,
        }
    }

    pub open spec fn spec_h_align(self) -> HorizontalAlign {
        match self {
            Layout::SingleLine { h_align, .. } => h_align,
            Layout::Wrap { h_align, .. } => h_align,
        }
    }

    pub open spec fn spec_v_align(self) -> VerticalAlign {
        match self {
            Layout::SingleLine { v_align, .. } => v_align,
            Layout::Wrap { v_align, .. } => v_align,
        }
    }

    /// What a layout hands to a hasher: which variant it is, then its three
    /// settings.
    pub open spec fn hash_stream(self) -> Seq<HashItem> {
        seq![
            HashItem::Tag(self.variant_tag()),
            HashItem::Tag(self.spec_line_breaker().tag()),
            HashItem::Tag(self.spec_h_align().tag()),
            HashItem::Tag(self.spec_v_align().tag()),
        ]
    }

    /// One line, broken by the Unicode rule, aligned left and top.
    pub fn default_single_line() -> (r: Layout)
        ensures
            r == (Layout::SingleLine {
                line_breaker: BuiltInLineBreaker::UnicodeLineBreaker,
                h_align: HorizontalAlign::Left,
                v_align: VerticalAlign::Top,
            }),
    {
        Layout::SingleLine {
            line_breaker: BuiltInLineBreaker::UnicodeLineBreaker,
            h_align: HorizontalAlign::Left,
            v_align: VerticalAlign::Top,
        }
    }

    /// Wrapped lines, broken by the Unicode rule, aligned left and top.
    pub fn default_wrap() -> (r: Layout)
        ensures
            r == Layout::spec_default(),
    {
        Layout::Wrap {
            line_breaker: BuiltInLineBreaker::UnicodeLineBreaker,
            h_align: HorizontalAlign::Left,
            v_align: VerticalAlign::Top,
        }
    }

    /// The same layout with another horizontal alignment.
    pub fn h_align(self, h_align: HorizontalAlign) -> (r: Layout)
        ensures
            r.spec_h_align() == h_align,
            r.variant_tag() == self.variant_tag(),
            r.spec_line_breaker() == self.spec_line_breaker(),
            r.spec_v_align() == self.spec_v_align(),
    {
        match self {
            Layout::SingleLine { line_breaker, v_align, .. } => Layout::SingleLine {
                line_breaker,
                h_align,
                v_align,
            },
            Layout::Wrap { line_breaker, v_align, .. } => Layout::Wrap {
                line_breaker,
                h_align,
                v_align,
            },
        }
    }

    /// The same layout with another vertical alignment.
    pub fn v_align(self, v_align: VerticalAlign) -> (r: Layout)
        ensures
            r.spec_v_align() == v_align,
            r.variant_tag() == self.variant_tag(),
            r.spec_line_breaker() == self.spec_line_breaker(),
            r.spec_h_align() == self.spec_h_align(),
    {
        match self {
            Layout::SingleLine { line_breaker, h_align, .. } => Layout::SingleLine {
                line_breaker,
                h_align,
                v_align,
            },
            Layout::Wrap { line_breaker, h_align, .. } => Layout::Wrap {
                line_breaker,
                h_align,
                v_align,
            },
        }
    }

    /// The same layout with another line-breaking rule.
    pub fn line_breaker(self, line_breaker: BuiltInLineBreaker) -> (r: Layout)
        ensures
            r.spec_line_breaker() == line_breaker,
            r.variant_tag() == self.variant_tag(),
            r.spec_h_align() == self.spec_h_align(),
            r.spec_v_align() == self.spec_v_align(),
    {
        match self {
            Layout::SingleLine { h_align, v_align, .. } => Layout::SingleLine {
                line_breaker,
                h_align,
                v_align,
            },
            Layout::Wrap { h_align, v_align, .. } => Layout::Wrap {
                line_breaker,
                h_align,
                v_align,
            },
        }
    }

    /// Hands the layout to a hasher.
    pub fn hash<H: SectionHasher>(&self, state: &mut H)
        ensures
            final(state).stream() == old(state).stream() + self.hash_stream(),
    {
        let (variant, line_breaker, h_align, v_align): (
            u8,
            BuiltInLineBreaker,
            HorizontalAlign,
            VerticalAlign,
        ) = match *self {
            Layout::SingleLine { line_breaker, h_align, v_align } => (
                0,
                line_breaker,
                h_align,
                v_align,
            ),
            Layout::Wrap { line_breaker, h_align, v_align } => (1, line_breaker, h_align, v_align),
        };
        state.write_tag(variant);
        state.write_tag(line_breaker.exec_tag());
        state.write_tag(h_align.exec_tag());
        state.write_tag(v_align.exec_tag());
        assert(state.stream() =~= old(state).stream() + self.hash_stream());
    }
}

impl Default for Layout {
    fn default() -> (r: Layout)
        ensures
            r == Layout::spec_default(),
    {
        Layout::default_wrap()
    }
}

/// Layouts that hand a hasher the same items are the same layout.
pub proof fn lemma_layout_stream_injective(a: Layout, b: Layout)
    requires
        a.hash_stream() == b.hash_stream(),
    ensures
        a == b,
{
    let sa = a.hash_stream();
    let sb = b.hash_stream();
    assert(sa[0] == sb[0]);
    assert(sa[1] == sb[1]);
    assert(sa[2] == sb[2]);
    assert(sa[3] == sb[3]);
}

} // verus!
