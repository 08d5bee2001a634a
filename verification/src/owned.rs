//! Sections and runs that own their text.

use vstd::prelude::*;
use crate::extra::Extra;
use crate::float_bits::FloatBits;
use crate::layout::Layout;
use crate::section::Section;
use crate::text::FontId;
use crate::text::PxScale;
use crate::text::Text;

verus! {

/// A run that owns its content.
#[derive(Debug)]
pub struct OwnedText<X = Extra> {
    pub text: String,
    pub scale: PxScale,
    pub font_id: FontId,
    pub extra: X,
}

/// A section that owns the content of all its runs.
#[derive(Debug)]
pub struct OwnedSection<X = Extra> {
    pub screen_position: (FloatBits, FloatBits),
    pub bounds: (FloatBits, FloatBits),
    pub layout: Layout,
    pub text: Vec<OwnedText<X>>,
}

impl<X: Clone> OwnedText<X> {
    /// Whether this run is an owned copy of `run`: the same characters,
    /// scale and font, and a payload that `run`'s payload clones to.
    pub open spec fn is_copy_of(self, run: Text<'_, X>) -> bool {
        &&& self.text@ == run.text@
        &&& self.scale == run.scale
        &&& self.font_id == run.font_id
        &&& cloned(run.extra, self.extra)
    }

    /// Whether `run` is a borrowed form of this run: the same characters,
    /// scale and font, and a payload that this run's payload clones to.
    pub open spec fn lends(self, run: Text<'_, X>) -> bool {
        &&& run.text@ == self.text@
        &&& run.scale == self.scale
        &&& run.font_id == self.font_id
        &&& cloned(self.extra, run.extra)
    }
}

impl<X: Clone> OwnedText<X> {
    /// A run that borrows this one's content and carries a clone of its
    /// payload.
    pub fn to_borrowed(&self) -> (r: Text<'_, X>)
        ensures
            self.lends(r),
    {
        Text {
            text: self.text.as_str(),
            scale: self.scale,
            font_id: self.font_id,
            extra: self.extra.clone(),
        }
    }
}

impl<'a, X: Clone> Text<'a, X> {
    /// An owned copy: the content in storage of its own, the payload cloned.
    pub fn to_owned(&self) -> (r: OwnedText<X>)
        ensures
            r.is_copy_of(*self),
    {
        OwnedText {
            text: self.text.to_owned(),
            scale: self.scale,
            font_id: self.font_id,
            extra: self.extra.clone(),
        }
    }
}

impl<X: Clone> OwnedSection<X> {
    /// Whether this section is an owned copy of `section`: the same position,
    /// bounds and layout, and run by run an owned copy.
    pub open spec fn is_copy_of(self, section: Section<'_, X>) -> bool {
        &&& self.screen_position == section.screen_position
        &&& self.bounds == section.bounds
        &&& self.layout == section.layout
        &&& self.text@.len() == section.text@.len()
        &&& forall|i: int|
            0 <= i < self.text@.len() ==> (#[trigger] self.text@[i]).is_copy_of(section.text@[i])
    }

    /// Whether `section` is a borrowed form of this section: the same
    /// position, bounds and layout, and run by run a borrowed form.
    pub open spec fn lends(self, section: Section<'_, X>) -> bool {
        &&& section.screen_position == self.screen_position
        &&& section.bounds == self.bounds
        &&& section.layout == self.layout
        &&& section.text@.len() == self.text@.len()
        &&& forall|i: int|
            0 <= i < self.text@.len() ==> (#[trigger] self.text@[i]).lends(section.text@[i])
    }
}

impl<X: Clone> OwnedSection<X> {
    /// A section that borrows every run's content from this one.
    pub fn to_borrowed(&self) -> (r: Section<'_, X>)
        ensures
            self.lends(r),
    {
        let mut text: Vec<Text<'_, X>> = Vec::new();
        let mut i: usize = 0;
        while i < self.text.len()
            invariant
                i <= self.text@.len(),
                text@.len() == i,
                forall|j: int| 0 <= j < i ==> (#[trigger] self.text@[j]).lends(text@[j]),
            decreases self.text@.len() - i,
        {
            text.push(self.text[i].to_borrowed());
            i += 1;
        }
        Section {
            screen_position: self.screen_position,
            bounds: self.bounds,
            layout: self.layout,
            text,
        }
    }
}

impl<'text, X: Clone> Section<'text, X> {
    /// An owned copy of the section: every run's content copied into storage
    /// of its own, every payload cloned.
    pub fn to_owned(&self) -> (r: OwnedSection<X>)
        ensures
            r.is_copy_of(*self),
    {
        let mut text: Vec<OwnedText<X>> = Vec::new();
        let mut i: usize = 0;
        while i < self.text.len()
            invariant
                i <= self.text@.len(),
                text@.len() == i,
                forall|j: int| 0 <= j < i ==> (#[trigger] text@[j]).is_copy_of(self.text@[j]),
            decreases self.text@.len() - i,
        {
            text.push(self.text[i].to_owned());
            i += 1;
        }
        OwnedSection {
            screen_position: self.screen_position,
            bounds: self.bounds,
            layout: self.layout,
            text,
        }
    }

    /// The payloads of the runs, cloned, in order.
    pub fn clone_extras(&self) -> (r: Vec<X>)
        ensures
            r@.len() == self.text@.len(),
            forall|i: int| 0 <= i < r@.len() ==> cloned(self.text@[i].extra, #[trigger] r@[i]),
    {
        let mut extras: Vec<X> = Vec::new();
        let mut i: usize = 0;
        while i < self.text.len()
            invariant
                i <= self.text@.len(),
                extras@.len() == i,
                forall|j: int| 0 <= j < i ==> cloned(self.text@[j].extra, #[trigger] extras@[j]),
            decreases self.text@.len() - i,
        {
            extras.push(self.text[i].extra.clone());
            i += 1;
        }
        extras
    }
}

impl<'a, X: Clone> Clone for Section<'a, X> {
    /// The same position, bounds and layout around a clone of every run.
    fn clone(&self) -> (r: Section<'a, X>)
        ensures
            r.screen_position == self.screen_position,
            r.bounds == self.bounds,
            r.layout == self.layout,
            r.text@.len() == self.text@.len(),
            forall|i: int|
                0 <= i < r.text@.len() ==> {
                    &&& (#[trigger] r.text@[i]).text == self.text@[i].text
                    &&& r.text@[i].scale == self.text@[i].scale
                    &&& r.text@[i].font_id == self.text@[i].font_id
                    &&& cloned(self.text@[i].extra, r.text@[i].extra)
                },
    {
        let mut text: Vec<Text<'a, X>> = Vec::new();
        let mut i: usize = 0;
        while i < self.text.len()
            invariant
                i <= self.text@.len(),
                text@.len() == i,
                forall|j: int|
                    0 <= j < i ==> {
                        &&& (#[trigger] text@[j]).text == self.text@[j].text
                        &&& text@[j].scale == self.text@[j].scale
                        &&& text@[j].font_id == self.text@[j].font_id
                        &&& cloned(self.text@[j].extra, text@[j].extra)
                    },
            decreases self.text@.len() - i,
        {
            text.push(self.text[i].clone());
            i += 1;
        }
        Section {
            screen_position: self.screen_position,
            bounds: self.bounds,
            layout: self.layout,
            text,
        }
    }
}

} // verus!
