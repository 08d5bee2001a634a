//! What a section hands to a hasher, and the hashers that can take it.

use vstd::prelude::*;

verus! {

/// One value handed to a hasher.
pub enum HashItem {
    /// Thirty-two bits: the canonical bits of a pixel quantity, or a word of
    /// a payload.
    Bits(u32),
    /// A font reference.
    Index(usize),
    /// The content of a text run.
    Text(Seq<char>),
    /// The choice made among the variants of a layout setting.
    Tag(u8),
}

/// A hasher, seen as the sequence of items it has been handed so far.
///
/// Whatever digest an implementation computes, it computes from that sequence:
/// two hashers that were handed the same items hold the same state. An
/// implementation says what its `stream` is, and the verifier holds each of
/// its `write_` methods to appending exactly one item to it.
pub trait SectionHasher {
    /// Everything written so far, oldest first.
    spec fn stream(&self) -> Seq<HashItem>;

    fn write_bits(&mut self, bits: u32)
        ensures
            final(self).stream() == old(self).stream().push(HashItem::Bits(bits)),
    ;

    fn write_index(&mut self, index: usize)
        ensures
            final(self).stream() == old(self).stream().push(HashItem::Index(index)),
    ;

    fn write_text(&mut self, text: &str)
        ensures
            final(self).stream() == old(self).stream().push(HashItem::Text(text@)),
    ;

    fn write_tag(&mut self, tag: u8)
        ensures
            final(self).stream() == old(self).stream().push(HashItem::Tag(tag)),
    ;
}

/// A written item as a plain value that can be stored and compared.
#[derive(Clone, Debug, PartialEq, Eq)]
pub enum Recorded {
    Bits(u32),
    Index(usize),
    Text(String),
    Tag(u8),
}

impl View for Recorded {
    type V = HashItem;

    open spec fn view(&self) -> HashItem {
        match *self {
            Recorded::Bits(bits) => HashItem::Bits(bits),
            Recorded::Index(index) => HashItem::Index(index),
            Recorded::Text(text) => HashItem::Text(text@),
            Recorded::Tag(tag) => HashItem::Tag(tag),
        }
    }
}

/// The views of a run of recorded items.
pub open spec fn recorded_stream(items: Seq<Recorded>) -> Seq<HashItem> {
    Seq::new(items.len(), |i: int| items[i]@)
}

/// A hasher that keeps every item it is handed, in order, and computes nothing.
pub struct StreamRecorder {
    items: Vec<Recorded>,
}

impl StreamRecorder {
    /// A recorder that has been handed nothing.
    pub fn new() -> (r: StreamRecorder)
        ensures
            r.stream() == Seq::<HashItem>::empty(),
    {
        let r = StreamRecorder { items: Vec::new() };
        assert(r.stream() =~= Seq::<HashItem>::empty());
        r
    }

    /// The items written so far, oldest first.
    pub fn items(&self) -> (r: &Vec<Recorded>)
        ensures
            recorded_stream(r@) == self.stream(),
    {
        &self.items
    }

    /// The items written so far, leaving the recorder behind.
    pub fn into_items(self) -> (r: Vec<Recorded>)
        ensures
            recorded_stream(r@) == self.stream(),
    {
        self.items
    }

    fn record(&mut self, item: Recorded)
        ensures
            final(self).stream() == old(self).stream().push(item@),
    {
        self.items.push(item);
        assert(self.stream() =~= old(self).stream().push(item@));
    }
}

impl SectionHasher for StreamRecorder {
    closed spec fn stream(&self) -> Seq<HashItem> {
        recorded_stream(self.items@)
    }

    fn write_bits(&mut self, bits: u32) {
        self.record(Recorded::Bits(bits));
    }

    fn write_index(&mut self, index: usize) {
        self.record(Recorded::Index(index));
    }

    fn write_text(&mut self, text: &str) {
        self.record(Recorded::Text(text.to_owned()));
    }

    fn write_tag(&mut self, tag: u8) {
        self.record(Recorded::Tag(tag));
    }
}

} // verus!
