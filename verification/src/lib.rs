//! Styled text sections and the split hash streams that key a glyph-layout cache.
//!
//! A [`Section`] is an ordered run of [`Text`]s with a position, bounds and a
//! [`Layout`]. What it hands to a hasher comes in three parts that can be
//! hashed apart from each other: the geometry, the text without its payload,
//! and the payload alone. A cache that keeps the three digests of the last
//! frame knows from them whether glyphs must be laid out again, only painted
//! again, or neither.
//!
//! Every pixel quantity is carried as the bit pattern of an IEEE 754 binary32
//! number ([`FloatBits`]); nothing in this crate does arithmetic on such a
//! number, it only stores, compares and hashes it.

pub mod extra;
pub mod float_bits;
pub mod hasher;
pub mod laws;
pub mod layout;
pub mod owned;
pub mod section;
pub mod stream;
pub mod text;

pub use extra::Color;
pub use extra::Extra;
pub use extra::HashExtra;
pub use float_bits::FloatBits;
pub use float_bits::OrderedBits;
pub use hasher::HashItem;
pub use hasher::Recorded;
pub use hasher::SectionHasher;
pub use hasher::StreamRecorder;
pub use layout::BuiltInLineBreaker;
pub use layout::HorizontalAlign;
pub use layout::Layout;
pub use layout::VerticalAlign;
pub use owned::OwnedSection;
pub use owned::OwnedText;
pub use section::HashableSectionParts;
pub use section::Section;
pub use section::SectionGeometry;
pub use text::FontId;
pub use text::PxScale;
pub use text::SectionText;
pub use text::Text;
