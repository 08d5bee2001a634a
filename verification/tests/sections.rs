use glyph_brush::extra::Color;
use glyph_brush::extra::Extra;
use glyph_brush::float_bits::FloatBits;
use glyph_brush::hasher::Recorded;
use glyph_brush::hasher::StreamRecorder;
use glyph_brush::layout::BuiltInLineBreaker;
use glyph_brush::layout::HorizontalAlign;
use glyph_brush::layout::Layout;
use glyph_brush::layout::VerticalAlign;
use glyph_brush::owned::OwnedSection;
use glyph_brush::section::Section;
use glyph_brush::section::SectionGeometry;
use glyph_brush::text::FontId;
use glyph_brush::text::PxScale;
use glyph_brush::text::Text;
use std::borrow::Cow;

fn px(x: f32) -> FloatBits {
    FloatBits::from_bits(x.to_bits())
}

fn pair(x: f32, y: f32) -> (FloatBits, FloatBits) {
    (px(x), px(y))
}

fn rgba(r: f32, g: f32, b: f32, a: f32) -> Color {
    [px(r), px(g), px(b), px(a)]
}

fn bits_of(color: &Color) -> [u32; 4] {
    [color[0].to_bits(), color[1].to_bits(), color[2].to_bits(), color[3].to_bits()]
}

fn all_items(section: &Section<'_, Extra>) -> Vec<Vec<Recorded>> {
    let parts = section.to_hashable_parts();
    let mut geometry = StreamRecorder::new();
    parts.hash_geometry(&mut geometry);
    let mut text = StreamRecorder::new();
    parts.hash_text_no_extra(&mut text);
    let mut extra = StreamRecorder::new();
    parts.hash_extra(&mut extra);
    let mut full = StreamRecorder::new();
    section.hash(&mut full);
    vec![geometry.into_items(), text.into_items(), extra.into_items(), full.into_items()]
}

fn sample() -> Section<'static, Extra> {
    Section::default()
        .with_screen_position(pair(12.0, 34.5))
        .with_bounds(pair(200.0, f32::INFINITY))
        .with_layout(Layout::default_single_line().h_align(HorizontalAlign::Center))
        .add_text(Text::new("The last word was ").with_color(rgba(0.0, 0.0, 0.0, 1.0)))
        .add_text(
            Text::new("RED")
                .with_color(rgba(1.0, 0.0, 0.0, 1.0))
                .with_outline_color(rgba(0.0, 0.0, 0.0, 0.5))
                .with_z(px(0.25))
                .with_font_id(FontId(3))
                .with_scale(PxScale { x: px(24.0), y: px(32.0) }),
        )
}

#[test]
fn new_section_is_at_the_origin_unbounded_and_empty() {
    let section: Section<'_, Extra> = Section::new();
    assert_eq!(section.screen_position.0.to_bits(), 0.0f32.to_bits());
    assert_eq!(section.screen_position.1.to_bits(), 0.0f32.to_bits());
    assert_eq!(section.bounds.0.to_bits(), f32::INFINITY.to_bits());
    assert_eq!(section.bounds.1.to_bits(), f32::INFINITY.to_bits());
    assert_eq!(
        section.layout,
        Layout::Wrap {
            line_breaker: BuiltInLineBreaker::UnicodeLineBreaker,
            h_align: HorizontalAlign::Left,
            v_align: VerticalAlign::Top,
        }
    );
    assert!(section.text.is_empty());
}

#[test]
fn default_section_is_the_new_section() {
    let a: Section<'_, Extra> = Section::default();
    let b: Section<'_, Extra> = Section::new();
    assert_eq!(a, b);
    assert_eq!(all_items(&a), all_items(&b));
}

#[test]
fn default_layout_wraps_left_and_top() {
    assert_eq!(Layout::default(), Layout::default_wrap());
    assert_eq!(
        Layout::default_single_line(),
        Layout::SingleLine {
            line_breaker: BuiltInLineBreaker::UnicodeLineBreaker,
            h_align: HorizontalAlign::Left,
            v_align: VerticalAlign::Top,
        }
    );
    assert_ne!(Layout::default_single_line(), Layout::default_wrap());
}

#[test]
fn layout_setters_change_one_setting() {
    let layout = Layout::default_wrap()
        .h_align(HorizontalAlign::Right)
        .v_align(VerticalAlign::Bottom)
        .line_breaker(BuiltInLineBreaker::AnyCharLineBreaker);
    assert_eq!(
        layout,
        Layout::Wrap {
            line_breaker: BuiltInLineBreaker::AnyCharLineBreaker,
            h_align: HorizontalAlign::Right,
            v_align: VerticalAlign::Bottom,
        }
    );
    assert_eq!(
        Layout::default_single_line().v_align(VerticalAlign::Center),
        Layout::SingleLine {
            line_breaker: BuiltInLineBreaker::UnicodeLineBreaker,
            h_align: HorizontalAlign::Left,
            v_align: VerticalAlign::Center,
        }
    );
}

#[test]
fn section_setters_change_one_field() {
    let base = sample();
    let moved = sample().with_screen_position(pair(1.0, 2.0));
    assert_eq!(moved.screen_position.0.to_bits(), 1.0f32.to_bits());
    assert_eq!(moved.screen_position.1.to_bits(), 2.0f32.to_bits());
    assert_eq!(moved.bounds, base.bounds);
    assert_eq!(moved.layout, base.layout);
    assert_eq!(moved.text, base.text);

    let bounded = sample().with_bounds(pair(7.0, 8.0));
    assert_eq!(bounded.bounds.0.to_bits(), 7.0f32.to_bits());
    assert_eq!(bounded.bounds.1.to_bits(), 8.0f32.to_bits());
    assert_eq!(bounded.screen_position, base.screen_position);
    assert_eq!(bounded.layout, base.layout);
    assert_eq!(bounded.text, base.text);

    let laid = sample().with_layout(Layout::default_wrap());
    assert_eq!(laid.layout, Layout::default_wrap());
    assert_eq!(laid.screen_position, base.screen_position);
    assert_eq!(laid.bounds, base.bounds);
    assert_eq!(laid.text, base.text);
}

#[test]
fn add_text_appends_in_order() {
    let section = Section::default()
        .add_text(Text::new("one"))
        .add_text(Text::new("two"))
        .add_text(Text::new("three"));
    assert_eq!(section.text.len(), 3);
    assert_eq!(section.text[0].text, "one");
    assert_eq!(section.text[1].text, "two");
    assert_eq!(section.text[2].text, "three");
}

#[test]
fn with_text_replaces_the_runs_and_may_change_the_payload_type() {
    let section: Section<'_, u32> = sample().with_text(vec![
        Text::new("x").with_extra(5u32),
        Text::new("y").with_extra(6u32),
    ]);
    assert_eq!(section.text.len(), 2);
    assert_eq!(section.text[0].extra, 5);
    assert_eq!(section.text[1].text, "y");
    assert_eq!(section.screen_position, sample().screen_position);
    assert_eq!(section.bounds, sample().bounds);
    assert_eq!(section.layout, sample().layout);
    let emptied: Section<'_, Extra> = sample().with_text(Vec::new());
    assert!(emptied.text.is_empty());
}

#[test]
fn new_text_has_the_default_style() {
    let run = Text::new("hello");
    assert_eq!(run.text, "hello");
    assert_eq!(run.scale.x.to_bits(), 16.0f32.to_bits());
    assert_eq!(run.scale.y.to_bits(), 16.0f32.to_bits());
    assert_eq!(run.font_id, FontId(0));
    assert_eq!(bits_of(&run.extra.color), bits_of(&rgba(0.0, 0.0, 0.0, 1.0)));
    assert_eq!(bits_of(&run.extra.outline_color), bits_of(&rgba(0.0, 0.0, 0.0, 0.0)));
    assert_eq!(run.extra.z.to_bits(), 0.0f32.to_bits());
}

#[test]
fn default_text_is_empty_with_the_payloads_default() {
    let run: Text<'static, Extra> = Text::default();
    assert_eq!(run, Text::new(""));
    let plain: Text<'static, u32> = Text::default();
    assert_eq!(plain.text, "");
    assert_eq!(plain.extra, 0);
    assert_eq!(plain.scale.x.to_bits(), 16.0f32.to_bits());
    assert_eq!(plain.font_id, FontId::default());
    assert_eq!(FontId::default(), FontId(0));
}

#[test]
fn default_extra_is_opaque_black_without_outline() {
    let extra = Extra::default();
    assert_eq!(bits_of(&extra.color), [0, 0, 0, 0x3f80_0000]);
    assert_eq!(bits_of(&extra.outline_color), [0, 0, 0, 0]);
    assert_eq!(extra.z.to_bits(), 0);
}

#[test]
fn text_setters_change_one_field() {
    let base = Text::new("base");
    let renamed = base.with_text("other");
    assert_eq!(renamed.text, "other");
    assert_eq!(renamed.scale, base.scale);
    assert_eq!(renamed.font_id, base.font_id);
    assert_eq!(renamed.extra, base.extra);

    let scaled = base.with_scale(PxScale { x: px(10.0), y: px(20.0) });
    assert_eq!(scaled.scale.x.to_bits(), 10.0f32.to_bits());
    assert_eq!(scaled.scale.y.to_bits(), 20.0f32.to_bits());
    assert_eq!(scaled.text, "base");
    assert_eq!(scaled.font_id, base.font_id);
    assert_eq!(scaled.extra, base.extra);

    let other_font = base.with_font_id(FontId(9));
    assert_eq!(other_font.font_id, FontId(9));
    assert_eq!(other_font.text, "base");
    assert_eq!(other_font.scale, base.scale);
    assert_eq!(other_font.extra, base.extra);

    let tagged = base.with_extra("tag");
    assert_eq!(tagged.extra, "tag");
    assert_eq!(tagged.text, "base");
    assert_eq!(tagged.scale, base.scale);
    assert_eq!(tagged.font_id, base.font_id);
}

#[test]
fn colour_setters_change_one_part_of_the_payload() {
    let base = Text::new("c");
    let filled = base.with_color(rgba(0.1, 0.2, 0.3, 0.4));
    assert_eq!(bits_of(&filled.extra.color), bits_of(&rgba(0.1, 0.2, 0.3, 0.4)));
    assert_eq!(bits_of(&filled.extra.outline_color), bits_of(&base.extra.outline_color));
    assert_eq!(filled.extra.z, base.extra.z);

    let outlined = filled.with_outline_color(rgba(0.5, 0.6, 0.7, 0.8));
    assert_eq!(bits_of(&outlined.extra.outline_color), bits_of(&rgba(0.5, 0.6, 0.7, 0.8)));
    assert_eq!(bits_of(&outlined.extra.color), bits_of(&filled.extra.color));

    let deep = outlined.with_z(px(0.75));
    assert_eq!(deep.extra.z.to_bits(), 0.75f32.to_bits());
    assert_eq!(bits_of(&deep.extra.color), bits_of(&filled.extra.color));
    assert_eq!(bits_of(&deep.extra.outline_color), bits_of(&outlined.extra.outline_color));
    assert_eq!(deep.text, "c");
    assert_eq!(deep.scale, base.scale);
    assert_eq!(deep.font_id, base.font_id);
}

#[test]
fn uniform_scale_is_the_same_both_ways() {
    let scale = PxScale::uniform(px(18.0));
    assert_eq!(scale.x.to_bits(), 18.0f32.to_bits());
    assert_eq!(scale.y.to_bits(), 18.0f32.to_bits());
    assert_eq!(PxScale::from(px(18.0)), scale);
    assert!(scale.same_scale(PxScale { x: px(18.0), y: px(18.0) }));
    assert!(!scale.same_scale(PxScale { x: px(18.0), y: px(19.0) }));
    let broken = PxScale::uniform(px(f32::NAN));
    assert!(broken != broken);
}

#[test]
fn section_text_keeps_content_scale_and_font() {
    let section = sample();
    let projected = section.text[1].to_section_text();
    assert_eq!(projected.text, "RED");
    assert_eq!(projected.scale.x.to_bits(), 24.0f32.to_bits());
    assert_eq!(projected.scale.y.to_bits(), 32.0f32.to_bits());
    assert_eq!(projected.font_id, FontId(3));
}

#[test]
fn geometry_is_position_and_bounds() {
    let section = sample();
    let geometry = section.geometry();
    assert_eq!(geometry.screen_position, section.screen_position);
    assert_eq!(geometry.bounds, section.bounds);
    let converted = SectionGeometry::from(&section);
    assert_eq!(converted.screen_position.0.to_bits(), 12.0f32.to_bits());
    assert_eq!(converted.screen_position.1.to_bits(), 34.5f32.to_bits());
    assert_eq!(converted.bounds.0.to_bits(), 200.0f32.to_bits());
    assert_eq!(converted.bounds.1.to_bits(), f32::INFINITY.to_bits());
}

#[test]
fn owned_copy_holds_the_same_fields() {
    let section = sample();
    let owned: OwnedSection<Extra> = section.to_owned();
    assert_eq!(owned.screen_position, section.screen_position);
    assert_eq!(owned.bounds, section.bounds);
    assert_eq!(owned.layout, section.layout);
    assert_eq!(owned.text.len(), 2);
    assert_eq!(owned.text[0].text, "The last word was ".to_string());
    assert_eq!(owned.text[1].text, "RED".to_string());
    assert_eq!(owned.text[1].scale, section.text[1].scale);
    assert_eq!(owned.text[1].font_id, FontId(3));
    assert_eq!(owned.text[1].extra, section.text[1].extra);
}

#[test]
fn owned_copy_outlives_the_borrowed_text() {
    let owned = {
        let content = String::from("short lived");
        let section = Section::default().add_text(Text::new(content.as_str()));
        section.to_owned()
    };
    assert_eq!(owned.text[0].text, "short lived");
    assert_eq!(owned.to_borrowed().text[0].text, "short lived");
}

#[test]
fn round_trip_keeps_equality_and_all_hashes() {
    let section = sample();
    let owned = section.to_owned();
    let back = owned.to_borrowed();
    assert_eq!(back, section);
    assert_eq!(section, back);
    assert_eq!(all_items(&back), all_items(&section));
    let other = sample().with_bounds(pair(1.0, 1.0));
    assert_ne!(back, other);
    assert_ne!(section, other);
}

#[test]
fn round_trip_of_the_empty_section() {
    let section: Section<'_, Extra> = Section::new();
    let owned = section.to_owned();
    assert!(owned.text.is_empty());
    let back = owned.to_borrowed();
    assert_eq!(back, section);
    assert_eq!(all_items(&back), all_items(&section));
}

#[test]
fn single_run_round_trip() {
    let run = Text::new("solo").with_font_id(FontId(1)).with_z(px(2.0));
    let owned = run.to_owned();
    assert_eq!(owned.text, "solo");
    assert_eq!(owned.font_id, FontId(1));
    let back = owned.to_borrowed();
    assert_eq!(back, run);
}

#[test]
fn clone_keeps_every_field() {
    let section = sample();
    let copy = section.clone();
    assert_eq!(copy, section);
    assert_eq!(all_items(&copy), all_items(&section));
    let run = section.text[1];
    assert_eq!(run.clone(), run);
}

#[test]
fn clone_extras_gives_the_payloads_in_order() {
    let section = sample();
    let extras = section.clone_extras();
    assert_eq!(extras.len(), 2);
    assert_eq!(extras[0], section.text[0].extra);
    assert_eq!(extras[1], section.text[1].extra);
    assert_eq!(extras[1].z.to_bits(), 0.25f32.to_bits());
    let none: Section<'_, Extra> = Section::new();
    assert!(none.clone_extras().is_empty());
}

#[test]
fn a_section_becomes_an_owned_cow_and_a_reference_a_borrowed_one() {
    let section = sample();
    let borrowed: Cow<'_, Section<'_, Extra>> = Cow::from(&section);
    assert!(matches!(borrowed, Cow::Borrowed(_)));
    assert_eq!(*borrowed, section);
    let kept = borrowed.into_owned();
    assert_eq!(kept, section);
    let owned: Cow<'_, Section<'_, Extra>> = Cow::from(sample());
    assert!(matches!(owned, Cow::Owned(_)));
    assert_eq!(owned.into_owned(), section);
}

#[test]
fn runs_compare_by_content_scale_font_and_payload() {
    let run = Text::new("same");
    assert_eq!(run, Text::new("same"));
    assert_ne!(run, Text::new("other"));
    assert_ne!(run, run.with_font_id(FontId(1)));
    assert_ne!(run, run.with_scale(PxScale::uniform(px(17.0))));
    assert_ne!(run, run.with_z(px(1.0)));
    assert_ne!(run, run.with_color(rgba(1.0, 1.0, 1.0, 1.0)));
    assert_ne!(run, run.with_outline_color(rgba(1.0, 1.0, 1.0, 1.0)));
    let owned_content = String::from("same");
    assert_eq!(run, Text::new(owned_content.as_str()));
}

#[test]
fn sections_with_other_run_counts_differ() {
    let one = Section::default().add_text(Text::new("a"));
    let two = Section::default().add_text(Text::new("a")).add_text(Text::new("a"));
    assert_ne!(one, two);
    assert_ne!(two, one);
}
