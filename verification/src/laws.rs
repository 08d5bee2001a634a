//! What holds of the hash streams and of `==` for every section.

use vstd::prelude::*;
use crate::extra::color_eq;
use crate::extra::color_stream;
use crate::extra::Color;
use crate::extra::Extra;
use crate::extra::HashExtra;
use crate::float_bits::lemma_canonical_bits_agree;
use crate::float_bits::FloatBits;
use crate::float_bits::INFINITY_BITS;
use crate::hasher::HashItem;
use crate::owned::OwnedSection;
use crate::section::pair_eq;
use crate::section::pair_stream;
use crate::section::runs_extra_stream;
use crate::section::runs_full_stream;
use crate::section::runs_layout_stream;
use crate::section::Section;
use crate::stream::lemma_flatten_differs_at;
use crate::stream::lemma_flatten_fixed_width_injective;
use crate::stream::lemma_middle_cancels;
use crate::text::Text;
use vstd::std_specs::cmp::PartialEqSpec;

verus! {

/// Whether two runs agree in all the layout reads: characters, scale, font.
pub open spec fn same_layout_content<X>(a: Text<'_, X>, b: Text<'_, X>) -> bool {
    &&& a.text@ == b.text@
    &&& a.scale == b.scale
    &&& a.font_id == b.font_id
}

/// Whether two runs agree in everything: what the layout reads, and the
/// payload.
pub open spec fn same_run<X>(a: Text<'_, X>, b: Text<'_, X>) -> bool {
    same_layout_content(a, b) && a.extra == b.extra
}

/// Whether two run sequences are as long as each other and agree run by run.
pub open spec fn same_runs<X>(a: Seq<Text<'_, X>>, b: Seq<Text<'_, X>>) -> bool {
    &&& a.len() == b.len()
    &&& forall|i: int| 0 <= i < a.len() ==> same_run(#[trigger] a[i], b[i])
}

/// Whether two sections sit at the same place within the same bounds, bit
/// for bit.
pub open spec fn same_geometry<X>(a: Section<'_, X>, b: Section<'_, X>) -> bool {
    a.screen_position == b.screen_position && a.bounds == b.bounds
}

/// Whether neither member of a pair is a not-a-number.
pub open spec fn pair_is_number(pair: (FloatBits, FloatBits)) -> bool {
    !pair.0.is_nan() && !pair.1.is_nan()
}

/// Whether two pairs have the same canonical bits, member by member.
pub open spec fn pair_same_key(a: (FloatBits, FloatBits), b: (FloatBits, FloatBits)) -> bool {
    a.0.canonical_bits() == b.0.canonical_bits() && a.1.canonical_bits() == b.1.canonical_bits()
}

/// Run sequences that agree run by run hand a hasher the same items, in
/// each of the three ways of hashing runs.
pub proof fn lemma_same_runs_same_streams<X: HashExtra>(
    a: Seq<Text<'_, X>>,
    b: Seq<Text<'_, X>>,
)
    requires
        same_runs(a, b),
    ensures
        runs_layout_stream(a) == runs_layout_stream(b),
        runs_extra_stream(a) == runs_extra_stream(b),
        runs_full_stream(a) == runs_full_stream(b),
{
    assert(a.map_values(|run: Text<'_, X>| run.layout_stream()) =~= b.map_values(
        |run: Text<'_, X>| run.layout_stream(),
    )) by {
        assert forall|i: int| 0 <= i < a.len() implies a[i].layout_stream()
            == b[i].layout_stream() by {
            assert(same_run(a[i], b[i]));
        }
    }
    assert(a.map_values(|run: Text<'_, X>| run.extra.hash_stream()) =~= b.map_values(
        |run: Text<'_, X>| run.extra.hash_stream(),
    )) by {
        assert forall|i: int| 0 <= i < a.len() implies a[i].extra.hash_stream()
            == b[i].extra.hash_stream() by {
            assert(same_run(a[i], b[i]));
        }
    }
    assert(a.map_values(|run: Text<'_, X>| run.full_stream()) =~= b.map_values(
        |run: Text<'_, X>| run.full_stream(),
    )) by {
        assert forall|i: int| 0 <= i < a.len() implies a[i].full_stream()
            == b[i].full_stream() by {
            assert(same_run(a[i], b[i]));
        }
    }
}

/// Two sections with the same geometry, the same layout and the same runs,
/// payloads included, hand a hasher the same items: as wholes, and in each
/// of the three parts.
pub proof fn law_identical_sections_hash_alike<X: HashExtra>(a: Section<'_, X>, b: Section<'_, X>)
    requires
        same_geometry(a, b),
        a.layout == b.layout,
        same_runs(a.text@, b.text@),
    ensures
        a.full_stream() == b.full_stream(),
        a.geometry_stream() == b.geometry_stream(),
        a.text_stream() == b.text_stream(),
        a.extra_stream() == b.extra_stream(),
{
    lemma_same_runs_same_streams(a.text@, b.text@);
}

/// Two sections with the same geometry, the same layout and the same runs
/// compare equal, provided that no position, bound or scale is a
/// not-a-number and that every payload equals itself.
pub proof fn law_identical_sections_compare_equal<X: PartialEq>(
    a: Section<'_, X>,
    b: Section<'_, X>,
)
    requires
        same_geometry(a, b),
        a.layout == b.layout,
        same_runs(a.text@, b.text@),
        pair_is_number(a.screen_position),
        pair_is_number(a.bounds),
        forall|i: int|
            0 <= i < a.text@.len() ==> {
                &&& !(#[trigger] a.text@[i]).scale.x.is_nan()
                &&& !a.text@[i].scale.y.is_nan()
                &&& a.text@[i].extra.eq_spec(&a.text@[i].extra)
            },
    ensures
        a.equals(b),
{
    assert forall|i: int| 0 <= i < a.text@.len() implies (#[trigger] a.text@[i]).equals(
        b.text@[i],
    ) by {
        assert(same_run(a.text@[i], b.text@[i]));
    }
}

/// Sections that compare equal hand a hasher the same items, as wholes and
/// in each of the three parts, provided that payloads which compare equal
/// hash alike.
pub proof fn law_equal_sections_hash_alike<X: HashExtra + PartialEq>(
    a: Section<'_, X>,
    b: Section<'_, X>,
)
    requires
        a.equals(b),
        forall|i: int|
            0 <= i < a.text@.len() && (#[trigger] a.text@[i]).extra.eq_spec(&b.text@[i].extra)
                ==> a.text@[i].extra.hash_stream() == b.text@[i].extra.hash_stream(),
    ensures
        a.full_stream() == b.full_stream(),
        a.geometry_stream() == b.geometry_stream(),
        a.text_stream() == b.text_stream(),
        a.extra_stream() == b.extra_stream(),
{
    lemma_canonical_bits_agree(a.screen_position.0, b.screen_position.0);
    lemma_canonical_bits_agree(a.screen_position.1, b.screen_position.1);
    lemma_canonical_bits_agree(a.bounds.0, b.bounds.0);
    lemma_canonical_bits_agree(a.bounds.1, b.bounds.1);
    let ra = a.text@;
    let rb = b.text@;
    assert forall|i: int| 0 <= i < ra.len() implies {
        &&& (#[trigger] ra[i]).layout_stream() == rb[i].layout_stream()
        &&& ra[i].extra.hash_stream() == rb[i].extra.hash_stream()
        &&& ra[i].full_stream() == rb[i].full_stream()
    } by {
        assert(ra[i].equals(rb[i]));
        lemma_canonical_bits_agree(ra[i].scale.x, rb[i].scale.x);
        lemma_canonical_bits_agree(ra[i].scale.y, rb[i].scale.y);
    }
    assert(ra.map_values(|run: Text<'_, X>| run.layout_stream()) =~= rb.map_values(
        |run: Text<'_, X>| run.layout_stream(),
    ));
    assert(ra.map_values(|run: Text<'_, X>| run.extra.hash_stream()) =~= rb.map_values(
        |run: Text<'_, X>| run.extra.hash_stream(),
    ));
    assert(ra.map_values(|run: Text<'_, X>| run.full_stream()) =~= rb.map_values(
        |run: Text<'_, X>| run.full_stream(),
    ));
}

/// Two sections that differ in nothing but the payload of run `k`, where the
/// two payloads hand a hasher different items, hash alike in geometry and in
/// layout-relevant text, and differently in payloads and as wholes.
pub proof fn law_payload_change_keeps_layout_hashes<X: HashExtra>(
    a: Section<'_, X>,
    b: Section<'_, X>,
    k: int,
)
    requires
        same_geometry(a, b),
        a.layout == b.layout,
        a.text@.len() == b.text@.len(),
        0 <= k < a.text@.len(),
        forall|i: int| 0 <= i < a.text@.len() && i != k ==> same_run(#[trigger] a.text@[i], b.text@[i]),
        same_layout_content(a.text@[k], b.text@[k]),
        a.text@[k].extra.hash_stream() != b.text@[k].extra.hash_stream(),
    ensures
        a.geometry_stream() == b.geometry_stream(),
        a.text_stream() == b.text_stream(),
        a.extra_stream() != b.extra_stream(),
        a.full_stream() != b.full_stream(),
{
    let ra = a.text@;
    let rb = b.text@;
    assert(ra.map_values(|run: Text<'_, X>| run.layout_stream()) =~= rb.map_values(
        |run: Text<'_, X>| run.layout_stream(),
    )) by {
        assert forall|i: int| 0 <= i < ra.len() implies ra[i].layout_stream()
            == rb[i].layout_stream() by {
            if i != k {
                assert(same_run(ra[i], rb[i]));
            }
        }
    }
    let ea = ra.map_values(|run: Text<'_, X>| run.extra.hash_stream());
    let eb = rb.map_values(|run: Text<'_, X>| run.extra.hash_stream());
    if ea.flatten() == eb.flatten() {
        assert forall|i: int| 0 <= i < ea.len() && i != k implies ea[i] == eb[i] by {
            assert(same_run(ra[i], rb[i]));
        }
        lemma_flatten_differs_at(ea, eb, k);
        assert(false);
    }
    let fa = ra.map_values(|run: Text<'_, X>| run.full_stream());
    let fb = rb.map_values(|run: Text<'_, X>| run.full_stream());
    if a.full_stream() == b.full_stream() {
        let head = a.layout.hash_stream() + a.geometry_stream();
        assert(a.full_stream() =~= head + fa.flatten() + Seq::<HashItem>::empty());
        assert(b.full_stream() =~= head + fb.flatten() + Seq::<HashItem>::empty());
        lemma_middle_cancels(head, fa.flatten(), fb.flatten(), Seq::<HashItem>::empty());
        assert forall|i: int| 0 <= i < fa.len() && i != k implies fa[i] == fb[i] by {
            assert(same_run(ra[i], rb[i]));
        }
        lemma_flatten_differs_at(fa, fb, k);
        let front = seq![HashItem::Text(ra[k].text@), HashItem::Index(ra[k].font_id.0)];
        let back = seq![
            HashItem::Bits(ra[k].scale.x.canonical_bits()),
            HashItem::Bits(ra[k].scale.y.canonical_bits()),
        ];
        assert(fa[k] == front + ra[k].extra.hash_stream() + back);
        assert(fb[k] == front + rb[k].extra.hash_stream() + back);
        lemma_middle_cancels(front, ra[k].extra.hash_stream(), rb[k].extra.hash_stream(), back);
        assert(false);
    }
}

/// The geometry streams of two sections are the same exactly when position
/// and bounds have the same canonical bits, member by member.
pub proof fn lemma_geometry_stream_decides<X>(a: Section<'_, X>, b: Section<'_, X>)
    ensures
        a.geometry_stream() == b.geometry_stream() <==> pair_same_key(
            a.screen_position,
            b.screen_position,
        ) && pair_same_key(a.bounds, b.bounds),
{
    let sa = a.geometry_stream();
    let sb = b.geometry_stream();
    if sa == sb {
        assert(sa[0] == sb[0]);
        assert(sa[1] == sb[1]);
        assert(sa[2] == sb[2]);
        assert(sa[3] == sb[3]);
    }
    if pair_same_key(a.screen_position, b.screen_position) && pair_same_key(a.bounds, b.bounds) {
        assert(sa =~= sb);
    }
}

/// Two sections that differ in nothing but position or bounds, at least one
/// member of which has other canonical bits, hash alike in layout-relevant
/// text and in payloads, and differently in geometry.
pub proof fn law_geometry_change_keeps_run_hashes<X: HashExtra>(
    a: Section<'_, X>,
    b: Section<'_, X>,
)
    requires
        same_runs(a.text@, b.text@),
        !(pair_same_key(a.screen_position, b.screen_position) && pair_same_key(
            a.bounds,
            b.bounds,
        )),
    ensures
        a.text_stream() == b.text_stream(),
        a.extra_stream() == b.extra_stream(),
        a.geometry_stream() != b.geometry_stream(),
{
    lemma_same_runs_same_streams(a.text@, b.text@);
    lemma_geometry_stream_decides(a, b);
}

/// Run sequences that hand a hasher the same layout-relevant items are as
/// long as each other and agree, run by run and in order, in characters,
/// font and the canonical bits of the scale.
pub proof fn law_text_stream_tells_runs_apart<X>(a: Seq<Text<'_, X>>, b: Seq<Text<'_, X>>)
    requires
        runs_layout_stream(a) == runs_layout_stream(b),
    ensures
        a.len() == b.len(),
        forall|i: int|
            0 <= i < a.len() ==> {
                &&& (#[trigger] a[i]).text@ == b[i].text@
                &&& a[i].font_id == b[i].font_id
                &&& a[i].scale.x.canonical_bits() == b[i].scale.x.canonical_bits()
                &&& a[i].scale.y.canonical_bits() == b[i].scale.y.canonical_bits()
            },
{
    let pa = a.map_values(|run: Text<'_, X>| run.layout_stream());
    let pb = b.map_values(|run: Text<'_, X>| run.layout_stream());
    lemma_flatten_fixed_width_injective(pa, pb, 4);
    assert forall|i: int| 0 <= i < a.len() implies {
        &&& (#[trigger] a[i]).text@ == b[i].text@
        &&& a[i].font_id == b[i].font_id
        &&& a[i].scale.x.canonical_bits() == b[i].scale.x.canonical_bits()
        &&& a[i].scale.y.canonical_bits() == b[i].scale.y.canonical_bits()
    } by {
        assert(pa[i] == pb[i]);
        let sa = a[i].layout_stream();
        let sb = b[i].layout_stream();
        assert(sa[0] == sb[0]);
        assert(sa[1] == sb[1]);
        assert(sa[2] == sb[2]);
        assert(sa[3] == sb[3]);
    }
}

/// Exchanging two runs that differ in characters, font or the canonical bits
/// of the scale changes what the section hands to a hasher of
/// layout-relevant text: the order of the runs is hashed, not only which
/// runs there are.
pub proof fn law_swapped_runs_change_text_hash<X>(
    a: Section<'_, X>,
    b: Section<'_, X>,
    i: int,
    j: int,
)
    requires
        0 <= i < a.text@.len(),
        0 <= j < a.text@.len(),
        b.text@ == a.text@.update(i, a.text@[j]).update(j, a.text@[i]),
        a.text@[i].layout_stream() != a.text@[j].layout_stream(),
    ensures
        a.text_stream() != b.text_stream(),
{
    if a.text_stream() == b.text_stream() {
        law_text_stream_tells_runs_apart(a.text@, b.text@);
        assert(b.text@[j] == a.text@[i]);
        assert(a.text@[j].layout_stream() =~= b.text@[j].layout_stream());
        assert(false);
    }
}

/// An owned copy of a section, lent out again, is the section it was copied
/// from as far as hashing and `==` can tell, provided that cloning kept every
/// payload as it was: all four streams are the same, and the two compare to
/// any third section, from either side, in the same way.
pub proof fn law_round_trip_keeps_identity<X: HashExtra + PartialEq + Clone>(
    section: Section<'_, X>,
    owned: OwnedSection<X>,
    back: Section<'_, X>,
    other: Section<'_, X>,
)
    requires
        owned.is_copy_of(section),
        owned.lends(back),
        forall|i: int|
            0 <= i < section.text@.len() ==> {
                &&& (#[trigger] owned.text@[i]).extra == section.text@[i].extra
                &&& back.text@[i].extra == owned.text@[i].extra
            },
    ensures
        back.full_stream() == section.full_stream(),
        back.geometry_stream() == section.geometry_stream(),
        back.text_stream() == section.text_stream(),
        back.extra_stream() == section.extra_stream(),
        back.equals(other) == section.equals(other),
        other.equals(back) == other.equals(section),
{
    assert(same_runs(back.text@, section.text@)) by {
        assert forall|i: int| 0 <= i < back.text@.len() implies same_run(
            #[trigger] back.text@[i],
            section.text@[i],
        ) by {
            assert(owned.text@[i].is_copy_of(section.text@[i]));
            assert(owned.text@[i].lends(back.text@[i]));
        }
    }
    law_identical_sections_hash_alike(back, section);
    if back.text@.len() == other.text@.len() {
        assert forall|i: int| 0 <= i < back.text@.len() implies {
            &&& (#[trigger] back.text@[i]).equals(other.text@[i]) == section.text@[i].equals(
                other.text@[i],
            )
            &&& other.text@[i].equals(back.text@[i]) == other.text@[i].equals(section.text@[i])
        } by {
            assert(same_run(back.text@[i], section.text@[i]));
        }
        if back.equals(other) {
            assert forall|i: int| 0 <= i < section.text@.len() implies (
            #[trigger] section.text@[i]).equals(other.text@[i]) by {
                assert(back.text@[i].equals(other.text@[i]));
            }
        }
        if section.equals(other) {
            assert forall|i: int| 0 <= i < back.text@.len() implies (
            #[trigger] back.text@[i]).equals(other.text@[i]) by {
                assert(section.text@[i].equals(other.text@[i]));
            }
        }
        if other.equals(back) {
            assert forall|i: int| 0 <= i < other.text@.len() implies (
            #[trigger] other.text@[i]).equals(section.text@[i]) by {
                assert(other.text@[i].equals(back.text@[i]));
            }
        }
        if other.equals(section) {
            assert forall|i: int| 0 <= i < other.text@.len() implies (
            #[trigger] other.text@[i]).equals(back.text@[i]) by {
                assert(other.text@[i].equals(section.text@[i]));
            }
        }
    }
}

/// With the default payload, whose clone is a copy, nothing needs to be
/// asked of cloning: an owned copy lent out again hashes as the section it
/// was copied from, in all four streams.
pub proof fn law_round_trip_default_payload(
    section: Section<'_, Extra>,
    owned: OwnedSection<Extra>,
    back: Section<'_, Extra>,
)
    requires
        owned.is_copy_of(section),
        owned.lends(back),
    ensures
        same_runs(back.text@, section.text@),
        back.full_stream() == section.full_stream(),
        back.geometry_stream() == section.geometry_stream(),
        back.text_stream() == section.text_stream(),
        back.extra_stream() == section.extra_stream(),
{
    assert forall|i: int| 0 <= i < back.text@.len() implies same_run(
        #[trigger] back.text@[i],
        section.text@[i],
    ) by {
        assert(owned.text@[i].is_copy_of(section.text@[i]));
        assert(owned.text@[i].lends(back.text@[i]));
    }
    law_identical_sections_hash_alike(back, section);
}

/// Two sections that are both unbounded have bounds that compare equal and
/// that hand a hasher the same items; at the same position, their whole
/// geometry hashes alike.
pub proof fn law_unbounded_sections_agree<X>(a: Section<'_, X>, b: Section<'_, X>)
    requires
        a.bounds.0.bits == INFINITY_BITS,
        a.bounds.1.bits == INFINITY_BITS,
        b.bounds.0.bits == INFINITY_BITS,
        b.bounds.1.bits == INFINITY_BITS,
    ensures
        pair_eq(a.bounds, b.bounds),
        pair_stream(a.bounds) == pair_stream(b.bounds),
        a.screen_position == b.screen_position ==> a.geometry_stream() == b.geometry_stream(),
{
}

/// Any two empty sections compare equal and hash alike.
pub proof fn law_new_sections_agree<X: HashExtra + PartialEq>(a: Section<'_, X>, b: Section<'_, X>)
    requires
        a.is_new(),
        b.is_new(),
    ensures
        a.equals(b),
        a.full_stream() == b.full_stream(),
{
    assert(a.text@.map_values(|run: Text<'_, X>| run.full_stream()) =~= b.text@.map_values(
        |run: Text<'_, X>| run.full_stream(),
    ));
}

/// Colours that compare equal hand a hasher the same items.
pub proof fn lemma_equal_colors_hash_alike(a: Color, b: Color)
    requires
        color_eq(a, b),
    ensures
        color_stream(a) == color_stream(b),
{
    lemma_canonical_bits_agree(a[0], b[0]);
    lemma_canonical_bits_agree(a[1], b[1]);
    lemma_canonical_bits_agree(a[2], b[2]);
    lemma_canonical_bits_agree(a[3], b[3]);
}

/// Default payloads that compare equal hand a hasher the same items.
pub proof fn law_equal_payloads_hash_alike(a: Extra, b: Extra)
    requires
        a.eq_spec(&b),
    ensures
        a.hash_stream() == b.hash_stream(),
{
    lemma_equal_colors_hash_alike(a.color, b.color);
    lemma_equal_colors_hash_alike(a.outline_color, b.outline_color);
    lemma_canonical_bits_agree(a.z, b.z);
}

/// Default payloads whose fill colours have other canonical bits in some
/// channel hand a hasher different items.
pub proof fn law_other_color_hashes_apart(a: Extra, b: Extra)
    requires
        exists|c: int|
            0 <= c < 4 && (#[trigger] a.color[c]).canonical_bits() != b.color[c].canonical_bits(),
    ensures
        a.hash_stream() != b.hash_stream(),
{
    let c = choose|c: int|
        0 <= c < 4 && (#[trigger] a.color[c]).canonical_bits() != b.color[c].canonical_bits();
    let sa = a.hash_stream();
    let sb = b.hash_stream();
    if sa == sb {
        assert(sa[c] == HashItem::Bits(a.color[c].canonical_bits()));
        assert(sb[c] == HashItem::Bits(b.color[c].canonical_bits()));
        assert(false);
    }
}

} // verus!
