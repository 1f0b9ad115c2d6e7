//! Properties that hold of every rendering.
use vstd::prelude::*;

use crate::html::{html_of, open_tag, piece_html, pieces_html, style_class};
use crate::reference::{
    NameForm, Part, PieceView, Reference, ReferenceStyle, Slot, VANCOUVER_AUTHOR_CAP,
    fragment, listed, title_fragment, name_in_form, names_of, rendered, serial, text,
};

verus! {

/// The optional fields that some style renders.
pub enum Field {
    Year,
    Container,
    Volume,
    Issue,
    Pages,
    Doi,
}

/// The record with field `f` absent.
pub open spec fn without(r: Reference, f: Field) -> Reference {
    match f {
        Field::Year => Reference { year: None, ..r },
        Field::Container => Reference { container: None, ..r },
        Field::Volume => Reference { volume: None, ..r },
        Field::Issue => Reference { issue: None, ..r },
        Field::Pages => Reference { pages: None, ..r },
        Field::Doi => Reference { doi: None, ..r },
    }
}

/// The slot that field `f` fills.
pub open spec fn slot_of(f: Field) -> Slot {
    match f {
        Field::Year => Slot::Year,
        Field::Container => Slot::Container,
        Field::Volume => Slot::Volume,
        Field::Issue => Slot::Issue,
        Field::Pages => Slot::Pages,
        Field::Doi => Slot::Doi,
    }
}

/// The texts of the author pieces, in order.
pub open spec fn authors_in(ps: Seq<PieceView>) -> Seq<Seq<char>>
    decreases ps.len(),
{
    if ps.len() == 0 {
        Seq::empty()
    } else if ps.last().0 == Part::Author {
        authors_in(ps.drop_last()).push(ps.last().1)
    } else {
        authors_in(ps.drop_last())
    }
}

/// How many pieces are the connecting text `t`.
pub open spec fn count_text(ps: Seq<PieceView>, t: Seq<char>) -> nat
    decreases ps.len(),
{
    if ps.len() == 0 {
        0
    } else {
        count_text(ps.drop_last(), t) + if ps.last() == text(t) {
            1nat
        } else {
            0nat
        }
    }
}

pub open spec fn in_form(ns: Seq<Seq<char>>, form: NameForm) -> Seq<Seq<char>> {
    ns.map_values(|n: Seq<char>| name_in_form(n, form))
}

/// Both records hold the same values in every field that a style renders.
pub open spec fn agree_on_rendered_fields(a: Reference, b: Reference) -> bool {
    &&& names_of(a.authors@) == names_of(b.authors@)
    &&& a.year == b.year
    &&& a.title@ == b.title@
    &&& a.container.is_some() == b.container.is_some()
    &&& a.container.is_some() ==> a.container.unwrap()@ == b.container.unwrap()@
    &&& a.volume == b.volume
    &&& a.issue == b.issue
    &&& a.pages.is_some() == b.pages.is_some()
    &&& a.pages.is_some() ==> a.pages.unwrap()@ == b.pages.unwrap()@
    &&& a.doi.is_some() == b.doi.is_some()
    &&& a.doi.is_some() ==> a.doi.unwrap()@ == b.doi.unwrap()@
}

proof fn lemma_counts_add(a: Seq<PieceView>, b: Seq<PieceView>, t: Seq<char>)
    ensures
        authors_in(a + b) == authors_in(a) + authors_in(b),
        count_text(a + b, t) == count_text(a, t) + count_text(b, t),
    decreases b.len(),
{
    if b.len() == 0 {
        assert(a + b =~= a);
        assert(authors_in(a) + authors_in(b) =~= authors_in(a));
    } else {
        assert((a + b).drop_last() =~= a + b.drop_last());
        lemma_counts_add(a, b.drop_last(), t);
        assert((a + b).last() == b.last());
        if b.last().0 == Part::Author {
            assert(authors_in(a) + authors_in(b.drop_last()).push(b.last().1) =~= (authors_in(a)
                + authors_in(b.drop_last())).push(b.last().1));
        }
    }
}

proof fn lemma_one(p: PieceView, t: Seq<char>)
    ensures
        authors_in(seq![p]) == if p.0 == Part::Author {
            seq![p.1]
        } else {
            Seq::<Seq<char>>::empty()
        },
        count_text(seq![p], t) == if p == text(t) {
            1nat
        } else {
            0nat
        },
{
    assert(seq![p].drop_last() =~= Seq::<PieceView>::empty());
    assert(authors_in(Seq::<PieceView>::empty()) == Seq::<Seq<char>>::empty());
    assert(count_text(Seq::<PieceView>::empty(), t) == 0);
    assert(seq![p].last() == p);
    assert(Seq::<Seq<char>>::empty().push(p.1) =~= seq![p.1]);
}

proof fn lemma_two(a: PieceView, b: PieceView, t: Seq<char>)
    ensures
        authors_in(seq![a, b]) == authors_in(seq![a]) + authors_in(seq![b]),
        count_text(seq![a, b], t) == count_text(seq![a], t) + count_text(seq![b], t),
{
    assert(seq![a, b] =~= seq![a] + seq![b]);
    lemma_counts_add(seq![a], seq![b], t);
}

proof fn lemma_listed(ns: Seq<Seq<char>>, form: NameForm, t: Seq<char>)
    requires
        t != ", "@,
    ensures
        authors_in(listed(ns, form)) == in_form(ns, form),
        count_text(listed(ns, form), t) == 0,
        ns.len() > 0 ==> count_text(listed(ns, form), ", "@) == ns.len() - 1,
        ns.len() == 0 ==> count_text(listed(ns, form), ", "@) == 0,
    decreases ns.len(),
{
    let l = listed(ns, form);
    if ns.len() == 0 {
        assert(in_form(ns, form) =~= Seq::<Seq<char>>::empty());
    } else if ns.len() == 1 {
        lemma_one((Part::Author, name_in_form(ns[0], form)), t);
        lemma_one((Part::Author, name_in_form(ns[0], form)), ", "@);
        assert(in_form(ns, form) =~= seq![name_in_form(ns[0], form)]);
    } else {
        let rest = ns.drop_last();
        lemma_listed(rest, form, t);
        let tail = seq![text(", "@), (Part::Author, name_in_form(ns.last(), form))];
        lemma_counts_add(listed(rest, form), tail, t);
        lemma_counts_add(listed(rest, form), tail, ", "@);
        lemma_two(text(", "@), (Part::Author, name_in_form(ns.last(), form)), t);
        lemma_two(text(", "@), (Part::Author, name_in_form(ns.last(), form)), ", "@);
        lemma_one(text(", "@), t);
        lemma_one(text(", "@), ", "@);
        lemma_one((Part::Author, name_in_form(ns.last(), form)), t);
        lemma_one((Part::Author, name_in_form(ns.last(), form)), ", "@);
        assert(Seq::<Seq<char>>::empty() + seq![name_in_form(ns.last(), form)] =~= seq![
            name_in_form(ns.last(), form),
        ]);
        assert(in_form(ns, form) =~= in_form(rest, form).push(name_in_form(ns.last(), form)));
        assert(authors_in(l) =~= in_form(ns, form));
    }
}

/// The text of a rendering with the tags left out.
pub open spec fn plain_text(ps: Seq<PieceView>) -> Seq<char>
    decreases ps.len(),
{
    if ps.len() == 0 {
        Seq::empty()
    } else {
        plain_text(ps.drop_last()) + ps.last().1
    }
}

/// Punctuation that would dangle if nothing followed it.
pub open spec fn is_dangling(c: char) -> bool {
    c == ',' || c == ';' || c == ':' || c == '('
}

/// A record with a title and no other rendered field renders, in every
/// style, as the title alone (Chicago, Harvard, IEEE) or the title and ". "
/// (APA, MLA, Vancouver): no text of an absent field, no empty brackets, no
/// label, and nothing after the title that is ",", ";", ":" or "(".
pub proof fn lemma_title_only(r: Reference, s: ReferenceStyle)
    requires
        r.authors@.len() == 0,
        r.year is None,
        r.container is None,
        r.volume is None,
        r.issue is None,
        r.pages is None,
        r.doi is None,
    ensures
        rendered(r, s) == title_fragment(s, r.title@),
        s == ReferenceStyle::Chicago || s == ReferenceStyle::Harvard || s == ReferenceStyle::IEEE
            ==> rendered(r, s) == seq![(Part::Title, r.title@)] && plain_text(rendered(r, s))
            == r.title@,
        s == ReferenceStyle::APA || s == ReferenceStyle::MLA || s == ReferenceStyle::Vancouver
            ==> rendered(r, s) == seq![(Part::Title, r.title@), text(". "@)] && plain_text(
            rendered(r, s),
        ) == r.title@ + ". "@,
        forall|i: int|
            r.title@.len() <= i < plain_text(rendered(r, s)).len() ==> !is_dangling(
                #[trigger] plain_text(rendered(r, s))[i],
            ),
        html_of(s, rendered(r, s)).len() > 0,
{
    reveal_strlit("<p class=\"");
    reveal_strlit(". ");
    let t = r.title@;
    assert(names_of(r.authors@).len() == 0);
    assert(rendered(r, s) =~= title_fragment(s, t));
    let one = seq![(Part::Title, t)];
    assert(one.drop_last() =~= Seq::<PieceView>::empty());
    assert(plain_text(Seq::<PieceView>::empty()) == Seq::<char>::empty());
    assert(plain_text(one) =~= t);
    let two = seq![(Part::Title, t), text(". "@)];
    assert(two.drop_last() =~= one);
    assert(plain_text(two) =~= t + ". "@);
    let p = plain_text(rendered(r, s));
    assert forall|i: int| t.len() <= i < p.len() implies !is_dangling(#[trigger] p[i]) by {
        assert(p == t + ". "@);
        assert(p[i] == ". "@[i - t.len()]);
    }
}

/// Removing one optional field empties the slot that field fills (removing
/// the volume also empties the issue, which shows only beside it, and the
/// separator that closes them) and leaves every other slot exactly as it was.
pub proof fn lemma_remove_field(r: Reference, f: Field, s: ReferenceStyle, k: Slot)
    ensures
        fragment(without(r, f), s, k) == if k == slot_of(f) || (f == Field::Volume && (k
            == Slot::Issue || k == Slot::VolumeClose)) {
            Seq::<PieceView>::empty()
        } else {
            fragment(r, s, k)
        },
{
}

/// What removing field `f` takes out of a rendering: the field's fragment,
/// and for the volume also the issue and the separator that closes them.
pub open spec fn removed_part(r: Reference, s: ReferenceStyle, f: Field) -> Seq<PieceView> {
    match f {
        Field::Volume => fragment(r, s, Slot::Volume) + fragment(r, s, Slot::Issue) + fragment(
            r,
            s,
            Slot::VolumeClose,
        ),
        _ => fragment(r, s, slot_of(f)),
    }
}

/// Field `f` of the record is shown.
pub open spec fn has_field(r: Reference, f: Field) -> bool {
    match f {
        Field::Year => r.year is Some,
        Field::Container => r.container is Some,
        Field::Volume => r.volume is Some,
        Field::Issue => r.volume is Some && r.issue is Some,
        Field::Pages => r.pages is Some,
        Field::Doi => r.doi is Some,
    }
}

/// The slots that removing field `f` empties.
pub open spec fn empties(f: Field, k: Slot) -> bool {
    k == slot_of(f) || (f == Field::Volume && (k == Slot::Issue || k == Slot::VolumeClose))
}

/// The slots of style `s` in the order it lays them out.
pub open spec fn slot_order(s: ReferenceStyle) -> Seq<Slot> {
    match s {
        ReferenceStyle::APA | ReferenceStyle::Harvard => seq![
            Slot::Authors, Slot::Year, Slot::Title, Slot::Container, Slot::Volume, Slot::Issue, Slot::VolumeClose, Slot::Pages, Slot::Doi,
        ],
        ReferenceStyle::MLA | ReferenceStyle::Chicago => seq![
            Slot::Authors, Slot::Title, Slot::Container, Slot::Volume, Slot::Issue, Slot::VolumeClose, Slot::Year, Slot::Pages, Slot::Doi,
        ],
        ReferenceStyle::Vancouver => seq![
            Slot::Authors, Slot::Title, Slot::Container, Slot::Year, Slot::Volume, Slot::Issue, Slot::VolumeClose, Slot::Pages, Slot::Doi,
        ],
        ReferenceStyle::IEEE => seq![
            Slot::Authors, Slot::Title, Slot::Container, Slot::Volume, Slot::Issue, Slot::VolumeClose, Slot::Pages, Slot::Year, Slot::Doi,
        ],
    }
}

/// Where the slot of field `f` stands in the layout of style `s`.
pub open spec fn position(s: ReferenceStyle, f: Field) -> int {
    match s {
        ReferenceStyle::APA | ReferenceStyle::Harvard => match f {
            Field::Year => 1,
            Field::Container => 3,
            Field::Volume => 4,
            Field::Issue => 5,
            Field::Pages => 7,
            Field::Doi => 8,
        },
        ReferenceStyle::MLA | ReferenceStyle::Chicago => match f {
            Field::Year => 6,
            Field::Container => 2,
            Field::Volume => 3,
            Field::Issue => 4,
            Field::Pages => 7,
            Field::Doi => 8,
        },
        ReferenceStyle::Vancouver => match f {
            Field::Year => 3,
            Field::Container => 2,
            Field::Volume => 4,
            Field::Issue => 5,
            Field::Pages => 7,
            Field::Doi => 8,
        },
        ReferenceStyle::IEEE => match f {
            Field::Year => 7,
            Field::Container => 2,
            Field::Volume => 3,
            Field::Issue => 4,
            Field::Pages => 6,
            Field::Doi => 8,
        },
    }
}

pub open spec fn fragments(r: Reference, s: ReferenceStyle) -> Seq<Seq<PieceView>> {
    slot_order(s).map_values(|k: Slot| fragment(r, s, k))
}

pub open spec fn flat(xs: Seq<Seq<PieceView>>) -> Seq<PieceView>
    decreases xs.len(),
{
    if xs.len() == 0 {
        Seq::empty()
    } else {
        flat(xs.drop_last()) + xs.last()
    }
}

proof fn lemma_flat_add(a: Seq<Seq<PieceView>>, b: Seq<Seq<PieceView>>)
    ensures
        flat(a + b) == flat(a) + flat(b),
    decreases b.len(),
{
    if b.len() == 0 {
        assert(a + b =~= a);
        assert(flat(a) + flat(b) =~= flat(a));
    } else {
        assert((a + b).drop_last() =~= a + b.drop_last());
        lemma_flat_add(a, b.drop_last());
        assert(flat(a) + (flat(b.drop_last()) + b.last()) =~= (flat(a) + flat(b.drop_last()))
            + b.last());
    }
}

proof fn lemma_flat_empty(xs: Seq<Seq<PieceView>>)
    requires
        forall|i: int| 0 <= i < xs.len() ==> (#[trigger] xs[i]).len() == 0,
    ensures
        flat(xs) == Seq::<PieceView>::empty(),
    decreases xs.len(),
{
    if xs.len() > 0 {
        lemma_flat_empty(xs.drop_last());
        assert(xs.last().len() == 0);
        assert(flat(xs) =~= Seq::<PieceView>::empty());
    }
}

proof fn lemma_flat_prefix(xs: Seq<Seq<PieceView>>, k: int)
    requires
        0 < k <= xs.len(),
    ensures
        flat(xs.take(k)) == flat(xs.take(k - 1)) + xs[k - 1],
{
    assert(xs.take(k).drop_last() =~= xs.take(k - 1));
}

proof fn lemma_flat_nine(xs: Seq<Seq<PieceView>>)
    requires
        xs.len() == 9,
    ensures
        flat(xs) == xs[0] + xs[1] + xs[2] + xs[3] + xs[4] + xs[5] + xs[6] + xs[7] + xs[8],
{
    assert(xs.take(0) =~= Seq::<Seq<PieceView>>::empty());
    lemma_flat_prefix(xs, 1);
    assert(Seq::<PieceView>::empty() + xs[0] =~= xs[0]);
    lemma_flat_prefix(xs, 2);
    lemma_flat_prefix(xs, 3);
    lemma_flat_prefix(xs, 4);
    lemma_flat_prefix(xs, 5);
    lemma_flat_prefix(xs, 6);
    lemma_flat_prefix(xs, 7);
    lemma_flat_prefix(xs, 8);
    lemma_flat_prefix(xs, 9);
    assert(xs.take(9) =~= xs);
}

proof fn lemma_flat_one(xs: Seq<Seq<PieceView>>)
    requires
        xs.len() == 1,
    ensures
        flat(xs) == xs[0],
{
    assert(xs.drop_last() =~= Seq::<Seq<PieceView>>::empty());
    assert(flat(Seq::<Seq<PieceView>>::empty()) == Seq::<PieceView>::empty());
    assert(xs.last() == xs[0]);
    assert(Seq::<PieceView>::empty() + xs[0] =~= xs[0]);
}

proof fn lemma_flat_three(xs: Seq<Seq<PieceView>>)
    requires
        xs.len() == 3,
    ensures
        flat(xs) == xs[0] + xs[1] + xs[2],
{
    assert(xs.take(0) =~= Seq::<Seq<PieceView>>::empty());
    lemma_flat_prefix(xs, 1);
    assert(Seq::<PieceView>::empty() + xs[0] =~= xs[0]);
    lemma_flat_prefix(xs, 2);
    lemma_flat_prefix(xs, 3);
    assert(xs.take(3) =~= xs);
}

/// A rendering is the fragments of its slots, in the style's layout.
proof fn lemma_rendered_is_flat(r: Reference, s: ReferenceStyle)
    ensures
        rendered(r, s) == flat(fragments(r, s)),
        fragments(r, s).len() == 9,
{
    let xs = fragments(r, s);
    assert(slot_order(s).len() == 9);
    lemma_flat_nine(xs);
}

proof fn lemma_position(s: ReferenceStyle, f: Field, i: int)
    requires
        0 <= i < 9,
    ensures
        slot_order(s).len() == 9,
        0 <= position(s, f),
        position(s, f) + (if f == Field::Volume { 3int } else { 1int }) <= 9,
        slot_order(s)[position(s, f)] == slot_of(f),
        empties(f, slot_order(s)[i]) == (position(s, f) <= i < position(s, f) + (if f
            == Field::Volume { 3int } else { 1int })),
{
    if i == 0 {
        } else if i == 1 {
        } else if i == 2 {
        } else if i == 3 {
        } else if i == 4 {
        } else if i == 5 {
        } else if i == 6 {
        } else if i == 7 {
        } else if i == 8 {
        }
}

proof fn lemma_split_flat(xs: Seq<Seq<PieceView>>, ys: Seq<Seq<PieceView>>, j: int, e: int)
    requires
        0 <= j <= e <= xs.len(),
        ys.len() == xs.len(),
        forall|i: int| 0 <= i < xs.len() ==> #[trigger] ys[i] == if j <= i < e {
            Seq::<PieceView>::empty()
        } else {
            xs[i]
        },
    ensures
        flat(xs) == flat(xs.take(j)) + flat(xs.subrange(j, e)) + flat(xs.skip(e)),
        flat(ys) == flat(xs.take(j)) + flat(xs.skip(e)),
{
    assert(xs =~= xs.take(j) + xs.subrange(j, e) + xs.skip(e));
    assert(ys =~= ys.take(j) + ys.subrange(j, e) + ys.skip(e));
    lemma_flat_add(xs.take(j) + xs.subrange(j, e), xs.skip(e));
    lemma_flat_add(xs.take(j), xs.subrange(j, e));
    lemma_flat_add(ys.take(j) + ys.subrange(j, e), ys.skip(e));
    lemma_flat_add(ys.take(j), ys.subrange(j, e));
    assert(ys.take(j) =~= xs.take(j));
    assert(ys.skip(e) =~= xs.skip(e));
    let mid = ys.subrange(j, e);
    assert forall|i: int| 0 <= i < mid.len() implies (#[trigger] mid[i]).len() == 0 by {
        assert(mid[i] == ys[i + j]);
    }
    lemma_flat_empty(mid);
    assert(flat(xs.take(j)) + Seq::<PieceView>::empty() =~= flat(xs.take(j)));
}

proof fn lemma_html_split(s: ReferenceStyle, a: Seq<PieceView>, m: Seq<PieceView>, b: Seq<
    PieceView,
>)
    ensures
        html_of(s, a + m + b) == open_tag(s) + pieces_html(a) + pieces_html(m) + pieces_html(b)
            + "</p>"@,
        html_of(s, a + b) == open_tag(s) + pieces_html(a) + pieces_html(b) + "</p>"@,
{
    lemma_pieces_html_add(a + m, b);
    lemma_pieces_html_add(a, m);
    lemma_pieces_html_add(a, b);
    assert(html_of(s, a + m + b) =~= open_tag(s) + pieces_html(a) + pieces_html(m) + pieces_html(
        b,
    ) + "</p>"@);
    assert(html_of(s, a + b) =~= open_tag(s) + pieces_html(a) + pieces_html(b) + "</p>"@);
}

proof fn lemma_fragments_without(r: Reference, f: Field, s: ReferenceStyle)
    ensures
        fragments(r, s).len() == 9,
        fragments(without(r, f), s).len() == 9,
        0 <= position(s, f),
        position(s, f) + (if f == Field::Volume { 3int } else { 1int }) <= 9,
        forall|i: int|
            0 <= i < 9 ==> #[trigger] fragments(without(r, f), s)[i] == if position(s, f) <= i
                < position(s, f) + (if f == Field::Volume { 3int } else { 1int }) {
                Seq::<PieceView>::empty()
            } else {
                fragments(r, s)[i]
            },
{
    lemma_position(s, f, 0);
    assert forall|i: int|
        0 <= i < 9 implies #[trigger] fragments(without(r, f), s)[i] == if position(s, f) <= i
            < position(s, f) + (if f == Field::Volume { 3int } else { 1int }) {
            Seq::<PieceView>::empty()
        } else {
            fragments(r, s)[i]
        } by {
        lemma_position(s, f, i);
        lemma_remove_field(r, f, s, slot_order(s)[i]);
    }
}

proof fn lemma_removed_is_flat(r: Reference, f: Field, s: ReferenceStyle)
    ensures
        ({
            let j = position(s, f);
            let e = j + if f == Field::Volume { 3int } else { 1int };
            flat(fragments(r, s).subrange(j, e)) == removed_part(r, s, f)
        }),
{
    let xs = fragments(r, s);
    let j = position(s, f);
    let e = j + if f == Field::Volume { 3int } else { 1int };
    lemma_position(s, f, 0);
    if f == Field::Volume {
        lemma_position(s, f, j + 1);
        lemma_position(s, f, j + 2);
        lemma_flat_three(xs.subrange(j, e));
    } else {
        lemma_flat_one(xs.subrange(j, e));
    }
}

proof fn lemma_removed_nonempty(r: Reference, f: Field, s: ReferenceStyle)
    ensures
        has_field(r, f) ==> removed_part(r, s, f).len() > 0,
{
}

/// Removing one optional field splits the rendering, and its HTML, into a
/// part before, the field's own fragment with its delimiters, and a part
/// after; the rendering without the field is exactly the part before followed
/// by the part after. The removed fragment is not empty when the field was
/// shown.
pub proof fn lemma_remove_field_splits(r: Reference, f: Field, s: ReferenceStyle) -> (ab: (
    Seq<PieceView>,
    Seq<PieceView>,
))
    ensures
        rendered(r, s) == ab.0 + removed_part(r, s, f) + ab.1,
        rendered(without(r, f), s) == ab.0 + ab.1,
        html_of(s, rendered(r, s)) == open_tag(s) + pieces_html(ab.0) + pieces_html(
            removed_part(r, s, f),
        ) + pieces_html(ab.1) + "</p>"@,
        html_of(s, rendered(without(r, f), s)) == open_tag(s) + pieces_html(ab.0) + pieces_html(
            ab.1,
        ) + "</p>"@,
        has_field(r, f) ==> removed_part(r, s, f).len() > 0,
{
    let xs = fragments(r, s);
    let ys = fragments(without(r, f), s);
    lemma_rendered_is_flat(r, s);
    lemma_rendered_is_flat(without(r, f), s);
    lemma_fragments_without(r, f, s);
    let j = position(s, f);
    let e = j + if f == Field::Volume { 3int } else { 1int };
    lemma_split_flat(xs, ys, j, e);
    lemma_removed_is_flat(r, f, s);
    lemma_removed_nonempty(r, f, s);
    let a = flat(xs.take(j));
    let b = flat(xs.skip(e));
    lemma_html_split(s, a, removed_part(r, s, f), b);
    (a, b)
}

proof fn lemma_pieces_html_add(a: Seq<PieceView>, b: Seq<PieceView>)
    ensures
        pieces_html(a + b) == pieces_html(a) + pieces_html(b),
    decreases b.len(),
{
    if b.len() == 0 {
        assert(a + b =~= a);
        assert(pieces_html(a) + pieces_html(b) =~= pieces_html(a));
    } else {
        assert((a + b).drop_last() =~= a + b.drop_last());
        lemma_pieces_html_add(a, b.drop_last());
        assert(pieces_html(a) + (pieces_html(b.drop_last()) + piece_html(b.last())) =~= (
        pieces_html(a) + pieces_html(b.drop_last())) + piece_html(b.last()));
    }
}

/// Records that agree on every rendered field render identically in every
/// style: rendering has no hidden state, and the reserved fields and the
/// additional information never change the output.
pub proof fn lemma_rendering_depends_on_rendered_fields(
    a: Reference,
    b: Reference,
    s: ReferenceStyle,
)
    requires
        agree_on_rendered_fields(a, b),
    ensures
        rendered(a, s) == rendered(b, s),
        html_of(s, rendered(a, s)) == html_of(s, rendered(b, s)),
{
    assert forall|k: Slot| fragment(a, s, k) == fragment(b, s, k) by {}
}

/// Vancouver prints the first six authors as "surname initial" and adds
/// ", et al" exactly when there are more than six; with six or fewer it
/// prints all of them.
pub proof fn lemma_vancouver_authors(r: Reference)
    ensures
        ({
            let ns = names_of(r.authors@);
            let frag = fragment(r, ReferenceStyle::Vancouver, Slot::Authors);
            &&& ns.len() > 6 ==> authors_in(frag) == in_form(ns.take(6), NameForm::Short)
                && count_text(frag, ", et al"@) == 1
            &&& ns.len() <= 6 ==> authors_in(frag) == in_form(ns, NameForm::Short) && count_text(
                frag,
                ", et al"@,
            ) == 0
        }),
{
    let ns = names_of(r.authors@);
    let frag = fragment(r, ReferenceStyle::Vancouver, Slot::Authors);
    reveal_strlit(", et al");
    reveal_strlit(", ");
    reveal_strlit(". ");
    let et = ", et al"@;
    assert(et.len() == 7);
    assert(", "@.len() == 2);
    assert(et != ", "@);
    assert(". "@.len() == 2);
    assert(et != ". "@);
    if ns.len() == 0 {
        assert(in_form(ns, NameForm::Short) =~= Seq::<Seq<char>>::empty());
    } else if ns.len() > VANCOUVER_AUTHOR_CAP {
        let head = ns.take(6);
        let tail = seq![text(et), text(". "@)];
        lemma_listed(head, NameForm::Short, et);
        lemma_counts_add(listed(head, NameForm::Short), tail, et);
        lemma_two(text(et), text(". "@), et);
        lemma_one(text(et), et);
        lemma_one(text(". "@), et);
        assert(authors_in(tail) =~= Seq::<Seq<char>>::empty());
        assert(authors_in(frag) =~= in_form(head, NameForm::Short));
    } else {
        let tail = seq![text(". "@)];
        lemma_listed(ns, NameForm::Short, et);
        lemma_counts_add(listed(ns, NameForm::Short), tail, et);
        lemma_one(text(". "@), et);
        assert(authors_in(frag) =~= in_form(ns, NameForm::Short));
    }
}

/// MLA and Chicago print every author as given; one author comes with no
/// "and", and n >= 2 authors come with exactly one ", and" before the last
/// and n - 2 plain ", " joins before it.
pub proof fn lemma_serial_authors(r: Reference, s: ReferenceStyle)
    requires
        s == ReferenceStyle::MLA || s == ReferenceStyle::Chicago,
    ensures
        ({
            let ns = names_of(r.authors@);
            let frag = fragment(r, s, Slot::Authors);
            &&& authors_in(frag) == ns
            &&& ns.len() <= 1 ==> count_text(frag, ", and "@) == 0 && count_text(frag, ", "@)
                == 0
            &&& ns.len() >= 2 ==> count_text(frag, ", and "@) == 1 && count_text(frag, ", "@)
                == ns.len() - 2
        }),
{
    let ns = names_of(r.authors@);
    let frag = fragment(r, s, Slot::Authors);
    reveal_strlit(", and ");
    reveal_strlit(", ");
    reveal_strlit(". ");
    let and = ", and "@;
    let comma = ", "@;
    assert(and.len() == 6 && comma.len() == 2 && ". "@.len() == 2);
    assert(and != comma);
    assert(". "@[0] == '.' && comma[0] == ',');
    assert(". "@ != and);
    assert(". "@ != comma);
    assert(in_form(ns, NameForm::AsGiven) =~= ns);
    if ns.len() == 0 {
    } else if ns.len() == 1 {
        let tail = seq![text(". "@)];
        lemma_listed(ns, NameForm::AsGiven, and);
        lemma_counts_add(listed(ns, NameForm::AsGiven), tail, and);
        lemma_counts_add(listed(ns, NameForm::AsGiven), tail, comma);
        lemma_one(text(". "@), and);
        lemma_one(text(". "@), comma);
        assert(authors_in(frag) =~= ns);
    } else {
        let head = ns.take(ns.len() - 1);
        let tail = seq![text(and), (Part::Author, ns.last()), text(". "@)];
        lemma_listed(head, NameForm::AsGiven, and);
        assert(in_form(head, NameForm::AsGiven) =~= head);
        lemma_counts_add(listed(head, NameForm::AsGiven), tail, and);
        lemma_counts_add(listed(head, NameForm::AsGiven), tail, comma);
        assert(serial(ns) + seq![text(". "@)] =~= listed(head, NameForm::AsGiven) + tail);
        let pa = text(and);
        let pb = (Part::Author, ns.last());
        let pc = text(". "@);
        assert(tail =~= seq![pa, pb] + seq![pc]);
        lemma_counts_add(seq![pa, pb], seq![pc], and);
        lemma_counts_add(seq![pa, pb], seq![pc], comma);
        lemma_two(pa, pb, and);
        lemma_two(pa, pb, comma);
        lemma_one(pa, and);
        lemma_one(pa, comma);
        lemma_one(pb, and);
        lemma_one(pb, comma);
        lemma_one(pc, and);
        lemma_one(pc, comma);
        assert(authors_in(tail) =~= seq![ns.last()]);
        assert(head.push(ns.last()) =~= ns);
        assert(authors_in(frag) =~= ns);
    }
}

/// Distinct styles never give the same HTML: each style has a renderer and
/// a class of its own.
pub proof fn lemma_styles_render_distinctly(
    a: Reference,
    b: Reference,
    s: ReferenceStyle,
    t: ReferenceStyle,
)
    requires
        s != t,
    ensures
        html_of(s, rendered(a, s)) != html_of(t, rendered(b, t)),
{
    reveal_strlit("<p class=\"");
    reveal_strlit("apa-reference");
    reveal_strlit("mla-reference");
    reveal_strlit("chicago-reference");
    reveal_strlit("harvard-reference");
    reveal_strlit("vancouver-reference");
    reveal_strlit("ieee-reference");
    assert(html_of(s, rendered(a, s))[10] == style_class(s)[0]);
    assert(html_of(t, rendered(b, t))[10] == style_class(t)[0]);
}

} // verus!
