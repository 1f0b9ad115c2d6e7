//! The HTML encoding of a rendering: a paragraph tagged with the style's
//! class, each field in a span tagged with the field's class.
use vstd::prelude::*;

use crate::markup::{escaped, push_escaped};
use crate::reference::{Part, Piece, PieceView, ReferenceStyle, views};

verus! {

pub open spec fn style_class(s: ReferenceStyle) -> Seq<char> {
    match s {
        ReferenceStyle::APA => "apa-reference"@,
        ReferenceStyle::MLA => "mla-reference"@,
        ReferenceStyle::Chicago => "chicago-reference"@,
        ReferenceStyle::Harvard => "harvard-reference"@,
        ReferenceStyle::Vancouver => "vancouver-reference"@,
        ReferenceStyle::IEEE => "ieee-reference"@,
    }
}

pub open spec fn part_class(k: Part) -> Seq<char> {
    match k {
        Part::Text => "text"@,
        Part::Author => "author"@,
        Part::Year => "year"@,
        Part::Title => "title"@,
        Part::Container => "container"@,
        Part::Volume => "volume"@,
        Part::Issue => "issue"@,
        Part::Pages => "pages"@,
        Part::Doi => "doi"@,
    }
}

/// Connecting text is written escaped; a field goes in a span of its class.
pub open spec fn piece_html(p: PieceView) -> Seq<char> {
    if p.0 == Part::Text {
        escaped(p.1)
    } else {
        "<span class=\""@ + part_class(p.0) + "\">"@ + escaped(p.1) + "</span>"@
    }
}

pub open spec fn pieces_html(ps: Seq<PieceView>) -> Seq<char>
    decreases ps.len(),
{
    if ps.len() == 0 {
        Seq::empty()
    } else {
        pieces_html(ps.drop_last()) + piece_html(ps.last())
    }
}

pub open spec fn open_tag(s: ReferenceStyle) -> Seq<char> {
    "<p class=\""@ + style_class(s) + "\">"@
}

/// The HTML of a rendering in style `s`.
pub open spec fn html_of(s: ReferenceStyle, ps: Seq<PieceView>) -> Seq<char> {
    open_tag(s) + pieces_html(ps) + "</p>"@
}

pub fn style_class_name(s: ReferenceStyle) -> (r: &'static str)
    ensures
        r@ == style_class(s),
{
    match s {
        ReferenceStyle::APA => "apa-reference",
        ReferenceStyle::MLA => "mla-reference",
        ReferenceStyle::Chicago => "chicago-reference",
        ReferenceStyle::Harvard => "harvard-reference",
        ReferenceStyle::Vancouver => "vancouver-reference",
        ReferenceStyle::IEEE => "ieee-reference",
    }
}

pub fn part_class_name(k: Part) -> (r: &'static str)
    ensures
        r@ == part_class(k),
{
    match k {
        Part::Text => "text",
        Part::Author => "author",
        Part::Year => "year",
        Part::Title => "title",
        Part::Container => "container",
        Part::Volume => "volume",
        Part::Issue => "issue",
        Part::Pages => "pages",
        Part::Doi => "doi",
    }
}

/// Encodes a rendering in `style` as HTML.
pub fn encode_html(style: ReferenceStyle, pieces: &Vec<Piece>) -> (r: String)
    ensures
        r@ == html_of(style, views(pieces@)),
{
    let mut out = String::from_str("<p class=\"");
    out.append(style_class_name(style));
    out.append("\">");
    let ghost ps = views(pieces@);
    let mut i: usize = 0;
    proof {
        assert(ps.take(0) =~= Seq::<PieceView>::empty());
        assert(out@ =~= open_tag(style) + pieces_html(ps.take(0)));
    }
    while i < pieces.len()
        invariant
            ps == views(pieces@),
            i <= pieces@.len(),
            out@ == open_tag(style) + pieces_html(ps.take(i as int)),
        decreases pieces@.len() - i,
    {
        let ghost before = out@;
        let p = &pieces[i];
        proof {
            assert(ps.take(i + 1).drop_last() =~= ps.take(i as int));
            assert(ps.take(i + 1).last() == p@);
        }
        match p.part {
            Part::Text => push_escaped(&mut out, p.text.as_str()),
            _ => {
                out.append("<span class=\"");
                out.append(part_class_name(p.part));
                out.append("\">");
                push_escaped(&mut out, p.text.as_str());
                out.append("</span>");
            },
        }
        proof {
            assert(out@ =~= before + piece_html(p@));
            assert(out@ =~= open_tag(style) + pieces_html(ps.take(i + 1)));
        }
        i = i + 1;
    }
    out.append("</p>");
    proof {
        assert(ps.take(pieces@.len() as int) =~= ps);
    }
    out
}

} // verus!
