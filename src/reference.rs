//! The reference record, the citation styles, and the per-style rules that
//! turn a record into a sequence of tagged pieces of text.
use std::collections::HashMap;
use vstd::prelude::*;

use crate::html::{encode_html, html_of};
use crate::markup::{decimal, decimal_string};
use crate::names::{short_form, short_name};

verus! {

/// One bibliographic entry.
#[derive(Clone, Debug)]
pub struct Reference {
    pub authors: Vec<String>,
    pub year: Option<u16>,
    pub title: String,
    /// Journal, book or collection name.
    pub container: Option<String>,
    pub other_contributors: Option<Vec<String>>,
    pub version: Option<String>,
    pub number: Option<String>,
    pub publisher: Option<String>,
    pub publication_date: Option<String>,
    pub location: Option<String>,
    pub pages: Option<String>,
    pub volume: Option<u32>,
    pub issue: Option<u32>,
    pub doi: Option<String>,
    pub url: Option<String>,
    pub accessed_date: Option<String>,
    /// Fields outside the fixed schema; no style renders them.
    pub additional_info: HashMap<String, String>,
}

/// An empty record: no authors, an empty title and every optional field absent.
pub open spec fn is_blank(r: Reference) -> bool {
    &&& r.authors@.len() == 0
    &&& r.year is None
    &&& r.title@.len() == 0
    &&& r.container is None
    &&& r.other_contributors is None
    &&& r.version is None
    &&& r.number is None
    &&& r.publisher is None
    &&& r.publication_date is None
    &&& r.location is None
    &&& r.pages is None
    &&& r.volume is None
    &&& r.issue is None
    &&& r.doi is None
    &&& r.url is None
    &&& r.accessed_date is None
    &&& r.additional_info@.len() == 0
}

impl Default for Reference {
    fn default() -> (r: Self)
        ensures
            is_blank(r),
    {
        Reference {
            authors: Vec::new(),
            year: None,
            title: String::new(),
            container: None,
            other_contributors: None,
            version: None,
            number: None,
            publisher: None,
            publication_date: None,
            location: None,
            pages: None,
            volume: None,
            issue: None,
            doi: None,
            url: None,
            accessed_date: None,
            additional_info: HashMap::new(),
        }
    }
}

/// The supported citation styles.
#[derive(Clone, Copy, Debug, PartialEq, Eq, Structural)]
pub enum ReferenceStyle {
    APA,
    MLA,
    Chicago,
    Harvard,
    Vancouver,
    IEEE,
}

/// The concrete forms a rendering can be encoded in.
#[derive(Clone, Copy, Debug, PartialEq, Eq, Structural)]
pub enum OutputFormat {
    HTML,
}

/// What a piece of rendered text stands for: connecting text, or one field.
#[derive(Clone, Copy, Debug, PartialEq, Eq, Structural)]
pub enum Part {
    Text,
    Author,
    Year,
    Title,
    Container,
    Volume,
    Issue,
    Pages,
    Doi,
}

/// One piece of a rendering: text tagged with what it stands for.
#[derive(Clone, Debug)]
pub struct Piece {
    pub part: Part,
    pub text: String,
}

pub type PieceView = (Part, Seq<char>);

impl View for Piece {
    type V = PieceView;

    open spec fn view(&self) -> PieceView {
        (self.part, self.text@)
    }
}

/// The places of a rendering that the fields fill.
#[derive(Clone, Copy, Debug, PartialEq, Eq, Structural)]
pub enum Slot {
    Authors,
    Year,
    Title,
    Container,
    Volume,
    Issue,
    Pages,
    Doi,
    /// The separator that closes the volume and its issue.
    VolumeClose,
}

/// How an author's name is printed.
#[derive(Clone, Copy, Debug, PartialEq, Eq, Structural)]
pub enum NameForm {
    AsGiven,
    Short,
    ShortDotted,
}

pub open spec fn views(v: Seq<Piece>) -> Seq<PieceView> {
    v.map_values(|p: Piece| p@)
}

pub open spec fn text(t: Seq<char>) -> PieceView {
    (Part::Text, t)
}

/// Connecting text, then a field.
pub open spec fn pre(p: Seq<char>, k: Part, v: Seq<char>) -> Seq<PieceView> {
    seq![text(p), (k, v)]
}

/// A field, then connecting text.
pub open spec fn post(k: Part, v: Seq<char>, q: Seq<char>) -> Seq<PieceView> {
    seq![(k, v), text(q)]
}

/// A field between two pieces of connecting text.
pub open spec fn wrap(p: Seq<char>, k: Part, v: Seq<char>, q: Seq<char>) -> Seq<PieceView> {
    seq![text(p), (k, v), text(q)]
}

pub open spec fn names_of(authors: Seq<String>) -> Seq<Seq<char>> {
    authors.map_values(|a: String| a@)
}

pub open spec fn name_in_form(name: Seq<char>, form: NameForm) -> Seq<char> {
    match form {
        NameForm::AsGiven => name,
        NameForm::Short => short_name(name, false),
        NameForm::ShortDotted => short_name(name, true),
    }
}

/// The names in the given form, joined by ", ".
pub open spec fn listed(ns: Seq<Seq<char>>, form: NameForm) -> Seq<PieceView>
    decreases ns.len(),
{
    if ns.len() == 0 {
        Seq::empty()
    } else if ns.len() == 1 {
        seq![(Part::Author, name_in_form(ns[0], form))]
    } else {
        listed(ns.drop_last(), form) + seq![text(", "@), (Part::Author, name_in_form(ns.last(), form))]
    }
}

/// The names as given: all but the last joined by ", ", the last after ", and ".
pub open spec fn serial(ns: Seq<Seq<char>>) -> Seq<PieceView> {
    if ns.len() < 2 {
        listed(ns, NameForm::AsGiven)
    } else {
        listed(ns.take(ns.len() - 1), NameForm::AsGiven) + seq![text(", and "@), (Part::Author, ns.last())]
    }
}

/// The number of authors that Vancouver prints before ", et al".
pub const VANCOUVER_AUTHOR_CAP: usize = 6;

pub open spec fn authors_fragment(ns: Seq<Seq<char>>, s: ReferenceStyle) -> Seq<PieceView> {
    if ns.len() == 0 {
        Seq::empty()
    } else {
        match s {
            ReferenceStyle::APA | ReferenceStyle::Harvard => listed(ns, NameForm::AsGiven),
            ReferenceStyle::MLA | ReferenceStyle::Chicago => serial(ns) + seq![text(". "@)],
            ReferenceStyle::Vancouver => if ns.len() > VANCOUVER_AUTHOR_CAP {
                listed(ns.take(VANCOUVER_AUTHOR_CAP as int), NameForm::Short) + seq![text(", et al"@), text(". "@)]
            } else {
                listed(ns, NameForm::Short) + seq![text(". "@)]
            },
            ReferenceStyle::IEEE => listed(ns, NameForm::ShortDotted),
        }
    }
}

pub open spec fn year_fragment(s: ReferenceStyle, y: Seq<char>) -> Seq<PieceView> {
    match s {
        ReferenceStyle::APA => wrap(" ("@, Part::Year, y, "). "@),
        ReferenceStyle::MLA => post(Part::Year, y, ", "@),
        ReferenceStyle::Chicago => wrap("("@, Part::Year, y, "): "@),
        ReferenceStyle::Harvard => wrap(" ("@, Part::Year, y, ") "@),
        ReferenceStyle::Vancouver => seq![(Part::Year, y)],
        ReferenceStyle::IEEE => wrap(", "@, Part::Year, y, "."@),
    }
}

pub open spec fn title_fragment(s: ReferenceStyle, t: Seq<char>) -> Seq<PieceView> {
    match s {
        ReferenceStyle::APA | ReferenceStyle::MLA | ReferenceStyle::Vancouver => post(
            Part::Title,
            t,
            ". "@,
        ),
        ReferenceStyle::Chicago | ReferenceStyle::Harvard | ReferenceStyle::IEEE => seq![
            (Part::Title, t),
        ],
    }
}

pub open spec fn container_fragment(s: ReferenceStyle, c: Seq<char>) -> Seq<PieceView> {
    match s {
        ReferenceStyle::APA => post(Part::Container, c, " "@),
        ReferenceStyle::MLA => post(Part::Container, c, ", "@),
        ReferenceStyle::Chicago => wrap(" "@, Part::Container, c, " "@),
        ReferenceStyle::Harvard | ReferenceStyle::IEEE => pre(", "@, Part::Container, c),
        ReferenceStyle::Vancouver => post(Part::Container, c, ". "@),
    }
}

pub open spec fn volume_fragment(s: ReferenceStyle, v: Seq<char>) -> Seq<PieceView> {
    match s {
        ReferenceStyle::APA => pre("vol. "@, Part::Volume, v),
        ReferenceStyle::MLA => wrap("vol. "@, Part::Volume, v, ", "@),
        ReferenceStyle::Chicago => seq![(Part::Volume, v)],
        ReferenceStyle::Harvard => pre(", "@, Part::Volume, v),
        ReferenceStyle::Vancouver => pre(";"@, Part::Volume, v),
        ReferenceStyle::IEEE => pre(", vol. "@, Part::Volume, v),
    }
}

pub open spec fn issue_fragment(s: ReferenceStyle, i: Seq<char>) -> Seq<PieceView> {
    match s {
        ReferenceStyle::APA | ReferenceStyle::Chicago | ReferenceStyle::IEEE => pre(
            ", no. "@,
            Part::Issue,
            i,
        ),
        ReferenceStyle::MLA => wrap("no. "@, Part::Issue, i, ", "@),
        ReferenceStyle::Harvard | ReferenceStyle::Vancouver => wrap("("@, Part::Issue, i, ")"@),
    }
}

/// What closes the volume and its issue, where the style closes them.
pub open spec fn volume_close_fragment(s: ReferenceStyle) -> Seq<PieceView> {
    match s {
        ReferenceStyle::APA => seq![text(", "@)],
        ReferenceStyle::Chicago => seq![text(" "@)],
        ReferenceStyle::Vancouver => seq![text(":"@)],
        ReferenceStyle::MLA | ReferenceStyle::Harvard | ReferenceStyle::IEEE => Seq::empty(),
    }
}

pub open spec fn pages_fragment(s: ReferenceStyle, p: Seq<char>) -> Seq<PieceView> {
    match s {
        ReferenceStyle::APA | ReferenceStyle::MLA => wrap("pp. "@, Part::Pages, p, ". "@),
        ReferenceStyle::Chicago | ReferenceStyle::Vancouver => post(Part::Pages, p, ". "@),
        ReferenceStyle::Harvard => wrap(", pp. "@, Part::Pages, p, "."@),
        ReferenceStyle::IEEE => pre(", pp. "@, Part::Pages, p),
    }
}

pub open spec fn doi_fragment(s: ReferenceStyle, d: Seq<char>) -> Seq<PieceView> {
    match s {
        ReferenceStyle::APA | ReferenceStyle::Chicago => seq![(Part::Doi, "https://doi.org/"@ + d)],
        ReferenceStyle::MLA => pre("DOI: "@, Part::Doi, d),
        ReferenceStyle::Vancouver => pre("doi: "@, Part::Doi, d),
        ReferenceStyle::Harvard | ReferenceStyle::IEEE => pre(" DOI: "@, Part::Doi, d),
    }
}

/// What fills one slot of the rendering of `r` in style `s`; empty when the
/// field behind it is absent. An issue shows only beside a volume.
pub open spec fn fragment(r: Reference, s: ReferenceStyle, k: Slot) -> Seq<PieceView> {
    match k {
        Slot::Authors => authors_fragment(names_of(r.authors@), s),
        Slot::Year => match r.year {
            Some(y) => year_fragment(s, decimal(y as nat)),
            None => Seq::empty(),
        },
        Slot::Title => title_fragment(s, r.title@),
        Slot::Container => match r.container {
            Some(c) => container_fragment(s, c@),
            None => Seq::empty(),
        },
        Slot::Volume => match r.volume {
            Some(v) => volume_fragment(s, decimal(v as nat)),
            None => Seq::empty(),
        },
        Slot::Issue => match (r.volume, r.issue) {
            (Some(_), Some(i)) => issue_fragment(s, decimal(i as nat)),
            _ => Seq::empty(),
        },
        Slot::VolumeClose => match r.volume {
            Some(_) => volume_close_fragment(s),
            None => Seq::empty(),
        },
        Slot::Pages => match r.pages {
            Some(p) => pages_fragment(s, p@),
            None => Seq::empty(),
        },
        Slot::Doi => match r.doi {
            Some(d) => doi_fragment(s, d@),
            None => Seq::empty(),
        },
    }
}

/// The rendering of `r` in style `s`: the fragments of its slots in the
/// style's order.
pub open spec fn rendered(r: Reference, s: ReferenceStyle) -> Seq<PieceView> {
    let f = |k: Slot| fragment(r, s, k);
    match s {
        ReferenceStyle::APA | ReferenceStyle::Harvard => f(Slot::Authors) + f(Slot::Year) + f(
            Slot::Title,
        ) + f(Slot::Container) + f(Slot::Volume) + f(Slot::Issue) + f(Slot::VolumeClose) + f(
            Slot::Pages,
        ) + f(Slot::Doi),
        ReferenceStyle::MLA | ReferenceStyle::Chicago => f(Slot::Authors) + f(Slot::Title) + f(
            Slot::Container,
        ) + f(Slot::Volume) + f(Slot::Issue) + f(Slot::VolumeClose) + f(Slot::Year) + f(
            Slot::Pages,
        ) + f(Slot::Doi),
        ReferenceStyle::Vancouver => f(Slot::Authors) + f(Slot::Title) + f(Slot::Container) + f(
            Slot::Year,
        ) + f(Slot::Volume) + f(Slot::Issue) + f(Slot::VolumeClose) + f(Slot::Pages) + f(
            Slot::Doi,
        ),
        ReferenceStyle::IEEE => f(Slot::Authors) + f(Slot::Title) + f(Slot::Container) + f(
            Slot::Volume,
        ) + f(Slot::Issue) + f(Slot::VolumeClose) + f(Slot::Pages) + f(Slot::Year) + f(
            Slot::Doi,
        ),
    }
}

fn push_piece(out: &mut Vec<Piece>, part: Part, t: String)
    ensures
        views(final(out)@) == views(old(out)@).push((part, t@)),
{
    let ghost before = views(out@);
    out.push(Piece { part, text: t });
    proof {
        assert(views(out@) =~= before.push((part, t@)));
    }
}

fn push_text(out: &mut Vec<Piece>, t: &str)
    ensures
        views(final(out)@) == views(old(out)@).push(text(t@)),
{
    push_piece(out, Part::Text, String::from_str(t));
}

fn push_pre(out: &mut Vec<Piece>, p: &str, part: Part, v: String)
    ensures
        views(final(out)@) == views(old(out)@) + pre(p@, part, v@),
{
    let ghost before = views(out@);
    push_text(out, p);
    push_piece(out, part, v);
    proof {
        assert(views(out@) =~= before + pre(p@, part, v@));
    }
}

fn push_post(out: &mut Vec<Piece>, part: Part, v: String, q: &str)
    ensures
        views(final(out)@) == views(old(out)@) + post(part, v@, q@),
{
    let ghost before = views(out@);
    push_piece(out, part, v);
    push_text(out, q);
    proof {
        assert(views(out@) =~= before + post(part, v@, q@));
    }
}

fn push_wrap(out: &mut Vec<Piece>, p: &str, part: Part, v: String, q: &str)
    ensures
        views(final(out)@) == views(old(out)@) + wrap(p@, part, v@, q@),
{
    let ghost before = views(out@);
    push_text(out, p);
    push_piece(out, part, v);
    push_text(out, q);
    proof {
        assert(views(out@) =~= before + wrap(p@, part, v@, q@));
    }
}

fn author_in_form(name: &String, form: NameForm) -> (r: String)
    ensures
        r@ == name_in_form(name@, form),
{
    match form {
        NameForm::AsGiven => name.clone(),
        NameForm::Short => short_form(name.as_str(), false),
        NameForm::ShortDotted => short_form(name.as_str(), true),
    }
}

/// Appends the first `n` authors in the given form, joined by ", ".
fn push_listed(out: &mut Vec<Piece>, authors: &Vec<String>, n: usize, form: NameForm)
    requires
        n <= authors@.len(),
    ensures
        views(final(out)@) == views(old(out)@) + listed(names_of(authors@).take(n as int), form),
{
    let ghost before = views(out@);
    let ghost ns = names_of(authors@);
    let mut i: usize = 0;
    proof {
        assert(ns.take(0) =~= Seq::<Seq<char>>::empty());
        assert(views(out@) =~= before + listed(ns.take(0), form));
    }
    while i < n
        invariant
            n <= authors@.len(),
            ns == names_of(authors@),
            i <= n,
            views(out@) == before + listed(ns.take(i as int), form),
        decreases n - i,
    {
        let ghost mid = views(out@);
        let a = author_in_form(&authors[i], form);
        proof {
            assert(ns.take(i + 1).drop_last() =~= ns.take(i as int));
            assert(ns.take(i + 1).last() == authors@[i as int]@);
        }
        if i == 0 {
            push_piece(out, Part::Author, a);
            proof {
                assert(views(out@) =~= before + listed(ns.take(i + 1), form));
            }
        } else {
            push_text(out, ", ");
            push_piece(out, Part::Author, a);
            proof {
                assert(views(out@) =~= before + listed(ns.take(i + 1), form));
            }
        }
        i = i + 1;
    }
}

/// The smaller of `a` and `b`.
fn smaller(a: usize, b: usize) -> (r: usize)
    ensures
        r == if a < b { a } else { b },
{
    if a < b { a } else { b }
}

impl Reference {
    fn push_authors(&self, out: &mut Vec<Piece>, style: ReferenceStyle)
        ensures
            views(final(out)@) == views(old(out)@) + authors_fragment(names_of(self.authors@), style),
    {
        let ghost before = views(out@);
        let ghost ns = names_of(self.authors@);
        let n = self.authors.len();
        proof {
            assert(ns.take(n as int) =~= ns);
        }
        if n == 0 {
            proof {
                assert(views(out@) =~= before + authors_fragment(ns, style));
            }
            return;
        }
        match style {
            ReferenceStyle::APA | ReferenceStyle::Harvard => {
                push_listed(out, &self.authors, n, NameForm::AsGiven);
            },
            ReferenceStyle::MLA | ReferenceStyle::Chicago => {
                if n < 2 {
                    push_listed(out, &self.authors, n, NameForm::AsGiven);
                } else {
                    push_listed(out, &self.authors, n - 1, NameForm::AsGiven);
                    push_text(out, ", and ");
                    push_piece(out, Part::Author, self.authors[n - 1].clone());
                }
                push_text(out, ". ");
            },
            ReferenceStyle::Vancouver => {
                push_listed(out, &self.authors, smaller(n, VANCOUVER_AUTHOR_CAP), NameForm::Short);
                if n > VANCOUVER_AUTHOR_CAP {
                    push_text(out, ", et al");
                }
                push_text(out, ". ");
            },
            ReferenceStyle::IEEE => {
                push_listed(out, &self.authors, n, NameForm::ShortDotted);
            },
        }
        proof {
            assert(views(out@) =~= before + authors_fragment(ns, style));
        }
    }

    /// Appends what fills slot `k` of this record's rendering in `style`.
    fn push_fragment(&self, out: &mut Vec<Piece>, style: ReferenceStyle, k: Slot)
        ensures
            views(final(out)@) == views(old(out)@) + fragment(*self, style, k),
    {
        let ghost before = views(out@);
        match k {
            Slot::Authors => self.push_authors(out, style),
            Slot::Year => {
                if let Some(y) = self.year {
                    let v = decimal_string(y as u32);
                    match style {
                        ReferenceStyle::APA => push_wrap(out, " (", Part::Year, v, "). "),
                        ReferenceStyle::MLA => push_post(out, Part::Year, v, ", "),
                        ReferenceStyle::Chicago => push_wrap(out, "(", Part::Year, v, "): "),
                        ReferenceStyle::Harvard => push_wrap(out, " (", Part::Year, v, ") "),
                        ReferenceStyle::Vancouver => push_piece(out, Part::Year, v),
                        ReferenceStyle::IEEE => push_wrap(out, ", ", Part::Year, v, "."),
                    }
                }
            },
            Slot::Title => {
                let t = self.title.clone();
                match style {
                    ReferenceStyle::APA | ReferenceStyle::MLA | ReferenceStyle::Vancouver => {
                        push_post(out, Part::Title, t, ". ")
                    },
                    ReferenceStyle::Chicago | ReferenceStyle::Harvard | ReferenceStyle::IEEE => {
                        push_piece(out, Part::Title, t)
                    },
                }
            },
            Slot::Container => {
                if let Some(c) = &self.container {
                    let c = c.clone();
                    match style {
                        ReferenceStyle::APA => push_post(out, Part::Container, c, " "),
                        ReferenceStyle::MLA => push_post(out, Part::Container, c, ", "),
                        ReferenceStyle::Chicago => push_wrap(out, " ", Part::Container, c, " "),
                        ReferenceStyle::Harvard | ReferenceStyle::IEEE => push_pre(out, ", ", Part::Container, c),
                        ReferenceStyle::Vancouver => push_post(out, Part::Container, c, ". "),
                    }
                }
            },
            Slot::Volume => {
                if let Some(v) = self.volume {
                    let v = decimal_string(v);
                    match style {
                        ReferenceStyle::APA => push_pre(out, "vol. ", Part::Volume, v),
                        ReferenceStyle::MLA => push_wrap(out, "vol. ", Part::Volume, v, ", "),
                        ReferenceStyle::Chicago => push_piece(out, Part::Volume, v),
                        ReferenceStyle::Harvard => push_pre(out, ", ", Part::Volume, v),
                        ReferenceStyle::Vancouver => push_pre(out, ";", Part::Volume, v),
                        ReferenceStyle::IEEE => push_pre(out, ", vol. ", Part::Volume, v),
                    }
                }
            },
            Slot::Issue => {
                if let (Some(_), Some(i)) = (self.volume, self.issue) {
                    let i = decimal_string(i);
                    match style {
                        ReferenceStyle::APA | ReferenceStyle::Chicago | ReferenceStyle::IEEE => {
                            push_pre(out, ", no. ", Part::Issue, i)
                        },
                        ReferenceStyle::MLA => push_wrap(out, "no. ", Part::Issue, i, ", "),
                        ReferenceStyle::Harvard | ReferenceStyle::Vancouver => push_wrap(out, "(", Part::Issue, i, ")"),
                    }
                }
            },
            Slot::VolumeClose => {
                if self.volume.is_some() {
                    match style {
                        ReferenceStyle::APA => push_text(out, ", "),
                        ReferenceStyle::Chicago => push_text(out, " "),
                        ReferenceStyle::Vancouver => push_text(out, ":"),
                        ReferenceStyle::MLA | ReferenceStyle::Harvard | ReferenceStyle::IEEE => {},
                    }
                }
            },
            Slot::Pages => {
                if let Some(p) = &self.pages {
                    let p = p.clone();
                    match style {
                        ReferenceStyle::APA | ReferenceStyle::MLA => push_wrap(out, "pp. ", Part::Pages, p, ". "),
                        ReferenceStyle::Chicago | ReferenceStyle::Vancouver => push_post(out, Part::Pages, p, ". "),
                        ReferenceStyle::Harvard => push_wrap(out, ", pp. ", Part::Pages, p, "."),
                        ReferenceStyle::IEEE => push_pre(out, ", pp. ", Part::Pages, p),
                    }
                }
            },
            Slot::Doi => {
                if let Some(d) = &self.doi {
                    match style {
                        ReferenceStyle::APA | ReferenceStyle::Chicago => {
                            let mut link = String::from_str("https://doi.org/");
                            link.append(d.as_str());
                            push_piece(out, Part::Doi, link);
                        },
                        ReferenceStyle::MLA => push_pre(out, "DOI: ", Part::Doi, d.clone()),
                        ReferenceStyle::Vancouver => push_pre(out, "doi: ", Part::Doi, d.clone()),
                        ReferenceStyle::Harvard | ReferenceStyle::IEEE => push_pre(out, " DOI: ", Part::Doi, d.clone()),
                    }
                }
            },
        }
        proof {
            assert(views(out@) =~= before + fragment(*self, style, k));
        }
    }

    /// The citation of this record in `style`, encoded in `format`.
    pub fn format(&self, style: ReferenceStyle, format: OutputFormat) -> (r: String)
        ensures
            r@ == html_of(style, rendered(*self, style)),
    {
        match format {
            OutputFormat::HTML => encode_html(style, &self.render(style)),
        }
    }

    /// Renders this record in `style` as a sequence of tagged pieces.
    pub fn render(&self, style: ReferenceStyle) -> (out: Vec<Piece>)
        ensures
            views(out@) == rendered(*self, style),
    {
        match style {
            ReferenceStyle::APA => self.render_apa(),
            ReferenceStyle::MLA => self.render_mla(),
            ReferenceStyle::Chicago => self.render_chicago(),
            ReferenceStyle::Harvard => self.render_harvard(),
            ReferenceStyle::Vancouver => self.render_vancouver(),
            ReferenceStyle::IEEE => self.render_ieee(),
        }
    }

    fn render_apa(&self) -> (out: Vec<Piece>)
        ensures
            views(out@) == rendered(*self, ReferenceStyle::APA),
    {
        let s = ReferenceStyle::APA;
        let mut out: Vec<Piece> = Vec::new();
        proof {
            assert(views(out@) =~= Seq::<PieceView>::empty());
        }
        self.push_fragment(&mut out, s, Slot::Authors);
        proof {
            assert(views(out@) =~= fragment(*self, s, Slot::Authors));
        }
        self.push_fragment(&mut out, s, Slot::Year);
        self.push_fragment(&mut out, s, Slot::Title);
        self.push_fragment(&mut out, s, Slot::Container);
        self.push_fragment(&mut out, s, Slot::Volume);
        self.push_fragment(&mut out, s, Slot::Issue);
        self.push_fragment(&mut out, s, Slot::VolumeClose);
        self.push_fragment(&mut out, s, Slot::Pages);
        self.push_fragment(&mut out, s, Slot::Doi);
        out
    }

    fn render_mla(&self) -> (out: Vec<Piece>)
        ensures
            views(out@) == rendered(*self, ReferenceStyle::MLA),
    {
        let s = ReferenceStyle::MLA;
        let mut out: Vec<Piece> = Vec::new();
        proof {
            assert(views(out@) =~= Seq::<PieceView>::empty());
        }
        self.push_fragment(&mut out, s, Slot::Authors);
        proof {
            assert(views(out@) =~= fragment(*self, s, Slot::Authors));
        }
        self.push_fragment(&mut out, s, Slot::Title);
        self.push_fragment(&mut out, s, Slot::Container);
        self.push_fragment(&mut out, s, Slot::Volume);
        self.push_fragment(&mut out, s, Slot::Issue);
        self.push_fragment(&mut out, s, Slot::VolumeClose);
        self.push_fragment(&mut out, s, Slot::Year);
        self.push_fragment(&mut out, s, Slot::Pages);
        self.push_fragment(&mut out, s, Slot::Doi);
        out
    }

    fn render_chicago(&self) -> (out: Vec<Piece>)
        ensures
            views(out@) == rendered(*self, ReferenceStyle::Chicago),
    {
        let s = ReferenceStyle::Chicago;
        let mut out: Vec<Piece> = Vec::new();
        proof {
            assert(views(out@) =~= Seq::<PieceView>::empty());
        }
        self.push_fragment(&mut out, s, Slot::Authors);
        proof {
            assert(views(out@) =~= fragment(*self, s, Slot::Authors));
        }
        self.push_fragment(&mut out, s, Slot::Title);
        self.push_fragment(&mut out, s, Slot::Container);
        self.push_fragment(&mut out, s, Slot::Volume);
        self.push_fragment(&mut out, s, Slot::Issue);
        self.push_fragment(&mut out, s, Slot::VolumeClose);
        self.push_fragment(&mut out, s, Slot::Year);
        self.push_fragment(&mut out, s, Slot::Pages);
        self.push_fragment(&mut out, s, Slot::Doi);
        out
    }

    fn render_harvard(&self) -> (out: Vec<Piece>)
        ensures
            views(out@) == rendered(*self, ReferenceStyle::Harvard),
    {
        let s = ReferenceStyle::Harvard;
        let mut out: Vec<Piece> = Vec::new();
        proof {
            assert(views(out@) =~= Seq::<PieceView>::empty());
        }
        self.push_fragment(&mut out, s, Slot::Authors);
        proof {
            assert(views(out@) =~= fragment(*self, s, Slot::Authors));
        }
        self.push_fragment(&mut out, s, Slot::Year);
        self.push_fragment(&mut out, s, Slot::Title);
        self.push_fragment(&mut out, s, Slot::Container);
        self.push_fragment(&mut out, s, Slot::Volume);
        self.push_fragment(&mut out, s, Slot::Issue);
        self.push_fragment(&mut out, s, Slot::VolumeClose);
        self.push_fragment(&mut out, s, Slot::Pages);
        self.push_fragment(&mut out, s, Slot::Doi);
        out
    }

    fn render_vancouver(&self) -> (out: Vec<Piece>)
        ensures
            views(out@) == rendered(*self, ReferenceStyle::Vancouver),
    {
        let s = ReferenceStyle::Vancouver;
        let mut out: Vec<Piece> = Vec::new();
        proof {
            assert(views(out@) =~= Seq::<PieceView>::empty());
        }
        self.push_fragment(&mut out, s, Slot::Authors);
        proof {
            assert(views(out@) =~= fragment(*self, s, Slot::Authors));
        }
        self.push_fragment(&mut out, s, Slot::Title);
        self.push_fragment(&mut out, s, Slot::Container);
        self.push_fragment(&mut out, s, Slot::Year);
        self.push_fragment(&mut out, s, Slot::Volume);
        self.push_fragment(&mut out, s, Slot::Issue);
        self.push_fragment(&mut out, s, Slot::VolumeClose);
        self.push_fragment(&mut out, s, Slot::Pages);
        self.push_fragment(&mut out, s, Slot::Doi);
        out
    }

    fn render_ieee(&self) -> (out: Vec<Piece>)
        ensures
            views(out@) == rendered(*self, ReferenceStyle::IEEE),
    {
        let s = ReferenceStyle::IEEE;
        let mut out: Vec<Piece> = Vec::new();
        proof {
            assert(views(out@) =~= Seq::<PieceView>::empty());
        }
        self.push_fragment(&mut out, s, Slot::Authors);
        proof {
            assert(views(out@) =~= fragment(*self, s, Slot::Authors));
        }
        self.push_fragment(&mut out, s, Slot::Title);
        self.push_fragment(&mut out, s, Slot::Container);
        self.push_fragment(&mut out, s, Slot::Volume);
        self.push_fragment(&mut out, s, Slot::Issue);
        self.push_fragment(&mut out, s, Slot::VolumeClose);
        self.push_fragment(&mut out, s, Slot::Pages);
        self.push_fragment(&mut out, s, Slot::Year);
        self.push_fragment(&mut out, s, Slot::Doi);
        out
    }
}

} // verus!
