//! What the literature search computes around its two remote calls: the
//! request URLs, and the mapping of a summary into a search result.
use vstd::prelude::*;

use crate::names::{is_space, is_space_char};

verus! {

/// A search request.
pub struct SearchQuery {
    pub q: String,
}

/// One candidate reference found by a search.
pub struct SearchResult {
    pub id: String,
    pub title: String,
    pub authors: Vec<String>,
    pub year: i32,
}

pub const PUBMED_BASE_URL: &'static str = "https://eutils.ncbi.nlm.nih.gov/entrez/eutils";

/// The text with leading white space removed.
pub open spec fn trim_start(s: Seq<char>) -> Seq<char>
    decreases s.len(),
{
    if s.len() > 0 && is_space(s[0]) {
        trim_start(s.drop_first())
    } else {
        s
    }
}

/// The longest prefix of the text that holds no white space.
pub open spec fn leading_word(s: Seq<char>) -> Seq<char>
    decreases s.len(),
{
    if s.len() == 0 || is_space(s[0]) {
        Seq::empty()
    } else {
        seq![s[0]] + leading_word(s.drop_first())
    }
}

/// The first whitespace-delimited word of the text; empty if it has none.
pub open spec fn first_word(s: Seq<char>) -> Seq<char> {
    leading_word(trim_start(s))
}

pub open spec fn is_digit(c: char) -> bool {
    '0' <= c && c <= '9'
}

pub open spec fn digits_value(d: Seq<char>) -> int
    decreases d.len(),
{
    if d.len() == 0 {
        0
    } else {
        digits_value(d.drop_last()) * 10 + ((d.last() as u32) - ('0' as u32))
    }
}

/// The length of the sign in front of the digits: 1 for `-` or `+`, else 0.
pub open spec fn sign_len(t: Seq<char>) -> int {
    if t.len() > 0 && (t[0] == '-' || t[0] == '+') {
        1
    } else {
        0
    }
}

pub open spec fn all_digits(d: Seq<char>) -> bool {
    forall|i: int| 0 <= i < d.len() ==> is_digit(#[trigger] d[i])
}

/// The decimal integer that the text spells, as Rust reads an `i32`: an
/// optional sign, then one or more ASCII digits, within the range of `i32`.
pub open spec fn parse_i32(t: Seq<char>) -> Option<int> {
    let d = t.subrange(sign_len(t), t.len() as int);
    let v = if sign_len(t) == 1 && t[0] == '-' {
        -digits_value(d)
    } else {
        digits_value(d)
    };
    if d.len() > 0 && all_digits(d) && i32::MIN <= v <= i32::MAX {
        Some(v)
    } else {
        None
    }
}

/// The year of a publication date: its first word read as an integer, or 0
/// where that word is missing or is no integer.
pub open spec fn year_of(pubdate: Seq<char>) -> int {
    match parse_i32(first_word(pubdate)) {
        Some(v) => v,
        None => 0,
    }
}

/// Where a running value is held once it is known to be too large.
const DIGITS_CAP: u64 = 2147483649;

/// Reads `t` as an `i32`.
pub fn parse_int(t: &str) -> (r: Option<i32>)
    ensures
        r.is_some() == parse_i32(t@).is_some(),
        r.is_some() ==> r.unwrap() as int == parse_i32(t@).unwrap(),
{
    let n = t.unicode_len();
    if n == 0 {
        return None;
    }
    let first = t.get_char(0);
    let neg = first == '-';
    let start: usize = if first == '-' || first == '+' { 1 } else { 0 };
    let ghost d = t@.subrange(start as int, n as int);
    if start == n {
        return None;
    }
    let mut i: usize = start;
    let mut acc: u64 = 0;
    proof {
        assert(t@.subrange(start as int, start as int) =~= Seq::<char>::empty());
    }
    while i < n
        invariant
            n == t@.len(),
            start <= i <= n,
            d == t@.subrange(start as int, n as int),
            start == sign_len(t@),
            n > 0,
            (start == 1) == (t@[0] == '-' || t@[0] == '+'),
            neg == (t@[0] == '-'),
            forall|j: int| start <= j < i ==> is_digit(#[trigger] t@[j]),
            acc as int == if digits_value(t@.subrange(start as int, i as int)) < DIGITS_CAP {
                digits_value(t@.subrange(start as int, i as int))
            } else {
                DIGITS_CAP as int
            },
        decreases n - i,
    {
        let c = t.get_char(i);
        if !('0' <= c && c <= '9') {
            proof {
                assert(d[i - start] == c);
                assert(!is_digit(d[i - start]));
                assert(!all_digits(d));
            }
            return None;
        }
        let dv = (c as u32 - '0' as u32) as u64;
        let ghost old_v = digits_value(t@.subrange(start as int, i as int));
        proof {
            let p = t@.subrange(start as int, i + 1);
            assert(p.drop_last() =~= t@.subrange(start as int, i as int));
            assert(digits_value(p) == old_v * 10 + dv);
            if old_v >= DIGITS_CAP {
                assert(old_v * 10 + dv >= DIGITS_CAP) by (nonlinear_arith)
                    requires
                        old_v >= DIGITS_CAP,
                        dv >= 0,
                ;
            }
        }
        let next = acc * 10 + dv;
        acc = if next > DIGITS_CAP { DIGITS_CAP } else { next };
        i = i + 1;
    }
    proof {
        assert(t@.subrange(start as int, n as int) =~= d);
        assert forall|j: int| 0 <= j < d.len() implies is_digit(#[trigger] d[j]) by {
            assert(d[j] == t@[j + start]);
        }
    }
    if neg {
        if acc <= 2147483648 {
            Some((0 - (acc as i64)) as i32)
        } else {
            None
        }
    } else {
        if acc <= 2147483647 {
            Some(acc as i32)
        } else {
            None
        }
    }
}

/// The first whitespace-delimited word of `s`.
pub fn first_word_of(s: &str) -> (r: &str)
    ensures
        r@ == first_word(s@),
{
    let n = s.unicode_len();
    let mut start: usize = 0;
    proof {
        assert(s@.subrange(0, n as int) =~= s@);
    }
    while start < n && is_space_char(s.get_char(start))
        invariant
            n == s@.len(),
            start <= n,
            trim_start(s@) == trim_start(s@.subrange(start as int, n as int)),
        decreases n - start,
    {
        proof {
            assert(s@.subrange(start as int, n as int).drop_first() =~= s@.subrange(
                start + 1,
                n as int,
            ));
        }
        start = start + 1;
    }
    let mut end: usize = start;
    proof {
        assert(s@.subrange(start as int, start as int) =~= Seq::<char>::empty());
        assert(trim_start(s@.subrange(start as int, n as int)) == s@.subrange(start as int, n as int));
        assert(Seq::<char>::empty() + leading_word(s@.subrange(start as int, n as int))
            =~= leading_word(s@.subrange(start as int, n as int)));
    }
    while end < n && !is_space_char(s.get_char(end))
        invariant
            n == s@.len(),
            start <= end <= n,
            first_word(s@) == s@.subrange(start as int, end as int) + leading_word(
                s@.subrange(end as int, n as int),
            ),
        decreases n - end,
    {
        proof {
            let rest = s@.subrange(end as int, n as int);
            assert(rest.drop_first() =~= s@.subrange(end + 1, n as int));
            assert(s@.subrange(start as int, end as int) + (seq![rest[0]] + leading_word(
                rest.drop_first(),
            )) =~= s@.subrange(start as int, end + 1) + leading_word(
                s@.subrange(end + 1, n as int),
            ));
        }
        end = end + 1;
    }
    proof {
        assert(leading_word(s@.subrange(end as int, n as int)) =~= Seq::<char>::empty());
        assert(s@.subrange(start as int, end as int) + Seq::<char>::empty() =~= s@.subrange(
            start as int,
            end as int,
        ));
    }
    s.substring_char(start, end)
}

/// The year of a publication date such as "2023 Jan 5".
pub fn year_of_pubdate(pubdate: &str) -> (r: i32)
    ensures
        r as int == year_of(pubdate@),
{
    match parse_int(first_word_of(pubdate)) {
        Some(y) => y,
        None => 0,
    }
}

impl SearchResult {
    /// The search result for an article summary.
    pub fn from_summary(id: String, title: String, authors: Vec<String>, pubdate: &str) -> (r:
        SearchResult)
        ensures
            r.id == id,
            r.title == title,
            r.authors == authors,
            r.year as int == year_of(pubdate@),
    {
        let year = year_of_pubdate(pubdate);
        SearchResult { id, title, authors, year }
    }
}

/// The comma-separated list of the identifiers.
pub open spec fn comma_list(ids: Seq<Seq<char>>) -> Seq<char>
    decreases ids.len(),
{
    if ids.len() == 0 {
        Seq::empty()
    } else if ids.len() == 1 {
        ids[0]
    } else {
        comma_list(ids.drop_last()) + seq![','] + ids.last()
    }
}

/// The URL that searches for the identifiers of articles matching `query`.
pub fn search_url(query: &str) -> (r: String)
    ensures
        r@ == PUBMED_BASE_URL@ + "/esearch.fcgi?db=pubmed&term="@ + query@ + "&retmode=json"@,
{
    let mut url = String::from_str(PUBMED_BASE_URL);
    url.append("/esearch.fcgi?db=pubmed&term=");
    url.append(query);
    url.append("&retmode=json");
    url
}

/// The URL that fetches the summaries of the articles with these identifiers.
pub fn summary_url(ids: &Vec<String>) -> (r: String)
    ensures
        r@ == PUBMED_BASE_URL@ + "/esummary.fcgi?db=pubmed&id="@ + comma_list(
            ids@.map_values(|s: String| s@),
        ) + "&retmode=json"@,
{
    let ghost all = ids@.map_values(|s: String| s@);
    let mut url = String::from_str(PUBMED_BASE_URL);
    url.append("/esummary.fcgi?db=pubmed&id=");
    let ghost head = url@;
    let mut i: usize = 0;
    proof {
        assert(all.take(0) =~= Seq::<Seq<char>>::empty());
        assert(url@ =~= head + comma_list(all.take(0)));
    }
    while i < ids.len()
        invariant
            all == ids@.map_values(|s: String| s@),
            i <= ids@.len(),
            url@ == head + comma_list(all.take(i as int)),
        decreases ids@.len() - i,
    {
        proof {
            assert(all.take(i + 1).drop_last() =~= all.take(i as int));
            reveal_strlit(",");
        }
        if i > 0 {
            url.append(",");
        }
        url.append(ids[i].as_str());
        proof {
            assert(url@ =~= head + comma_list(all.take(i + 1)));
        }
        i = i + 1;
    }
    url.append("&retmode=json");
    proof {
        assert(all.take(ids@.len() as int) =~= all);
    }
    url
}

} // verus!
