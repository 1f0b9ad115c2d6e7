//! Whitespace-delimited words of a display name, and the short form
//! "surname initial" used by the numeric styles.
use vstd::prelude::*;

verus! {

/// The characters that Unicode classes as white space.
pub open spec fn is_space(c: char) -> bool {
    let u = c as u32;
    (0x09 <= u && u <= 0x0d) || u == 0x20 || u == 0x85 || u == 0xa0 || u == 0x1680 || (0x2000
        <= u && u <= 0x200a) || u == 0x2028 || u == 0x2029 || u == 0x202f || u == 0x205f || u
        == 0x3000
}

/// The text with trailing white space removed.
pub open spec fn trim_end(s: Seq<char>) -> Seq<char>
    decreases s.len(),
{
    if s.len() > 0 && is_space(s.last()) {
        trim_end(s.drop_last())
    } else {
        s
    }
}

/// The longest suffix of the text that holds no white space.
pub open spec fn trailing_word(s: Seq<char>) -> Seq<char>
    decreases s.len(),
{
    if s.len() == 0 || is_space(s.last()) {
        Seq::empty()
    } else {
        trailing_word(s.drop_last()).push(s.last())
    }
}

/// The last whitespace-delimited word of a name; empty if it has none.
pub open spec fn surname(s: Seq<char>) -> Seq<char> {
    trailing_word(trim_end(s))
}

/// The first character of the whole name, or a space for an empty name.
pub open spec fn initial(s: Seq<char>) -> Seq<char> {
    if s.len() > 0 {
        seq![s[0]]
    } else {
        seq![' ']
    }
}

/// "surname initial", optionally followed by a period.
pub open spec fn short_name(s: Seq<char>, dotted: bool) -> Seq<char> {
    let base = surname(s) + seq![' '] + initial(s);
    if dotted {
        base.push('.')
    } else {
        base
    }
}

pub fn is_space_char(c: char) -> (r: bool)
    ensures
        r == is_space(c),
{
    let u = c as u32;
    (0x09 <= u && u <= 0x0d) || u == 0x20 || u == 0x85 || u == 0xa0 || u == 0x1680 || (0x2000
        <= u && u <= 0x200a) || u == 0x2028 || u == 0x2029 || u == 0x202f || u == 0x205f || u
        == 0x3000
}

/// The last whitespace-delimited word of `name`.
pub fn last_word(name: &str) -> (r: &str)
    ensures
        r@ == surname(name@),
{
    let n = name.unicode_len();
    let mut end: usize = n;
    proof {
        assert(name@.subrange(0, n as int) =~= name@);
    }
    while end > 0 && is_space_char(name.get_char(end - 1))
        invariant
            n == name@.len(),
            end <= n,
            trim_end(name@) == trim_end(name@.subrange(0, end as int)),
        decreases end,
    {
        proof {
            assert(name@.subrange(0, end as int).drop_last() =~= name@.subrange(0, end - 1));
        }
        end = end - 1;
    }
    proof {
        assert(trim_end(name@.subrange(0, end as int)) == name@.subrange(0, end as int));
    }
    let mut start: usize = end;
    while start > 0 && !is_space_char(name.get_char(start - 1))
        invariant
            n == name@.len(),
            start <= end <= n,
            trailing_word(name@.subrange(0, end as int)) == trailing_word(
                name@.subrange(0, start as int),
            ) + name@.subrange(start as int, end as int),
        decreases start,
    {
        proof {
            let pre = name@.subrange(0, start as int);
            assert(pre.drop_last() =~= name@.subrange(0, start - 1));
            assert(trailing_word(pre) == trailing_word(name@.subrange(0, start - 1)).push(
                name@[start - 1],
            ));
            assert(trailing_word(name@.subrange(0, start - 1)).push(name@[start - 1])
                + name@.subrange(start as int, end as int) =~= trailing_word(
                name@.subrange(0, start - 1),
            ) + name@.subrange(start - 1, end as int));
        }
        start = start - 1;
    }
    proof {
        assert(trailing_word(name@.subrange(0, start as int)) =~= Seq::<char>::empty());
        assert(Seq::<char>::empty() + name@.subrange(start as int, end as int) =~= name@.subrange(
            start as int,
            end as int,
        ));
    }
    name.substring_char(start, end)
}

/// The short form of a display name: its surname, a space and its first
/// character, and a period where `dotted` asks for one.
pub fn short_form(name: &str, dotted: bool) -> (r: String)
    ensures
        r@ == short_name(name@, dotted),
{
    let mut out = String::from_str(last_word(name));
    out.append(" ");
    if name.unicode_len() > 0 {
        out.append(name.substring_char(0, 1));
    } else {
        out.append(" ");
    }
    if dotted {
        out.append(".");
    }
    proof {
        reveal_strlit(" ");
        reveal_strlit(".");
        assert(out@ =~= short_name(name@, dotted));
    }
    out
}

} // verus!
