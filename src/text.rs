//! Text helpers shared by the modules that read words and lines: the
//! characters of a string, substring search, whitespace, and lowercasing.
use vstd::prelude::*;
use vstd::string::{StrSliceExecFns, StringExecFns};

verus! {

/// The lowercase form of `s`, as the standard library computes it.
pub uninterp spec fn lower_of(s: Seq<char>) -> Seq<char>;

/// Relies on `str::to_lowercase`: the result depends on the characters alone.
#[verifier::external_body]
pub(crate) fn lowercase(s: &str) -> (r: String)
    ensures
        r@ == lower_of(s@),
{
    s.to_lowercase()
}

/// Whether `pattern` occurs in `text` as a run of consecutive characters.
pub open spec fn contains_spec(text: Seq<char>, pattern: Seq<char>) -> bool {
    exists|k: int|
        0 <= k && k + pattern.len() <= text.len() && #[trigger] text.subrange(
            k,
            k + pattern.len(),
        ) == pattern
}

/// The characters of `s`.
pub fn chars_of(s: &str) -> (r: Vec<char>)
    ensures
        r@ == s@,
{
    let n = s.unicode_len();
    let mut r: Vec<char> = Vec::new();
    let mut i: usize = 0;
    while i < n
        invariant
            n == s@.len(),
            i <= n,
            r@ == s@.subrange(0, i as int),
        decreases n - i,
    {
        r.push(s.get_char(i));
        i = i + 1;
        assert(r@ =~= s@.subrange(0, i as int));
    }
    assert(s@.subrange(0, n as int) =~= s@);
    r
}

fn matches_at(text: &Vec<char>, pattern: &Vec<char>, k: usize) -> (r: bool)
    requires
        k + pattern@.len() <= text@.len(),
    ensures
        r == (text@.subrange(k as int, k + pattern@.len()) == pattern@),
{
    let tl = text.len();
    let mut i: usize = 0;
    while i < pattern.len()
        invariant
            tl == text@.len(),
            k + pattern@.len() <= text@.len(),
            i <= pattern@.len(),
            forall|j: int| 0 <= j < i ==> text@[k + j] == pattern@[j],
        decreases pattern@.len() - i,
    {
        if text[k + i] != pattern[i] {
            assert(text@.subrange(k as int, k + pattern@.len())[i as int] != pattern@[i as int]);
            return false;
        }
        i = i + 1;
    }
    assert(text@.subrange(k as int, k + pattern@.len()) =~= pattern@);
    true
}

/// Whether `pattern` occurs in `text`.
pub fn contains(text: &str, pattern: &str) -> (r: bool)
    ensures
        r == contains_spec(text@, pattern@),
{
    let t = chars_of(text);
    let p = chars_of(pattern);
    if p.len() > t.len() {
        return false;
    }
    let last = t.len() - p.len();
    let mut k: usize = 0;
    loop
        invariant
            t@ == text@,
            p@ == pattern@,
            last == t@.len() - p@.len(),
            k <= last,
            forall|m: int| 0 <= m < k ==> #[trigger] t@.subrange(m, m + p@.len()) != p@,
        decreases last - k,
    {
        if matches_at(&t, &p, k) {
            return true;
        }
        if k == last {
            return false;
        }
        k = k + 1;
    }
}

/// Whether `c` is whitespace in the sense of Unicode's `White_Space`
/// property, as `char::is_whitespace` defines it.
pub open spec fn is_whitespace_spec(c: char) -> bool {
    let u = c as u32;
    (0x9 <= u <= 0xd) || u == 0x20 || u == 0x85 || u == 0xa0 || u == 0x1680 || (0x2000 <= u
        <= 0x200a) || u == 0x2028 || u == 0x2029 || u == 0x202f || u == 0x205f || u == 0x3000
}

/// Whether `c` is a single or a double quotation mark.
pub open spec fn is_quote_spec(c: char) -> bool {
    c == '\'' || c == '"'
}

/// Whether `c` is a quote (`quotes`) or whitespace (otherwise).
pub open spec fn trimmed_char(c: char, quotes: bool) -> bool {
    if quotes {
        is_quote_spec(c)
    } else {
        is_whitespace_spec(c)
    }
}

/// `s` without the leading characters that `trimmed_char` picks.
pub open spec fn trim_start_spec(s: Seq<char>, quotes: bool) -> Seq<char>
    decreases s.len(),
{
    if s.len() > 0 && trimmed_char(s[0], quotes) {
        trim_start_spec(s.drop_first(), quotes)
    } else {
        s
    }
}

/// `s` without the trailing characters that `trimmed_char` picks.
pub open spec fn trim_end_spec(s: Seq<char>, quotes: bool) -> Seq<char>
    decreases s.len(),
{
    if s.len() > 0 && trimmed_char(s.last(), quotes) {
        trim_end_spec(s.drop_last(), quotes)
    } else {
        s
    }
}

/// `s` without quotes at either end, and then without whitespace at
/// either end.
pub open spec fn clean_spec(s: Seq<char>) -> Seq<char> {
    trim_end_spec(trim_start_spec(trim_end_spec(trim_start_spec(s, true), true), false), false)
}

/// The items joined with one space between each two.
pub open spec fn join_spec(items: Seq<Seq<char>>) -> Seq<char>
    decreases items.len(),
{
    if items.len() == 0 {
        Seq::empty()
    } else if items.len() == 1 {
        items[0]
    } else {
        join_spec(items.drop_last()) + seq![' '] + items.last()
    }
}

/// Whether `c` is whitespace.
pub fn is_whitespace(c: char) -> (r: bool)
    ensures
        r == is_whitespace_spec(c),
{
    let u = c as u32;
    (0x9 <= u && u <= 0xd) || u == 0x20 || u == 0x85 || u == 0xa0 || u == 0x1680 || (0x2000 <= u
        && u <= 0x200a) || u == 0x2028 || u == 0x2029 || u == 0x202f || u == 0x205f || u == 0x3000
}

fn is_trimmed(c: char, quotes: bool) -> (r: bool)
    ensures
        r == trimmed_char(c, quotes),
{
    if quotes {
        c == '\'' || c == '"'
    } else {
        is_whitespace(c)
    }
}

pub fn trim_start_by(s: &str, quotes: bool) -> (r: &str)
    ensures
        r@ == trim_start_spec(s@, quotes),
    decreases s@.len(),
{
    let n = s.unicode_len();
    if n > 0 && is_trimmed(s.get_char(0), quotes) {
        let rest = s.substring_char(1, n);
        assert(rest@ =~= s@.drop_first());
        trim_start_by(rest, quotes)
    } else {
        s
    }
}

fn trim_end_by(s: &str, quotes: bool) -> (r: &str)
    ensures
        r@ == trim_end_spec(s@, quotes),
    decreases s@.len(),
{
    let n = s.unicode_len();
    if n > 0 && is_trimmed(s.get_char(n - 1), quotes) {
        let rest = s.substring_char(0, n - 1);
        assert(rest@ =~= s@.drop_last());
        trim_end_by(rest, quotes)
    } else {
        s
    }
}

/// `s` without quotes at either end, then without whitespace at either end.
pub fn clean(s: &str) -> (r: &str)
    ensures
        r@ == clean_spec(s@),
{
    trim_end_by(trim_start_by(trim_end_by(trim_start_by(s, true), true), false), false)
}

/// `s` without whitespace at either end.
pub fn trim_whitespace(s: &str) -> (r: &str)
    ensures
        r@ == trim_end_spec(trim_start_spec(s@, false), false),
{
    trim_end_by(trim_start_by(s, false), false)
}

/// The words joined with one space between each two.
pub fn join_words(words: &[&str]) -> (r: String)
    ensures
        r@ == join_spec(words@.map_values(|w: &str| w@)),
{
    let ghost views = words@.map_values(|w: &str| w@);
    let mut out = String::new();
    let mut i: usize = 0;
    while i < words.len()
        invariant
            i <= words@.len(),
            views == words@.map_values(|w: &str| w@),
            out@ == join_spec(views.subrange(0, i as int)),
        decreases words@.len() - i,
    {
        if i > 0 {
            out.append(" ");
            proof {
                reveal_strlit(" ");
            }
        }
        out.append(words[i]);
        proof {
            let next = views.subrange(0, i + 1);
            assert(next.drop_last() =~= views.subrange(0, i as int));
            assert(next.last() == words@[i as int]@);
            if i == 0 {
                assert(join_spec(views.subrange(0, 0)) == Seq::<char>::empty());
            }
        }
        i = i + 1;
    }
    assert(views.subrange(0, words@.len() as int) =~= views);
    out
}

/// Whether `a` and `b` hold the same characters.
pub fn same_text(a: &str, b: &str) -> (r: bool)
    ensures
        r == (a@ == b@),
{
    let x = chars_of(a);
    let y = chars_of(b);
    if x.len() != y.len() {
        return false;
    }
    let mut i: usize = 0;
    while i < x.len()
        invariant
            x@ == a@,
            y@ == b@,
            x@.len() == y@.len(),
            i <= x@.len(),
            forall|j: int| 0 <= j < i ==> x@[j] == y@[j],
        decreases x@.len() - i,
    {
        if x[i] != y[i] {
            return false;
        }
        i = i + 1;
    }
    assert(x@ =~= y@);
    true
}

} // verus!
