//! Exercises on collections: the median of a list of integers, and words
//! turned into pig latin.
use vstd::prelude::*;
use vstd::string::{StrSliceExecFns, StringExecFns};
use crate::text::{is_whitespace, is_whitespace_spec, lower_of, lowercase, trim_start_by, trim_start_spec};

verus! {

/// Whether `s` is in ascending order.
pub open spec fn ascending(s: Seq<i32>) -> bool {
    forall|i: int, j: int| 0 <= i < j < s.len() ==> s[i] <= s[j]
}

/// Relies on `<[i32]>::sort`: the same numbers, in ascending order.
#[verifier::external_body]
fn sort_numbers(v: &mut Vec<i32>)
    ensures
        final(v)@.to_multiset() == old(v)@.to_multiset(),
        ascending(final(v)@),
{
    v.sort()
}

/// The middle element of `array` once sorted: at position `len / 2`, so the
/// upper of the two middle elements when the length is even.
pub fn median(array: &[i32]) -> (r: i32)
    requires
        array@.len() > 0,
    ensures
        exists|t: Seq<i32>|
            t.to_multiset() == array@.to_multiset() && ascending(t) && r == t[(array@.len() / 2) as int],
{
    let mut v: Vec<i32> = Vec::new();
    let mut i: usize = 0;
    while i < array.len()
        invariant
            i <= array@.len(),
            v@ == array@.subrange(0, i as int),
        decreases array@.len() - i,
    {
        v.push(array[i]);
        i = i + 1;
        assert(v@ =~= array@.subrange(0, i as int));
    }
    assert(array@.subrange(0, array@.len() as int) =~= array@);
    sort_numbers(&mut v);
    proof {
        v@.to_multiset_ensures();
        array@.to_multiset_ensures();
    }
    let r = v[v.len() / 2];
    assert(v@.to_multiset() == array@.to_multiset() && ascending(v@) && r == v@[(array@.len() / 2) as int]);
    r
}

/// Whether `c` is one of the five vowels in lowercase.
pub open spec fn is_vowel(c: char) -> bool {
    c == 'a' || c == 'e' || c == 'i' || c == 'o' || c == 'u'
}

/// The first word of `s`: the characters up to the first whitespace.
pub open spec fn take_word(s: Seq<char>) -> Seq<char>
    decreases s.len(),
{
    if s.len() == 0 || is_whitespace_spec(s[0]) {
        Seq::empty()
    } else {
        seq![s[0]] + take_word(s.drop_first())
    }
}

/// The first whitespace-separated word of `s`.
pub open spec fn first_word(s: Seq<char>) -> Seq<char> {
    take_word(trim_start_spec(s, false))
}

/// A lowercase word in pig latin: a word that starts with a vowel gets
/// `-hay`; otherwise its first letter moves to the end, before `ay`.
pub open spec fn pig_latin_spec(w: Seq<char>) -> Seq<char> {
    if is_vowel(w[0]) {
        w + "-hay"@
    } else {
        w.drop_first() + seq!['-', w[0], 'a', 'y']
    }
}

/// Whether the word can be turned into pig latin: it has a first letter,
/// and a first letter that moves is a single byte.
pub open spec fn pig_latin_ready(w: Seq<char>) -> bool {
    w.len() > 0 && (!is_vowel(w[0]) ==> (w[0] as u32) < 128)
}

/// Turns a lowercase word into pig latin.
pub fn pig_latin_word(w: &str) -> (r: String)
    requires
        pig_latin_ready(w@),
    ensures
        r@ == pig_latin_spec(w@),
{
    let n = w.unicode_len();
    let first = w.get_char(0);
    if first == 'a' || first == 'e' || first == 'i' || first == 'o' || first == 'u' {
        String::from_str(w).concat("-hay")
    } else {
        let rest = w.substring_char(1, n);
        let head = w.substring_char(0, 1);
        let r = String::from_str(rest).concat("-").concat(head).concat("ay");
        proof {
            reveal_strlit("-");
            reveal_strlit("ay");
            assert(head@ =~= seq![w@[0]]);
            assert(rest@ =~= w@.drop_first());
            assert(r@ =~= pig_latin_spec(w@));
        }
        r
    }
}

fn first_word_of(s: &str) -> (r: &str)
    ensures
        r@ == first_word(s@),
{
    let t = trim_start_by(s, false);
    let n = t.unicode_len();
    let mut i: usize = 0;
    assert(t@.subrange(0, 0) + t@.subrange(0, n as int) =~= t@);
    while i < n && !is_whitespace(t.get_char(i))
        invariant
            n == t@.len(),
            i <= n,
            t@ == trim_start_spec(s@, false),
            take_word(t@) == t@.subrange(0, i as int) + take_word(t@.subrange(i as int, n as int)),
        decreases n - i,
    {
        proof {
            let rest = t@.subrange(i as int, n as int);
            assert(rest.drop_first() =~= t@.subrange(i + 1, n as int));
            assert(t@.subrange(0, i + 1) =~= t@.subrange(0, i as int) + seq![t@[i as int]]);
        }
        i = i + 1;
    }
    let word = t.substring_char(0, i);
    proof {
        let rest = t@.subrange(i as int, n as int);
        assert(take_word(rest) == Seq::<char>::empty());
        assert(take_word(t@) =~= t@.subrange(0, i as int));
    }
    word
}

/// The first word of `word`, lowercased and turned into pig latin, or
/// `None` when there is no word, or its first letter moves and is more than
/// one byte long.
pub fn pig_latin(word: &str) -> (r: Option<String>)
    ensures
        pig_latin_ready(lower_of(first_word(word@))) ==> (r matches Some(s) && s@ == pig_latin_spec(
            lower_of(first_word(word@)),
        )),
        !pig_latin_ready(lower_of(first_word(word@))) ==> r is None,
{
    let first = first_word_of(word);
    let lower = lowercase(first);
    let w = lower.as_str();
    let n = w.unicode_len();
    if n == 0 {
        return None;
    }
    let c = w.get_char(0);
    let vowel = c == 'a' || c == 'e' || c == 'i' || c == 'o' || c == 'u';
    if !vowel && (c as u32) >= 128 {
        return None;
    }
    Some(pig_latin_word(w))
}

} // verus!
