//! Character-level operations on `String` that the typing engine needs.

use vstd::prelude::*;
use vstd::string::*;

verus! {

/// Relies on `String::push`: appends one character at the end.
pub assume_specification[ String::push ](s: &mut String, ch: char)
    ensures
        final(s)@ == old(s)@.push(ch),
;

/// Relies on `String::pop`: removes and returns the last character, or
/// returns `None` and leaves an empty string unchanged.
pub assume_specification[ String::pop ](s: &mut String) -> (r: Option<char>)
    ensures
        old(s)@.len() == 0 ==> r == None::<char> && final(s)@ == old(s)@,
        old(s)@.len() > 0 ==> r == Some(old(s)@.last()) && final(s)@ == old(s)@.drop_last(),
;

/// Relies on `String::clear`: removes every character.
pub assume_specification[ String::clear ](s: &mut String)
    ensures
        final(s)@ == Seq::<char>::empty(),
;

/// The number of characters of `s`.
pub fn char_count(s: &String) -> (r: usize)
    ensures
        r == s@.len(),
{
    s.as_str().unicode_len()
}

/// The character at position `i` of `s`, counted in characters, if there is one.
pub fn char_at(s: &String, i: usize) -> (r: Option<char>)
    ensures
        i < s@.len() ==> r == Some(s@[i as int]),
        i >= s@.len() ==> r == None::<char>,
{
    if i < char_count(s) {
        Some(s.as_str().get_char(i))
    } else {
        None
    }
}

/// Whether `prefix` is a prefix of `s`, character by character.
pub fn starts_with(s: &String, prefix: &String) -> (r: bool)
    ensures
        r == prefix@.is_prefix_of(s@),
{
    let n = char_count(prefix);
    if n > char_count(s) {
        return false;
    }
    let mut i: usize = 0;
    while i < n
        invariant
            n == prefix@.len(),
            n <= s@.len(),
            i <= n,
            forall|j: int| 0 <= j < i ==> prefix@[j] == s@[j],
        decreases n - i,
    {
        if prefix.as_str().get_char(i) != s.as_str().get_char(i) {
            return false;
        }
        i = i + 1;
    }
    assert(prefix@ =~= s@.subrange(0, n as int));
    true
}

/// The strings of `v` as character sequences.
pub open spec fn strings_view(v: Seq<String>) -> Seq<Seq<char>> {
    v.map_values(|w: String| w@)
}

/// `words` joined by single spaces.
pub open spec fn joined(words: Seq<Seq<char>>) -> Seq<char>
    decreases words.len(),
{
    if words.len() == 0 {
        Seq::empty()
    } else if words.len() == 1 {
        words[0]
    } else {
        joined(words.drop_last()) + seq![' '] + words.last()
    }
}

/// Joins `words` with single spaces between them.
pub fn join_words(words: &Vec<String>) -> (r: String)
    ensures
        r@ == joined(strings_view(words@)),
{
    let mut r = String::new();
    let mut i: usize = 0;
    while i < words.len()
        invariant
            i <= words.len(),
            r@ == joined(strings_view(words@.subrange(0, i as int))),
        decreases words.len() - i,
    {
        assert(strings_view(words@.subrange(0, i + 1)).drop_last() =~= strings_view(
            words@.subrange(0, i as int),
        ));
        if i > 0 {
            r.append(" ");
            proof {
                reveal_strlit(" ");
            }
        }
        r.append(words[i].as_str());
        i = i + 1;
        assert(strings_view(words@.subrange(0, i as int)).last() == words@[i - 1]@);
        assert(r@ =~= joined(strings_view(words@.subrange(0, i as int))));
    }
    assert(words@.subrange(0, i as int) =~= words@);
    r
}

/// A character of the Unicode property White_Space.
pub open spec fn is_white_space(c: char) -> bool {
    let n = c as u32;
    (0x9 <= n <= 0xd) || n == 0x20 || n == 0x85 || n == 0xa0 || n == 0x1680 || (0x2000 <= n
        <= 0x200a) || n == 0x2028 || n == 0x2029 || n == 0x202f || n == 0x205f || n == 0x3000
}

/// The words of `s`, after a word `current` begun before it: the maximal runs of
/// characters that are not white space, in order.
pub open spec fn words_after(s: Seq<char>, current: Seq<char>) -> Seq<Seq<char>>
    decreases s.len(),
{
    if s.len() == 0 {
        if current.len() == 0 { Seq::empty() } else { seq![current] }
    } else if is_white_space(s[0]) {
        let rest = words_after(s.drop_first(), Seq::empty());
        if current.len() == 0 { rest } else { seq![current] + rest }
    } else {
        words_after(s.drop_first(), current.push(s[0]))
    }
}

/// The words of a text: its maximal runs of characters that are not white
/// space, in order.
pub open spec fn whitespace_words(s: Seq<char>) -> Seq<Seq<char>> {
    words_after(s, Seq::empty())
}

/// Relies on `str::split_whitespace`: the pieces of `s` separated by any amount
/// of Unicode White_Space, empty pieces left out.
#[verifier::external_body]
pub(crate) fn split_words(s: &str) -> (r: Vec<String>)
    ensures
        strings_view(r@) == whitespace_words(s@),
{
    s.split_whitespace().map(|w| w.to_string()).collect()
}

} // verus!
