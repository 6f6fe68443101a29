//! The platform profile: what its attribute files hold, and whether a
//! request changes anything.

use vstd::prelude::*;
use vstd::string::StrSliceExecFns;
use crate::text::{str_eq, trim, trimmed};

verus! {

/// Whether a character is ASCII whitespace: space, tab, line feed, form
/// feed or carriage return.
pub open spec fn is_ascii_space(c: char) -> bool {
    c == ' ' || c == '\t' || c == '\n' || c == '\x0c' || c == '\r'
}

/// The word that ends where `current` ends, if it holds anything.
pub open spec fn finished(current: Seq<char>) -> Seq<Seq<char>> {
    if current.len() > 0 {
        seq![current]
    } else {
        Seq::empty()
    }
}

/// The words of `text`, read behind the beginning `current` of a word:
/// every ASCII whitespace character ends the word before it, and a word
/// that holds nothing is no word.
pub open spec fn words_behind(current: Seq<char>, text: Seq<char>) -> Seq<Seq<char>>
    decreases text.len(),
{
    if text.len() == 0 {
        finished(current)
    } else if is_ascii_space(text[0]) {
        finished(current) + words_behind(Seq::empty(), text.drop_first())
    } else {
        words_behind(current.push(text[0]), text.drop_first())
    }
}

/// The words of a text: what stands between its ASCII whitespace, in
/// order.
pub open spec fn ascii_words(text: Seq<char>) -> Seq<Seq<char>> {
    words_behind(Seq::empty(), text)
}

/// Whether a character is ASCII whitespace.
fn is_space(c: char) -> (space: bool)
    ensures
        space == is_ascii_space(c),
{
    c == ' ' || c == '\t' || c == '\n' || c == '\x0c' || c == '\r'
}

/// The current profile that the text of the attribute `platform_profile`
/// names: the text, trimmed.
pub fn current(text: &str) -> (profile: String)
    ensures
        profile@ == trimmed(text@),
{
    trim(text).to_owned()
}

/// The trimmed words of a text, one for one.
pub open spec fn trimmed_words(words: Seq<Seq<char>>) -> Seq<Seq<char>> {
    Seq::new(words.len(), |i: int| trimmed(words[i]))
}

/// The views of a list of strings, one for one.
pub open spec fn texts_of(list: Seq<String>) -> Seq<Seq<char>> {
    Seq::new(list.len(), |i: int| list[i]@)
}

/// The profiles that the text of the attribute `platform_profile_choices`
/// lists: its words, each trimmed, in order.
pub fn supported(text: &str) -> (profiles: Vec<String>)
    ensures
        texts_of(profiles@) == trimmed_words(ascii_words(text@)),
{
    let len = text.unicode_len();
    let mut profiles: Vec<String> = Vec::new();
    let mut start: usize = 0;
    let mut i: usize = 0;
    proof {
        assert(text@.subrange(0, 0) =~= Seq::<char>::empty());
        assert(text@.skip(0) =~= text@);
        assert(texts_of(profiles@) =~= Seq::<Seq<char>>::empty());
        assert(Seq::<Seq<char>>::empty() + trimmed_words(ascii_words(text@)) =~= trimmed_words(
            ascii_words(text@),
        ));
    }
    while i < len
        invariant
            start <= i <= len,
            len == text@.len(),
            trimmed_words(ascii_words(text@)) == texts_of(profiles@) + trimmed_words(
                words_behind(text@.subrange(start as int, i as int), text@.skip(i as int)),
            ),
        decreases len - i,
    {
        let ghost current = text@.subrange(start as int, i as int);
        let ghost rest = text@.skip(i as int);
        let ghost before = texts_of(profiles@);
        assert(rest[0] == text@[i as int]);
        assert(rest.drop_first() =~= text@.skip(i + 1));
        if is_space(text.get_char(i)) {
            if start < i {
                let word = trim(text.substring_char(start, i)).to_owned();
                profiles.push(word);
                assert(texts_of(profiles@) =~= before + trimmed_words(finished(current)));
            } else {
                assert(finished(current) =~= Seq::<Seq<char>>::empty());
            }
            start = i + 1;
            assert(text@.subrange(start as int, i + 1) =~= Seq::<char>::empty());
            assert(trimmed_words(words_behind(current, rest)) =~= trimmed_words(finished(current))
                + trimmed_words(words_behind(Seq::empty(), rest.drop_first())));
        } else {
            assert(current.push(rest[0]) =~= text@.subrange(start as int, i + 1));
        }
        i += 1;
    }
    let ghost current = text@.subrange(start as int, len as int);
    let ghost before = texts_of(profiles@);
    assert(text@.skip(len as int) =~= Seq::<char>::empty());
    if start < len {
        let word = trim(text.substring_char(start, len)).to_owned();
        profiles.push(word);
        assert(texts_of(profiles@) =~= before + trimmed_words(finished(current)));
    } else {
        assert(trimmed_words(finished(current)) =~= Seq::<Seq<char>>::empty());
        assert(before + Seq::<Seq<char>>::empty() =~= before);
    }
    profiles
}

/// Whether a profile is one of the list.
pub open spec fn lists(supported: Seq<String>, profile: Seq<char>) -> bool {
    exists|i: int| 0 <= i < supported.len() && (#[trigger] supported[i])@ == profile
}

/// Whether the device offers a profile.
pub fn is_supported(supported: &Vec<String>, profile: &str) -> (found: bool)
    ensures
        found == lists(supported@, profile@),
{
    let mut i: usize = 0;
    while i < supported.len()
        invariant
            i <= supported@.len(),
            forall|j: int| 0 <= j < i ==> (#[trigger] supported@[j])@ != profile@,
        decreases supported@.len() - i,
    {
        if str_eq(supported[i].as_str(), profile) {
            return true;
        }
        i += 1;
    }
    false
}

} // verus!
