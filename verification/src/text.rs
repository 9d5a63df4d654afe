//! Plain-text tests on source text and on symbol names.
//!
//! Text is read as its sequence of characters; every function here is stated
//! over that sequence.

use vstd::prelude::*;
use vstd::std_specs::iter::IteratorSpec;

verus! {

/// `needle` stands in `hay` at position `at`.
pub open spec fn occurs_at(hay: Seq<char>, needle: Seq<char>, at: int) -> bool {
    &&& 0 <= at
    &&& at + needle.len() <= hay.len()
    &&& hay.subrange(at, at + needle.len()) == needle
}

/// `needle` is a contiguous part of `hay`.
pub open spec fn occurs_in(hay: Seq<char>, needle: Seq<char>) -> bool {
    exists|at: int| occurs_at(hay, needle, at)
}

/// `text` begins with `prefix`.
pub open spec fn begins_with(text: Seq<char>, prefix: Seq<char>) -> bool {
    occurs_at(text, prefix, 0)
}

/// The characters of `text`, in order.
pub fn chars_of(text: &str) -> (chars: Vec<char>)
    ensures
        chars@ == text@,
{
    let mut chars: Vec<char> = Vec::new();
    let rest = text.chars();
    for c in it: rest
        invariant
            chars@ == it.seq().take(it.index()),
    {
        chars.push(c);
    }
    chars
}

/// Whether `needle` stands in `hay` at position `at`.
fn matches_at(hay: &Vec<char>, needle: &Vec<char>, at: usize) -> (yes: bool)
    requires
        at + needle.len() <= hay.len(),
    ensures
        yes == occurs_at(hay@, needle@, at as int),
{
    let mut k: usize = 0;
    while k < needle.len()
        invariant
            k <= needle.len(),
            at + needle.len() <= hay.len(),
            forall|j: int| 0 <= j < k ==> hay@[at + j] == needle@[j],
        decreases needle.len() - k,
    {
        if hay[at + k] != needle[k] {
            assert(hay@.subrange(at as int, at + needle.len())[k as int] != needle@[k as int]);
            return false;
        }
        k += 1;
    }
    assert(hay@.subrange(at as int, at + needle.len()) =~= needle@);
    true
}

/// How a text stands to a word that is read beside it from the start.
enum Beside {
    /// The text is the word.
    Same,
    /// The text begins with the word and goes on.
    Longer,
    /// The text does not begin with the word.
    Apart,
}

/// Reads `text` and `word` side by side from the start.
fn beside(text: &str, word: &str) -> (found: Beside)
    ensures
        match found {
            Beside::Same => text@ == word@,
            Beside::Longer => begins_with(text@, word@) && text@.len() > word@.len(),
            Beside::Apart => !begins_with(text@, word@),
        },
{
    let mut rest = text.chars();
    let mut wanted = word.chars();
    let ghost mut done: int = 0;
    loop
        invariant
            0 <= done <= text@.len(),
            done <= word@.len(),
            rest.remaining() == text@.subrange(done, text@.len() as int),
            wanted.remaining() == word@.subrange(done, word@.len() as int),
            text@.subrange(0, done) == word@.subrange(0, done),
        decreases word@.len() - done,
    {
        match wanted.next() {
            None => {
                assert(text@.subrange(0, done) =~= word@);
                match rest.next() {
                    None => {
                        assert(text@.subrange(0, done) =~= text@);
                        return Beside::Same;
                    },
                    Some(_) => {
                        return Beside::Longer;
                    },
                }
            },
            Some(want) => match rest.next() {
                None => {
                    return Beside::Apart;
                },
                Some(have) => {
                    if have != want {
                        assert(text@[done] == have && word@[done] == want);
                        assert(word@.len() <= text@.len() ==> text@.subrange(
                            0,
                            word@.len() as int,
                        )[done] != word@[done]);
                        return Beside::Apart;
                    }
                    proof {
                        assert forall|i: int| 0 <= i < done + 1 implies text@[i] == word@[i] by {
                            if i < done {
                                assert(text@.subrange(0, done)[i] == word@.subrange(0, done)[i]);
                            }
                        }
                        assert(text@.subrange(0, done + 1) =~= word@.subrange(0, done + 1));
                        done = done + 1;
                    }
                },
            },
        }
    }
}

/// Whether `text` begins with `prefix`.
pub fn starts_with(text: &str, prefix: &str) -> (yes: bool)
    ensures
        yes == begins_with(text@, prefix@),
{
    match beside(text, prefix) {
        Beside::Same => {
            assert(text@.subrange(0, text@.len() as int) =~= text@);
            true
        },
        Beside::Longer => true,
        Beside::Apart => false,
    }
}

/// Whether `left` and `right` are the same text.
pub fn same_text(left: &str, right: &str) -> (yes: bool)
    ensures
        yes == (left@ == right@),
{
    match beside(left, right) {
        Beside::Same => true,
        Beside::Longer => false,
        Beside::Apart => {
            assert(left@ == right@ ==> left@.subrange(0, left@.len() as int) =~= left@);
            false
        },
    }
}

/// Whether `needle` is a contiguous part of the characters `hay`.
pub fn occurs(hay: &Vec<char>, needle: &str) -> (yes: bool)
    ensures
        yes == occurs_in(hay@, needle@),
{
    let word = chars_of(needle);
    if word.len() > hay.len() {
        return false;
    }
    let last: usize = hay.len() - word.len();
    let mut at: usize = 0;
    loop
        invariant
            word@ == needle@,
            last == hay.len() - word.len(),
            at <= last,
            forall|j: int| 0 <= j < at ==> !occurs_at(hay@, word@, j),
        decreases last - at,
    {
        if matches_at(hay, &word, at) {
            return true;
        }
        if at == last {
            return false;
        }
        at += 1;
    }
}

/// Whether `needle` is a contiguous part of `hay`.
pub fn contains(hay: &str, needle: &str) -> (yes: bool)
    ensures
        yes == occurs_in(hay@, needle@),
{
    let text = chars_of(hay);
    occurs(&text, needle)
}

} // verus!
