//! Text before the cursor: its characters, its suffixes, its words.

use vstd::prelude::*;

verus! {

/// Whether `needle` ends `text`. The empty sequence ends every text.
pub open spec fn is_suffix(needle: Seq<char>, text: Seq<char>) -> bool {
    needle.len() <= text.len() && text.subrange(text.len() - needle.len(), text.len() as int)
        == needle
}

/// What `char::is_alphanumeric` answers for a character: whether Unicode
/// classes it as a letter or a number.
pub uninterp spec fn is_alphanumeric(c: char) -> bool;

/// Whether a character belongs to a word: letters, numbers and `_` do.
pub open spec fn is_word(c: char) -> bool {
    is_alphanumeric(c) || c == '_'
}

/// Whether the last `n` characters of `text` all belong to a word; of a text
/// with fewer than `n` characters, whether all of them do.
pub open spec fn ends_in_word(text: Seq<char>, n: nat) -> bool {
    forall|i: int| 0 <= i < text.len() && text.len() - n <= i ==> is_word(#[trigger] text[i])
}

/// The index of the first of `needles` from `from` on that ends `text`.
pub open spec fn first_suffix_from(needles: Seq<Seq<char>>, text: Seq<char>, from: int) -> Option<
    int,
>
    decreases needles.len() - from,
{
    if from < 0 || from >= needles.len() {
        None
    } else if is_suffix(needles[from], text) {
        Some(from)
    } else {
        first_suffix_from(needles, text, from + 1)
    }
}

/// The index of the first of `needles` that ends `text`.
pub open spec fn first_suffix(needles: Seq<Seq<char>>, text: Seq<char>) -> Option<int> {
    first_suffix_from(needles, text, 0)
}

/// `first_suffix_from` finds the least index from `from` on whose needle ends
/// the text, and finds none only where no needle from `from` on does.
pub proof fn lemma_first_suffix_from(needles: Seq<Seq<char>>, text: Seq<char>, from: int)
    requires
        0 <= from,
    ensures
        match first_suffix_from(needles, text, from) {
            Some(i) => from <= i < needles.len() && is_suffix(needles[i], text) && forall|j: int|
                from <= j < i ==> !is_suffix(#[trigger] needles[j], text),
            None => forall|j: int|
                from <= j < needles.len() ==> !is_suffix(#[trigger] needles[j], text),
        },
    decreases needles.len() - from,
{
    if from < needles.len() && !is_suffix(needles[from], text) {
        lemma_first_suffix_from(needles, text, from + 1);
    }
}

/// Some needle ends the text exactly where `first_suffix` finds one.
pub proof fn lemma_first_suffix_some(needles: Seq<Seq<char>>, text: Seq<char>)
    ensures
        first_suffix(needles, text) is Some <==> exists|j: int|
            0 <= j < needles.len() && is_suffix(#[trigger] needles[j], text),
{
    lemma_first_suffix_from(needles, text, 0);
}

/// The characters of a string, in order.
pub fn chars_of(s: &str) -> (chars: Vec<char>)
    ensures
        chars@ == s@,
{
    let mut chars: Vec<char> = Vec::new();
    for c in it: s.chars()
        invariant
            chars@ == it.seq().take(it.index() as int),
            it.seq() == s@,
    {
        chars.push(c);
    }
    chars
}

/// Tells whether `needle` ends `text`.
pub fn ends_with(text: &Vec<char>, needle: &Vec<char>) -> (found: bool)
    ensures
        found == is_suffix(needle@, text@),
{
    if needle.len() > text.len() {
        return false;
    }
    let start: usize = text.len() - needle.len();
    let mut k: usize = 0;
    while k < needle.len()
        invariant
            start + needle.len() == text.len(),
            k <= needle.len(),
            forall|j: int| 0 <= j < k ==> text@[start + j] == needle@[j],
        decreases needle.len() - k,
    {
        if text[start + k] != needle[k] {
            assert(text@.subrange(start as int, text@.len() as int)[k as int] != needle@[k as int]);
            return false;
        }
        k += 1;
    }
    assert(text@.subrange(start as int, text@.len() as int) =~= needle@);
    true
}

/// Calls `char::is_alphanumeric`. Its answer is a fixed property of the
/// character, which the contract names without spelling it out.
#[verifier::external_body]
fn char_is_alphanumeric(c: char) -> (answer: bool)
    ensures
        answer == is_alphanumeric(c),
{
    c.is_alphanumeric()
}

/// Tells whether a character belongs to a word.
pub fn char_is_word(c: char) -> (word: bool)
    ensures
        word == is_word(c),
{
    char_is_alphanumeric(c) || c == '_'
}

/// Tells whether the last `n` characters of `text` all belong to a word.
pub fn tail_is_word(text: &Vec<char>, n: usize) -> (word: bool)
    ensures
        word == ends_in_word(text@, n as nat),
{
    let start: usize = if n < text.len() {
        text.len() - n
    } else {
        0
    };
    let mut i: usize = text.len();
    while i > start
        invariant
            start <= i <= text.len(),
            start == if n < text.len() {
                text.len() - n
            } else {
                0
            },
            forall|j: int| i <= j < text.len() ==> is_word(#[trigger] text@[j]),
        decreases i,
    {
        i -= 1;
        if !char_is_word(text[i]) {
            return false;
        }
    }
    true
}

} // verus!
