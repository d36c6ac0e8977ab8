//! The text classifier: is a message plausibly English?
//!
//! The classifier is a heuristic and a conservative one. Text outside the ASCII range, long
//! text with hardly any words in it and long text that is poor in vowels all count as a
//! novel language. Short text is only ever turned down for a character outside ASCII.

use vstd::prelude::*;
use crate::text::{
    ascii_letter, is_ascii_letter, is_vowel, is_white_space, lemma_trimmed_keeps,
    lemma_trimmed_len, trimmed, trimmed_chars, vowel,
};

verus! {

/// Text longer than this must hold at least `MIN_WORDS` words.
pub const WORD_RULE_LENGTH: usize = 40;

/// The number of words asked of long text.
pub const MIN_WORDS: usize = 3;

/// Text longer than this must have vowels for at least one letter in `VOWEL_RULE_DIVISOR`.
pub const VOWEL_RULE_LENGTH: usize = 30;

/// The inverse of the smallest share of vowels among the letters of long text: one fifth.
pub const VOWEL_RULE_DIVISOR: usize = 5;

/// Every character of `t` is in the ASCII range.
pub open spec fn all_ascii(t: Seq<char>) -> bool {
    forall|i: int| 0 <= i < t.len() ==> (#[trigger] t[i]) as u32 <= 0x7F
}

/// A word begins at `i`: a letter that follows no letter and is followed by one. A word is
/// thus a maximal run of two or more letters.
pub open spec fn starts_word(t: Seq<char>, i: int) -> bool {
    &&& 0 <= i && i + 1 < t.len()
    &&& is_ascii_letter(t[i])
    &&& is_ascii_letter(t[i + 1])
    &&& (i == 0 || !is_ascii_letter(t[i - 1]))
}

/// The number of words of `t` that begin before position `n`.
pub open spec fn words_before(t: Seq<char>, n: int) -> nat
    decreases n,
{
    if n <= 0 {
        0
    } else {
        words_before(t, n - 1) + if starts_word(t, n - 1) {
            1nat
        } else {
            0nat
        }
    }
}

/// The number of words in ASCII text `t`.
pub open spec fn word_count(t: Seq<char>) -> nat {
    words_before(t, t.len() as int)
}

/// The number of characters of `t` before position `n` that are ASCII letters.
pub open spec fn letters_before(t: Seq<char>, n: int) -> nat
    decreases n,
{
    if n <= 0 {
        0
    } else {
        letters_before(t, n - 1) + if is_ascii_letter(t[n - 1]) {
            1nat
        } else {
            0nat
        }
    }
}

/// The number of ASCII letters in `t`.
pub open spec fn letter_count(t: Seq<char>) -> nat {
    letters_before(t, t.len() as int)
}

/// The number of characters of `t` before position `n` that are vowels.
pub open spec fn vowels_before(t: Seq<char>, n: int) -> nat
    decreases n,
{
    if n <= 0 {
        0
    } else {
        vowels_before(t, n - 1) + if is_vowel(t[n - 1]) {
            1nat
        } else {
            0nat
        }
    }
}

/// The number of vowels in `t`.
pub open spec fn vowel_count(t: Seq<char>) -> nat {
    vowels_before(t, t.len() as int)
}

/// The word rule turns down trimmed text `t`: it is long and holds too few words.
pub open spec fn too_few_words(t: Seq<char>) -> bool {
    t.len() > WORD_RULE_LENGTH && word_count(t) < MIN_WORDS
}

/// The vowel rule turns down trimmed text `t`: it is long and fewer than a fifth of its
/// letters are vowels.
pub open spec fn too_few_vowels(t: Seq<char>) -> bool {
    t.len() > VOWEL_RULE_LENGTH && VOWEL_RULE_DIVISOR * vowel_count(t) < letter_count(t)
}

/// The verdict of the classifier on `text`.
///
/// Empty and blank text is English. Any other text is English when, once trimmed, it is
/// ASCII throughout and neither the word rule nor the vowel rule turns it down.
pub open spec fn english_plausible(text: Seq<char>) -> bool {
    let t = trimmed(text);
    t.len() == 0 || (all_ascii(t) && !too_few_words(t) && !too_few_vowels(t))
}

/// Text that holds a character outside ASCII, once it is trimmed, is never English.
pub proof fn lemma_non_ascii_is_novel(text: Seq<char>)
    requires
        !all_ascii(trimmed(text)),
    ensures
        !english_plausible(text),
{
}

/// A character outside ASCII that is no white space makes a text a novel language,
/// wherever in the text it stands: trimming cannot remove it.
pub proof fn lemma_non_ascii_mark_is_novel(text: Seq<char>, i: int)
    requires
        0 <= i < text.len(),
        text[i] as u32 > 0x7F,
        !is_white_space(text[i]),
    ensures
        !english_plausible(text),
{
    lemma_trimmed_keeps(text, i);
}

/// Text of at most `VOWEL_RULE_LENGTH` characters is never turned down for its vowels,
/// nor for its words: it is English exactly when it is ASCII once trimmed.
pub proof fn lemma_short_text_skips_rules(text: Seq<char>)
    requires
        text.len() <= VOWEL_RULE_LENGTH,
    ensures
        !too_few_vowels(trimmed(text)),
        !too_few_words(trimmed(text)),
        english_plausible(text) == all_ascii(trimmed(text)),
{
    lemma_trimmed_len(text);
}

/// Whether every character of `t` is in the ASCII range.
pub fn is_all_ascii(t: &Vec<char>) -> (b: bool)
    ensures
        b == all_ascii(t@),
{
    let n = t.len();
    for i in 0..n
        invariant
            n == t@.len(),
            forall|j: int| 0 <= j < i ==> (#[trigger] t@[j]) as u32 <= 0x7F,
    {
        if t[i] as u32 > 0x7F {
            return false;
        }
    }
    true
}

/// Counts the words of `t`.
pub fn count_words(t: &Vec<char>) -> (words: usize)
    ensures
        words == word_count(t@),
{
    let n = t.len();
    let mut words: usize = 0;
    for i in 0..n
        invariant
            n == t@.len(),
            words == words_before(t@, i as int),
            words <= i,
    {
        if ascii_letter(t[i]) && i + 1 < n && ascii_letter(t[i + 1]) && (i == 0 || !ascii_letter(
            t[i - 1],
        )) {
            words += 1;
        }
    }
    words
}

/// Counts the ASCII letters of `t`.
pub fn count_letters(t: &Vec<char>) -> (letters: usize)
    ensures
        letters == letter_count(t@),
{
    let n = t.len();
    let mut letters: usize = 0;
    for i in 0..n
        invariant
            n == t@.len(),
            letters == letters_before(t@, i as int),
            letters <= i,
    {
        if ascii_letter(t[i]) {
            letters += 1;
        }
    }
    letters
}

/// Counts the vowels of `t`.
pub fn count_vowels(t: &Vec<char>) -> (vowels: usize)
    ensures
        vowels == vowel_count(t@),
{
    let n = t.len();
    let mut vowels: usize = 0;
    for i in 0..n
        invariant
            n == t@.len(),
            vowels == vowels_before(t@, i as int),
            vowels <= i,
    {
        if vowel(t[i]) {
            vowels += 1;
        }
    }
    vowels
}

/// Classifies `text`: `true` when it is plausibly English.
pub fn looks_like_english(text: &str) -> (english: bool)
    ensures
        english == english_plausible(text@),
{
    let t = trimmed_chars(text);
    if t.len() == 0 {
        return true;
    }
    if !is_all_ascii(&t) {
        return false;
    }
    if t.len() > WORD_RULE_LENGTH && count_words(&t) < MIN_WORDS {
        return false;
    }
    if t.len() > VOWEL_RULE_LENGTH {
        let letters = count_letters(&t);
        let vowels = count_vowels(&t);
        // Fewer than a fifth: `5 * vowels < letters`, written so that nothing overflows.
        if vowels < letters / VOWEL_RULE_DIVISOR || (vowels == letters / VOWEL_RULE_DIVISOR
            && letters % VOWEL_RULE_DIVISOR != 0) {
            return false;
        }
    }
    true
}

} // verus!
