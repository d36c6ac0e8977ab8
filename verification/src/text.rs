//! Characters, white space and trimming.
//!
//! Text is modelled as the sequence of its Unicode scalar values, and every length in this
//! crate is a number of such values.

use vstd::prelude::*;

verus! {

/// The code points that carry the Unicode property `White_Space`.
pub open spec fn is_white_space(c: char) -> bool {
    let n = c as u32;
    ||| 0x09 <= n <= 0x0D
    ||| n == 0x20
    ||| n == 0x85
    ||| n == 0xA0
    ||| n == 0x1680
    ||| 0x2000 <= n <= 0x200A
    ||| n == 0x2028
    ||| n == 0x2029
    ||| n == 0x202F
    ||| n == 0x205F
    ||| n == 0x3000
}

/// The letters `a` to `z` and `A` to `Z`.
pub open spec fn is_ascii_letter(c: char) -> bool {
    let n = c as u32;
    0x41 <= n <= 0x5A || 0x61 <= n <= 0x7A
}

/// The letters `a`, `e`, `i`, `o`, `u` in either case.
pub open spec fn is_vowel(c: char) -> bool {
    ||| c == 'a' || c == 'e' || c == 'i' || c == 'o' || c == 'u'
    ||| c == 'A' || c == 'E' || c == 'I' || c == 'O' || c == 'U'
}

/// `s` without its leading white space.
pub open spec fn trim_start(s: Seq<char>) -> Seq<char>
    decreases s.len(),
{
    if s.len() > 0 && is_white_space(s.first()) {
        trim_start(s.drop_first())
    } else {
        s
    }
}

/// `s` without its trailing white space.
pub open spec fn trim_end(s: Seq<char>) -> Seq<char>
    decreases s.len(),
{
    if s.len() > 0 && is_white_space(s.last()) {
        trim_end(s.drop_last())
    } else {
        s
    }
}

/// `s` without its leading and trailing white space.
pub open spec fn trimmed(s: Seq<char>) -> Seq<char> {
    trim_end(trim_start(s))
}

/// Appending a character to a text appends it to the text's left-trimmed form, unless that
/// form is empty and the character is white space.
pub proof fn lemma_trim_start_push(s: Seq<char>, c: char)
    ensures
        trim_start(s.push(c)) == if trim_start(s).len() == 0 && is_white_space(c) {
            Seq::<char>::empty()
        } else {
            trim_start(s).push(c)
        },
    decreases s.len(),
{
    if s.len() == 0 {
        assert(s.push(c).drop_first() =~= Seq::<char>::empty());
        assert(trim_start(s) =~= Seq::<char>::empty());
    } else if is_white_space(s.first()) {
        assert(s.push(c).drop_first() =~= s.drop_first().push(c));
        lemma_trim_start_push(s.drop_first(), c);
    }
}

/// Trimming never lengthens a text.
pub proof fn lemma_trimmed_len(s: Seq<char>)
    ensures
        trimmed(s).len() <= s.len(),
{
    lemma_trim_start_len(s);
    lemma_trim_end_len(trim_start(s));
}

proof fn lemma_trim_start_len(s: Seq<char>)
    ensures
        trim_start(s).len() <= s.len(),
    decreases s.len(),
{
    if s.len() > 0 && is_white_space(s.first()) {
        lemma_trim_start_len(s.drop_first());
    }
}

proof fn lemma_trim_end_len(s: Seq<char>)
    ensures
        trim_end(s).len() <= s.len(),
    decreases s.len(),
{
    if s.len() > 0 && is_white_space(s.last()) {
        lemma_trim_end_len(s.drop_last());
    }
}

/// Trimming removes white space only: a character of `s` that is no white space is still
/// there once `s` is trimmed.
pub proof fn lemma_trimmed_keeps(s: Seq<char>, i: int)
    requires
        0 <= i < s.len(),
        !is_white_space(s[i]),
    ensures
        trimmed(s).contains(s[i]),
{
    lemma_trim_start_keeps(s, i);
    let j = choose|j: int| 0 <= j < trim_start(s).len() && trim_start(s)[j] == s[i];
    lemma_trim_end_keeps(trim_start(s), j);
}

proof fn lemma_trim_start_keeps(s: Seq<char>, i: int)
    requires
        0 <= i < s.len(),
        !is_white_space(s[i]),
    ensures
        trim_start(s).contains(s[i]),
    decreases s.len(),
{
    if is_white_space(s.first()) {
        lemma_trim_start_keeps(s.drop_first(), i - 1);
    }
}

proof fn lemma_trim_end_keeps(s: Seq<char>, i: int)
    requires
        0 <= i < s.len(),
        !is_white_space(s[i]),
    ensures
        trim_end(s).contains(s[i]),
    decreases s.len(),
{
    if is_white_space(s.last()) {
        lemma_trim_end_keeps(s.drop_last(), i);
    }
}

/// Whether `c` is Unicode white space.
pub fn white_space(c: char) -> (b: bool)
    ensures
        b == is_white_space(c),
{
    let n: u32 = c as u32;
    (0x09 <= n && n <= 0x0D) || n == 0x20 || n == 0x85 || n == 0xA0 || n == 0x1680 || (0x2000 <= n
        && n <= 0x200A) || n == 0x2028 || n == 0x2029 || n == 0x202F || n == 0x205F || n == 0x3000
}

/// Whether `c` is an ASCII letter.
pub fn ascii_letter(c: char) -> (b: bool)
    ensures
        b == is_ascii_letter(c),
{
    let n: u32 = c as u32;
    (0x41 <= n && n <= 0x5A) || (0x61 <= n && n <= 0x7A)
}

/// Whether `c` is a vowel.
pub fn vowel(c: char) -> (b: bool)
    ensures
        b == is_vowel(c),
{
    c == 'a' || c == 'e' || c == 'i' || c == 'o' || c == 'u' || c == 'A' || c == 'E' || c == 'I'
        || c == 'O' || c == 'U'
}

/// The characters of `text`, without its leading and trailing white space.
pub fn trimmed_chars(text: &str) -> (t: Vec<char>)
    ensures
        t@ == trimmed(text@),
{
    let mut t: Vec<char> = Vec::new();
    for c in it: text.chars()
        invariant
            it.seq() == text@,
            t@ == trim_start(it.seq().take(it.index())),
    {
        proof {
            let done = it.seq().take(it.index());
            assert(it.seq().take(it.index() + 1) =~= done.push(c));
            lemma_trim_start_push(done, c);
        }
        if t.len() > 0 || !white_space(c) {
            t.push(c);
        }
    }
    assert(text@.take(text@.len() as int) =~= text@);
    while t.len() > 0 && white_space(t[t.len() - 1])
        invariant
            trim_end(t@) == trimmed(text@),
        decreases t.len(),
    {
        t.pop();
    }
    t
}

} // verus!
