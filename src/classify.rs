use vstd::prelude::*;

verus! {

/// The punctuation that makes a word "intense" under the punctuation-flag
/// policy: `. , - ! ? ( )`.
pub open spec fn is_intense_char(c: char) -> bool {
    c == '.' || c == ',' || c == '-' || c == '!' || c == '?' || c == '(' || c == ')'
}

/// A word is intense when any of its characters is intense punctuation.
pub open spec fn has_intense_char(word: Seq<char>) -> bool {
    exists|i: int| 0 <= i < word.len() && is_intense_char(#[trigger] word[i])
}

/// Whether the word holds punctuation and so needs a little more time to be
/// understood.
pub fn is_intense_word(word: &str) -> (r: bool)
    ensures
        r == has_intense_char(word@),
{
    let n = word.unicode_len();
    let mut i: usize = 0;
    while i < n
        invariant
            n == word@.len(),
            i <= n,
            forall|j: int| 0 <= j < i ==> !is_intense_char(#[trigger] word@[j]),
        decreases n - i,
    {
        let c = word.get_char(i);
        if c == '.' || c == ',' || c == '-' || c == '!' || c == '?' || c == '(' || c == ')' {
            return true;
        }
        i = i + 1;
    }
    false
}

/// Complexity of a word under the length+case policy, from least to most
/// demanding.
#[derive(Clone, Copy, Debug, PartialEq, Eq, Structural)]
pub enum WordComplexity {
    /// One or two characters.
    Small,
    /// Three or four characters.
    BelowAverage,
    /// Five to twelve characters.
    Average,
    /// Thirteen or fourteen characters.
    AboveAverage,
    /// Fifteen characters or more, or any marked character.
    VeryHigh,
}

/// Whether `c` is an uppercase letter, as `char::is_uppercase` decides.
pub uninterp spec fn is_upper(c: char) -> bool;

/// Relies on `char::is_uppercase`: the result depends on the character alone.
#[verifier::external_body]
fn char_is_uppercase(c: char) -> (r: bool)
    ensures
        r == is_upper(c),
{
    c.is_uppercase()
}

/// The characters that force "very-high" under the length+case policy:
/// `. , - ! :` and any uppercase letter.
pub open spec fn is_marked_char(c: char) -> bool {
    c == '.' || c == ',' || c == '-' || c == '!' || c == ':' || is_upper(c)
}

pub open spec fn has_marked_char(word: Seq<char>) -> bool {
    exists|i: int| 0 <= i < word.len() && is_marked_char(#[trigger] word[i])
}

/// The category of a word of `len` characters that holds no marked character.
pub open spec fn complexity_by_length(len: nat) -> WordComplexity {
    if len <= 2 {
        WordComplexity::Small
    } else if len <= 4 {
        WordComplexity::BelowAverage
    } else if len <= 12 {
        WordComplexity::Average
    } else if len <= 14 {
        WordComplexity::AboveAverage
    } else {
        WordComplexity::VeryHigh
    }
}

/// The category of a word: a marked character overrides the length.
pub open spec fn complexity_of(word: Seq<char>) -> WordComplexity {
    if has_marked_char(word) {
        WordComplexity::VeryHigh
    } else {
        complexity_by_length(word.len())
    }
}

/// Classifies a word under the length+case policy. Characters are counted
/// as characters, not bytes.
pub fn classify(word: &str) -> (r: WordComplexity)
    ensures
        r == complexity_of(word@),
{
    let n = word.unicode_len();
    let mut i: usize = 0;
    while i < n
        invariant
            n == word@.len(),
            i <= n,
            forall|j: int| 0 <= j < i ==> !is_marked_char(#[trigger] word@[j]),
        decreases n - i,
    {
        let c = word.get_char(i);
        if c == '.' || c == ',' || c == '-' || c == '!' || c == ':' || char_is_uppercase(c) {
            return WordComplexity::VeryHigh;
        }
        i = i + 1;
    }
    if n <= 2 {
        WordComplexity::Small
    } else if n <= 4 {
        WordComplexity::BelowAverage
    } else if n <= 12 {
        WordComplexity::Average
    } else if n <= 14 {
        WordComplexity::AboveAverage
    } else {
        WordComplexity::VeryHigh
    }
}

} // verus!
