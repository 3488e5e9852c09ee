use vstd::prelude::*;
use crate::classify::{WordComplexity, has_intense_char, complexity_of, is_intense_word, classify};
use crate::config::{PacingPolicy, ReaderConfig};

verus! {

/// Milliseconds given to one word at `wpm` words per minute, rounded down.
pub open spec fn ms_per_word(wpm: nat) -> int
    recommends
        wpm > 0,
{
    60000int / (wpm as int)
}

/// The multiplier of each length+case category, in tenths.
pub open spec fn multiplier_tenths(c: WordComplexity) -> int {
    match c {
        WordComplexity::Small => 9,
        WordComplexity::BelowAverage => 7,
        WordComplexity::Average => 7,
        WordComplexity::AboveAverage => 7,
        WordComplexity::VeryHigh => 24,
    }
}

/// Delay under the punctuation-flag policy: the time per letter times the
/// number of characters, plus 4 ms for a word that holds punctuation.
pub open spec fn punctuation_delay(wpm: nat, letters_per_word: nat, word: Seq<char>) -> int
    recommends
        wpm > 0,
        letters_per_word > 0,
{
    ms_per_word(wpm) / (letters_per_word as int) * word.len() + if has_intense_char(word) {
        4int
    } else {
        0int
    }
}

/// Delay under the length+case policy: the time per word times the
/// category's multiplier, rounded down.
pub open spec fn length_case_delay(wpm: nat, c: WordComplexity) -> int
    recommends
        wpm > 0,
{
    ms_per_word(wpm) * multiplier_tenths(c) / 10
}

/// The delay, in milliseconds, that follows `word` at `wpm` words per minute.
pub open spec fn delay_of(wpm: nat, policy: PacingPolicy, word: Seq<char>) -> int {
    match policy {
        PacingPolicy::PunctuationFlag { letters_per_word } => punctuation_delay(
            wpm,
            letters_per_word as nat,
            word,
        ),
        PacingPolicy::LengthCase => length_case_delay(wpm, complexity_of(word)),
    }
}

/// How long `word` stays on screen, in milliseconds.
pub fn pacer_delay(config: &ReaderConfig, word: &str) -> (r: u128)
    requires
        config.valid(),
    ensures
        r == delay_of(config@.words_per_minute, config@.policy, word@),
{
    let wpm = config.words_per_minute();
    let ms_word: u64 = 60000 / wpm;
    match config.policy() {
        PacingPolicy::PunctuationFlag { letters_per_word } => {
            let ms_letter: u64 = ms_word / letters_per_word;
            let n = word.unicode_len();
            assert(ms_letter <= 60000);
            assert(ms_letter as int * n as int <= 60000 * 0x1_0000_0000_0000_0000) by (nonlinear_arith)
                requires
                    ms_letter <= 60000,
                    n < 0x1_0000_0000_0000_0000,
            ;
            let bonus: u128 = if is_intense_word(word) {
                4
            } else {
                0
            };
            (ms_letter as u128) * (n as u128) + bonus
        },
        PacingPolicy::LengthCase => {
            let tenths: u64 = match classify(word) {
                WordComplexity::Small => 9,
                WordComplexity::BelowAverage => 7,
                WordComplexity::Average => 7,
                WordComplexity::AboveAverage => 7,
                WordComplexity::VeryHigh => 24,
            };
            assert(ms_word <= 60000);
            assert(ms_word as int * tenths as int <= 60000 * 24) by (nonlinear_arith)
                requires
                    ms_word <= 60000,
                    tenths <= 24,
            ;
            (ms_word as u128) * (tenths as u128) / 10
        },
    }
}

/// Every delay is a non-negative number of milliseconds.
pub proof fn lemma_delay_nonnegative(wpm: nat, policy: PacingPolicy, word: Seq<char>)
    requires
        wpm > 0,
        policy.valid(),
    ensures
        delay_of(wpm, policy, word) >= 0,
{
    assert(ms_per_word(wpm) >= 0) by (nonlinear_arith)
        requires
            wpm > 0,
    ;
    match policy {
        PacingPolicy::PunctuationFlag { letters_per_word } => {
            let m = ms_per_word(wpm);
            let l = letters_per_word as int;
            assert(m / l * word.len() >= 0) by (nonlinear_arith)
                requires
                    m >= 0,
                    l > 0,
            ;
        },
        PacingPolicy::LengthCase => {
            let m = ms_per_word(wpm);
            let t = multiplier_tenths(complexity_of(word));
            assert(t >= 0);
            assert(m * t / 10 >= 0) by (nonlinear_arith)
                requires
                    m >= 0,
                    t >= 0,
            ;
        },
    }
}

/// At a speed that leaves at least one millisecond per word (at most 60000
/// words per minute), a "very-high" word stays strictly longer than an
/// "average" one under the length+case policy.
pub proof fn lemma_very_high_outlasts_average(wpm: nat)
    requires
        0 < wpm <= 60000,
    ensures
        length_case_delay(wpm, WordComplexity::VeryHigh) > length_case_delay(
            wpm,
            WordComplexity::Average,
        ),
{
    let m = ms_per_word(wpm);
    assert(m >= 1) by (nonlinear_arith)
        requires
            0 < wpm <= 60000,
            m == 60000int / (wpm as int),
    ;
    assert(m * 24 / 10 > m * 7 / 10) by (nonlinear_arith)
        requires
            m >= 1,
    ;
}

} // verus!
