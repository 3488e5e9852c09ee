use speed_reader::classify::{classify, is_intense_word, WordComplexity};
use speed_reader::config::{ConfigError, PacingPolicy, ReaderConfig};
use speed_reader::pacer::pacer_delay;
use speed_reader::session::{Session, Step};
use speed_reader::tokenize::split_words;

const TEXT: [&str; 2] = ["The quick brown fox", "jumps over the lazy dog."];

fn config(wpm: u64, resume: u64, policy: PacingPolicy) -> ReaderConfig {
    ReaderConfig::new(wpm, resume, String::from("text.txt"), policy).unwrap()
}

fn punctuation(letters_per_word: u64) -> PacingPolicy {
    PacingPolicy::PunctuationFlag { letters_per_word }
}

/// Runs a whole session over `lines`; returns the shown words with their
/// delays, and the session for its counter.
fn run(cfg: ReaderConfig, lines: &[&str]) -> (Vec<(String, u128)>, Session) {
    let mut session = Session::new(cfg);
    let mut shown = Vec::new();
    for line in lines {
        for word in split_words(line) {
            match session.feed(&word) {
                Step::Skip => {}
                Step::Emit { delay_ms } => shown.push((word, delay_ms)),
            }
        }
    }
    (shown, session)
}

fn words(shown: &[(String, u128)]) -> Vec<&str> {
    shown.iter().map(|(w, _)| w.as_str()).collect()
}

#[test]
fn two_lines_from_the_start() {
    let (shown, session) = run(config(600, 0, punctuation(4)), &TEXT);
    assert_eq!(
        words(&shown),
        vec!["The", "quick", "brown", "fox", "jumps", "over", "the", "lazy", "dog."]
    );
    assert_eq!(session.words_emitted(), 9);
    assert!(is_intense_word("dog."));
    assert!(!is_intense_word("fox"));
    assert_eq!(shown[3], (String::from("fox"), 75));
    assert_eq!(shown[8], (String::from("dog."), 104));
    assert!(shown[8].1 > shown[3].1);
}

#[test]
fn two_lines_from_the_start_length_case() {
    let (shown, session) = run(config(600, 0, PacingPolicy::LengthCase), &TEXT);
    assert_eq!(session.words_emitted(), 9);
    assert_eq!(classify("dog."), WordComplexity::VeryHigh);
    assert_eq!(classify("fox"), WordComplexity::BelowAverage);
    assert_eq!(shown[3], (String::from("fox"), 70));
    assert_eq!(shown[8], (String::from("dog."), 240));
    assert_eq!(shown[0], (String::from("The"), 240));
}

#[test]
fn resume_after_five_words() {
    let (shown, session) = run(config(600, 5, punctuation(4)), &TEXT);
    assert_eq!(words(&shown), vec!["over", "the", "lazy", "dog."]);
    assert_eq!(session.words_emitted(), 4);
    assert_eq!(session.skip_remaining(), 0);
}

#[test]
fn resume_matches_full_run_without_prefix() {
    for k in 0..=9u64 {
        let (full, _) = run(config(600, 0, punctuation(4)), &TEXT);
        let (resumed, session) = run(config(600, k, punctuation(4)), &TEXT);
        assert_eq!(resumed.len(), 9 - k as usize);
        assert_eq!(resumed, full[k as usize..].to_vec());
        assert_eq!(session.words_emitted(), 9 - k);
    }
}

#[test]
fn resume_past_the_end_shows_nothing() {
    let (shown, session) = run(config(600, 20, punctuation(4)), &TEXT);
    assert!(shown.is_empty());
    assert_eq!(session.words_emitted(), 0);
    assert_eq!(session.skip_remaining(), 11);
}

#[test]
fn zero_words_per_minute_is_refused() {
    let r = ReaderConfig::new(0, 0, String::from("text.txt"), punctuation(4));
    assert_eq!(r.err(), Some(ConfigError::ZeroWordsPerMinute));
    let r = ReaderConfig::new(0, 0, String::from("text.txt"), PacingPolicy::LengthCase);
    assert_eq!(r.err(), Some(ConfigError::ZeroWordsPerMinute));
}

#[test]
fn word_length_below_one_is_refused() {
    let r = ReaderConfig::new(100, 0, String::from("text.txt"), punctuation(0));
    assert_eq!(r.err(), Some(ConfigError::WordLengthBelowOne));
    assert!(ReaderConfig::new(100, 0, String::from("text.txt"), punctuation(1)).is_ok());
}

#[test]
fn config_keeps_its_values() {
    let c = config(250, 7, punctuation(4));
    assert_eq!(c.words_per_minute(), 250);
    assert_eq!(c.resume_point(), 7);
    assert_eq!(c.filename(), "text.txt");
    assert_eq!(c.policy(), punctuation(4));
}

#[test]
fn interrupt_after_three_words_reports_three() {
    let mut session = Session::new(config(600, 0, punctuation(4)));
    for w in ["The", "quick", "brown"] {
        assert!(matches!(session.feed(w), Step::Emit { .. }));
    }
    assert_eq!(session.words_emitted(), 3);
}

#[test]
fn counter_ignores_skipped_words() {
    let mut session = Session::new(config(600, 2, punctuation(4)));
    assert_eq!(session.feed("a"), Step::Skip);
    assert_eq!(session.feed("b"), Step::Skip);
    assert_eq!(session.words_emitted(), 0);
    assert!(matches!(session.feed("c"), Step::Emit { .. }));
    assert_eq!(session.words_emitted(), 1);
}

#[test]
fn punctuation_delay_values() {
    let c = config(600, 0, punctuation(4));
    // 60000 / 600 = 100 ms per word, 25 ms per letter.
    assert_eq!(pacer_delay(&c, "fox"), 75);
    assert_eq!(pacer_delay(&c, "dog."), 104);
    assert_eq!(pacer_delay(&c, "(a)"), 79);
    // Characters, not bytes.
    assert_eq!(pacer_delay(&c, "héllo"), 125);
    let slow = config(7, 0, punctuation(4));
    // 60000 / 7 = 8571, then 8571 / 4 = 2142.
    assert_eq!(pacer_delay(&slow, "word"), 8568);
}

#[test]
fn length_case_delay_values() {
    let c = config(600, 0, PacingPolicy::LengthCase);
    assert_eq!(pacer_delay(&c, "an"), 90);
    assert_eq!(pacer_delay(&c, "four"), 70);
    assert_eq!(pacer_delay(&c, "twelvelength"), 70);
    assert_eq!(pacer_delay(&c, "thirteenchars"), 70);
    assert_eq!(pacer_delay(&c, "fifteencharsxyz"), 240);
    assert_eq!(pacer_delay(&c, "a:b"), 240);
    let odd = config(7, 0, PacingPolicy::LengthCase);
    // 60000 / 7 = 8571; 8571 * 0.9 = 7713.9; 8571 * 2.4 = 20570.4.
    assert_eq!(pacer_delay(&odd, "an"), 7713);
    assert_eq!(pacer_delay(&odd, "Word"), 20570);
}

#[test]
fn very_high_outlasts_average() {
    for wpm in [1u64, 7, 100, 600, 10000, 60000] {
        let c = config(wpm, 0, PacingPolicy::LengthCase);
        assert!(pacer_delay(&c, "FIVES") > pacer_delay(&c, "fives"));
    }
    let fast = config(60001, 0, PacingPolicy::LengthCase);
    assert_eq!(pacer_delay(&fast, "FIVES"), 0);
    assert_eq!(pacer_delay(&fast, "fives"), 0);
}

#[test]
fn classification_by_length_and_case() {
    assert_eq!(classify("a"), WordComplexity::Small);
    assert_eq!(classify("ab"), WordComplexity::Small);
    assert_eq!(classify("abc"), WordComplexity::BelowAverage);
    assert_eq!(classify("abcd"), WordComplexity::BelowAverage);
    assert_eq!(classify("abcde"), WordComplexity::Average);
    assert_eq!(classify("abcdefghijkl"), WordComplexity::Average);
    assert_eq!(classify("abcdefghijklm"), WordComplexity::AboveAverage);
    assert_eq!(classify("abcdefghijklmn"), WordComplexity::AboveAverage);
    assert_eq!(classify("abcdefghijklmno"), WordComplexity::VeryHigh);
    assert_eq!(classify("Ab"), WordComplexity::VeryHigh);
    assert_eq!(classify("ÉCOLE"), WordComplexity::VeryHigh);
    assert_eq!(classify("a-b"), WordComplexity::VeryHigh);
    assert_eq!(classify("wait!"), WordComplexity::VeryHigh);
    // `?` marks a word only under the punctuation-flag policy.
    assert_eq!(classify("why?"), WordComplexity::BelowAverage);
    assert_eq!(classify("ééééé"), WordComplexity::Average);
}

#[test]
fn classification_is_repeatable() {
    for w in ["dog.", "fox", "Quick", "abcdefghijklmno"] {
        let first = classify(w);
        let _ = classify("other");
        assert_eq!(classify(w), first);
        assert_eq!(is_intense_word(w), is_intense_word(w));
    }
}

#[test]
fn intense_punctuation() {
    for w in ["a.", ",a", "a-b", "no!", "why?", "(x", "x)"] {
        assert!(is_intense_word(w), "{}", w);
    }
    for w in ["plain", "colon:", "Upper", "ünïcode"] {
        assert!(!is_intense_word(w), "{}", w);
    }
}

#[test]
fn split_on_whitespace_runs() {
    assert_eq!(split_words("The quick brown fox"), vec!["The", "quick", "brown", "fox"]);
    assert_eq!(split_words("  a \t b\u{a0}c  "), vec!["a", "b", "c"]);
    assert_eq!(split_words("héllo wörld"), vec!["héllo", "wörld"]);
    assert!(split_words("").is_empty());
    assert!(split_words(" \t ").is_empty());
    assert_eq!(split_words("one"), vec!["one"]);
}
