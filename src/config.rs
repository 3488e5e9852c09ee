use vstd::prelude::*;

verus! {

/// How the display time of a word is derived.
#[derive(Clone, Copy, Debug, PartialEq, Eq, Structural)]
pub enum PacingPolicy {
    /// Time per letter, from the average word length of the language, plus a
    /// small bonus for a word that holds punctuation. `letters_per_word` is
    /// the average word length rounded down.
    PunctuationFlag { letters_per_word: u64 },
    /// A fixed multiple of the time per word, chosen by the word's
    /// length+case category.
    LengthCase,
}

impl PacingPolicy {
    /// The policy divides by nothing that may be zero.
    pub open spec fn valid(self) -> bool {
        match self {
            PacingPolicy::PunctuationFlag { letters_per_word } => letters_per_word >= 1,
            PacingPolicy::LengthCase => true,
        }
    }
}

/// Why a configuration was refused.
#[derive(Clone, Copy, Debug, PartialEq, Eq, Structural)]
pub enum ConfigError {
    /// The reading speed is zero words per minute.
    ZeroWordsPerMinute,
    /// The average word length is below one letter.
    WordLengthBelowOne,
}

/// The parameters of a reading session, as plain values.
pub struct ConfigView {
    pub words_per_minute: nat,
    pub resume_point: nat,
    pub filename: Seq<char>,
    pub policy: PacingPolicy,
}

/// The parameters of a reading session. They are checked once, when the
/// value is made, and cannot change afterwards.
pub struct ReaderConfig {
    words_per_minute: u64,
    resume_point: u64,
    filename: String,
    policy: PacingPolicy,
}

impl View for ReaderConfig {
    type V = ConfigView;

    closed spec fn view(&self) -> ConfigView {
        ConfigView {
            words_per_minute: self.words_per_minute as nat,
            resume_point: self.resume_point as nat,
            filename: self.filename@,
            policy: self.policy,
        }
    }
}

impl ReaderConfig {
    /// A configuration that pacing can use without dividing by zero.
    pub open spec fn valid(&self) -> bool {
        &&& self@.words_per_minute > 0
        &&& self@.policy.valid()
    }

    /// Checks and stores the session parameters. A speed of zero words per
    /// minute is refused first, then an average word length below one.
    pub fn new(words_per_minute: u64, resume_point: u64, filename: String, policy: PacingPolicy) -> (r: Result<ReaderConfig, ConfigError>)
        ensures
            words_per_minute == 0 ==> r == Err::<ReaderConfig, ConfigError>(ConfigError::ZeroWordsPerMinute),
            words_per_minute > 0 && !policy.valid() ==> r == Err::<ReaderConfig, ConfigError>(ConfigError::WordLengthBelowOne),
            words_per_minute > 0 && policy.valid() <==> r is Ok,
            r matches Ok(c) ==> {
                &&& c.valid()
                &&& c@.words_per_minute == words_per_minute
                &&& c@.resume_point == resume_point
                &&& c@.filename == filename@
                &&& c@.policy == policy
            },
    {
        if words_per_minute == 0 {
            return Err(ConfigError::ZeroWordsPerMinute);
        }
        match policy {
            PacingPolicy::PunctuationFlag { letters_per_word } => {
                if letters_per_word == 0 {
                    return Err(ConfigError::WordLengthBelowOne);
                }
            },
            PacingPolicy::LengthCase => {},
        }
        Ok(ReaderConfig { words_per_minute, resume_point, filename, policy })
    }

    pub fn words_per_minute(&self) -> (r: u64)
        ensures
            r == self@.words_per_minute,
    {
        self.words_per_minute
    }

    pub fn resume_point(&self) -> (r: u64)
        ensures
            r == self@.resume_point,
    {
        self.resume_point
    }

    pub fn filename(&self) -> (r: &str)
        ensures
            r@ == self@.filename,
    {
        self.filename.as_str()
    }

    pub fn policy(&self) -> (r: PacingPolicy)
        ensures
            r == self@.policy,
    {
        self.policy
    }
}

} // verus!
