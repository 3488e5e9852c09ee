use vstd::prelude::*;
use crate::config::{ConfigView, ReaderConfig};
use crate::pacer::{delay_of, pacer_delay};

verus! {

/// The words that a session resumed at `resume_point` shows, out of the
/// words `tokens` it has taken in: all but the first `resume_point`.
pub open spec fn emitted_words(tokens: Seq<Seq<char>>, resume_point: nat) -> Seq<Seq<char>> {
    if resume_point >= tokens.len() {
        seq![]
    } else {
        tokens.subrange(resume_point as int, tokens.len() as int)
    }
}

/// What the session decided for one word.
#[derive(Clone, Copy, Debug, PartialEq, Eq, Structural)]
pub enum Step {
    /// The word falls before the resume point: it is dropped unseen.
    Skip,
    /// The word is to be shown, then held for `delay_ms` milliseconds.
    Emit { delay_ms: u128 },
}

/// A session as plain values.
pub struct SessionView {
    pub config: ConfigView,
    /// Every word taken in so far, in order.
    pub consumed: Seq<Seq<char>>,
    /// Words still to be skipped before showing starts.
    pub skip_remaining: nat,
    /// The progress counter: words shown so far.
    pub emitted: nat,
}

/// A reading session: takes the words of the text in order, skips the first
/// `resume_point` of them, and paces the rest.
///
/// The progress counter counts shown words only, not skipped ones. After a
/// session resumed at `r` is stopped with the counter at `o`, the next
/// session must resume at `r + o` to continue where this one stopped.
pub struct Session {
    config: ReaderConfig,
    skip_remaining: u64,
    emitted: u64,
    consumed: Ghost<Seq<Seq<char>>>,
}

impl View for Session {
    type V = SessionView;

    closed spec fn view(&self) -> SessionView {
        SessionView {
            config: self.config@,
            consumed: self.consumed@,
            skip_remaining: self.skip_remaining as nat,
            emitted: self.emitted as nat,
        }
    }
}

impl Session {
    /// The words shown so far.
    pub open spec fn shown(&self) -> Seq<Seq<char>> {
        emitted_words(self@.consumed, self@.config.resume_point)
    }

    /// The session's state agrees with the words it has taken in: skipping
    /// counts down from the resume point to zero, and the counter equals
    /// the number of words shown.
    pub open spec fn wf(&self) -> bool {
        &&& self@.config.words_per_minute > 0
        &&& self@.config.policy.valid()
        &&& self@.skip_remaining == if self@.consumed.len() < self@.config.resume_point {
            self@.config.resume_point - self@.consumed.len()
        } else {
            0
        }
        &&& self@.emitted == self.shown().len()
    }

    /// Starts a session that has taken in no word yet.
    pub fn new(config: ReaderConfig) -> (r: Session)
        requires
            config.valid(),
        ensures
            r.wf(),
            r@.config == config@,
            r@.consumed == Seq::<Seq<char>>::empty(),
            r@.emitted == 0,
    {
        let skip = config.resume_point();
        Session { config, skip_remaining: skip, emitted: 0, consumed: Ghost(Seq::empty()) }
    }

    /// Decides what happens to the next word of the text. Before the resume
    /// point the word is skipped and the counter stays; after it, the word
    /// is shown, the counter goes up by one, and the word's delay is given.
    pub fn feed(&mut self, word: &str) -> (r: Step)
        requires
            old(self).wf(),
            old(self)@.emitted < u64::MAX,
        ensures
            final(self).wf(),
            final(self)@.config == old(self)@.config,
            final(self)@.consumed == old(self)@.consumed.push(word@),
            old(self)@.skip_remaining > 0 ==> {
                &&& r == Step::Skip
                &&& final(self)@.skip_remaining == old(self)@.skip_remaining - 1
                &&& final(self)@.emitted == old(self)@.emitted
            },
            old(self)@.skip_remaining == 0 ==> {
                &&& r matches Step::Emit { delay_ms }
                &&& delay_ms == delay_of(
                    old(self)@.config.words_per_minute,
                    old(self)@.config.policy,
                    word@,
                )
                &&& final(self)@.skip_remaining == 0
                &&& final(self)@.emitted == old(self)@.emitted + 1
                &&& final(self).shown() == old(self).shown().push(word@)
            },
    {
        let ghost before = self.consumed@;
        let ghost k = self.config@.resume_point;
        self.consumed = Ghost(self.consumed@.push(word@));
        if self.skip_remaining > 0 {
            self.skip_remaining = self.skip_remaining - 1;
            assert(emitted_words(self.consumed@, k) =~= Seq::<Seq<char>>::empty());
            Step::Skip
        } else {
            let delay_ms = pacer_delay(&self.config, word);
            self.emitted = self.emitted + 1;
            assert(emitted_words(self.consumed@, k) =~= emitted_words(before, k).push(word@));
            Step::Emit { delay_ms }
        }
    }

    /// The progress counter: how many words this session has shown. This is
    /// the value to report when the session is stopped early.
    pub fn words_emitted(&self) -> (r: u64)
        ensures
            r == self@.emitted,
    {
        self.emitted
    }

    /// How many words are still to be skipped before showing starts.
    pub fn skip_remaining(&self) -> (r: u64)
        ensures
            r == self@.skip_remaining,
    {
        self.skip_remaining
    }

    pub fn config(&self) -> (r: &ReaderConfig)
        ensures
            r@ == self@.config,
    {
        &self.config
    }
}

/// Resuming at `k` shows exactly the words after the first `k`, in the
/// order in which a session started at the beginning shows them: it is that
/// session's output with its first `k` words dropped.
pub proof fn lemma_resume_drops_prefix(tokens: Seq<Seq<char>>, k: nat)
    requires
        k <= tokens.len(),
    ensures
        emitted_words(tokens, k).len() == tokens.len() - k,
        emitted_words(tokens, 0) == tokens,
        emitted_words(tokens, k) == emitted_words(tokens, 0).subrange(k as int, tokens.len() as int),
{
    if tokens.len() > 0 {
        assert(tokens.subrange(0, tokens.len() as int) =~= tokens);
    }
    if k == tokens.len() {
        assert(tokens.subrange(k as int, tokens.len() as int) =~= Seq::<Seq<char>>::empty());
    }
}

/// The progress counter of a session that has taken in `tokens` with
/// resume point `k` counts the words shown and never the ones skipped: it is
/// the number of words taken in past the first `k`.
pub proof fn lemma_counter_excludes_skipped(tokens: Seq<Seq<char>>, k: nat)
    ensures
        emitted_words(tokens, k).len() == if k < tokens.len() {
            tokens.len() - k
        } else {
            0
        },
{
}

} // verus!
