//! The quiz session state machine: round lifecycle, pool management,
//! scoring and answer evaluation.

use vstd::prelude::*;

verus! {

/// One dictionary entry: a kana character and its romanized reading.
#[derive(Clone, Debug)]
pub struct Kana {
    pub unicode: char,
    pub phonetic: String,
}

/// Right/wrong feedback for one submitted answer. A wrong answer is not an
/// error: the same prompt simply stays active.
#[derive(PartialEq, Eq, Structural, Clone, Copy, Debug)]
pub enum Outcome {
    Correct,
    Incorrect,
}

/// The ways a session operation can fail.
#[derive(PartialEq, Eq, Structural, Clone, Copy, Debug)]
pub enum QuizError {
    /// The dictionary handed to `Game::new` holds no entries; such a session
    /// could never produce a prompt.
    EmptyDictionary,
    /// `set_answer` was called while no prompt was awaiting an answer.
    NoActivePrompt,
}

/// The mathematical state of a quiz session, the value that every contract
/// of [`Game`] speaks about.
#[verifier::ext_equal]
pub struct GameV {
    /// The immutable dictionary the session was built over.
    pub charset: Seq<Kana>,
    /// The entries of the running round not yet answered correctly,
    /// drawn from the back.
    pub pool: Seq<Kana>,
    /// The entry awaiting an answer, if any.
    pub current: Option<Kana>,
    /// Submissions made for the current prompt.
    pub attempts: nat,
    /// Prompts answered correctly on the first attempt.
    pub score: nat,
    /// Distinct prompts presented, counted at each prompt's first submission.
    pub rounds: nat,
}

impl GameV {
    /// Session invariant: the dictionary is non-empty, the pool never grows
    /// past the dictionary, every pool entry and the current prompt come from
    /// the dictionary, and first-try successes never outnumber prompts.
    pub open spec fn wf(self) -> bool {
        &&& self.charset.len() > 0
        &&& self.pool.len() <= self.charset.len()
        &&& forall|i: int|
            0 <= i < self.pool.len() ==> self.charset.contains(#[trigger] self.pool[i])
        &&& (self.current matches Some(k) ==> self.charset.contains(k))
        &&& self.score <= self.rounds
    }

    /// What drawing a prompt does to the state: if a prompt is already
    /// active, nothing; otherwise the last pool entry becomes the prompt
    /// with a fresh attempt counter; an empty pool changes nothing.
    pub open spec fn draw(self) -> GameV {
        if self.current is Some {
            self
        } else if self.pool.len() > 0 {
            GameV {
                pool: self.pool.drop_last(),
                current: Some(self.pool.last()),
                attempts: 0,
                ..self
            }
        } else {
            self
        }
    }

    /// The character that drawing a prompt reports: the active (or newly
    /// drawn) prompt's character, or `None` once the round is complete.
    pub open spec fn drawn(self) -> Option<char> {
        match self.draw().current {
            Some(k) => Some(k.unicode),
            None => None,
        }
    }

    /// What submitting the answer `ans` does to the state (meaningful only
    /// while a prompt is active): the first submission for a prompt counts
    /// one round; an answer equal to the prompt's phonetic retires the
    /// prompt and, on the first attempt, counts one score point; any other
    /// answer leaves the prompt active.
    pub open spec fn answer(self, ans: Seq<char>) -> GameV
        recommends
            self.current is Some,
    {
        let k = self.current->Some_0;
        let rounds2: nat = if self.attempts == 0 {
            self.rounds + 1
        } else {
            self.rounds
        };
        let attempts2: nat = self.attempts + 1;
        if ans == k.phonetic@ {
            GameV {
                current: None,
                attempts: attempts2,
                rounds: rounds2,
                score: if attempts2 == 1 {
                    self.score + 1
                } else {
                    self.score
                },
                ..self
            }
        } else {
            GameV { attempts: attempts2, rounds: rounds2, ..self }
        }
    }

    /// The outcome that submitting `ans` reports (meaningful only while a
    /// prompt is active): exact, case-sensitive equality with the prompt's
    /// phonetic, nothing looser.
    pub open spec fn outcome(self, ans: Seq<char>) -> Outcome {
        if ans == self.current->Some_0.phonetic@ {
            Outcome::Correct
        } else {
            Outcome::Incorrect
        }
    }
}

/// Relies on rand's `SliceRandom::shuffle`, a Fisher-Yates shuffle that only
/// swaps elements of the slice in place, driven by `rand::thread_rng`. The
/// vector afterwards holds exactly the entries it held before, rearranged;
/// nothing more can be said of the order, which depends on the random source.
#[verifier::external_body]
fn shuffle_kanas(v: &mut Vec<Kana>)
    ensures
        final(v)@.len() == old(v)@.len(),
        final(v)@.to_multiset() == old(v)@.to_multiset(),
{
    let mut rng = rand::thread_rng();
    rand::seq::SliceRandom::shuffle(v.as_mut_slice(), &mut rng);
}

/// Duplicate one dictionary entry.
fn clone_kana(k: &Kana) -> (r: Kana)
    ensures
        r == *k,
{
    Kana { unicode: k.unicode, phonetic: k.phonetic.clone() }
}

/// Duplicate a dictionary, entry for entry.
fn clone_kanas(src: &Vec<Kana>) -> (r: Vec<Kana>)
    ensures
        r@ == src@,
{
    let mut r: Vec<Kana> = Vec::new();
    let mut i: usize = 0;
    while i < src.len()
        invariant
            i <= src.len(),
            r@ == src@.subrange(0, i as int),
        decreases src.len() - i,
    {
        r.push(clone_kana(&src[i]));
        proof {
            assert(src@.subrange(0, i + 1) =~= src@.subrange(0, i as int).push(src@[i as int]));
        }
        i = i + 1;
    }
    proof {
        assert(src@.subrange(0, src@.len() as int) =~= src@);
    }
    r
}

/// The quiz session. It owns a copy of the dictionary, the running round's
/// pool, the current prompt with its attempt counter, and the cumulative
/// score and round counters. It performs no I/O.
pub struct Game {
    charset: Vec<Kana>,
    pool: Vec<Kana>,
    current_kana: Option<Kana>,
    attempts: usize,
    score: usize,
    rounds: usize,
}

impl View for Game {
    type V = GameV;

    closed spec fn view(&self) -> GameV {
        GameV {
            charset: self.charset@,
            pool: self.pool@,
            current: self.current_kana,
            attempts: self.attempts as nat,
            score: self.score as nat,
            rounds: self.rounds as nat,
        }
    }
}

impl Game {
    /// Construct a session over `charset`. Refuses an empty dictionary: the
    /// result is `Ok` exactly when `charset` holds at least one entry, and
    /// the fresh session has an empty pool, no active prompt and zeroed
    /// counters.
    pub fn new(charset: Vec<Kana>) -> (r: Result<Game, QuizError>)
        ensures
            charset@.len() == 0 ==> r is Err && r->Err_0 == QuizError::EmptyDictionary,
            charset@.len() > 0 ==> r is Ok && r->Ok_0@ == (GameV {
                charset: charset@,
                pool: Seq::<Kana>::empty(),
                current: None::<Kana>,
                attempts: 0,
                score: 0,
                rounds: 0,
            }) && r->Ok_0@.wf(),
    {
        if charset.len() == 0 {
            return Err(QuizError::EmptyDictionary);
        }
        Ok(
            Game {
                charset,
                pool: Vec::new(),
                current_kana: None,
                attempts: 0,
                score: 0,
                rounds: 0,
            },
        )
    }

    /// A prompt can still be drawn or is awaiting an answer: the round is
    /// not yet complete.
    pub fn has_questions(&self) -> (r: bool)
        ensures
            r == (self@.pool.len() > 0 || self@.current is Some),
    {
        !self.pool.is_empty() || self.current_kana.is_some()
    }

    /// Prompts answered correctly on the first attempt.
    pub fn score(&self) -> (r: usize)
        ensures
            r as nat == self@.score,
    {
        self.score
    }

    /// Distinct prompts presented so far.
    pub fn rounds(&self) -> (r: usize)
        ensures
            r as nat == self@.rounds,
    {
        self.rounds
    }

    /// Start a new round: the pool becomes a freshly shuffled copy of the
    /// whole dictionary and any active prompt is discarded. Score and
    /// rounds are kept, so an infinite practice session accumulates;
    /// callers wanting a fresh score per round call `reset_stats` as well.
    pub fn reload(&mut self)
        requires
            old(self)@.wf(),
        ensures
            final(self)@.wf(),
            final(self)@.charset == old(self)@.charset,
            final(self)@.score == old(self)@.score,
            final(self)@.rounds == old(self)@.rounds,
            final(self)@.current is None,
            final(self)@.attempts == 0,
            final(self)@.pool.len() == old(self)@.charset.len(),
            final(self)@.pool.to_multiset() == old(self)@.charset.to_multiset(),
    {
        self.pool = clone_kanas(&self.charset);
        shuffle_kanas(&mut self.pool);
        self.current_kana = None;
        self.attempts = 0;
        proof {
            broadcast use vstd::seq_lib::group_to_multiset_ensures;

            assert forall|i: int| 0 <= i < self@.pool.len() implies self@.charset.contains(
                self@.pool[i],
            ) by {
                assert(self@.pool.contains(self@.pool[i]));
                assert(self@.charset.to_multiset().count(self@.pool[i]) > 0);
            }
        }
    }

    /// Draw or repeat a prompt: returns the active prompt's character,
    /// first drawing the last pool entry (with a fresh attempt counter) if
    /// none is active, or `None` once pool and prompt are both gone (the
    /// round is complete). Repeated calls without an intervening correct
    /// answer return the same character.
    pub fn get_question(&mut self) -> (r: Option<char>)
        requires
            old(self)@.wf(),
        ensures
            final(self)@.wf(),
            final(self)@ == old(self)@.draw(),
            r == old(self)@.drawn(),
    {
        if self.current_kana.is_none() {
            match self.pool.pop() {
                Some(k) => {
                    self.current_kana = Some(k);
                    self.attempts = 0;
                }
                None => {},
            }
        }
        match &self.current_kana {
            Some(kana) => Some(kana.unicode),
            None => None,
        }
    }

    /// Evaluate one submitted answer against the active prompt, comparing
    /// by exact, case-sensitive string equality. The first submission for a
    /// prompt counts one round; a correct answer retires the prompt and, on
    /// the first attempt, counts one score point; a wrong answer leaves the
    /// prompt active with its attempt counter advanced. Without an active
    /// prompt nothing changes and the call fails with `NoActivePrompt`.
    pub fn set_answer(&mut self, answer: &str) -> (r: Result<Outcome, QuizError>)
        requires
            old(self)@.wf(),
            old(self)@.current is Some && old(self)@.attempts == 0 ==> old(
                self,
            )@.rounds < usize::MAX,
            old(self)@.current is Some ==> old(self)@.attempts < usize::MAX,
        ensures
            final(self)@.wf(),
            old(self)@.current is None ==> final(self)@ == old(self)@ && r is Err && r->Err_0
                == QuizError::NoActivePrompt,
            old(self)@.current is Some ==> final(self)@ == old(self)@.answer(answer@) && r is Ok
                && r->Ok_0 == old(self)@.outcome(answer@),
    {
        let is_correct: bool;
        match &self.current_kana {
            None => {
                return Err(QuizError::NoActivePrompt);
            },
            Some(kana) => {
                is_correct = answer.to_owned() == kana.phonetic;
            },
        }
        if self.attempts == 0 {
            self.rounds = self.rounds + 1;
        }
        self.attempts = self.attempts + 1;
        if is_correct {
            if self.attempts == 1 {
                self.score = self.score + 1;
            }
            self.current_kana = None;
            Ok(Outcome::Correct)
        } else {
            Ok(Outcome::Incorrect)
        }
    }

    /// Clear the cumulative counters, for callers that want a fresh score
    /// per round rather than an infinite-practice total. Everything else is
    /// untouched.
    pub fn reset_stats(&mut self)
        requires
            old(self)@.wf(),
        ensures
            final(self)@.wf(),
            final(self)@ == (GameV { score: 0, rounds: 0, ..old(self)@ }),
    {
        self.score = 0;
        self.rounds = 0;
    }
}

} // verus!
