//! Laws of the quiz session, stated and proved over the mathematical model
//! [`GameV`] that every contract of [`crate::session::Game`] speaks about.
//!
//! `submit_all` and `drain` fold the single-step transitions `GameV::draw`
//! and `GameV::answer` — exactly the values that `get_question` and
//! `set_answer` promise to compute — over whole runs of calls, so each law
//! here is a statement about any such run of the executable session.

use crate::session::GameV;
use crate::session::Kana;
use vstd::prelude::*;

verus! {

/// Every answer in `ws` misses the phonetic of the entry `k`.
pub open spec fn all_wrong_for(k: Kana, ws: Seq<Seq<char>>) -> bool {
    forall|i: int| 0 <= i < ws.len() ==> #[trigger] ws[i] != k.phonetic@
}

/// The state after submitting the answers `ws`, one after another.
pub open spec fn submit_all(m: GameV, ws: Seq<Seq<char>>) -> GameV
    decreases ws.len(),
{
    if ws.len() == 0 {
        m
    } else {
        submit_all(m.answer(ws[0]), ws.drop_first())
    }
}

/// Drawing a prompt and at once answering it with its own phonetic.
pub open spec fn drain_step(m: GameV) -> GameV {
    m.draw().answer(m.draw().current->Some_0.phonetic@)
}

/// `n` turns of drawing a prompt and answering it correctly first try.
pub open spec fn drain(m: GameV, n: nat) -> GameV
    decreases n,
{
    if n == 0 {
        m
    } else {
        drain(drain_step(m), (n - 1) as nat)
    }
}

/// The entries such a drain presents, in the order they appear.
pub open spec fn drain_prompts(m: GameV, n: nat) -> Seq<Kana>
    decreases n,
{
    if n == 0 {
        Seq::empty()
    } else {
        seq![m.draw().current->Some_0] + drain_prompts(drain_step(m), (n - 1) as nat)
    }
}

/// A run of wrong answers never retires the prompt and never scores: the
/// prompt, pool, dictionary and score stay as they were, the attempt
/// counter advances once per submission, and `rounds` advances exactly once
/// — at the first submission to a fresh prompt — however long the run is.
pub proof fn lemma_wrong_answers_keep_prompt(m: GameV, ws: Seq<Seq<char>>)
    requires
        m.current is Some,
        all_wrong_for(m.current->Some_0, ws),
    ensures
        submit_all(m, ws).current == m.current,
        submit_all(m, ws).pool == m.pool,
        submit_all(m, ws).charset == m.charset,
        submit_all(m, ws).score == m.score,
        submit_all(m, ws).attempts == m.attempts + ws.len(),
        submit_all(m, ws).rounds == m.rounds + (if m.attempts == 0 && ws.len() > 0 {
            1 as nat
        } else {
            0 as nat
        }),
    decreases ws.len(),
{
    if ws.len() > 0 {
        assert(ws[0] != m.current->Some_0.phonetic@);
        let m1 = m.answer(ws[0]);
        assert forall|i: int| 0 <= i < ws.drop_first().len() implies #[trigger] ws.drop_first()[i]
            != m1.current->Some_0.phonetic@ by {
            assert(ws[i + 1] != m.current->Some_0.phonetic@);
        }
        lemma_wrong_answers_keep_prompt(m1, ws.drop_first());
    }
}

/// A prompt answered wrongly any number of times before the right answer
/// still counts exactly one round and never a score point: after the
/// correct answer finally lands, `rounds` has grown by exactly one for that
/// prompt, `score` not at all, and the prompt is retired.
pub proof fn lemma_wrong_tries_count_one_round(m: GameV, ws: Seq<Seq<char>>)
    requires
        m.wf(),
        m.current is None,
        m.pool.len() > 0,
        ws.len() >= 1,
        all_wrong_for(m.draw().current->Some_0, ws),
    ensures
        ({
            let f = submit_all(m.draw(), ws).answer(m.draw().current->Some_0.phonetic@);
            &&& f.rounds == m.rounds + 1
            &&& f.score == m.score
            &&& f.current is None
            &&& f.pool == m.draw().pool
        }),
{
    lemma_wrong_answers_keep_prompt(m.draw(), ws);
}

/// Asking for the prompt again without an intervening correct answer —
/// immediately, or after any run of wrong answers — reports the same
/// character as before.
pub proof fn lemma_same_prompt_until_correct(m: GameV, ws: Seq<Seq<char>>)
    requires
        m.wf(),
        m.current is Some || m.pool.len() > 0,
        all_wrong_for(m.draw().current->Some_0, ws),
    ensures
        m.drawn() is Some,
        submit_all(m.draw(), ws).drawn() == m.drawn(),
{
    lemma_wrong_answers_keep_prompt(m.draw(), ws);
}

/// Draining a round by answering every prompt correctly on the first try
/// presents exactly the pool's entries, one each, from the back forwards,
/// and grows `rounds` and `score` by exactly the pool's size, ending with
/// an empty pool and no prompt left.
pub proof fn lemma_drain_full_round(m: GameV)
    requires
        m.wf(),
        m.current is None,
    ensures
        ({
            let f = drain(m, m.pool.len());
            &&& f.wf()
            &&& f.charset == m.charset
            &&& f.rounds == m.rounds + m.pool.len()
            &&& f.score == m.score + m.pool.len()
            &&& f.pool.len() == 0
            &&& f.current is None
        }),
        drain_prompts(m, m.pool.len()) == m.pool.reverse(),
    decreases m.pool.len(),
{
    if m.pool.len() == 0 {
        assert(drain_prompts(m, 0) =~= m.pool.reverse());
    } else {
        let m2 = drain_step(m);
        assert(m2.pool == m.pool.drop_last());
        assert forall|i: int| 0 <= i < m2.pool.len() implies m2.charset.contains(
            #[trigger] m2.pool[i],
        ) by {
            assert(m2.pool[i] == m.pool[i]);
        }
        lemma_drain_full_round(m2);
        assert(drain(m, m.pool.len()) == drain(m2, m2.pool.len()));
        assert(drain_prompts(m, m.pool.len()) == seq![m.pool.last()] + m.pool.drop_last().reverse());
        assert(m.pool.reverse() =~= seq![m.pool.last()] + m.pool.drop_last().reverse());
    }
}

/// A started round drains through the whole dictionary: from the state
/// `reload` produces — no active prompt, the pool a rearrangement of the
/// dictionary — answering every prompt correctly on the first try presents
/// every dictionary entry exactly once and grows `rounds` and `score` each
/// by exactly the dictionary's size.
pub proof fn lemma_round_covers_dictionary(m: GameV)
    requires
        m.wf(),
        m.current is None,
        m.pool.to_multiset() == m.charset.to_multiset(),
    ensures
        ({
            let f = drain(m, m.pool.len());
            &&& f.rounds == m.rounds + m.charset.len()
            &&& f.score == m.score + m.charset.len()
            &&& f.pool.len() == 0
            &&& f.current is None
        }),
        drain_prompts(m, m.pool.len()).to_multiset() == m.charset.to_multiset(),
{
    broadcast use vstd::seq_lib::group_to_multiset_ensures;

    lemma_drain_full_round(m);
    m.pool.lemma_reverse_to_multiset();
    assert(m.pool.to_multiset().len() == m.pool.len());
    assert(m.charset.to_multiset().len() == m.charset.len());
}

} // verus!
