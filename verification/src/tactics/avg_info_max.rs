//! The entropy-maximizing strategy's board: the candidate pool together with
//! the feedback-pattern grouping that expected-information scoring is based
//! on.
//!
//! For a guess, the pool of remaining answers splits into groups by the
//! feedback pattern the guess would receive; `pattern_counts` computes the
//! size of every group. Turning those group sizes into a Shannon entropy and
//! picking the guess with the highest one is floating-point arithmetic, which
//! stays with the caller; everything the score depends on is computed and
//! specified here.

use vstd::prelude::*;

use crate::enums::{spec_code, spec_feedback, Alphabet, Status, StatusChar, Word};
use crate::leko_competition::bridge::{entry_ok, replay, replay_history};
use crate::leko_competition::interface::History;
use crate::tactics::solver::{filter_words, surviving};
use vstd::pervasive::VecAdditionalExecFns;

verus! {

/// How many words of `rem` produce the feedback pattern encoded `k` when
/// `g` is guessed against them.
pub open spec fn count_pattern(rem: Seq<Word>, g: Seq<Alphabet>, k: int) -> int
    decreases rem.len(),
{
    if rem.len() == 0 {
        0
    } else {
        count_pattern(rem.drop_last(), g, k) + if spec_code(spec_feedback(g, rem.last()@)) == k {
            1int
        } else {
            0int
        }
    }
}

/// The sum of the pattern-group sizes over the codes in `[lo, hi)`.
pub open spec fn count_pattern_sum(
    rem: Seq<Word>,
    g: Seq<Alphabet>,
    lo: int,
    hi: int,
) -> int
    decreases hi - lo,
{
    if lo >= hi {
        0
    } else {
        count_pattern(rem, g, lo) + count_pattern_sum(rem, g, lo + 1, hi)
    }
}

/// Every feedback pattern encodes below 243.
proof fn lemma_code_in_range(st: Seq<StatusChar>)
    ensures
        0 <= spec_code(st) < 243,
{
}

/// Over an empty pool every group is empty.
proof fn lemma_sum_empty(rem: Seq<Word>, g: Seq<Alphabet>, lo: int, hi: int)
    requires
        rem.len() == 0,
    ensures
        count_pattern_sum(rem, g, lo, hi) == 0,
    decreases hi - lo,
{
    if lo < hi {
        lemma_sum_empty(rem, g, lo + 1, hi);
    }
}

/// Dropping the last word of the pool lowers the sum by one exactly when
/// that word's pattern code lies in the summed range.
proof fn lemma_sum_drop_last(rem: Seq<Word>, g: Seq<Alphabet>, lo: int, hi: int)
    requires
        rem.len() > 0,
    ensures
        count_pattern_sum(rem, g, lo, hi) == count_pattern_sum(rem.drop_last(), g, lo, hi) + if lo
            <= spec_code(spec_feedback(g, rem.last()@)) < hi {
            1int
        } else {
            0int
        },
    decreases hi - lo,
{
    if lo < hi {
        lemma_sum_drop_last(rem, g, lo + 1, hi);
    }
}

/// The pattern groups partition the pool: for any guess, the group sizes
/// over all 243 pattern codes sum to the number of remaining answers. This
/// is what makes the per-guess pattern distribution a probability
/// distribution over the pool.
pub proof fn lemma_pattern_counts_partition(rem: Seq<Word>, g: Seq<Alphabet>)
    ensures
        count_pattern_sum(rem, g, 0, 243) == rem.len(),
    decreases rem.len(),
{
    if rem.len() == 0 {
        lemma_sum_empty(rem, g, 0, 243);
    } else {
        lemma_pattern_counts_partition(rem.drop_last(), g);
        lemma_code_in_range(spec_feedback(g, rem.last()@));
        lemma_sum_drop_last(rem, g, 0, 243);
    }
}

/// The candidate pool of the entropy-maximizing strategy: the answers still
/// possible, and the fixed dictionary of allowed guesses.
pub struct Board {
    /// Answers consistent with all feedback applied so far; only `filter`
    /// shrinks it.
    pub remaining_canditates: Vec<Word>,
    /// The words the solver may propose; never changed after construction.
    pub input_canditates: Vec<Word>,
}

impl Board {
    /// Builds a board over an answer pool and a guess dictionary.
    pub fn new(canditates: Vec<Word>, inputs: Vec<Word>) -> (r: Board)
        ensures
            r.remaining_canditates@ == canditates@,
            r.input_canditates@ == inputs@,
    {
        Board { remaining_canditates: canditates, input_canditates: inputs }
    }

    /// Narrows the remaining answers to those consistent with `status`
    /// observed for `word`: a stable filter that never grows the pool and
    /// leaves the guess dictionary untouched. An empty result is valid and
    /// signals contradictory feedback.
    pub fn filter(&mut self, word: &Word, status: &Status)
        ensures
            final(self).remaining_canditates@ == surviving(
                old(self).remaining_canditates@,
                word@,
                status@,
            ),
            final(self).remaining_canditates@.len() <= old(self).remaining_canditates@.len(),
            final(self).input_canditates@ == old(self).input_canditates@,
    {
        let remaining = filter_words(&self.remaining_canditates, word, status);
        self.remaining_canditates = remaining;
    }

    /// Decides the settled cases of guess selection. An empty pool is an
    /// error: feedback so far was contradictory and no guess is meaningful.
    /// With exactly one candidate left that word is the guess. `Ok(None)`
    /// means scoring over the guess dictionary must decide.
    pub fn next_settled(&self) -> (r: Result<Option<Word>, String>)
        ensures
            r is Err <==> self.remaining_canditates@.len() == 0,
            self.remaining_canditates@.len() == 1 ==> (r matches Ok(w) && w == Some(
                self.remaining_canditates@[0],
            )),
            self.remaining_canditates@.len() > 1 ==> (r matches Ok(w) && w is None),
    {
        if self.remaining_canditates.len() == 0 {
            Err("no candidates remain: feedback so far was contradictory".to_owned())
        } else if self.remaining_canditates.len() == 1 {
            Ok(Some(self.remaining_canditates[0]))
        } else {
            Ok(None)
        }
    }

    /// Replays a judging-protocol history: each entry is parsed and applied
    /// as a filter, in order; the first malformed entry stops the replay
    /// with an error, leaving the narrowing of the prefix before it applied.
    pub fn apply_history(&mut self, history: &Vec<History>) -> (r: Result<(), String>)
        ensures
            r is Ok <==> (forall|j: int|
                0 <= j < history@.len() ==> entry_ok(#[trigger] history@[j])),
            r is Ok ==> final(self).remaining_canditates@ == replay(
                old(self).remaining_canditates@,
                history@,
            ),
            r is Err ==> exists|j: int|
                0 <= j < history@.len() && !entry_ok(#[trigger] history@[j]) && (forall|k: int|
                    0 <= k < j ==> entry_ok(#[trigger] history@[k]))
                    && final(self).remaining_canditates@ == replay(
                    old(self).remaining_canditates@,
                    history@.take(j),
                ),
            final(self).input_canditates@ == old(self).input_canditates@,
    {
        replay_history(&mut self.remaining_canditates, history)
    }

    /// Groups the remaining answers by the feedback pattern they would give
    /// to `guess`: entry `k` of the result is the number of remaining
    /// answers whose pattern encodes to `k`. The Shannon entropy of a guess
    /// is a function of exactly these group sizes.
    pub fn pattern_counts(&self, guess: &Word) -> (r: Vec<usize>)
        ensures
            r@.len() == 243,
            forall|k: int|
                0 <= k < 243 ==> r@[k] == count_pattern(self.remaining_canditates@, guess@, k),
    {
        let n = self.remaining_canditates.len();
        let mut counts: Vec<usize> = Vec::new();
        for z in 0..243
            invariant
                counts@.len() == z,
                forall|k: int| 0 <= k < z ==> counts@[k] == 0,
        {
            counts.push(0);
        }
        for i in 0..n
            invariant
                n == self.remaining_canditates@.len(),
                counts@.len() == 243,
                forall|k: int|
                    0 <= k < 243 ==> counts@[k] == count_pattern(
                        self.remaining_canditates@.take(i as int),
                        guess@,
                        k,
                    ),
                forall|k: int| 0 <= k < 243 ==> counts@[k] <= i,
        {
            let answer = self.remaining_canditates[i];
            let st = Word::to_status(guess, &answer);
            let c = st.code();
            let current = counts[c];
            counts.set(c, current + 1);
            proof {
                let t1 = self.remaining_canditates@.take(i + 1);
                assert(t1.drop_last() =~= self.remaining_canditates@.take(i as int));
                assert(t1.last() == self.remaining_canditates@[i as int]);
                assert(forall|k: int|
                    0 <= k < 243 ==> count_pattern(t1, guess@, k) == count_pattern(
                        self.remaining_canditates@.take(i as int),
                        guess@,
                        k,
                    ) + if spec_code(spec_feedback(guess@, t1.last()@)) == k {
                        1int
                    } else {
                        0int
                    });
            }
        }
        proof {
            assert(self.remaining_canditates@.take(self.remaining_canditates@.len() as int)
                =~= self.remaining_canditates@);
        }
        counts
    }
}

} // verus!
