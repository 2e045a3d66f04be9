//! The positional-frequency strategy's board: the candidate pool together
//! with the per-letter-per-position occurrence counts its cheaper scoring
//! proxy is based on.
//!
//! Instead of building the full guess-by-answer feedback matrix, this
//! strategy scores a guess from how often each of its letters occurs at each
//! position across the remaining answers. The pseudo-entropy accumulated
//! from those counts is floating-point arithmetic and stays with the caller;
//! the counts themselves, and the first-occurrence rule that avoids crediting
//! a repeated letter twice, are computed and specified here.

use vstd::prelude::*;

use crate::enums::{Status, Word};
use crate::leko_competition::bridge::{entry_ok, replay, replay_history};
use crate::leko_competition::interface::History;
use crate::tactics::solver::{filter_words, surviving};
use vstd::pervasive::VecAdditionalExecFns;

verus! {

/// How many words of `rem` carry the letter of rank `l` at position `p`.
pub open spec fn count_at(rem: Seq<Word>, l: int, p: int) -> int
    decreases rem.len(),
{
    if rem.len() == 0 {
        0
    } else {
        count_at(rem.drop_last(), l, p) + if rem.last()@[p].idx() == l {
            1int
        } else {
            0int
        }
    }
}

/// The candidate pool of the positional-frequency strategy: the answers
/// still possible, and the fixed dictionary of allowed guesses.
pub struct Board {
    /// Answers consistent with all feedback applied so far; only `filter`
    /// shrinks it.
    pub remaining_canditates: Vec<Word>,
    /// The words the solver may propose; never changed after construction.
    pub input_canditates: Vec<Word>,
}

impl Board {
    /// Builds a board over an answer pool and a guess dictionary.
    pub fn new(canditates: Vec<Word>, inputs: Vec<Word>) -> (r: Board)
        ensures
            r.remaining_canditates@ == canditates@,
            r.input_canditates@ == inputs@,
    {
        Board { remaining_canditates: canditates, input_canditates: inputs }
    }

    /// Narrows the remaining answers to those consistent with `status`
    /// observed for `word`: a stable filter that never grows the pool and
    /// leaves the guess dictionary untouched. An empty result is valid and
    /// signals contradictory feedback.
    pub fn filter(&mut self, word: &Word, status: &Status)
        ensures
            final(self).remaining_canditates@ == surviving(
                old(self).remaining_canditates@,
                word@,
                status@,
            ),
            final(self).remaining_canditates@.len() <= old(self).remaining_canditates@.len(),
            final(self).input_canditates@ == old(self).input_canditates@,
    {
        let remaining = filter_words(&self.remaining_canditates, word, status);
        self.remaining_canditates = remaining;
    }

    /// Decides the settled cases of guess selection. An empty pool is an
    /// error: feedback so far was contradictory and no guess is meaningful.
    /// With exactly one candidate left that word is the guess. `Ok(None)`
    /// means scoring over the guess dictionary must decide.
    pub fn next_settled(&self) -> (r: Result<Option<Word>, String>)
        ensures
            r is Err <==> self.remaining_canditates@.len() == 0,
            self.remaining_canditates@.len() == 1 ==> (r matches Ok(w) && w == Some(
                self.remaining_canditates@[0],
            )),
            self.remaining_canditates@.len() > 1 ==> (r matches Ok(w) && w is None),
    {
        if self.remaining_canditates.len() == 0 {
            Err("no candidates remain: feedback so far was contradictory".to_owned())
        } else if self.remaining_canditates.len() == 1 {
            Ok(Some(self.remaining_canditates[0]))
        } else {
            Ok(None)
        }
    }

    /// Replays a judging-protocol history: each entry is parsed and applied
    /// as a filter, in order; the first malformed entry stops the replay
    /// with an error, leaving the narrowing of the prefix before it applied.
    pub fn apply_history(&mut self, history: &Vec<History>) -> (r: Result<(), String>)
        ensures
            r is Ok <==> (forall|j: int|
                0 <= j < history@.len() ==> entry_ok(#[trigger] history@[j])),
            r is Ok ==> final(self).remaining_canditates@ == replay(
                old(self).remaining_canditates@,
                history@,
            ),
            r is Err ==> exists|j: int|
                0 <= j < history@.len() && !entry_ok(#[trigger] history@[j]) && (forall|k: int|
                    0 <= k < j ==> entry_ok(#[trigger] history@[k]))
                    && final(self).remaining_canditates@ == replay(
                    old(self).remaining_canditates@,
                    history@.take(j),
                ),
            final(self).input_canditates@ == old(self).input_canditates@,
    {
        replay_history(&mut self.remaining_canditates, history)
    }

    /// The letter-frequency table for one position: entry `l` of the result
    /// is the number of remaining answers whose letter at `position` has
    /// alphabet rank `l`.
    pub fn letter_counts(&self, position: usize) -> (r: Vec<usize>)
        requires
            position < 5,
        ensures
            r@.len() == 26,
            forall|l: int|
                0 <= l < 26 ==> r@[l] == count_at(
                    self.remaining_canditates@,
                    l,
                    position as int,
                ),
    {
        let n = self.remaining_canditates.len();
        let mut counts: Vec<usize> = Vec::new();
        for z in 0..26
            invariant
                counts@.len() == z,
                forall|l: int| 0 <= l < z ==> counts@[l] == 0,
        {
            counts.push(0);
        }
        for i in 0..n
            invariant
                position < 5,
                n == self.remaining_canditates@.len(),
                counts@.len() == 26,
                forall|l: int|
                    0 <= l < 26 ==> counts@[l] == count_at(
                        self.remaining_canditates@.take(i as int),
                        l,
                        position as int,
                    ),
                forall|l: int| 0 <= l < 26 ==> counts@[l] <= i,
        {
            let w = self.remaining_canditates[i];
            let l = w.letter(position).index();
            assert(l < 26);
            let current = counts[l];
            counts.set(l, current + 1);
            proof {
                let t1 = self.remaining_canditates@.take(i + 1);
                assert(t1.drop_last() =~= self.remaining_canditates@.take(i as int));
                assert(t1.last() == self.remaining_canditates@[i as int]);
                assert(forall|l2: int|
                    0 <= l2 < 26 ==> count_at(t1, l2, position as int) == count_at(
                        self.remaining_canditates@.take(i as int),
                        l2,
                        position as int,
                    ) + if t1.last()@[position as int].idx() == l2 {
                        1int
                    } else {
                        0int
                    });
            }
        }
        proof {
            assert(self.remaining_canditates@.take(self.remaining_canditates@.len() as int)
                =~= self.remaining_canditates@);
        }
        counts
    }
}

/// Whether position `i` holds the first occurrence of its letter within the
/// word. The scoring proxy credits information only at a letter's first
/// occurrence in a guess, so a repeated letter is not counted twice.
pub fn first_occurrence(w: &Word, i: usize) -> (r: bool)
    requires
        i < 5,
    ensures
        r <==> forall|j: int| 0 <= j < i ==> w@[j] != w@[i as int],
{
    let target = w.letter(i);
    for j in 0..i
        invariant
            i < 5,
            target == w@[i as int],
            forall|k: int| 0 <= k < j ==> w@[k] != w@[i as int],
    {
        if w.letter(j) == target {
            return false;
        }
    }
    true
}

} // verus!
