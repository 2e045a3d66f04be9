//! The shared candidate-pool core of the scoring strategies: narrowing the
//! pool of remaining answers by an observed feedback pattern.
//!
//! Both strategies keep a `remaining` pool and a fixed guess dictionary and
//! narrow the pool the same way; the narrowing itself, its stability and its
//! idempotence are stated and proved here once.

use vstd::prelude::*;

use crate::enums::{spec_feedback, Alphabet, Status, StatusChar, Word};

verus! {

/// Whether `answer` is consistent with feedback `st` observed for guess `g`:
/// guessing `g` against `answer` would produce exactly that pattern.
pub open spec fn consistent_with(answer: Word, g: Seq<Alphabet>, st: Seq<StatusChar>) -> bool {
    spec_feedback(g, answer@) == st
}

/// The words of `rem`, in order, that are consistent with feedback `st` for
/// guess `g`: a stable filter of the pool.
pub open spec fn surviving(rem: Seq<Word>, g: Seq<Alphabet>, st: Seq<StatusChar>) -> Seq<Word>
    decreases rem.len(),
{
    if rem.len() == 0 {
        Seq::empty()
    } else {
        surviving(rem.drop_last(), g, st) + if consistent_with(rem.last(), g, st) {
            seq![rem.last()]
        } else {
            Seq::empty()
        }
    }
}

/// Narrowing never grows the pool.
pub proof fn lemma_surviving_len(rem: Seq<Word>, g: Seq<Alphabet>, st: Seq<StatusChar>)
    ensures
        surviving(rem, g, st).len() <= rem.len(),
    decreases rem.len(),
{
    if rem.len() > 0 {
        lemma_surviving_len(rem.drop_last(), g, st);
    }
}

/// Every word that survives narrowing is consistent with the feedback.
pub proof fn lemma_surviving_all_consistent(rem: Seq<Word>, g: Seq<Alphabet>, st: Seq<StatusChar>)
    ensures
        forall|k: int|
            0 <= k < surviving(rem, g, st).len() ==> consistent_with(
                #[trigger] surviving(rem, g, st)[k],
                g,
                st,
            ),
    decreases rem.len(),
{
    if rem.len() > 0 {
        lemma_surviving_all_consistent(rem.drop_last(), g, st);
        let s1 = surviving(rem.drop_last(), g, st);
        let s = surviving(rem, g, st);
        assert forall|k: int| 0 <= k < s.len() implies consistent_with(s[k], g, st) by {
            if k < s1.len() {
                assert(s[k] == s1[k]);
            } else {
                assert(s[k] == rem.last());
            }
        }
    }
}

/// Narrowing a pool whose words are all consistent changes nothing.
pub proof fn lemma_surviving_of_consistent(rem: Seq<Word>, g: Seq<Alphabet>, st: Seq<StatusChar>)
    requires
        forall|k: int| 0 <= k < rem.len() ==> consistent_with(#[trigger] rem[k], g, st),
    ensures
        surviving(rem, g, st) == rem,
    decreases rem.len(),
{
    if rem.len() > 0 {
        lemma_surviving_of_consistent(rem.drop_last(), g, st);
        assert(surviving(rem, g, st) =~= rem);
    } else {
        assert(surviving(rem, g, st) =~= rem);
    }
}

/// Narrowing is idempotent in effect: narrowing twice by the same guess and
/// feedback yields the same pool as narrowing once.
pub proof fn lemma_surviving_idempotent(rem: Seq<Word>, g: Seq<Alphabet>, st: Seq<StatusChar>)
    ensures
        surviving(surviving(rem, g, st), g, st) == surviving(rem, g, st),
{
    lemma_surviving_all_consistent(rem, g, st);
    lemma_surviving_of_consistent(surviving(rem, g, st), g, st);
}

/// Computes the narrowed pool: the words of `remaining`, in their original
/// order, whose feedback against `word` equals `status`.
pub fn filter_words(remaining: &Vec<Word>, word: &Word, status: &Status) -> (r: Vec<Word>)
    ensures
        r@ == surviving(remaining@, word@, status@),
        r@.len() <= remaining@.len(),
{
    let mut out: Vec<Word> = Vec::new();
    for i in 0..remaining.len()
        invariant
            out@ == surviving(remaining@.take(i as int), word@, status@),
            out@.len() <= i,
    {
        let answer = remaining[i];
        let computed = Word::to_status(word, &answer);
        if computed == *status {
            out.push(answer);
        }
        proof {
            let t1 = remaining@.take(i + 1);
            assert(t1.drop_last() =~= remaining@.take(i as int));
            assert(t1.last() == remaining@[i as int]);
            assert(out@ =~= surviving(t1, word@, status@));
        }
    }
    proof {
        assert(remaining@.take(remaining@.len() as int) =~= remaining@);
    }
    out
}

} // verus!
