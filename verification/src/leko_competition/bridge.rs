//! Bridging the judging protocol onto the solver: turning responses into
//! feedback patterns, words out of characters, and a played history into a
//! sequence of pool-narrowing steps.

use vstd::prelude::*;

use crate::enums::{is_letter_char, letter_val, Alphabet, Status, StatusChar, Word};
use crate::leko_competition::interface::{History, Response};
use crate::tactics::solver::{filter_words, surviving};

verus! {

/// The feedback symbol a judge response denotes.
pub open spec fn status_of_response(r: Response) -> StatusChar {
    match r {
        Response::Correct => StatusChar::Green,
        Response::Present => StatusChar::Yellow,
        Response::Absent => StatusChar::Gray,
    }
}

impl From<Response> for StatusChar {
    fn from(response: Response) -> (r: Self) {
        match response {
            Response::Correct => StatusChar::Green,
            Response::Present => StatusChar::Yellow,
            Response::Absent => StatusChar::Gray,
        }
    }
}

impl vstd::std_specs::convert::FromSpecImpl<Response> for StatusChar {
    open spec fn obeys_from_spec() -> bool {
        true
    }

    open spec fn from_spec(response: Response) -> StatusChar {
        status_of_response(response)
    }
}

impl Status {
    /// Builds a feedback pattern from a round's responses. Succeeds exactly
    /// on exactly five responses.
    pub fn from_responses(responses: &Vec<Response>) -> (r: Result<Status, String>)
        ensures
            r is Ok <==> responses@.len() == 5,
            r matches Ok(st) ==> st@ == Seq::new(5, |i: int| status_of_response(responses@[i])),
    {
        if responses.len() != 5 {
            return Err("expected exactly 5 responses".to_owned());
        }
        let mut symbols: [StatusChar; 5] = [StatusChar::Gray; 5];
        for i in 0..5
            invariant
                responses@.len() == 5,
                forall|j: int| 0 <= j < i ==> symbols@[j] == status_of_response(responses@[j]),
        {
            symbols[i] = match responses[i] {
                Response::Correct => StatusChar::Green,
                Response::Present => StatusChar::Yellow,
                Response::Absent => StatusChar::Gray,
            };
        }
        let st = Status::from_symbols(symbols);
        proof {
            assert(st@ =~= Seq::new(5, |i: int| status_of_response(responses@[i])));
        }
        Ok(st)
    }
}

impl Word {
    /// Builds a word from a round's characters, case-insensitively. Succeeds
    /// exactly on five letter characters.
    pub fn from_chars(chars: &Vec<char>) -> (r: Result<Word, String>)
        ensures
            r is Ok <==> (chars@.len() == 5 && forall|i: int|
                0 <= i < 5 ==> is_letter_char(chars@[i])),
            r matches Ok(w) ==> w@ == Seq::new(5, |i: int| letter_val(chars@[i])),
    {
        if chars.len() != 5 {
            return Err("word must be exactly 5 letters".to_owned());
        }
        let mut letters: [Alphabet; 5] = [Alphabet::A; 5];
        for i in 0..5
            invariant
                chars@.len() == 5,
                forall|j: int| 0 <= j < i ==> is_letter_char(chars@[j]),
                forall|j: int| 0 <= j < i ==> letters@[j] == letter_val(chars@[j]),
        {
            match Alphabet::from_char(chars[i]) {
                Ok(a) => {
                    letters[i] = a;
                },
                Err(e) => {
                    return Err(e);
                },
            }
        }
        let w = Word::from_letters(letters);
        proof {
            assert(w@ =~= Seq::new(5, |i: int| letter_val(chars@[i])));
        }
        Ok(w)
    }
}

/// The guessed letters a history entry records.
pub open spec fn entry_word(h: History) -> Seq<Alphabet> {
    Seq::new(5, |i: int| letter_val(h.word@[i]))
}

/// The feedback pattern a history entry records.
pub open spec fn entry_status(h: History) -> Seq<StatusChar> {
    Seq::new(5, |i: int| status_of_response(h.response@[i]))
}

/// Whether a history entry is well formed: five letter characters and five
/// responses.
pub open spec fn entry_ok(h: History) -> bool {
    &&& h.word@.len() == 5
    &&& forall|i: int| 0 <= i < 5 ==> is_letter_char(h.word@[i])
    &&& h.response@.len() == 5
}

/// The candidate pool after replaying a history in order, narrowing by each
/// entry's word and feedback in turn.
pub open spec fn replay(rem: Seq<Word>, hist: Seq<History>) -> Seq<Word>
    decreases hist.len(),
{
    if hist.len() == 0 {
        rem
    } else {
        surviving(replay(rem, hist.drop_last()), entry_word(hist.last()), entry_status(hist.last()))
    }
}

/// Replays a history onto a candidate pool: each entry is parsed and applied
/// as a narrowing step, in order. Stops at the first malformed entry,
/// leaving the narrowing of the well-formed prefix in place.
pub fn replay_history(remaining: &mut Vec<Word>, history: &Vec<History>) -> (r: Result<
    (),
    String,
>)
    ensures
        r is Ok <==> (forall|j: int| 0 <= j < history@.len() ==> entry_ok(#[trigger] history@[j])),
        r is Ok ==> final(remaining)@ == replay(old(remaining)@, history@),
        r is Err ==> exists|j: int|
            0 <= j < history@.len() && !entry_ok(#[trigger] history@[j]) && (forall|k: int|
                0 <= k < j ==> entry_ok(#[trigger] history@[k])) && final(remaining)@ == replay(
                old(remaining)@,
                history@.take(j),
            ),
{
    let n = history.len();
    for i in 0..n
        invariant
            n == history@.len(),
            forall|j: int| 0 <= j < i ==> entry_ok(#[trigger] history@[j]),
            remaining@ == replay(old(remaining)@, history@.take(i as int)),
    {
        let h = &history[i];
        let word = match Word::from_chars(&h.word) {
            Ok(w) => w,
            Err(e) => {
                return Err(e);
            },
        };
        let status = match Status::from_responses(&h.response) {
            Ok(st) => st,
            Err(e) => {
                return Err(e);
            },
        };
        let narrowed = filter_words(remaining, &word, &status);
        *remaining = narrowed;
        proof {
            let t1 = history@.take(i + 1);
            assert(t1.drop_last() =~= history@.take(i as int));
            assert(t1.last() == history@[i as int]);
            assert(word@ =~= entry_word(history@[i as int]));
            assert(status@ =~= entry_status(history@[i as int]));
        }
    }
    proof {
        assert(history@.take(history@.len() as int) =~= history@);
    }
    Ok(())
}

/// The documented fixed opening guess, proposed when no round was played
/// yet.
pub fn opening_guess() -> (r: Word)
    ensures
        r@ == seq![Alphabet::S, Alphabet::O, Alphabet::A, Alphabet::R, Alphabet::E],
{
    let letters: [Alphabet; 5] = [Alphabet::S, Alphabet::O, Alphabet::A, Alphabet::R, Alphabet::E];
    let w = Word::from_letters(letters);
    proof {
        assert(w@ =~= seq![Alphabet::S, Alphabet::O, Alphabet::A, Alphabet::R, Alphabet::E]);
    }
    w
}

} // verus!
