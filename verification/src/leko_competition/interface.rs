//! The judging protocol's data: per-position responses and the history of
//! rounds played so far.
//!
//! The protocol itself is line-oriented standard input/output and lives with
//! the caller; this module holds the typed responses, their token parsing,
//! and the check that ends a round.

use vstd::prelude::*;

verus! {

/// One per-position response of the judge.
#[derive(Debug, Clone)]
pub enum Response {
    Absent,
    Present,
    Correct,
}

/// One played round: the word as characters, and the judge's five responses.
#[derive(Debug)]
pub struct History {
    pub word: Vec<char>,
    pub response: Vec<Response>,
}

/// The response a protocol token denotes, if any.
pub open spec fn response_of_token(t: Seq<char>) -> Option<Response> {
    if t == "correct"@ {
        Some(Response::Correct)
    } else if t == "present"@ {
        Some(Response::Present)
    } else if t == "absent"@ {
        Some(Response::Absent)
    } else {
        None
    }
}

impl Response {
    /// Parses one protocol token. Any unrecognized token is a protocol
    /// violation and comes back as an error.
    pub fn from_token(s: &str) -> (r: Result<Response, String>)
        ensures
            r is Ok <==> response_of_token(s@) is Some,
            r matches Ok(x) ==> Some(x) == response_of_token(s@),
    {
        let owned = s.to_owned();
        if owned == "correct".to_owned() {
            Ok(Response::Correct)
        } else if owned == "present".to_owned() {
            Ok(Response::Present)
        } else if owned == "absent".to_owned() {
            Ok(Response::Absent)
        } else {
            Err("unrecognized response".to_owned())
        }
    }
}

/// Whether every response of a round is `Correct`, which ends the round.
pub fn all_correct(responses: &Vec<Response>) -> (r: bool)
    ensures
        r <==> (forall|i: int| 0 <= i < responses@.len() ==> responses@[i] is Correct),
{
    for i in 0..responses.len()
        invariant
            forall|j: int| 0 <= j < i ==> responses@[j] is Correct,
    {
        if !(matches!(responses[i], Response::Correct)) {
            return false;
        }
    }
    true
}

} // verus!
