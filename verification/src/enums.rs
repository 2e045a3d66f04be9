//! Letters, words and feedback patterns, together with the feedback codec.
//!
//! A word is a fixed sequence of exactly five letters; a feedback pattern
//! (`Status`) is a fixed sequence of five per-position symbols. Feedback is
//! computed by a two-pass algorithm that consumes matched answer letters so
//! that repeated letters in a guess are credited at most as often as they
//! occur in the answer.

use vstd::prelude::*;
use vstd::string::StrSliceExecFns;
use vstd::string::StringExecFns;

verus! {

broadcast use vstd::array::group_array_axioms;

/// One of the 26 letter symbols, plus `Omega`, the bookkeeping marker that
/// stands for an answer letter already consumed during feedback computation.
/// `Omega` is excluded from parsing and never occurs in a well-formed `Word`;
/// it only appears in the codec's internal working copy of the answer.
#[derive(PartialEq, Eq, Structural, Clone, Copy, Debug)]
pub enum Alphabet {
    A,
    B,
    C,
    D,
    E,
    F,
    G,
    H,
    I,
    J,
    K,
    L,
    M,
    N,
    O,
    P,
    Q,
    R,
    S,
    T,
    U,
    V,
    W,
    X,
    Y,
    Z,
    Omega,
}

/// The letter a character denotes, upper or lower case; any character that
/// denotes no letter maps to the sentinel, which `is_letter_char` excludes.
pub open spec fn letter_val(c: char) -> Alphabet {
    if c == 'a' || c == 'A' {
        Alphabet::A
    } else if c == 'b' || c == 'B' {
        Alphabet::B
    } else if c == 'c' || c == 'C' {
        Alphabet::C
    } else if c == 'd' || c == 'D' {
        Alphabet::D
    } else if c == 'e' || c == 'E' {
        Alphabet::E
    } else if c == 'f' || c == 'F' {
        Alphabet::F
    } else if c == 'g' || c == 'G' {
        Alphabet::G
    } else if c == 'h' || c == 'H' {
        Alphabet::H
    } else if c == 'i' || c == 'I' {
        Alphabet::I
    } else if c == 'j' || c == 'J' {
        Alphabet::J
    } else if c == 'k' || c == 'K' {
        Alphabet::K
    } else if c == 'l' || c == 'L' {
        Alphabet::L
    } else if c == 'm' || c == 'M' {
        Alphabet::M
    } else if c == 'n' || c == 'N' {
        Alphabet::N
    } else if c == 'o' || c == 'O' {
        Alphabet::O
    } else if c == 'p' || c == 'P' {
        Alphabet::P
    } else if c == 'q' || c == 'Q' {
        Alphabet::Q
    } else if c == 'r' || c == 'R' {
        Alphabet::R
    } else if c == 's' || c == 'S' {
        Alphabet::S
    } else if c == 't' || c == 'T' {
        Alphabet::T
    } else if c == 'u' || c == 'U' {
        Alphabet::U
    } else if c == 'v' || c == 'V' {
        Alphabet::V
    } else if c == 'w' || c == 'W' {
        Alphabet::W
    } else if c == 'x' || c == 'X' {
        Alphabet::X
    } else if c == 'y' || c == 'Y' {
        Alphabet::Y
    } else if c == 'z' || c == 'Z' {
        Alphabet::Z
    } else {
        Alphabet::Omega
    }
}

/// Whether a character denotes a letter (a–z, case-insensitive).
pub open spec fn is_letter_char(c: char) -> bool {
    letter_val(c) != Alphabet::Omega
}

/// The lower-case character that renders a letter; the sentinel renders as
/// an underscore, though it never occurs in a well-formed word.
pub open spec fn char_of(a: Alphabet) -> char {
    match a {
        Alphabet::A => 'a',
        Alphabet::B => 'b',
        Alphabet::C => 'c',
        Alphabet::D => 'd',
        Alphabet::E => 'e',
        Alphabet::F => 'f',
        Alphabet::G => 'g',
        Alphabet::H => 'h',
        Alphabet::I => 'i',
        Alphabet::J => 'j',
        Alphabet::K => 'k',
        Alphabet::L => 'l',
        Alphabet::M => 'm',
        Alphabet::N => 'n',
        Alphabet::O => 'o',
        Alphabet::P => 'p',
        Alphabet::Q => 'q',
        Alphabet::R => 'r',
        Alphabet::S => 's',
        Alphabet::T => 't',
        Alphabet::U => 'u',
        Alphabet::V => 'v',
        Alphabet::W => 'w',
        Alphabet::X => 'x',
        Alphabet::Y => 'y',
        Alphabet::Z => 'z',
        Alphabet::Omega => '_',
    }
}

impl Alphabet {
    /// The letter's rank in the alphabet, 0 through 25; the sentinel ranks 26.
    pub open spec fn idx(self) -> int {
        match self {
            Alphabet::A => 0,
            Alphabet::B => 1,
            Alphabet::C => 2,
            Alphabet::D => 3,
            Alphabet::E => 4,
            Alphabet::F => 5,
            Alphabet::G => 6,
            Alphabet::H => 7,
            Alphabet::I => 8,
            Alphabet::J => 9,
            Alphabet::K => 10,
            Alphabet::L => 11,
            Alphabet::M => 12,
            Alphabet::N => 13,
            Alphabet::O => 14,
            Alphabet::P => 15,
            Alphabet::Q => 16,
            Alphabet::R => 17,
            Alphabet::S => 18,
            Alphabet::T => 19,
            Alphabet::U => 20,
            Alphabet::V => 21,
            Alphabet::W => 22,
            Alphabet::X => 23,
            Alphabet::Y => 24,
            Alphabet::Z => 25,
            Alphabet::Omega => 26,
        }
    }

    /// Executable alphabet rank.
    pub fn index(self) -> (r: usize)
        ensures
            r == self.idx(),
    {
        match self {
            Alphabet::A => 0,
            Alphabet::B => 1,
            Alphabet::C => 2,
            Alphabet::D => 3,
            Alphabet::E => 4,
            Alphabet::F => 5,
            Alphabet::G => 6,
            Alphabet::H => 7,
            Alphabet::I => 8,
            Alphabet::J => 9,
            Alphabet::K => 10,
            Alphabet::L => 11,
            Alphabet::M => 12,
            Alphabet::N => 13,
            Alphabet::O => 14,
            Alphabet::P => 15,
            Alphabet::Q => 16,
            Alphabet::R => 17,
            Alphabet::S => 18,
            Alphabet::T => 19,
            Alphabet::U => 20,
            Alphabet::V => 21,
            Alphabet::W => 22,
            Alphabet::X => 23,
            Alphabet::Y => 24,
            Alphabet::Z => 25,
            Alphabet::Omega => 26,
        }
    }

    /// Parses a one-character string as a letter, case-insensitively.
    pub fn from_str(s: &str) -> (r: Result<Alphabet, String>)
        ensures
            r is Ok <==> (s@.len() == 1 && is_letter_char(s@[0])),
            r matches Ok(a) ==> a == letter_val(s@[0]),
    {
        if s.unicode_len() != 1 {
            return Err("not a char".to_owned());
        }
        let c = s.get_char(0);
        Self::from_char(c)
    }

    /// Parses one character as a letter, case-insensitively; the sentinel is
    /// not parseable.
    pub fn from_char(c: char) -> (r: Result<Alphabet, String>)
        ensures
            r is Ok <==> is_letter_char(c),
            r matches Ok(a) ==> a == letter_val(c),
    {
        match c {
            'a' | 'A' => Ok(Alphabet::A),
            'b' | 'B' => Ok(Alphabet::B),
            'c' | 'C' => Ok(Alphabet::C),
            'd' | 'D' => Ok(Alphabet::D),
            'e' | 'E' => Ok(Alphabet::E),
            'f' | 'F' => Ok(Alphabet::F),
            'g' | 'G' => Ok(Alphabet::G),
            'h' | 'H' => Ok(Alphabet::H),
            'i' | 'I' => Ok(Alphabet::I),
            'j' | 'J' => Ok(Alphabet::J),
            'k' | 'K' => Ok(Alphabet::K),
            'l' | 'L' => Ok(Alphabet::L),
            'm' | 'M' => Ok(Alphabet::M),
            'n' | 'N' => Ok(Alphabet::N),
            'o' | 'O' => Ok(Alphabet::O),
            'p' | 'P' => Ok(Alphabet::P),
            'q' | 'Q' => Ok(Alphabet::Q),
            'r' | 'R' => Ok(Alphabet::R),
            's' | 'S' => Ok(Alphabet::S),
            't' | 'T' => Ok(Alphabet::T),
            'u' | 'U' => Ok(Alphabet::U),
            'v' | 'V' => Ok(Alphabet::V),
            'w' | 'W' => Ok(Alphabet::W),
            'x' | 'X' => Ok(Alphabet::X),
            'y' | 'Y' => Ok(Alphabet::Y),
            'z' | 'Z' => Ok(Alphabet::Z),
            _ => Err("not a char".to_owned()),
        }
    }

    /// The letter as a one-character lower-case string.
    pub fn to_string(self) -> (r: String)
        ensures
            r@ == seq![char_of(self)],
    {
        let s: &str = match self {
            Alphabet::A => "a",
            Alphabet::B => "b",
            Alphabet::C => "c",
            Alphabet::D => "d",
            Alphabet::E => "e",
            Alphabet::F => "f",
            Alphabet::G => "g",
            Alphabet::H => "h",
            Alphabet::I => "i",
            Alphabet::J => "j",
            Alphabet::K => "k",
            Alphabet::L => "l",
            Alphabet::M => "m",
            Alphabet::N => "n",
            Alphabet::O => "o",
            Alphabet::P => "p",
            Alphabet::Q => "q",
            Alphabet::R => "r",
            Alphabet::S => "s",
            Alphabet::T => "t",
            Alphabet::U => "u",
            Alphabet::V => "v",
            Alphabet::W => "w",
            Alphabet::X => "x",
            Alphabet::Y => "y",
            Alphabet::Z => "z",
            Alphabet::Omega => "_",
        };
        proof {
            reveal_strlit("a");
            reveal_strlit("b");
            reveal_strlit("c");
            reveal_strlit("d");
            reveal_strlit("e");
            reveal_strlit("f");
            reveal_strlit("g");
            reveal_strlit("h");
            reveal_strlit("i");
            reveal_strlit("j");
            reveal_strlit("k");
            reveal_strlit("l");
            reveal_strlit("m");
            reveal_strlit("n");
            reveal_strlit("o");
            reveal_strlit("p");
            reveal_strlit("q");
            reveal_strlit("r");
            reveal_strlit("s");
            reveal_strlit("t");
            reveal_strlit("u");
            reveal_strlit("v");
            reveal_strlit("w");
            reveal_strlit("x");
            reveal_strlit("y");
            reveal_strlit("z");
            reveal_strlit("_");
            assert(s@ =~= seq![char_of(self)]);
        }
        s.to_owned()
    }
}

/// The per-position feedback symbol: absent (gray), present elsewhere
/// (yellow), or correctly placed (green).
#[derive(PartialEq, Eq, Structural, Clone, Copy, Debug)]
pub enum StatusChar {
    Gray,
    Yellow,
    Green,
}

/// The feedback symbol a character denotes, if any: `_` gray, `y` yellow,
/// `g` green.
pub open spec fn status_val(c: char) -> Option<StatusChar> {
    if c == 'g' {
        Some(StatusChar::Green)
    } else if c == 'y' {
        Some(StatusChar::Yellow)
    } else if c == '_' {
        Some(StatusChar::Gray)
    } else {
        None
    }
}

/// The character that renders a feedback symbol.
pub open spec fn status_char_of(s: StatusChar) -> char {
    match s {
        StatusChar::Gray => '_',
        StatusChar::Yellow => 'y',
        StatusChar::Green => 'g',
    }
}

impl StatusChar {
    /// The symbol's value as a base-3 digit: gray 0, yellow 1, green 2.
    pub open spec fn digit(self) -> int {
        match self {
            StatusChar::Gray => 0,
            StatusChar::Yellow => 1,
            StatusChar::Green => 2,
        }
    }

    /// Executable base-3 digit of the symbol.
    pub fn digit_val(self) -> (r: usize)
        ensures
            r == self.digit(),
    {
        match self {
            StatusChar::Gray => 0,
            StatusChar::Yellow => 1,
            StatusChar::Green => 2,
        }
    }

    /// The symbol with a given base-3 digit; values above two fold to gray,
    /// though callers only pass digits.
    pub fn of_digit(d: usize) -> (r: StatusChar)
        ensures
            d < 3 ==> r.digit() == d,
            d >= 3 ==> r == StatusChar::Gray,
    {
        match d {
            2 => StatusChar::Green,
            1 => StatusChar::Yellow,
            _ => StatusChar::Gray,
        }
    }

    /// Parses a one-character string as a feedback symbol.
    pub fn from_str(s: &str) -> (r: Result<StatusChar, String>)
        ensures
            r is Ok <==> (s@.len() == 1 && status_val(s@[0]) is Some),
            r matches Ok(sc) ==> Some(sc) == status_val(s@[0]),
    {
        if s.unicode_len() != 1 {
            return Err("not a valid status".to_owned());
        }
        let c = s.get_char(0);
        Self::from_feedback_char(c)
    }

    /// Parses one character as a feedback symbol.
    pub fn from_feedback_char(c: char) -> (r: Result<StatusChar, String>)
        ensures
            r is Ok <==> status_val(c) is Some,
            r matches Ok(sc) ==> Some(sc) == status_val(c),
    {
        match c {
            'g' => Ok(StatusChar::Green),
            'y' => Ok(StatusChar::Yellow),
            '_' => Ok(StatusChar::Gray),
            _ => Err("not a valid status".to_owned()),
        }
    }

    /// The symbol as a one-character string.
    pub fn to_string(self) -> (r: String)
        ensures
            r@ == seq![status_char_of(self)],
    {
        let s: &str = match self {
            StatusChar::Gray => "_",
            StatusChar::Yellow => "y",
            StatusChar::Green => "g",
        };
        proof {
            reveal_strlit("_");
            reveal_strlit("y");
            reveal_strlit("g");
            assert(s@ =~= seq![status_char_of(self)]);
        }
        s.to_owned()
    }
}

/// A word: exactly five letters, none of them the sentinel. Values can only
/// be built through the parsing constructors, so every `Word` in circulation
/// is well formed.
#[derive(Clone, Copy, Debug)]
pub struct Word(pub(crate) [Alphabet; 5]);

impl View for Word {
    type V = Seq<Alphabet>;

    closed spec fn view(&self) -> Seq<Alphabet> {
        self.0@
    }
}

impl PartialEq for Word {
    fn eq(&self, other: &Self) -> (r: bool) {
        let r = self.0[0] == other.0[0] && self.0[1] == other.0[1] && self.0[2] == other.0[2]
            && self.0[3] == other.0[3] && self.0[4] == other.0[4];
        proof {
            if r {
                assert(self.0@ =~= other.0@);
            }
        }
        r
    }
}

impl vstd::std_specs::cmp::PartialEqSpecImpl for Word {
    open spec fn obeys_eq_spec() -> bool {
        true
    }

    open spec fn eq_spec(&self, other: &Word) -> bool {
        self@ == other@
    }
}

impl Word {
    #[verifier::type_invariant]
    pub(crate) open spec fn wf(self) -> bool {
        forall|i: int| 0 <= i < 5 ==> self.0@[i] != Alphabet::Omega
    }

    /// Parses a five-letter string, case-insensitively. Succeeds exactly on
    /// strings of five letter characters.
    pub fn from_str(s: &str) -> (r: Result<Word, String>)
        ensures
            r is Ok <==> (s@.len() == 5 && forall|i: int| 0 <= i < 5 ==> is_letter_char(s@[i])),
            r matches Ok(w) ==> w@ == Seq::new(5, |i: int| letter_val(s@[i])),
    {
        if s.unicode_len() != 5 {
            return Err("word must be exactly 5 letters".to_owned());
        }
        let mut letters: [Alphabet; 5] = [Alphabet::A; 5];
        for i in 0..5
            invariant
                s@.len() == 5,
                forall|j: int| 0 <= j < i ==> is_letter_char(s@[j]),
                forall|j: int| 0 <= j < i ==> letters@[j] == letter_val(s@[j]),
        {
            let c = s.get_char(i);
            match Alphabet::from_char(c) {
                Ok(a) => {
                    letters[i] = a;
                },
                Err(e) => {
                    return Err(e);
                },
            }
        }
        let w = Word(letters);
        proof {
            assert(w@ =~= Seq::new(5, |i: int| letter_val(s@[i])));
        }
        Ok(w)
    }

    /// Crate-internal constructor from letters already checked to exclude
    /// the sentinel.
    pub(crate) fn from_letters(letters: [Alphabet; 5]) -> (w: Word)
        requires
            forall|i: int| 0 <= i < 5 ==> letters@[i] != Alphabet::Omega,
        ensures
            w@ == letters@,
    {
        Word(letters)
    }

    /// The letter at a position. Well-formedness of every `Word` rules the
    /// sentinel out.
    pub fn letter(&self, i: usize) -> (r: Alphabet)
        requires
            i < 5,
        ensures
            r == self@[i as int],
            r != Alphabet::Omega,
    {
        proof {
            use_type_invariant(self);
        }
        self.0[i]
    }

    /// The word as a five-character lower-case string.
    pub fn to_string(&self) -> (r: String)
        ensures
            r@ == Seq::new(5, |i: int| char_of(self@[i])),
    {
        proof {
            use_type_invariant(self);
        }
        let mut out = String::new();
        for i in 0..5
            invariant
                out@ =~= Seq::new(i as nat, |j: int| char_of(self@[j])),
        {
            let piece = self.0[i].to_string();
            out.append(piece.as_str());
        }
        proof {
            assert(out@ =~= Seq::new(5, |i: int| char_of(self@[i])));
        }
        out
    }
}

/// A feedback pattern: exactly five feedback symbols, produced by the codec
/// or parsed from the `g`/`y`/`_` notation.
#[derive(Clone, Copy, Debug)]
pub struct Status(pub(crate) [StatusChar; 5]);

impl View for Status {
    type V = Seq<StatusChar>;

    closed spec fn view(&self) -> Seq<StatusChar> {
        self.0@
    }
}

impl PartialEq for Status {
    fn eq(&self, other: &Self) -> (r: bool) {
        let r = self.0[0] == other.0[0] && self.0[1] == other.0[1] && self.0[2] == other.0[2]
            && self.0[3] == other.0[3] && self.0[4] == other.0[4];
        proof {
            if r {
                assert(self.0@ =~= other.0@);
            }
        }
        r
    }
}

impl vstd::std_specs::cmp::PartialEqSpecImpl for Status {
    open spec fn obeys_eq_spec() -> bool {
        true
    }

    open spec fn eq_spec(&self, other: &Status) -> bool {
        self@ == other@
    }
}

impl Status {
    /// Crate-internal constructor from a symbol array.
    pub(crate) fn from_symbols(symbols: [StatusChar; 5]) -> (st: Status)
        ensures
            st@ == symbols@,
    {
        Status(symbols)
    }

    /// Parses a five-character feedback string over the alphabet `g`, `y`,
    /// `_`. Succeeds exactly on strings of five feedback characters.
    pub fn from_str(s: &str) -> (r: Result<Status, String>)
        ensures
            r is Ok <==> (s@.len() == 5 && forall|i: int| 0 <= i < 5 ==> status_val(s@[i]) is Some),
            r matches Ok(st) ==> st@ == Seq::new(5, |i: int| status_val(s@[i])->Some_0),
    {
        if s.unicode_len() != 5 {
            return Err("status must be exactly 5 symbols".to_owned());
        }
        let mut symbols: [StatusChar; 5] = [StatusChar::Gray; 5];
        for i in 0..5
            invariant
                s@.len() == 5,
                forall|j: int| 0 <= j < i ==> status_val(s@[j]) is Some,
                forall|j: int| 0 <= j < i ==> Some(symbols@[j]) == status_val(s@[j]),
        {
            let c = s.get_char(i);
            match StatusChar::from_feedback_char(c) {
                Ok(sc) => {
                    symbols[i] = sc;
                },
                Err(e) => {
                    return Err(e);
                },
            }
        }
        let st = Status(symbols);
        proof {
            assert(st@ =~= Seq::new(5, |i: int| status_val(s@[i])->Some_0));
        }
        Ok(st)
    }

    /// The pattern in the `g`/`y`/`_` notation.
    pub fn to_string(&self) -> (r: String)
        ensures
            r@ == Seq::new(5, |i: int| status_char_of(self@[i])),
    {
        let mut out = String::new();
        for i in 0..5
            invariant
                out@ =~= Seq::new(i as nat, |j: int| status_char_of(self@[j])),
        {
            let piece = self.0[i].to_string();
            out.append(piece.as_str());
        }
        proof {
            assert(out@ =~= Seq::new(5, |i: int| status_char_of(self@[i])));
        }
        out
    }
}

// ---------------------------------------------------------------------------
// The feedback codec.
//
// Pass one marks every position where guess and answer agree as green and
// consumes the matched answer letter. Pass two walks the remaining positions
// in order; a position whose letter still occurs somewhere in the partially
// consumed answer is marked yellow and the leftmost such occurrence is
// consumed; every other position stays gray.
// ---------------------------------------------------------------------------

/// The pattern after pass one: green exactly where guess and answer agree.
pub open spec fn pass1_status(g: Seq<Alphabet>, a: Seq<Alphabet>) -> Seq<StatusChar> {
    Seq::new(5, |i: int| if g[i] == a[i] { StatusChar::Green } else { StatusChar::Gray })
}

/// The working copy of the answer after pass one: matched letters consumed.
pub open spec fn pass1_answer(g: Seq<Alphabet>, a: Seq<Alphabet>) -> Seq<Alphabet> {
    Seq::new(5, |i: int| if g[i] == a[i] { Alphabet::Omega } else { a[i] })
}

/// The least index at or after `i` where `x` occurs in `a`, or -1.
pub open spec fn find_from(a: Seq<Alphabet>, x: Alphabet, i: int) -> int
    recommends
        0 <= i,
    decreases a.len() - i when 0 <= i
{
    if i >= a.len() {
        -1
    } else if a[i] == x {
        i
    } else {
        find_from(a, x, i + 1)
    }
}

/// One step of pass two at position `i`: a gray position whose guess letter
/// still occurs in the working answer turns yellow and consumes the leftmost
/// occurrence; otherwise nothing changes.
pub open spec fn mark_step(
    g: Seq<Alphabet>,
    st: Seq<StatusChar>,
    a: Seq<Alphabet>,
    i: int,
) -> (Seq<StatusChar>, Seq<Alphabet>) {
    if st[i] == StatusChar::Gray && find_from(a, g[i], 0) >= 0 {
        (st.update(i, StatusChar::Yellow), a.update(find_from(a, g[i], 0), Alphabet::Omega))
    } else {
        (st, a)
    }
}

/// The state of pass two after processing positions `0` through `i - 1`.
pub open spec fn mark_upto(
    g: Seq<Alphabet>,
    st: Seq<StatusChar>,
    a: Seq<Alphabet>,
    i: int,
) -> (Seq<StatusChar>, Seq<Alphabet>)
    decreases i,
{
    if i <= 0 {
        (st, a)
    } else {
        let prev = mark_upto(g, st, a, i - 1);
        mark_step(g, prev.0, prev.1, i - 1)
    }
}

/// The feedback pattern of a guess against an answer: pass one, then all
/// five steps of pass two.
pub open spec fn spec_feedback(g: Seq<Alphabet>, a: Seq<Alphabet>) -> Seq<StatusChar> {
    mark_upto(g, pass1_status(g, a), pass1_answer(g, a), 5).0
}

/// The leftmost occurrence of `x` in `a` at or after `i`, executably.
fn find_letter(a: &[Alphabet; 5], x: Alphabet, i: usize) -> (r: Option<usize>)
    requires
        i <= 5,
    ensures
        r matches Some(k) ==> i <= k < 5 && find_from(a@, x, i as int) == k,
        r is None ==> find_from(a@, x, i as int) == -1,
    decreases 5 - i,
{
    if i >= 5 {
        None
    } else if a[i] == x {
        Some(i)
    } else {
        find_letter(a, x, i + 1)
    }
}

impl Word {
    /// Computes the feedback pattern of `word` guessed against `answer`,
    /// with the two-pass consume-on-match treatment of repeated letters.
    /// The caller's `answer` is not changed; consumption happens on an
    /// internal copy, and the sentinel never escapes it.
    pub fn to_status(word: &Word, answer: &Word) -> (r: Status)
        ensures
            r@ == spec_feedback(word@, answer@),
    {
        let mut status: [StatusChar; 5] = [StatusChar::Gray; 5];
        let mut ans: [Alphabet; 5] = answer.0;
        for i in 0..5
            invariant
                forall|j: int| 0 <= j < i ==> status@[j] == pass1_status(word@, answer@)[j],
                forall|j: int| 0 <= j < i ==> ans@[j] == pass1_answer(word@, answer@)[j],
                forall|j: int| i <= j < 5 ==> status@[j] == StatusChar::Gray,
                forall|j: int| i <= j < 5 ==> ans@[j] == answer@[j],
        {
            if word.0[i] == ans[i] {
                status[i] = StatusChar::Green;
                ans[i] = Alphabet::Omega;
            }
        }
        let ghost st1 = pass1_status(word@, answer@);
        let ghost a1 = pass1_answer(word@, answer@);
        proof {
            assert(status@ =~= st1);
            assert(ans@ =~= a1);
        }
        for i in 0..5
            invariant
                status@ == mark_upto(word@, st1, a1, i as int).0,
                ans@ == mark_upto(word@, st1, a1, i as int).1,
        {
            if status[i] == StatusChar::Gray {
                match find_letter(&ans, word.0[i], 0) {
                    Some(k) => {
                        status[i] = StatusChar::Yellow;
                        ans[k] = Alphabet::Omega;
                    },
                    None => {},
                }
            }
            proof {
                assert(mark_upto(word@, st1, a1, i + 1) == mark_step(
                    word@,
                    mark_upto(word@, st1, a1, i as int).0,
                    mark_upto(word@, st1, a1, i as int).1,
                    i as int,
                ));
            }
        }
        let r = Status(status);
        proof {
            assert(r@ == spec_feedback(word@, answer@));
        }
        r
    }
}

/// The base-3 value of a feedback pattern: position `i` contributes its
/// digit times 3 to the `i`-th power, giving each pattern a distinct value
/// below 243.
pub open spec fn spec_code(st: Seq<StatusChar>) -> int {
    st[0].digit() + 3 * st[1].digit() + 9 * st[2].digit() + 27 * st[3].digit() + 81 * st[4].digit()
}

impl Status {
    /// The pattern's base-3 value, used to group answers by pattern.
    pub fn code(&self) -> (r: usize)
        ensures
            r == spec_code(self@),
            r < 243,
    {
        let d0 = self.0[0].digit_val();
        let d1 = self.0[1].digit_val();
        let d2 = self.0[2].digit_val();
        let d3 = self.0[3].digit_val();
        let d4 = self.0[4].digit_val();
        d0 + 3 * d1 + 9 * d2 + 27 * d3 + 81 * d4
    }

    /// The pattern with a given base-3 value: the inverse of `code`, which
    /// enumerates all 243 patterns as the values 0 through 242.
    pub fn from_code(k: usize) -> (r: Status)
        requires
            k < 243,
        ensures
            r@.len() == 5,
            spec_code(r@) == k,
    {
        let q0 = k / 3;
        let q1 = q0 / 3;
        let q2 = q1 / 3;
        let q3 = q2 / 3;
        let d0 = StatusChar::of_digit(k % 3);
        let d1 = StatusChar::of_digit(q0 % 3);
        let d2 = StatusChar::of_digit(q1 % 3);
        let d3 = StatusChar::of_digit(q2 % 3);
        let d4 = StatusChar::of_digit(q3 % 3);
        let st = Status([d0, d1, d2, d3, d4]);
        proof {
            assert(k == k % 3 + 3 * q0);
            assert(q0 == q0 % 3 + 3 * q1);
            assert(q1 == q1 % 3 + 3 * q2);
            assert(q2 == q2 % 3 + 3 * q3);
            assert(q3 < 3);
            assert(q3 % 3 == q3);
            assert(spec_code(st@) == k);
        }
        st
    }
}

/// Two length-5 patterns with the same base-3 value are the same pattern:
/// grouping by value is grouping by pattern.
pub proof fn lemma_code_injective(s1: Seq<StatusChar>, s2: Seq<StatusChar>)
    requires
        s1.len() == 5,
        s2.len() == 5,
        spec_code(s1) == spec_code(s2),
    ensures
        s1 == s2,
{
    assert forall|i: int| 0 <= i < 5 implies s1[i] == s2[i] by {
        assert(s1[i].digit() == s2[i].digit());
    }
    assert(s1 =~= s2);
}

/// A guess against itself is all green: every position matches in pass one,
/// and pass two finds nothing left to mark.
pub proof fn lemma_feedback_self(w: Word)
    ensures
        forall|i: int| 0 <= i < 5 ==> spec_feedback(w@, w@)[i] == StatusChar::Green,
{
    let st1 = pass1_status(w@, w@);
    let a1 = pass1_answer(w@, w@);
    assert(forall|i: int| 0 <= i < 5 ==> st1[i] == StatusChar::Green);
    assert(mark_upto(w@, st1, a1, 0) == (st1, a1));
    assert(mark_upto(w@, st1, a1, 1) == (st1, a1));
    assert(mark_upto(w@, st1, a1, 2) == (st1, a1));
    assert(mark_upto(w@, st1, a1, 3) == (st1, a1));
    assert(mark_upto(w@, st1, a1, 4) == (st1, a1));
    assert(mark_upto(w@, st1, a1, 5) == (st1, a1));
}

/// If `x` occurs nowhere in `a` at or after `i`, the search misses.
proof fn lemma_find_none(a: Seq<Alphabet>, x: Alphabet, i: int)
    requires
        0 <= i,
        forall|k: int| i <= k < a.len() ==> a[k] != x,
    ensures
        find_from(a, x, i) == -1,
    decreases a.len() - i,
{
    if i < a.len() {
        lemma_find_none(a, x, i + 1);
    }
}

/// Two words sharing no letter at all give all-gray feedback: nothing
/// matches in place, and nothing is found elsewhere either.
pub proof fn lemma_feedback_disjoint(w1: Word, w2: Word)
    requires
        forall|i: int, j: int| 0 <= i < 5 && 0 <= j < 5 ==> w1@[i] != w2@[j],
    ensures
        forall|i: int| 0 <= i < 5 ==> spec_feedback(w1@, w2@)[i] == StatusChar::Gray,
{
    let st1 = pass1_status(w1@, w2@);
    let a1 = pass1_answer(w1@, w2@);
    assert(a1 =~= w2@);
    assert(forall|i: int| 0 <= i < 5 ==> st1[i] == StatusChar::Gray);
    lemma_find_none(a1, w1@[0], 0);
    lemma_find_none(a1, w1@[1], 0);
    lemma_find_none(a1, w1@[2], 0);
    lemma_find_none(a1, w1@[3], 0);
    lemma_find_none(a1, w1@[4], 0);
    assert(mark_upto(w1@, st1, a1, 0) == (st1, a1));
    assert(mark_upto(w1@, st1, a1, 1) == (st1, a1));
    assert(mark_upto(w1@, st1, a1, 2) == (st1, a1));
    assert(mark_upto(w1@, st1, a1, 3) == (st1, a1));
    assert(mark_upto(w1@, st1, a1, 4) == (st1, a1));
    assert(mark_upto(w1@, st1, a1, 5) == (st1, a1));
}

} // verus!
