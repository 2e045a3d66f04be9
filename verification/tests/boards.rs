use wordle_solver::enums::{Status, Word};
use wordle_solver::tactics::{avg_info_max, position_freq};

fn words(list: &[&str]) -> Vec<Word> {
    list.iter().map(|s| Word::from_str(s).unwrap()).collect()
}

fn entropy_bits(counts: &[usize], n: usize) -> f64 {
    let mut h = 0f64;
    for &c in counts {
        if c > 0 {
            let p = c as f64 / n as f64;
            h += -p * p.log2();
        }
    }
    h
}

#[test]
fn filter() {
    let mut board = avg_info_max::Board::new(
        words(&["abcde", "fghij", "klmno", "pqrst"]),
        words(&["afkpz", "fghij", "klmno", "pqrst"]),
    );
    board.filter(
        &Word::from_str("afpkz").unwrap(),
        &Status::from_str("_y___").unwrap(),
    );
    assert_eq!(board.remaining_canditates, words(&["fghij"]));
}

#[test]
fn info() {
    let board = avg_info_max::Board::new(
        words(&["abcde", "fghij", "klmno", "pqrst"]),
        words(&["afkpz", "fghij", "klmno", "pqrst"]),
    );
    // The floating-point scoring kernel over the verified pattern counts:
    // entropy of each guess, first maximum wins.
    let n = board.remaining_canditates.len();
    let mut best: Option<(Word, f64)> = None;
    for guess in board.input_canditates.iter() {
        let counts = board.pattern_counts(guess);
        let h = entropy_bits(&counts, n);
        match best {
            Some((_, best_h)) if h <= best_h => {}
            _ => best = Some((*guess, h)),
        }
    }
    let (next, info) = best.unwrap();
    assert_eq!(next, Word::from_str("afkpz").unwrap());
    assert_eq!(info, 2f64);
}

#[test]
fn filter_matches_spec_pool() {
    let mut board = position_freq::Board::new(
        words(&["abcde", "fghij", "klmno", "pqrst"]),
        words(&["afkpz", "fghij", "klmno", "pqrst"]),
    );
    board.filter(
        &Word::from_str("afkpz").unwrap(),
        &Status::from_str("_y___").unwrap(),
    );
    assert_eq!(board.remaining_canditates, words(&["fghij"]));
}

#[test]
fn filter_never_grows_the_pool() {
    let mut board = avg_info_max::Board::new(
        words(&["abcde", "fghij", "klmno", "pqrst"]),
        words(&["afkpz"]),
    );
    let before = board.remaining_canditates.len();
    board.filter(
        &Word::from_str("afkpz").unwrap(),
        &Status::from_str("_____").unwrap(),
    );
    assert!(board.remaining_canditates.len() <= before);
}

#[test]
fn filter_twice_same_as_once() {
    let guess = Word::from_str("afkpz").unwrap();
    let status = Status::from_str("_y___").unwrap();
    let mut once = avg_info_max::Board::new(
        words(&["abcde", "fghij", "klmno", "pqrst"]),
        words(&["afkpz"]),
    );
    once.filter(&guess, &status);
    let mut twice = avg_info_max::Board::new(
        words(&["abcde", "fghij", "klmno", "pqrst"]),
        words(&["afkpz"]),
    );
    twice.filter(&guess, &status);
    twice.filter(&guess, &status);
    assert_eq!(once.remaining_canditates, twice.remaining_canditates);
}

#[test]
fn sole_candidate_is_next_for_both_strategies() {
    let avg = avg_info_max::Board::new(words(&["fghij"]), words(&["afkpz", "fghij"]));
    assert_eq!(avg.next_settled().unwrap(), Some(Word::from_str("fghij").unwrap()));
    let freq = position_freq::Board::new(words(&["fghij"]), words(&["afkpz", "fghij"]));
    assert_eq!(freq.next_settled().unwrap(), Some(Word::from_str("fghij").unwrap()));
}

#[test]
fn empty_pool_is_an_error() {
    let avg = avg_info_max::Board::new(words(&[]), words(&["afkpz"]));
    assert!(avg.next_settled().is_err());
    let freq = position_freq::Board::new(words(&[]), words(&["afkpz"]));
    assert!(freq.next_settled().is_err());
}

#[test]
fn two_candidates_are_left_to_scoring() {
    // Only a sole candidate settles the guess; with two candidates left,
    // both strategies still score over the guess dictionary.
    let two = words(&["abcde", "fghij"]);
    let avg = avg_info_max::Board::new(two.clone(), words(&["afkpz"]));
    assert_eq!(avg.next_settled().unwrap(), None);
    let freq = position_freq::Board::new(two, words(&["afkpz"]));
    assert_eq!(freq.next_settled().unwrap(), None);
}

#[test]
fn pattern_counts_group_the_pool() {
    let board = avg_info_max::Board::new(
        words(&["abcde", "fghij"]),
        words(&["abcde"]),
    );
    let counts = board.pattern_counts(&Word::from_str("abcde").unwrap());
    assert_eq!(counts.len(), 243);
    // "abcde" vs itself is all green (code 242); vs "fghij" all gray (code 0).
    assert_eq!(counts[242], 1);
    assert_eq!(counts[0], 1);
    let total: usize = counts.iter().sum();
    assert_eq!(total, 2);
}

#[test]
fn pattern_counts_of_separating_guess_are_all_singletons() {
    let board = avg_info_max::Board::new(
        words(&["abcde", "fghij", "klmno", "pqrst"]),
        words(&["afkpz", "fghij", "klmno", "pqrst"]),
    );
    let counts = board.pattern_counts(&Word::from_str("afkpz").unwrap());
    let nonzero: Vec<usize> = counts.iter().cloned().filter(|&c| c > 0).collect();
    assert_eq!(nonzero, vec![1, 1, 1, 1]);
}

#[test]
fn letter_counts_count_positions() {
    let board = position_freq::Board::new(
        words(&["abcde", "abxyz"]),
        words(&["abcde"]),
    );
    let at0 = board.letter_counts(0);
    assert_eq!(at0.len(), 26);
    assert_eq!(at0[0], 2); // both words start with 'a'
    let at2 = board.letter_counts(2);
    assert_eq!(at2[2], 1); // 'c' in "abcde"
    assert_eq!(at2[23], 1); // 'x' in "abxyz"
    assert_eq!(at2[0], 0);
}

#[test]
fn first_occurrence_skips_repeated_letters() {
    let w = Word::from_str("alpha").unwrap();
    assert!(position_freq::first_occurrence(&w, 0)); // first 'a'
    assert!(position_freq::first_occurrence(&w, 1)); // 'l'
    assert!(position_freq::first_occurrence(&w, 2)); // 'p'
    assert!(position_freq::first_occurrence(&w, 3)); // 'h'
    assert!(!position_freq::first_occurrence(&w, 4)); // repeated 'a'
}
