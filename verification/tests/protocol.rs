use wordle_solver::enums::{Status, Word};
use wordle_solver::leko_competition::bridge::opening_guess;
use wordle_solver::leko_competition::interface::{all_correct, History, Response};
use wordle_solver::repls;
use wordle_solver::tactics::avg_info_max;
use wordle_solver::{get_show_console, set_show_console, Config};

fn words(list: &[&str]) -> Vec<Word> {
    list.iter().map(|s| Word::from_str(s).unwrap()).collect()
}

#[test]
fn response_tokens() {
    assert!(matches!(Response::from_token("correct"), Ok(Response::Correct)));
    assert!(matches!(Response::from_token("present"), Ok(Response::Present)));
    assert!(matches!(Response::from_token("absent"), Ok(Response::Absent)));
    assert!(Response::from_token("CORRECT").is_err());
    assert!(Response::from_token("maybe").is_err());
    assert!(Response::from_token("").is_err());
}

#[test]
fn all_correct_ends_the_round() {
    let done = vec![
        Response::Correct,
        Response::Correct,
        Response::Correct,
        Response::Correct,
        Response::Correct,
    ];
    assert!(all_correct(&done));
    let not_done = vec![
        Response::Correct,
        Response::Present,
        Response::Correct,
        Response::Correct,
        Response::Correct,
    ];
    assert!(!all_correct(&not_done));
    assert!(all_correct(&vec![]));
}

#[test]
fn status_from_responses() {
    let responses = vec![
        Response::Absent,
        Response::Present,
        Response::Absent,
        Response::Absent,
        Response::Correct,
    ];
    let status = Status::from_responses(&responses).unwrap();
    assert_eq!(status.to_string(), "_y__g".to_string());
    assert!(Status::from_responses(&vec![Response::Absent]).is_err());
    assert!(Status::from_responses(&vec![]).is_err());
}

#[test]
fn word_from_chars() {
    let w = Word::from_chars(&vec!['h', 'e', 'l', 'l', 'o']).unwrap();
    assert_eq!(w.to_string(), "hello".to_string());
    assert!(Word::from_chars(&vec!['h', 'i']).is_err());
    assert!(Word::from_chars(&vec!['h', 'e', 'l', 'l', '0']).is_err());
}

#[test]
fn opening_guess_is_soare() {
    assert_eq!(opening_guess().to_string(), "soare".to_string());
}

#[test]
fn replaying_history_filters_in_order() {
    let mut board = avg_info_max::Board::new(
        words(&["abcde", "fghij", "klmno", "pqrst"]),
        words(&["afkpz"]),
    );
    let history = vec![History {
        word: vec!['a', 'f', 'k', 'p', 'z'],
        response: vec![
            Response::Absent,
            Response::Present,
            Response::Absent,
            Response::Absent,
            Response::Absent,
        ],
    }];
    board.apply_history(&history).unwrap();
    assert_eq!(board.remaining_canditates, words(&["fghij"]));
}

#[test]
fn malformed_history_entry_is_an_error() {
    let mut board = avg_info_max::Board::new(words(&["abcde"]), words(&["abcde"]));
    let history = vec![History {
        word: vec!['a', 'b'],
        response: vec![Response::Absent],
    }];
    assert!(board.apply_history(&history).is_err());
    assert_eq!(board.remaining_canditates, words(&["abcde"]));
}

#[test]
fn console_configuration() {
    let mut config = Config::default();
    assert!(!get_show_console(&config));
    set_show_console(&mut config, true);
    assert!(get_show_console(&config));
    set_show_console(&mut config, false);
    assert!(!get_show_console(&config));
}

#[test]
fn session_setup() {
    let (config, board) = repls::avg_info_max(
        words(&["abcde", "fghij"]),
        words(&["afkpz"]),
        true,
    );
    assert!(config.show_console);
    assert_eq!(board.remaining_canditates, words(&["abcde", "fghij"]));
    assert_eq!(board.input_canditates, words(&["afkpz"]));

    let (config, board) = repls::position_freq(
        words(&["abcde"]),
        words(&["afkpz", "abcde"]),
        false,
    );
    assert!(!config.show_console);
    assert_eq!(board.remaining_canditates, words(&["abcde"]));
    assert_eq!(board.input_canditates, words(&["afkpz", "abcde"]));
}
