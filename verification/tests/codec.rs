use wordle_solver::enums::{Alphabet, Status, StatusChar, Word};

#[test]
fn word() {
    let word: Word = Word::from_str("acegi").unwrap();
    let answer: Word = Word::from_str("abcde").unwrap();
    let status = Word::to_status(&word, &answer);
    assert_eq!(status.to_string(), "gyy__".to_string());
}

#[test]
fn duplicated() {
    let word: Word = Word::from_str("alpha").unwrap();
    let answer: Word = Word::from_str("abcde").unwrap();
    let status = Word::to_status(&word, &answer);
    assert_eq!(status.to_string(), "g____".to_string());
}

#[test]
fn self_feedback_is_all_green() {
    for s in ["soare", "abcde", "zzzzz", "alpha"] {
        let w = Word::from_str(s).unwrap();
        let status = Word::to_status(&w, &w);
        assert_eq!(status.to_string(), "ggggg".to_string());
    }
}

#[test]
fn disjoint_feedback_is_all_gray() {
    let w1 = Word::from_str("abcde").unwrap();
    let w2 = Word::from_str("fghij").unwrap();
    assert_eq!(Word::to_status(&w1, &w2).to_string(), "_____".to_string());
    assert_eq!(Word::to_status(&w2, &w1).to_string(), "_____".to_string());
}

#[test]
fn word_parsing_is_case_insensitive() {
    let upper = Word::from_str("AbCdE").unwrap();
    let lower = Word::from_str("abcde").unwrap();
    assert_eq!(upper, lower);
    assert_eq!(upper.to_string(), "abcde".to_string());
}

#[test]
fn word_round_trip() {
    for s in ["hello", "soare", "quirk"] {
        assert_eq!(Word::from_str(s).unwrap().to_string(), s.to_string());
    }
}

#[test]
fn word_parse_rejects_wrong_length() {
    assert!(Word::from_str("abcd").is_err());
    assert!(Word::from_str("abcdef").is_err());
    assert!(Word::from_str("").is_err());
}

#[test]
fn word_parse_rejects_bad_characters() {
    assert!(Word::from_str("abc1e").is_err());
    assert!(Word::from_str("ab_de").is_err());
    assert!(Word::from_str("ab de").is_err());
}

#[test]
fn status_round_trip() {
    for s in ["gyy__", "_____", "ggggg", "y_g_y"] {
        assert_eq!(Status::from_str(s).unwrap().to_string(), s.to_string());
    }
}

#[test]
fn status_parse_rejects_bad_input() {
    assert!(Status::from_str("gyy_").is_err());
    assert!(Status::from_str("gyy___").is_err());
    assert!(Status::from_str("gyx__").is_err());
    assert!(Status::from_str("GYY__").is_err());
}

#[test]
fn alphabet_parsing() {
    assert!(matches!(Alphabet::from_str("q"), Ok(Alphabet::Q)));
    assert!(matches!(Alphabet::from_str("Q"), Ok(Alphabet::Q)));
    assert!(Alphabet::from_str("1").is_err());
    assert!(Alphabet::from_str("_").is_err());
    assert!(Alphabet::from_str("ab").is_err());
    assert_eq!(Alphabet::Z.to_string(), "z".to_string());
    assert_eq!(Alphabet::A.index(), 0);
    assert_eq!(Alphabet::Z.index(), 25);
}

#[test]
fn status_char_parsing() {
    assert!(matches!(StatusChar::from_str("g"), Ok(StatusChar::Green)));
    assert!(matches!(StatusChar::from_str("y"), Ok(StatusChar::Yellow)));
    assert!(matches!(StatusChar::from_str("_"), Ok(StatusChar::Gray)));
    assert!(StatusChar::from_str("x").is_err());
    assert!(StatusChar::from_str("gg").is_err());
    assert_eq!(StatusChar::Yellow.to_string(), "y".to_string());
}

#[test]
fn pattern_codes() {
    assert_eq!(Status::from_str("_____").unwrap().code(), 0);
    assert_eq!(Status::from_str("g____").unwrap().code(), 2);
    assert_eq!(Status::from_str("_y___").unwrap().code(), 3);
    assert_eq!(Status::from_str("ggggg").unwrap().code(), 242);
}

#[test]
fn pattern_code_round_trip() {
    assert_eq!(Status::from_code(3).to_string(), "_y___".to_string());
    for k in 0..243 {
        assert_eq!(Status::from_code(k).code(), k);
    }
}
