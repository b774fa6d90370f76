use chess_session::engine::{Candidate, SanReading};
use chess_session::error::GameError;
use chess_session::resolve::{
    find_move, is_answer, moves_of, parse_coordinate, parse_move_with_autopromo, parse_promotion,
    parse_square, parse_uci_to_move, settle_reading, Coordinate,
};
use chess_session::status::{compute_status, evaluate, GameStatus};

const START: &str = "rnbqkbnr/pppppppp/8/8/8/8/PPPPPPPP/RNBQKBNR w KQkq - 0 1";

fn quiet(from: u8, to: u8) -> Candidate {
    Candidate { from: Some(from), to, promotion: None }
}

#[test]
fn squares_are_numbered_from_a1() {
    assert_eq!(parse_square('a', '1'), Some(0));
    assert_eq!(parse_square('h', '1'), Some(7));
    assert_eq!(parse_square('e', '2'), Some(12));
    assert_eq!(parse_square('e', '4'), Some(28));
    assert_eq!(parse_square('a', '8'), Some(56));
    assert_eq!(parse_square('h', '8'), Some(63));
}

#[test]
fn squares_outside_the_board_are_refused() {
    assert_eq!(parse_square('i', '1'), None);
    assert_eq!(parse_square('a', '9'), None);
    assert_eq!(parse_square('a', '0'), None);
    assert_eq!(parse_square('E', '2'), None);
    assert_eq!(parse_square('1', 'a'), None);
}

#[test]
fn promotion_letters_in_either_case() {
    assert_eq!(parse_promotion('q'), Some('q'));
    assert_eq!(parse_promotion('Q'), Some('q'));
    assert_eq!(parse_promotion('r'), Some('r'));
    assert_eq!(parse_promotion('R'), Some('r'));
    assert_eq!(parse_promotion('b'), Some('b'));
    assert_eq!(parse_promotion('B'), Some('b'));
    assert_eq!(parse_promotion('n'), Some('n'));
    assert_eq!(parse_promotion('N'), Some('n'));
    assert_eq!(parse_promotion('k'), None);
    assert_eq!(parse_promotion('p'), None);
    assert_eq!(parse_promotion('x'), None);
}

#[test]
fn coordinate_notation_has_four_or_five_characters() {
    assert_eq!(
        parse_coordinate("e2e4"),
        Some(Coordinate { from: 12, to: 28, promotion: None })
    );
    assert_eq!(
        parse_coordinate("e7e8q"),
        Some(Coordinate { from: 52, to: 60, promotion: Some('q') })
    );
    assert_eq!(
        parse_coordinate("e7e8N"),
        Some(Coordinate { from: 52, to: 60, promotion: Some('n') })
    );
    assert_eq!(parse_coordinate("e2e4x"), None);
    assert_eq!(parse_coordinate("e2e4k"), None);
    assert_eq!(parse_coordinate("e2e4 "), None);
    assert_eq!(parse_coordinate("e7e8="), None);
    assert_eq!(parse_coordinate(""), None);
    assert_eq!(parse_coordinate("e4"), None);
    assert_eq!(parse_coordinate("e2e"), None);
    assert_eq!(parse_coordinate("e2e4qq"), None);
    assert_eq!(parse_coordinate("e2e9"), None);
    assert_eq!(parse_coordinate("Nf3+"), None);
    assert_eq!(parse_coordinate("\u{e9}2e4"), None);
}

#[test]
fn a_move_answers_a_request_by_origin_target_and_promotion() {
    let want = Coordinate { from: 12, to: 28, promotion: None };
    assert!(is_answer(&quiet(12, 28), &want));
    assert!(!is_answer(&quiet(12, 20), &want));
    assert!(!is_answer(&quiet(11, 28), &want));
    assert!(!is_answer(&Candidate { from: None, to: 28, promotion: None }, &want));
}

#[test]
fn an_omitted_promotion_defaults_to_the_queen() {
    let bare = Coordinate { from: 48, to: 56, promotion: None };
    let queen = Candidate { from: Some(48), to: 56, promotion: Some('q') };
    let knight = Candidate { from: Some(48), to: 56, promotion: Some('n') };
    assert!(is_answer(&queen, &bare));
    assert!(!is_answer(&knight, &bare));
    let asked = Coordinate { from: 48, to: 56, promotion: Some('n') };
    assert!(is_answer(&knight, &asked));
    assert!(!is_answer(&queen, &asked));
    assert!(!is_answer(&quiet(48, 56), &asked));
}

#[test]
fn the_first_answering_move_is_picked() {
    let moves = vec![
        Candidate { from: Some(48), to: 56, promotion: Some('n') },
        Candidate { from: Some(48), to: 56, promotion: Some('q') },
        quiet(7, 15),
        Candidate { from: Some(48), to: 56, promotion: Some('q') },
    ];
    assert_eq!(parse_uci_to_move(&moves, "a7a8"), Some(1));
    assert_eq!(parse_uci_to_move(&moves, "a7a8q"), Some(1));
    assert_eq!(parse_uci_to_move(&moves, "a7a8N"), Some(0));
    assert_eq!(parse_uci_to_move(&moves, "a7a8r"), None);
    assert_eq!(parse_uci_to_move(&moves, "h1h2"), Some(2));
    assert_eq!(parse_uci_to_move(&moves, "h1h3"), None);
    assert_eq!(parse_uci_to_move(&moves, "h1h2 "), None);
    assert_eq!(parse_uci_to_move(&moves, "h1h2x"), None);
    assert_eq!(parse_uci_to_move(&moves, "h1h2qq"), None);
    assert_eq!(parse_uci_to_move(&moves, "Rh2"), None);
    assert_eq!(parse_uci_to_move(&Vec::new(), "e2e4"), None);
}

#[test]
fn find_move_gives_the_first_place() {
    let moves = vec![quiet(1, 2), quiet(3, 4), quiet(1, 2)];
    assert_eq!(find_move(&moves, &quiet(1, 2)), Some(0));
    assert_eq!(find_move(&moves, &quiet(3, 4)), Some(1));
    assert_eq!(find_move(&moves, &quiet(4, 3)), None);
}

#[test]
fn settle_reading_maps_each_reading() {
    let moves = vec![quiet(1, 2), quiet(3, 4)];
    assert_eq!(
        settle_reading(&moves, SanReading::NotNotation),
        Err(GameError::ParseError)
    );
    assert_eq!(
        settle_reading(&moves, SanReading::NoSuchMove),
        Err(GameError::IllegalMove)
    );
    assert_eq!(settle_reading(&moves, SanReading::Move(quiet(3, 4))), Ok(1));
    assert_eq!(
        settle_reading(&moves, SanReading::Move(quiet(5, 6))),
        Err(GameError::IllegalMove)
    );
}

#[test]
fn the_initial_position_has_twenty_legal_moves() {
    let moves = moves_of(START);
    assert_eq!(moves.len(), 20);
    assert!(moves.contains(&quiet(12, 28)));
    assert!(moves.contains(&quiet(6, 21)));
    assert!(!moves.contains(&quiet(12, 36)));
}

#[test]
fn a_refused_position_has_no_legal_moves() {
    assert!(moves_of("not a position").is_empty());
    assert!(moves_of("8/8/8/8/8/8/8/8 w - - 0 1").is_empty());
}

#[test]
fn both_notations_resolve_to_the_same_move() {
    let moves = moves_of(START);
    let by_coordinate = parse_move_with_autopromo(START, "e2e4").unwrap();
    let by_san = parse_move_with_autopromo(START, "e4").unwrap();
    assert_eq!(by_coordinate, by_san);
    assert_eq!(moves[by_coordinate], quiet(12, 28));
    let knight = parse_move_with_autopromo(START, "Nf3").unwrap();
    assert_eq!(moves[knight], quiet(6, 21));
    assert_eq!(parse_move_with_autopromo(START, "g1f3"), Ok(knight));
}

#[test]
fn unresolvable_text_is_told_apart() {
    assert_eq!(parse_move_with_autopromo(START, "e2e5"), Err(GameError::IllegalMove));
    assert_eq!(parse_move_with_autopromo(START, "Nf6"), Err(GameError::IllegalMove));
    assert_eq!(parse_move_with_autopromo(START, "O-O"), Err(GameError::IllegalMove));
    assert_eq!(parse_move_with_autopromo(START, "hello"), Err(GameError::ParseError));
    assert_eq!(parse_move_with_autopromo(START, ""), Err(GameError::ParseError));
    assert_eq!(parse_move_with_autopromo(START, "zz"), Err(GameError::ParseError));
}

#[test]
fn castling_by_coordinates_targets_the_rook() {
    let fen = "r3k2r/8/8/8/8/8/8/R3K2R w KQkq - 0 1";
    let moves = moves_of(fen);
    let short = parse_move_with_autopromo(fen, "O-O").unwrap();
    assert_eq!(moves[short], quiet(4, 7));
    assert_eq!(parse_move_with_autopromo(fen, "e1h1"), Ok(short));
    let long = parse_move_with_autopromo(fen, "O-O-O").unwrap();
    assert_eq!(moves[long], quiet(4, 0));
    assert_eq!(parse_move_with_autopromo(fen, "e1a1"), Ok(long));
}

#[test]
fn status_follows_the_engine_answers() {
    assert!(matches!(evaluate(true, false, true), GameStatus::Ongoing));
    assert!(matches!(evaluate(true, true, false), GameStatus::Ongoing));
    assert!(matches!(
        evaluate(false, true, true),
        GameStatus::Checkmate { winner_white: false }
    ));
    assert!(matches!(
        evaluate(false, true, false),
        GameStatus::Checkmate { winner_white: true }
    ));
    assert!(matches!(evaluate(false, false, true), GameStatus::Stalemate));
    assert!(matches!(evaluate(false, false, false), GameStatus::Stalemate));
}

#[test]
fn status_of_positions() {
    assert!(matches!(compute_status(START), Some(GameStatus::Ongoing)));
    assert!(matches!(
        compute_status("rnb1kbnr/pppp1ppp/8/4p3/6Pq/5P2/PPPPP2P/RNBQKBNR w KQkq - 1 3"),
        Some(GameStatus::Checkmate { winner_white: false })
    ));
    assert!(matches!(
        compute_status("R5k1/5ppp/8/8/8/8/8/7K b - - 1 1"),
        Some(GameStatus::Checkmate { winner_white: true })
    ));
    assert!(matches!(
        compute_status("7k/5Q2/7K/8/8/8/8/8 b - - 1 1"),
        Some(GameStatus::Stalemate)
    ));
    assert!(matches!(
        compute_status("rnbqkbnr/ppppp1pp/8/5p1Q/4P3/8/PPPP1PPP/RNB1KBNR b KQkq - 1 2"),
        Some(GameStatus::Ongoing)
    ));
    assert!(compute_status("not a position").is_none());
    assert!(compute_status("8/8/8/8/8/8/8/8 w - - 0 1").is_none());
}

#[test]
fn a_text_with_a_stray_fifth_character_resolves_to_nothing() {
    assert_eq!(parse_move_with_autopromo(START, "e2e4x"), Err(GameError::ParseError));
    assert_eq!(parse_move_with_autopromo(START, "e2e4zz"), Err(GameError::ParseError));
    assert_eq!(parse_move_with_autopromo(START, "e2e4q"), Err(GameError::ParseError));
}
