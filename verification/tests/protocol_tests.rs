use uci_core::protocol::banner_accepted;
use uci_core::protocol::is_ready_ack;
use uci_core::protocol::match_bestmove;
use uci_core::protocol::match_current_move;
use uci_core::protocol::option_response_accepted;
use uci_core::protocol::str_eq;

#[test]
fn ready_ack_recognized() {
    assert!(is_ready_ack("readyok"));
    assert!(is_ready_ack("readyok\n"));
    assert!(is_ready_ack("  readyok \r\n"));
    assert!(!is_ready_ack("ready"));
    assert!(!is_ready_ack("readyok now"));
    assert!(!is_ready_ack(""));
}

#[test]
fn terminal_line_move() {
    assert_eq!(match_bestmove("bestmove e2e4 ponder e7e5"), Some("e2e4".to_string()));
    assert_eq!(match_bestmove("bestmove e7e8q\n"), Some("e7e8q".to_string()));
    assert_eq!(match_bestmove("bestmove"), Some("".to_string()));
    assert_eq!(match_bestmove("info depth 10"), None);
    assert_eq!(match_bestmove(" bestmove e2e4"), None);
}

#[test]
fn banner_check() {
    assert!(banner_accepted("Stockfish 16 by the Stockfish developers (see AUTHORS file)"));
    assert!(!banner_accepted("Leela Chess Zero"));
    assert!(!banner_accepted("stockfish lower case"));
}

#[test]
fn progress_line_move() {
    assert_eq!(
        match_current_move("info depth 10 seldepth 13 score cp 31 pv e2e4"),
        Some("e2e4".to_string())
    );
    assert_eq!(
        match_current_move("info depth 10 currmove e2e4 currmovenumber 1"),
        Some("e2e4".to_string())
    );
    assert_eq!(match_current_move("info string hello"), None);
}

#[test]
fn option_response_classes() {
    assert!(option_response_accepted(""));
    assert!(option_response_accepted("info string available processors: 8"));
    assert!(!option_response_accepted("No such option: 'Frobnicate'"));
}

#[test]
fn exact_text_equality() {
    assert!(str_eq("readyok", "readyok"));
    assert!(!str_eq("readyok", "readyok\n"));
    assert!(!str_eq("", "a"));
    assert!(str_eq("", ""));
}
