use uci_core::text::contains_str;
use uci_core::text::join_strings;
use uci_core::text::last_token;
use uci_core::text::split_tokens;
use uci_core::text::starts_with_str;
use uci_core::text::token_at_or_empty;
use uci_core::text::trim_str;
use uci_core::text::u32_string;

#[test]
fn starts_with_basic() {
    assert!(starts_with_str("bestmove e2e4", "bestmove"));
    assert!(starts_with_str("bestmove", "bestmove"));
    assert!(!starts_with_str("bestmov", "bestmove"));
    assert!(!starts_with_str("info bestmove", "bestmove"));
    assert!(starts_with_str("anything", ""));
}

#[test]
fn contains_basic() {
    assert!(contains_str("Stockfish 16 by the Stockfish developers", "Stockfish"));
    assert!(contains_str("info depth 10", "depth"));
    assert!(!contains_str("info deep 10", "depth"));
    assert!(contains_str("abc", ""));
    assert!(contains_str("abc", "abc"));
    assert!(!contains_str("ab", "abc"));
    assert!(contains_str("aab", "ab"));
}

#[test]
fn trim_both_ends() {
    assert_eq!(trim_str("  readyok \r\n"), "readyok");
    assert_eq!(trim_str("readyok"), "readyok");
    assert_eq!(trim_str("   \n"), "");
    assert_eq!(trim_str(""), "");
    assert_eq!(trim_str("a b"), "a b");
}

#[test]
fn tokens_split() {
    let v = split_tokens("bestmove e2e4 ponder e7e5\n");
    assert_eq!(v, vec!["bestmove", "e2e4", "ponder", "e7e5"]);
    let empty = split_tokens("   \n");
    assert_eq!(empty.len(), 0);
    let one = split_tokens("stop");
    assert_eq!(one, vec!["stop"]);
}

#[test]
fn token_positions() {
    assert_eq!(token_at_or_empty("bestmove e2e4 ponder e7e5", 1), "e2e4");
    assert_eq!(token_at_or_empty("bestmove", 1), "");
    assert_eq!(token_at_or_empty("info depth 10 currmove e2e4 currmovenumber 1", 4), "e2e4");
    assert_eq!(last_token("info depth 10 pv e2e4"), "e2e4");
    assert_eq!(last_token("  "), "");
}

#[test]
fn join_with_separators() {
    let moves: Vec<String> = vec!["e2e4".to_string(), "e7e5".to_string()];
    assert_eq!(join_strings(&moves, " "), "e2e4 e7e5");
    let none: Vec<String> = Vec::new();
    assert_eq!(join_strings(&none, " "), "");
    let one: Vec<String> = vec!["e2e4".to_string()];
    assert_eq!(join_strings(&one, " "), "e2e4");
    let lines: Vec<String> = vec!["a".to_string(), "".to_string(), "b".to_string()];
    assert_eq!(join_strings(&lines, "\n"), "a\n\nb");
}

#[test]
fn decimal_rendering() {
    assert_eq!(u32_string(0), "0");
    assert_eq!(u32_string(7), "7");
    assert_eq!(u32_string(100), "100");
    assert_eq!(u32_string(4294967295), "4294967295");
}
