use uci_core::Engine;
use uci_core::EngineError;
use uci_core::Transcript;

fn transcript_of(lines: &[&str]) -> Transcript {
    let owned: Vec<String> = lines.iter().map(|l| l.to_string()).collect();
    Transcript::new(owned)
}

#[test]
fn it_works() {
    let mut engine = Engine::new("stockfish", "Stockfish 16 by the Stockfish developers")
        .unwrap()
        .movetime(200);
    let mut t = transcript_of(&["readyok\n", "bestmove e2e4 ponder e7e5\n"]);
    engine.set_option(&mut t, "Skill Level", "15").unwrap();
    let best_move = engine.bestmove(&mut t, false).unwrap();

    println!("{}", best_move);
}

#[test]
fn new_accepts_engine_banner() {
    let e = Engine::new("stockfish", "Stockfish 16 by the Stockfish developers");
    assert!(e.is_ok());
}

#[test]
fn new_rejects_unrelated_banner() {
    let e = Engine::new("/opt/engines/other", "Some Other Engine v1.0");
    match e {
        Err(EngineError::Message(m)) => {
            assert_eq!(m, "ERROR_STOCKFISH: Stockfish not found at /opt/engines/other");
        }
        _ => panic!("expected a startup failure"),
    }
}

#[test]
fn fixed_search_returns_move_token() {
    let engine = Engine::new("stockfish", "Stockfish 16").unwrap();
    let mut t = transcript_of(&[
        "info depth 1 seldepth 1 score cp 30 pv e2e4\n",
        "info depth 2 seldepth 2 score cp 25 pv e2e4 e7e5\n",
        "bestmove e2e4 ponder e7e5\n",
    ]);
    let mut engine = engine;
    engine.set_position(&mut t, "rnbqkbnr/pppppppp/8/8/8/8/PPPPPPPP/RNBQKBNR w KQkq - 0 1").unwrap();
    let mv = engine.bestmove(&mut t, false).unwrap();
    assert_eq!(mv, "e2e4");
    assert_eq!(mv.len(), 4);
    let written = t.written_so_far();
    assert_eq!(
        written[0],
        "position fen rnbqkbnr/pppppppp/8/8/8/8/PPPPPPPP/RNBQKBNR w KQkq - 0 1 moves \n"
    );
    assert_eq!(written[1], "go movetime 100\n");
}

#[test]
fn fixed_search_returns_promotion_move() {
    let mut engine = Engine::new("stockfish", "Stockfish 16").unwrap().movetime(200);
    let mut t = transcript_of(&["bestmove e7e8q\n"]);
    engine.set_position(&mut t, "4k3/4P3/4K3/8/8/8/8/8 w - - 0 1").unwrap();
    let mv = engine.bestmove(&mut t, false).unwrap();
    assert_eq!(mv, "e7e8q");
    assert_eq!(mv.len(), 5);
    assert_eq!(t.written_so_far()[1], "go movetime 200\n");
}

#[test]
fn configure_twice_stays_in_step() {
    let engine = Engine::new("stockfish", "Stockfish 16").unwrap();
    let mut t = transcript_of(&["readyok\n", "readyok\n"]);
    engine.set_option(&mut t, "Hash", "128").unwrap();
    assert_eq!(t.lines_taken(), 1);
    engine.set_option(&mut t, "Threads", "4").unwrap();
    assert_eq!(t.lines_taken(), 2);
    let written = t.written_so_far();
    assert_eq!(written.len(), 4);
    assert_eq!(written[0], "setoption name Hash value 128\n");
    assert_eq!(written[1], "isready\n");
    assert_eq!(written[2], "setoption name Threads value 4\n");
    assert_eq!(written[3], "isready\n");
}

#[test]
fn unknown_option_reported_and_session_stays_usable() {
    let engine = Engine::new("stockfish", "Stockfish 16").unwrap();
    let mut t = transcript_of(&[
        "No such option: 'Frobnicate'\n",
        "readyok\n",
        "readyok\n",
    ]);
    match engine.set_option(&mut t, "Frobnicate", "1") {
        Err(EngineError::UnknownOption(name)) => assert_eq!(name, "Frobnicate"),
        other => panic!("expected the unknown-option error, got {:?}", other),
    }
    assert_eq!(t.lines_taken(), 2);
    engine.set_option(&mut t, "Hash", "128").unwrap();
    assert_eq!(t.lines_taken(), 3);
}

#[test]
fn option_accepted_on_informational_response() {
    let engine = Engine::new("stockfish", "Stockfish 16").unwrap();
    let mut t = transcript_of(&["info string classical evaluation enabled\n", "readyok\n"]);
    engine.set_option(&mut t, "Use NNUE", "false").unwrap();
}

#[test]
fn set_position_twice_overwrites() {
    let mut engine = Engine::new("stockfish", "Stockfish 16").unwrap();
    let mut t = transcript_of(&["bestmove c8b7\n"]);
    engine.set_position(&mut t, "8/8/8/8/8/8/8/K6k w - - 0 1").unwrap();
    engine.set_position(&mut t, "2k4R/8/3K4/8/8/8/8/8 b - - 0 1").unwrap();
    let mv = engine.bestmove(&mut t, false).unwrap();
    assert_eq!(mv, "c8b7");
    let written = t.written_so_far();
    assert_eq!(written.len(), 3);
    assert_eq!(written[0], "position fen 8/8/8/8/8/8/8/K6k w - - 0 1 moves \n");
    assert_eq!(written[1], "position fen 2k4R/8/3K4/8/8/8/8/8 b - - 0 1 moves \n");
    assert_eq!(written[2], "go movetime 100\n");
}

#[test]
fn sequential_searches_take_answers_in_order() {
    let mut engine = Engine::new("stockfish", "Stockfish 16").unwrap();
    let mut t = transcript_of(&[
        "info depth 1 pv a2a3\n",
        "bestmove a2a3 first\n",
        "info depth 1 pv b2b3\n",
        "bestmove b2b3 second\n",
    ]);
    engine.set_position(&mut t, "8/8/8/8/8/8/PP6/K6k w - - 0 1").unwrap();
    let first = engine.bestmove(&mut t, false).unwrap();
    assert_eq!(first, "a2a3");
    assert_eq!(t.lines_taken(), 2);
    engine.set_position(&mut t, "8/8/8/8/8/8/PP6/K6k w - - 0 1").unwrap();
    let second = engine.bestmove(&mut t, false).unwrap();
    assert_eq!(second, "b2b3");
    assert_eq!(t.lines_taken(), 4);
}

#[test]
fn infinite_search_then_stop() {
    let mut engine = Engine::new("stockfish", "Stockfish 16").unwrap();
    let mut t = transcript_of(&[
        "readyok\n",
        "info depth 20 seldepth 25 score cp 40 pv d2d4\n",
        "bestmove d2d4 ponder g8f6\n",
    ]);
    engine.set_position(&mut t, "rnbqkbnr/pppppppp/8/8/8/8/PPPPPPPP/RNBQKBNR w KQkq - 0 1").unwrap();
    let ack = engine.bestmove(&mut t, true).unwrap();
    assert_eq!(ack, "Started searching");
    let mv = engine.stop_search(&mut t).unwrap();
    assert_eq!(mv, "d2d4");
    let written = t.written_so_far();
    assert_eq!(written.len(), 4);
    assert_eq!(written[1], "go infinite\n");
    assert_eq!(written[2], "isready\n");
    assert_eq!(written[3], "stop\n");
}

#[test]
fn current_best_move_during_search() {
    let mut engine = Engine::new("stockfish", "Stockfish 16").unwrap();
    let mut t = transcript_of(&[
        "readyok\n",
        "info string note\n",
        "info depth 12 seldepth 15 score cp 20 pv g1f3\n",
    ]);
    engine.bestmove(&mut t, true).unwrap();
    let current = engine.current_best_move(&mut t).unwrap();
    assert_eq!(current, "g1f3");
}

#[test]
fn current_best_move_currmove_report() {
    let mut engine = Engine::new("stockfish", "Stockfish 16").unwrap();
    let mut t = transcript_of(&["readyok\n", "info depth 18 currmove e2e4 currmovenumber 1\n"]);
    engine.bestmove(&mut t, true).unwrap();
    let current = engine.current_best_move(&mut t).unwrap();
    assert_eq!(current, "e2e4");
}

#[test]
fn make_moves_writes_startpos_command() {
    let engine = Engine::new("stockfish", "Stockfish 16").unwrap();
    let mut t = transcript_of(&[]);
    let moves: Vec<String> = vec!["e2e4".to_string(), "e7e5".to_string()];
    engine.make_moves(&mut t, &moves).unwrap();
    assert_eq!(t.written_so_far()[0], "position startpos moves e2e4 e7e5\n");
}

#[test]
fn make_moves_from_position_writes_full_command() {
    let engine = Engine::new("stockfish", "Stockfish 16").unwrap();
    let mut t = transcript_of(&[]);
    let moves: Vec<String> = vec!["c8b7".to_string()];
    engine
        .make_moves_from_position(&mut t, "2k4R/8/3K4/8/8/8/8/8 b - - 0 1", &moves)
        .unwrap();
    assert_eq!(
        t.written_so_far()[0],
        "position fen 2k4R/8/3K4/8/8/8/8/8 b - - 0 1 moves c8b7\n"
    );
}

#[test]
fn free_command_round_trip() {
    let engine = Engine::new("stockfish", "Stockfish 16").unwrap();
    let mut t = transcript_of(&[
        "id name Stockfish 16\n",
        "id author the Stockfish developers\n",
        "uciok\n",
        "readyok\n",
    ]);
    let response = engine.command(&mut t, " uci \n").unwrap();
    assert_eq!(
        response,
        "id name Stockfish 16\nid author the Stockfish developers\nuciok"
    );
    assert_eq!(t.written_so_far()[0], "uci\n");
}

#[test]
fn exhausted_output_is_an_io_error() {
    let engine = Engine::new("stockfish", "Stockfish 16").unwrap();
    let mut t = transcript_of(&["info string still thinking\n"]);
    match engine.set_option(&mut t, "Hash", "128") {
        Err(EngineError::Io(m)) => assert_eq!(m, "unexpected end of stream"),
        other => panic!("expected the end-of-stream error, got {:?}", other),
    }
}

#[test]
fn search_on_exhausted_output_is_an_io_error() {
    let mut engine = Engine::new("stockfish", "Stockfish 16").unwrap();
    let mut t = transcript_of(&["info depth 1 pv e2e4\n"]);
    match engine.bestmove(&mut t, false) {
        Err(EngineError::Io(m)) => assert_eq!(m, "unexpected end of stream"),
        other => panic!("expected the end-of-stream error, got {:?}", other),
    }
}
