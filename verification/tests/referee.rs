use automate::matches::MatchEndReason;
use automate::models::{MatchEvent, MatchStatus};
use automate::referee::{finished_messages, MatchConclusion, MoveResult, Referee, Turn};

const WHITE: u128 = 0x11;
const BLACK: u128 = 0x22;

fn referee() -> Referee {
    Referee::new(WHITE, BLACK, "Alpha".to_string(), "Beta".to_string(), Some(WHITE), Some(BLACK))
}

fn ask(r: &mut Referee) -> (String, bool) {
    match r.next_turn() {
        Turn::AskMove { fen, white } => (fen, white),
        other => panic!("expected a move request, got {other:?}"),
    }
}

fn play(r: &mut Referee, uci: &str) -> (String, String, u32) {
    match r.move_received(uci) {
        MoveResult::Played(MatchEvent::Move { san, fen, move_number }) => (san, fen, move_number),
        other => panic!("expected a played move, got {other:?}"),
    }
}

#[test]
fn game_starts_from_initial_position_with_white() {
    let mut r = referee();
    let (fen, white) = ask(&mut r);
    assert_eq!(fen, "rnbqkbnr/pppppppp/8/8/8/8/PPPPPPPP/RNBQKBNR w KQkq - 0 1");
    assert!(white);
}

#[test]
fn fools_mate_is_won_by_black() {
    let mut r = referee();
    ask(&mut r);
    let (san, fen, n) = play(&mut r, " f2f3\n");
    assert_eq!((san.as_str(), n), ("f3", 1));
    assert_eq!(fen, "rnbqkbnr/pppppppp/8/8/8/5P2/PPPPP1PP/RNBQKBNR b KQkq - 0 1");
    assert!(!ask(&mut r).1);
    assert_eq!(play(&mut r, "e7e5").2, 2);
    assert!(ask(&mut r).1);
    assert_eq!(play(&mut r, "g2g4").0, "g4");
    ask(&mut r);
    assert_eq!(play(&mut r, "d8h4").0, "Qh4");
    match r.next_turn() {
        Turn::Ended(c) => {
            assert_eq!(
                c,
                MatchConclusion {
                    winner_color: Some("black"),
                    win_reason: "checkmate",
                    pgn: "[Event \"?\"]\n[White \"Alpha\"]\n[Black \"Beta\"]\n[Result \"0-1\"]\n\n1. f3 e5\n2. g4 Qh4"
                        .to_string(),
                    error_message: None,
                    winner_bot: Some(BLACK),
                }
            );
        }
        other => panic!("expected the end, got {other:?}"),
    }
}

#[test]
fn illegal_move_loses() {
    let mut r = referee();
    ask(&mut r);
    play(&mut r, "e2e4");
    ask(&mut r);
    match r.move_received("e7e4") {
        MoveResult::Ended(c) => {
            assert_eq!(c.winner_color, Some("white"));
            assert_eq!(c.winner_bot, Some(WHITE));
            assert_eq!(c.win_reason, MatchEndReason::IllegalMove.as_str());
            assert_eq!(c.error_message, Some("illegal move: e7e4".to_string()));
            assert!(c.pgn.ends_with("[Result \"1-0\"]\n\n1. e4"));
        }
        other => panic!("expected the end, got {other:?}"),
    }
}

#[test]
fn unparseable_move_loses() {
    let mut r = referee();
    ask(&mut r);
    match r.move_received("  castle please ") {
        MoveResult::Ended(c) => {
            assert_eq!(c.winner_color, Some("black"));
            assert_eq!(c.winner_bot, Some(BLACK));
            assert_eq!(c.win_reason, "invalid_output");
            assert_eq!(c.error_message, Some("unparseable move: castle please".to_string()));
            assert!(c.pgn.ends_with("[Result \"0-1\"]\n\n"));
        }
        other => panic!("expected the end, got {other:?}"),
    }
}

#[test]
fn write_and_read_failures_lose() {
    let mut r = referee();
    ask(&mut r);
    let c = r.write_failed();
    assert_eq!((c.winner_color, c.win_reason, c.winner_bot), (Some("black"), "write_error", Some(BLACK)));
    assert_eq!(c.error_message, Some("failed to write position to bot".to_string()));

    let mut r = referee();
    ask(&mut r);
    play(&mut r, "d2d4");
    ask(&mut r);
    let c = r.read_failed("took too long to respond".to_string());
    assert_eq!((c.winner_color, c.win_reason, c.winner_bot), (Some("white"), "timeout", Some(WHITE)));
    assert_eq!(c.error_message, Some("took too long to respond".to_string()));
}

#[test]
fn same_bot_on_both_sides_keeps_black_to_move() {
    let mut r = Referee::new(7, 7, "Solo".to_string(), "Solo".to_string(), Some(7), Some(7));
    assert!(ask(&mut r).1);
    play(&mut r, "e2e4");
    assert!(!ask(&mut r).1);
    play(&mut r, "e7e5");
    assert!(!ask(&mut r).1);
}

#[test]
fn load_failure_names_the_bot() {
    let r = referee();
    let (message, status) = r.load_failure(Some(BLACK), MatchEndReason::FailedToLoadBot, "worker exited before READY");
    assert_eq!(message, "Bot: Beta failed to load: failed_to_load_bot : worker exited before READY");
    assert_eq!(status, MatchStatus::Failed { reason: "failed_to_load_bot".to_string() });
    let (message, _) = r.load_failure(Some(WHITE), MatchEndReason::FailedToLoadBot, "x");
    assert_eq!(message, "Bot: Alpha failed to load: failed_to_load_bot : x");
}

#[test]
fn finished_messages_name_winner() {
    let c = MatchConclusion {
        winner_color: Some("white"),
        win_reason: "checkmate",
        pgn: String::new(),
        error_message: None,
        winner_bot: Some(0xa1a2a3a4b1b2c1c2d1d2d3d4d5d6d7d8),
    };
    let (status, event) = finished_messages(&c);
    assert_eq!(status, MatchStatus::Finished { winner: "a1a2a3a4-b1b2-c1c2-d1d2-d3d4d5d6d7d8".to_string() });
    assert_eq!(event, MatchEvent::Finished { winner: "white".to_string(), reason: "checkmate".to_string() });
    let draw = MatchConclusion { winner_color: None, win_reason: "draw", pgn: String::new(), error_message: None, winner_bot: None };
    let (status, event) = finished_messages(&draw);
    assert_eq!(status, MatchStatus::Finished { winner: String::new() });
    assert_eq!(event, MatchEvent::Finished { winner: String::new(), reason: "draw".to_string() });
}

#[test]
fn each_bot_gets_its_own_side_to_move() {
    let mut r = referee();
    for uci in ["e2e4", "e7e5", "g1f3", "b8c6", "f1c4"] {
        let (fen, white) = ask(&mut r);
        let side = fen.split(' ').nth(1).unwrap();
        assert_eq!(side, if white { "w" } else { "b" });
        play(&mut r, uci);
    }
    let (fen, white) = ask(&mut r);
    assert!(!white);
    assert_eq!(fen.split(' ').nth(1), Some("b"));
}
