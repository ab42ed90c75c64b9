use automate::matches::{bot_failure_winner, build_pgn, result_for_color, MatchEndReason};

#[test]
fn end_reason_codes() {
    assert_eq!(MatchEndReason::Checkmate.as_str(), "checkmate");
    assert_eq!(MatchEndReason::Draw.as_str(), "draw");
    assert_eq!(MatchEndReason::IllegalMove.as_str(), "illegal_move");
    assert_eq!(MatchEndReason::Timeout.as_str(), "timeout");
    assert_eq!(MatchEndReason::WriteError.as_str(), "write_error");
    assert_eq!(MatchEndReason::InvalidOutput.as_str(), "invalid_output");
    assert_eq!(MatchEndReason::FailedToLoadBot.as_str(), "failed_to_load_bot");
}

#[test]
fn result_tags() {
    assert_eq!(result_for_color(Some("white")), "1-0");
    assert_eq!(result_for_color(Some("black")), "0-1");
    assert_eq!(result_for_color(None), "1/2-1/2");
    assert_eq!(result_for_color(Some("green")), "1/2-1/2");
}

#[test]
fn failing_bot_loses() {
    assert_eq!(bot_failure_winner(Some(1), 1, 2), ("black", 2));
    assert_eq!(bot_failure_winner(Some(2), 1, 2), ("white", 1));
    assert_eq!(bot_failure_winner(None, 1, 2), ("white", 1));
}

#[test]
fn pgn_of_odd_and_even_games() {
    let moves: Vec<String> = ["e4", "e5", "Nf3"].iter().map(|s| s.to_string()).collect();
    assert_eq!(
        build_pgn("Alpha", "Beta", "1-0", &moves),
        "[Event \"?\"]\n[White \"Alpha\"]\n[Black \"Beta\"]\n[Result \"1-0\"]\n\n1. e4 e5\n2. Nf3"
    );
    assert_eq!(
        build_pgn("A", "B", "1/2-1/2", &moves[..2]),
        "[Event \"?\"]\n[White \"A\"]\n[Black \"B\"]\n[Result \"1/2-1/2\"]\n\n1. e4 e5"
    );
    assert_eq!(
        build_pgn("A", "B", "0-1", &[]),
        "[Event \"?\"]\n[White \"A\"]\n[Black \"B\"]\n[Result \"0-1\"]\n\n"
    );
}

#[test]
fn pgn_numbers_past_nine() {
    let moves: Vec<String> = (0..21).map(|i| format!("m{i}")).collect();
    let pgn = build_pgn("A", "B", "*", &moves);
    assert!(pgn.ends_with("\n10. m18 m19\n11. m20"));
    assert_eq!(pgn.lines().filter(|l| l.contains(". ")).count(), 11);
}

#[test]
fn pgn_grows_by_one_move_at_a_time() {
    let all: Vec<String> = ["e4", "e5", "Nf3", "Nc6", "Bb5"].iter().map(|m| m.to_string()).collect();
    let expected = ["1. e4", " e5", "\n2. Nf3", " Nc6", "\n3. Bb5"];
    for n in 0..all.len() {
        let before = build_pgn("A", "B", "*", &all[..n]);
        let after = build_pgn("A", "B", "*", &all[..n + 1]);
        assert_eq!(after, format!("{before}{}", expected[n]));
    }
}
