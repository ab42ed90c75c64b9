use automate::protocol::parse_move_line;

#[test]
fn parses_move_line() {
    assert_eq!(parse_move_line("move: e2e4"), Some(Ok("e2e4".to_string())));
    assert_eq!(parse_move_line("  move:  d2d4  "), Some(Ok("d2d4".to_string())));
}

#[test]
fn parses_error_line() {
    assert!(matches!(parse_move_line("ERROR: boom"), Some(Err(e)) if e == "ERROR: boom"));
}

#[test]
fn ignores_junk_lines() {
    assert_eq!(parse_move_line("received: rnbqkbnr..."), None);
    assert_eq!(parse_move_line(""), None);
}

use automate::protocol::{loading_step, LineEvent, LoadingStep, MoveReader, ReadStep};

#[test]
fn move_line_keeps_inner_text_trimmed() {
    assert_eq!(parse_move_line("\tmove:e7e8q\r\n"), Some(Ok("e7e8q".to_string())));
    assert_eq!(parse_move_line("move:"), Some(Ok(String::new())));
    assert_eq!(parse_move_line("MOVE: e2e4"), None);
    assert_eq!(parse_move_line("ERRORS ahead"), Some(Err("ERRORS ahead".to_string())));
}

#[test]
fn loading_waits_for_ready() {
    assert_eq!(loading_step(LineEvent::Line("  READY \n".to_string())), LoadingStep::Ready);
    assert_eq!(loading_step(LineEvent::Line("loading...\n".to_string())), LoadingStep::Waiting);
    assert_eq!(loading_step(LineEvent::Line("READY now\n".to_string())), LoadingStep::Waiting);
    assert_eq!(
        loading_step(LineEvent::Line("ERROR: syntax\n".to_string())),
        LoadingStep::Failed {
            reason: "worker failed to load".to_string(),
            reported: Some("ERROR: syntax".to_string()),
        }
    );
}

#[test]
fn loading_fails_on_end_error_and_timeout() {
    assert_eq!(
        loading_step(LineEvent::Closed),
        LoadingStep::Failed { reason: "worker exited before READY".to_string(), reported: None }
    );
    assert_eq!(
        loading_step(LineEvent::ReadError("broken pipe".to_string())),
        LoadingStep::Failed {
            reason: "read error while loading worker: broken pipe".to_string(),
            reported: None,
        }
    );
    assert_eq!(
        loading_step(LineEvent::TimedOut),
        LoadingStep::Failed { reason: "worker code took too long to load".to_string(), reported: None }
    );
}

#[test]
fn reader_returns_first_move() {
    let mut r = MoveReader::new();
    assert_eq!(r.on_event(LineEvent::Line("thinking\n".to_string())), ReadStep::NextLine);
    assert_eq!(r.on_event(LineEvent::Line("move: g1f3\n".to_string())), ReadStep::Move("g1f3".to_string()));
}

#[test]
fn reader_reports_error_line() {
    let mut r = MoveReader::new();
    assert_eq!(
        r.on_event(LineEvent::Line("ERROR: no legal move\n".to_string())),
        ReadStep::Failed("ERROR: no legal move".to_string())
    );
}

#[test]
fn reader_gives_up_after_ten_lines() {
    let mut r = MoveReader::new();
    for _ in 0..9 {
        assert_eq!(r.on_event(LineEvent::Line("noise\n".to_string())), ReadStep::NextLine);
    }
    assert_eq!(
        r.on_event(LineEvent::Line("noise\n".to_string())),
        ReadStep::Failed("Bot has outputed too many lines".to_string())
    );
}

#[test]
fn reader_rejects_huge_line() {
    let mut r = MoveReader::new();
    let mut line = "move: e2e4".to_string();
    line.push_str(&" ".repeat(1_000_000));
    assert_eq!(r.on_event(LineEvent::Line(line)), ReadStep::Failed("line too large".to_string()));
    let mut r = MoveReader::new();
    let mut line = "move: e2e4".to_string();
    line.push_str(&" ".repeat(1_000_000 - 10));
    assert_eq!(r.on_event(LineEvent::Line(line)), ReadStep::Move("e2e4".to_string()));
}

#[test]
fn reader_failures_without_line() {
    assert_eq!(MoveReader::new().on_event(LineEvent::Closed), ReadStep::Failed("Bot exited".to_string()));
    assert_eq!(
        MoveReader::new().on_event(LineEvent::ReadError("x".to_string())),
        ReadStep::Failed("failed to read a line".to_string())
    );
    assert_eq!(
        MoveReader::new().on_event(LineEvent::TimedOut),
        ReadStep::Failed("took too long to respond".to_string())
    );
}

#[test]
fn white_space_around_a_line_is_ignored() {
    for line in ["move: e2e4", "error: boom", "hello", "move:e7e8q", ""] {
        let padded = format!(" \t{line}\r\n");
        assert_eq!(parse_move_line(&padded), parse_move_line(line));
        assert_eq!(parse_move_line(line.trim()), parse_move_line(line));
    }
}
