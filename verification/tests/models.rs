use automate::models::{runnable_bot, BotInfo};

fn bot(code: Option<&str>) -> BotInfo {
    BotInfo {
        id: Some(9),
        name: "Knight".to_string(),
        description: None,
        source_code: code.map(|c| c.to_string()),
        is_active: true,
        is_public: true,
        is_valid: false,
    }
}

#[test]
fn runnable_bot_needs_code() {
    assert_eq!(runnable_bot(Ok(Some(bot(Some("print(1)"))))), Ok((bot(None), "print(1)".to_string())));
    assert_eq!(runnable_bot(Ok(Some(bot(None)))), Err("Bot has no source code".to_string()));
    assert_eq!(runnable_bot(Ok(None)), Err("No such bot".to_string()));
    assert_eq!(runnable_bot(Err(())), Err("Internal error".to_string()));
}
