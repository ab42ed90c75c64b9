use automate::api::{login_user, AccountLookup, LoginUser};
use automate::api::{
    authorize_url, check_oauth_state, check_player_bot, page_window, single_row_result, stays_valid,
    token_url, total_pages, try_page_window, validate_payload, validation_allowed, AppError, PageWindow,
};
use automate::models::{LeaderboardQuery, NewBotRequest};

fn request(name: &str, description: Option<&str>, source: &str) -> NewBotRequest {
    NewBotRequest {
        name: name.to_string(),
        description: description.map(|d| d.to_string()),
        source_code: source.to_string(),
        is_active: true,
        is_public: false,
    }
}

const SOURCE: &str = "def get_chess_move(fen): return 'e2e4'";

#[test]
fn payload_accepted() {
    assert_eq!(validate_payload(&request("Knight", None, SOURCE)), Ok(()));
    assert_eq!(validate_payload(&request("Abcde", Some(&"d".repeat(810)), &"x".repeat(20))), Ok(()));
    assert_eq!(validate_payload(&request(&"n".repeat(32), None, &"x".repeat(131072))), Ok(()));
}

#[test]
fn payload_rejections_in_order() {
    assert_eq!(
        validate_payload(&request("Abcd", Some(&"d".repeat(900)), "")),
        Err(AppError::BadRequest("Bot name has to be at least 5 characters."))
    );
    assert_eq!(
        validate_payload(&request(&"n".repeat(33), None, SOURCE)),
        Err(AppError::BadRequest("Bot name has to be less than 32 characters."))
    );
    assert_eq!(
        validate_payload(&request("Knight", Some(&"d".repeat(811)), SOURCE)),
        Err(AppError::BadRequest("Bot description has to be less than 810 characters."))
    );
    assert_eq!(
        validate_payload(&request("Knight", None, &"x".repeat(131073))),
        Err(AppError::BadRequest("Source code has to be under 128 KiB"))
    );
    assert_eq!(
        validate_payload(&request("Knight", None, &"x".repeat(19))),
        Err(AppError::BadRequest("Source code can't be empty."))
    );
}

#[test]
fn payload_lengths_count_bytes() {
    // Three two-byte characters make a six-byte name.
    assert_eq!(validate_payload(&request("ééé", None, SOURCE)), Ok(()));
    assert!(validate_payload(&request("éé", None, SOURCE)).is_err());
}

#[test]
fn error_statuses_and_messages() {
    let cases = [
        (AppError::BadRequest("bad"), 400, "bad"),
        (AppError::Unauthorized, 401, "unauthorized"),
        (AppError::NotFound, 404, "not found"),
        (AppError::Conflict("busy"), 409, "busy"),
        (AppError::Database("disk full".to_string()), 500, "internal server error"),
        (AppError::MissingEnv("DATABASE_URL"), 500, "server misconfiguration"),
        (AppError::External("timeout".to_string()), 502, "upstream service failed"),
        (AppError::Internal("oops"), 500, "oops"),
    ];
    for (e, status, message) in cases {
        assert_eq!(e.status(), status);
        assert_eq!(e.message(), message);
    }
    assert_eq!(AppError::to_internal("boom"), AppError::Internal("internal error"));
}

#[test]
fn single_row_changes() {
    assert_eq!(single_row_result(0), Err(AppError::NotFound));
    assert_eq!(single_row_result(1), Ok(()));
    assert_eq!(single_row_result(3), Err(AppError::Internal("Unexpected number of rows affected.")));
}

#[test]
fn validity_survives_only_unchanged_code() {
    assert!(stays_valid(true, SOURCE, SOURCE));
    assert!(!stays_valid(true, SOURCE, "print(1)"));
    assert!(!stays_valid(false, SOURCE, SOURCE));
}

#[test]
fn validation_only_once() {
    assert_eq!(validation_allowed(false), Ok(()));
    assert_eq!(validation_allowed(true), Err(AppError::BadRequest("Bot is already validated.")));
}

#[test]
fn player_bot_checks() {
    assert_eq!(check_player_bot(Some(5), 5, true), Ok(()));
    assert_eq!(check_player_bot(Some(5), 6, true), Err(AppError::Unauthorized));
    assert_eq!(check_player_bot(Some(5), 5, false), Err(AppError::Conflict("Bot is not validated")));
    assert_eq!(check_player_bot(None, 0, true), Ok(()));
    assert_eq!(check_player_bot(None, 9, false), Err(AppError::Unauthorized));
}

#[test]
fn oauth_state_must_match() {
    assert_eq!(check_oauth_state(Some("abc"), "abc"), Ok(()));
    assert_eq!(check_oauth_state(Some("abc"), "abd"), Err(AppError::Unauthorized));
    assert_eq!(check_oauth_state(None, "abc"), Err(AppError::Unauthorized));
}

#[test]
fn oauth_urls() {
    assert_eq!(
        authorize_url("cid", "http://localhost/cb", "st"),
        "https://github.com/login/oauth/authorize?client_id=cid&redirect_uri=http://localhost/cb&scope=read%3Auser&state=st"
    );
    assert_eq!(
        token_url("cid", "sec", "code1"),
        "https://github.com/login/oauth/access_token?client_id=cid&client_secret=sec&code=code1"
    );
}

#[test]
fn leaderboard_windows() {
    let q = |page, page_size| LeaderboardQuery { page, page_size };
    assert_eq!(page_window(q(None, None)), PageWindow { page: 1, page_size: 20, offset: 0 });
    assert_eq!(page_window(q(Some(3), Some(10))), PageWindow { page: 3, page_size: 10, offset: 20 });
    assert_eq!(page_window(q(Some(-4), Some(0))), PageWindow { page: 1, page_size: 1, offset: 0 });
    assert_eq!(page_window(q(Some(2), Some(500))), PageWindow { page: 2, page_size: 100, offset: 100 });
}

#[test]
fn leaderboard_page_counts() {
    assert_eq!(total_pages(0, 20), 0);
    assert_eq!(total_pages(1, 20), 1);
    assert_eq!(total_pages(20, 20), 1);
    assert_eq!(total_pages(21, 20), 2);
    assert_eq!(total_pages(100, 1), 100);
}

#[test]
fn leaderboard_window_checked() {
    let q = |page, page_size| LeaderboardQuery { page, page_size };
    assert_eq!(try_page_window(q(Some(3), Some(10))), Some(PageWindow { page: 3, page_size: 10, offset: 20 }));
    assert_eq!(try_page_window(q(None, None)), Some(PageWindow { page: 1, page_size: 20, offset: 0 }));
    assert_eq!(try_page_window(q(Some(i64::MAX), Some(2))), None);
    assert_eq!(try_page_window(q(Some(i64::MAX), Some(1))), Some(PageWindow { page: i64::MAX, page_size: 1, offset: i64::MAX - 1 }));
}

#[test]
fn leaderboard_page_count_at_the_limit() {
    assert_eq!(total_pages(i64::MAX - 19, 20), (i64::MAX - 19) / 20 + 1);
    assert_eq!(total_pages(i64::MAX, 1), i64::MAX);
}

#[test]
fn leaderboard_page_count_rounds_toward_zero() {
    assert_eq!(total_pages(-100, 20), -4);
    assert_eq!(total_pages(-5, 20), 0);
    assert_eq!(total_pages(i64::MIN, 1), i64::MIN);
}

#[test]
fn sign_in_finds_or_creates_the_user() {
    assert_eq!(login_user(AccountLookup::Found(vec![1, 2, 3])), Ok(LoginUser::Existing(vec![1, 2, 3])));
    assert_eq!(login_user(AccountLookup::NotFound), Ok(LoginUser::Create));
    assert_eq!(login_user(AccountLookup::Failed("disk".to_string())), Err(AppError::Database("disk".to_string())));
}
