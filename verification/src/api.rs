//! The rules of the web API: its errors and their responses, what a bot
//! submission must satisfy, who may act on a bot, and paging of the
//! leaderboard.

use vstd::prelude::*;
use vstd::utf8::encode_utf8;
use crate::models::{LeaderboardQuery, NewBotRequest};

verus! {

/// An error answered by the API.
#[derive(Debug, PartialEq, Eq)]
pub enum AppError {
    BadRequest(&'static str),
    Unauthorized,
    NotFound,
    Conflict(&'static str),
    /// A database failure; the text is logged, never shown.
    Database(String),
    MissingEnv(&'static str),
    /// A failure of an upstream service; the text is logged, never shown.
    External(String),
    Internal(&'static str),
}

/// The HTTP status of each error.
pub open spec fn status_of(e: AppError) -> u16 {
    match e {
        AppError::BadRequest(_) => 400,
        AppError::Unauthorized => 401,
        AppError::NotFound => 404,
        AppError::Conflict(_) => 409,
        AppError::Database(_) | AppError::MissingEnv(_) | AppError::Internal(_) => 500,
        AppError::External(_) => 502,
    }
}

/// The text shown for each error: the message of a client error, a fixed
/// text for failures whose details stay in the log.
pub open spec fn message_of(e: AppError) -> Seq<char> {
    match e {
        AppError::Database(_) => "internal server error"@,
        AppError::External(_) => "upstream service failed"@,
        AppError::MissingEnv(_) => "server misconfiguration"@,
        AppError::BadRequest(m) | AppError::Conflict(m) | AppError::Internal(m) => m@,
        AppError::Unauthorized => "unauthorized"@,
        AppError::NotFound => "not found"@,
    }
}

impl AppError {
    /// The HTTP status answered for this error.
    pub fn status(&self) -> (s: u16)
        ensures
            s == status_of(*self),
    {
        match self {
            AppError::BadRequest(_) => 400,
            AppError::Unauthorized => 401,
            AppError::NotFound => 404,
            AppError::Conflict(_) => 409,
            AppError::Database(_) | AppError::MissingEnv(_) => 500,
            AppError::External(_) => 502,
            AppError::Internal(_) => 500,
        }
    }

    /// The `error` text of the response body.
    pub fn message(&self) -> (m: String)
        ensures
            m@ == message_of(*self),
    {
        match self {
            AppError::Database(_) => String::from_str("internal server error"),
            AppError::External(_) => String::from_str("upstream service failed"),
            AppError::MissingEnv(_) => String::from_str("server misconfiguration"),
            AppError::BadRequest(m) | AppError::Conflict(m) | AppError::Internal(m) => String::from_str(m),
            AppError::Unauthorized => String::from_str("unauthorized"),
            AppError::NotFound => String::from_str("not found"),
        }
    }

    /// The error answered for an unexpected failure, whatever it was (the
    /// caller logs `e`).
    pub fn to_internal(e: &str) -> (r: AppError)
        ensures
            r matches AppError::Internal(m) && m@ == "internal error"@,
    {
        AppError::Internal("internal error")
    }
}

/// Length of a text in bytes, as the machine counts it.
pub open spec fn byte_len(s: Seq<char>) -> usize {
    encode_utf8(s).len() as usize
}

/// Shortest bot name, in bytes.
pub const MIN_NAME_LEN: usize = 5;

/// Longest bot name, in bytes.
pub const MAX_NAME_LEN: usize = 32;

/// Longest bot description, in bytes.
pub const MAX_DESCRIPTION_LEN: usize = 810;

/// Largest bot source, in bytes.
pub const MAX_SOURCE_BYTES: usize = 131072;

/// Smallest bot source, in bytes.
pub const MIN_SOURCE_BYTES: usize = 20;

/// What is wrong with a bot submission, checked in this order; `None` when
/// nothing is.
pub open spec fn payload_problem(name: Seq<char>, description: Option<Seq<char>>, source: Seq<char>) -> Option<Seq<char>> {
    if byte_len(name) < MIN_NAME_LEN {
        Some("Bot name has to be at least 5 characters."@)
    } else if byte_len(name) > MAX_NAME_LEN {
        Some("Bot name has to be less than 32 characters."@)
    } else if description is Some && byte_len(description->0) > MAX_DESCRIPTION_LEN {
        Some("Bot description has to be less than 810 characters."@)
    } else if byte_len(source) > MAX_SOURCE_BYTES {
        Some("Source code has to be under 128 KiB"@)
    } else if byte_len(source) < MIN_SOURCE_BYTES {
        Some("Source code can't be empty."@)
    } else {
        None
    }
}

/// The view of an optional text.
pub open spec fn opt_view(s: Option<String>) -> Option<Seq<char>> {
    match s {
        Some(t) => Some(t@),
        None => None,
    }
}

/// Checks a bot submission: a name of 5 to 32 bytes, a description of at
/// most 810 bytes, and source code of 20 bytes to 128 KiB.
pub fn validate_payload(payload: &NewBotRequest) -> (r: Result<(), AppError>)
    ensures
        match payload_problem(payload.name@, opt_view(payload.description), payload.source_code@) {
            None => r is Ok,
            Some(m) => r matches Err(AppError::BadRequest(t)) && t@ == m,
        },
{
    if payload.name.as_str().len() < MIN_NAME_LEN {
        return Err(AppError::BadRequest("Bot name has to be at least 5 characters."));
    }
    if payload.name.as_str().len() > MAX_NAME_LEN {
        return Err(AppError::BadRequest("Bot name has to be less than 32 characters."));
    }
    if let Some(desc) = &payload.description {
        if desc.as_str().len() > MAX_DESCRIPTION_LEN {
            return Err(AppError::BadRequest("Bot description has to be less than 810 characters."));
        }
    }
    if payload.source_code.as_str().len() > MAX_SOURCE_BYTES {
        return Err(AppError::BadRequest("Source code has to be under 128 KiB"));
    }
    if payload.source_code.as_str().len() < MIN_SOURCE_BYTES {
        return Err(AppError::BadRequest("Source code can't be empty."));
    }
    Ok(())
}


/// The answer to a change of one bot, from the number of rows it changed:
/// none means no such bot of this user, more than one cannot happen.
pub fn single_row_result(rows_affected: u64) -> (r: Result<(), AppError>)
    ensures
        rows_affected == 0 ==> r == Err::<(), AppError>(AppError::NotFound),
        rows_affected == 1 ==> r is Ok,
        rows_affected > 1 ==> (r matches Err(AppError::Internal(m)) && m@
            == "Unexpected number of rows affected."@),
{
    match rows_affected {
        0 => Err(AppError::NotFound),
        1 => Ok(()),
        _ => Err(AppError::Internal("Unexpected number of rows affected.")),
    }
}

/// Whether an updated bot stays validated: only when it was validated and
/// its source code is unchanged.
pub fn stays_valid(was_valid: bool, stored_code: &str, new_code: &str) -> (b: bool)
    ensures
        b == (was_valid && stored_code@ == new_code@),
{
    was_valid && crate::text::same_text(stored_code, new_code)
}

/// A bot may be submitted for validation only while it is not validated.
pub fn validation_allowed(is_valid: bool) -> (r: Result<(), AppError>)
    ensures
        !is_valid <==> r is Ok,
        is_valid ==> (r matches Err(AppError::BadRequest(m)) && m@ == "Bot is already validated."@),
{
    if is_valid {
        Err(AppError::BadRequest("Bot is already validated."))
    } else {
        Ok(())
    }
}

/// A user may start a game only with a validated bot of their own (a bot
/// without owner counts as owned by the nil user).
pub fn check_player_bot(owner_id: Option<u128>, user_id: u128, is_valid: bool) -> (r: Result<(), AppError>)
    ensures
        ({
            let owner = match owner_id {
                Some(o) => o,
                None => 0,
            };
            if owner != user_id {
                r == Err::<(), AppError>(AppError::Unauthorized)
            } else if !is_valid {
                r matches Err(AppError::Conflict(m)) && m@ == "Bot is not validated"@
            } else {
                r is Ok
            }
        }),
{
    let owner = match owner_id {
        Some(o) => o,
        None => 0,
    };
    if owner != user_id {
        Err(AppError::Unauthorized)
    } else if !is_valid {
        Err(AppError::Conflict("Bot is not validated"))
    } else {
        Ok(())
    }
}

/// The OAuth callback must carry the state that the login stored in its
/// cookie.
pub fn check_oauth_state(cookie_state: Option<&str>, returned_state: &str) -> (r: Result<(), AppError>)
    ensures
        match cookie_state {
            Some(c) => (c@ == returned_state@) <==> r is Ok,
            None => r is Err,
        },
        r is Err ==> r == Err::<(), AppError>(AppError::Unauthorized),
{
    match cookie_state {
        None => Err(AppError::Unauthorized),
        Some(c) => {
            if crate::text::same_text(c, returned_state) {
                Ok(())
            } else {
                Err(AppError::Unauthorized)
            }
        },
    }
}

/// What the lookup of a provider account gave.
#[derive(Debug, PartialEq, Eq)]
pub enum AccountLookup {
    /// The account is linked to the user with these id bytes.
    Found(Vec<u8>),
    /// No account is linked yet.
    NotFound,
    /// The lookup failed, with this message.
    Failed(String),
}

/// Who signs in after the provider has answered.
#[derive(Debug, PartialEq, Eq)]
pub enum LoginUser {
    /// The user already linked to the account, by id bytes.
    Existing(Vec<u8>),
    /// A new user is to be created and linked.
    Create,
}

/// The user a sign-in proceeds with: the linked user when the account is
/// known, a new one when it is not; a failed lookup is a database error.
pub fn login_user(lookup: AccountLookup) -> (r: Result<LoginUser, AppError>)
    ensures
        match lookup {
            AccountLookup::Found(id) => r matches Ok(LoginUser::Existing(x)) && x@ == id@,
            AccountLookup::NotFound => r matches Ok(LoginUser::Create),
            AccountLookup::Failed(m) => r matches Err(AppError::Database(e)) && e@ == m@,
        },
{
    match lookup {
        AccountLookup::Found(id) => Ok(LoginUser::Existing(id)),
        AccountLookup::NotFound => Ok(LoginUser::Create),
        AccountLookup::Failed(m) => Err(AppError::Database(m)),
    }
}

/// The identity provider's authorization page.
pub const OAUTH_URL: &'static str = "https://github.com/login/oauth/authorize";

/// The scope asked for, URL-encoded.
pub const OAUTH_SCOPE: &'static str = "read%3Auser";

/// The provider's code exchange endpoint.
pub const OAUTH_ROOT_URL: &'static str = "https://github.com/login/oauth/access_token";

/// Where a login is sent: the authorization page with the client id, the
/// callback, the scope and the state.
pub fn authorize_url(client_id: &str, callback_url: &str, state: &str) -> (url: String)
    ensures
        url@ == OAUTH_URL@ + "?client_id="@ + client_id@ + "&redirect_uri="@ + callback_url@
            + "&scope="@ + OAUTH_SCOPE@ + "&state="@ + state@,
{
    let mut url = String::from_str(OAUTH_URL);
    crate::text::push_str(&mut url, "?client_id=");
    crate::text::push_str(&mut url, client_id);
    crate::text::push_str(&mut url, "&redirect_uri=");
    crate::text::push_str(&mut url, callback_url);
    crate::text::push_str(&mut url, "&scope=");
    crate::text::push_str(&mut url, OAUTH_SCOPE);
    crate::text::push_str(&mut url, "&state=");
    crate::text::push_str(&mut url, state);
    url
}

/// Where an authorization code is exchanged for a token.
pub fn token_url(client_id: &str, client_secret: &str, code: &str) -> (url: String)
    ensures
        url@ == OAUTH_ROOT_URL@ + "?client_id="@ + client_id@ + "&client_secret="@
            + client_secret@ + "&code="@ + code@,
{
    let mut url = String::from_str(OAUTH_ROOT_URL);
    crate::text::push_str(&mut url, "?client_id=");
    crate::text::push_str(&mut url, client_id);
    crate::text::push_str(&mut url, "&client_secret=");
    crate::text::push_str(&mut url, client_secret);
    crate::text::push_str(&mut url, "&code=");
    crate::text::push_str(&mut url, code);
    url
}

/// Page size when none is asked for.
pub const DEFAULT_PAGE_SIZE: i64 = 20;

/// Largest page size.
pub const MAX_PAGE_SIZE: i64 = 100;

/// First page.
pub const MIN_PAGE: i64 = 1;

/// The page asked for, at least the first.
pub open spec fn page_of(q: LeaderboardQuery) -> int {
    let p = match q.page {
        Some(p) => p as int,
        None => MIN_PAGE as int,
    };
    if p < MIN_PAGE { MIN_PAGE as int } else { p }
}

/// The page size asked for, between 1 and 100.
pub open spec fn page_size_of(q: LeaderboardQuery) -> int {
    let s = match q.page_size {
        Some(s) => s as int,
        None => DEFAULT_PAGE_SIZE as int,
    };
    if s < 1 { 1 } else if s > MAX_PAGE_SIZE { MAX_PAGE_SIZE as int } else { s }
}

/// The leaderboard's paging rules: a page below the first is the first and
/// any other page is kept; a missing page size is twenty, one below one is
/// one, one above a hundred is a hundred, and any size from one to a
/// hundred is kept as asked.
pub proof fn lemma_paging_rules(q: LeaderboardQuery)
    ensures
        q.page is None ==> page_of(q) == 1,
        (q.page matches Some(p) && p < 1) ==> page_of(q) == 1,
        q.page matches Some(p) ==> (p >= 1 ==> page_of(q) == p),
        q.page_size is None ==> page_size_of(q) == 20,
        (q.page_size matches Some(s) && s < 1) ==> page_size_of(q) == 1,
        (q.page_size matches Some(s) && s > 100) ==> page_size_of(q) == 100,
        q.page_size matches Some(s) ==> (1 <= s <= 100 ==> page_size_of(q) == s),
{
}

/// One page of the leaderboard: its number, its size, and how many entries
/// come before it.
#[derive(Clone, Copy, Debug, PartialEq, Eq)]
pub struct PageWindow {
    pub page: i64,
    pub page_size: i64,
    pub offset: i64,
}

/// The page asked for, at least the first.
fn clamped_page(q: LeaderboardQuery) -> (p: i64)
    ensures
        p == page_of(q),
{
    match q.page {
        Some(p) => if p < MIN_PAGE { MIN_PAGE } else { p },
        None => MIN_PAGE,
    }
}

/// The page size asked for, between 1 and 100.
fn clamped_page_size(q: LeaderboardQuery) -> (s: i64)
    ensures
        s == page_size_of(q),
{
    let asked = match q.page_size {
        Some(s) => s,
        None => DEFAULT_PAGE_SIZE,
    };
    if asked < 1 {
        1
    } else if asked > MAX_PAGE_SIZE {
        MAX_PAGE_SIZE
    } else {
        asked
    }
}

/// The window of a leaderboard query. The offset must fit in an `i64`.
pub fn page_window(q: LeaderboardQuery) -> (w: PageWindow)
    requires
        (page_of(q) - 1) * page_size_of(q) <= i64::MAX,
    ensures
        w.page == page_of(q),
        w.page_size == page_size_of(q),
        w.offset == (w.page - 1) * w.page_size,
        1 <= w.page,
        1 <= w.page_size <= MAX_PAGE_SIZE,
        0 <= w.offset,
{
    let page = clamped_page(q);
    let page_size = clamped_page_size(q);
    assert(0 <= (page - 1) * page_size) by (nonlinear_arith)
        requires
            page >= 1,
            page_size >= 1,
    ;
    PageWindow { page, page_size, offset: (page - 1) * page_size }
}

/// The window of a leaderboard query, or `None` when its offset does not
/// fit in an `i64`.
pub fn try_page_window(q: LeaderboardQuery) -> (w: Option<PageWindow>)
    ensures
        w is None <==> (page_of(q) - 1) * page_size_of(q) > i64::MAX,
        w matches Some(x) ==> x.page == page_of(q) && x.page_size == page_size_of(q) && x.offset == (
        x.page - 1) * x.page_size,
{
    let page = clamped_page(q);
    let page_size = clamped_page_size(q);
    assert(0 <= (page - 1) * page_size) by (nonlinear_arith)
        requires
            page >= 1,
            page_size >= 1,
    ;
    match (page - 1).checked_mul(page_size) {
        Some(_) => Some(page_window(q)),
        None => None,
    }
}

/// `a / d` rounded toward zero, as Rust divides integers, for `d > 0`.
pub open spec fn div_toward_zero(a: int, d: int) -> int {
    if a >= 0 {
        a / d
    } else {
        -((-a) / d)
    }
}

/// Number of pages of `total` entries, `page_size` to a page:
/// `(total + page_size - 1) / page_size`, which for a count (not negative)
/// is the smallest count of pages that holds them all.
pub fn total_pages(total: i64, page_size: i64) -> (n: i64)
    requires
        1 <= page_size,
        total + page_size - 1 <= i64::MAX,
    ensures
        n == div_toward_zero(total + page_size - 1, page_size as int),
        total >= 0 ==> n * page_size >= total,
        total > 0 ==> (n - 1) * page_size < total,
        total == 0 ==> n == 0,
{
    let n = (total + (page_size - 1)) / page_size;
    assert(total >= 0 ==> n * page_size >= total && (total > 0 ==> (n - 1) * page_size < total) && (
    total == 0 ==> n == 0)) by (nonlinear_arith)
        requires
            total >= 0 ==> n == (total + page_size - 1) / (page_size as int),
            1 <= page_size,
    ;
    n
}

} // verus!
