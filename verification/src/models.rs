//! Messages exchanged between the web service and the worker, and the
//! request bodies of the web API. Identifiers (UUIDs) are carried as their
//! 128-bit value.

use vstd::prelude::*;

verus! {

/// Status of a bot validation job, as stored under the job's key.
#[derive(Debug, PartialEq, Eq)]
pub enum ValidationStatus {
    Pending,
    Running,
    Validated,
    Failed { reason: String },
}

/// A unit of work on the job queue.
#[derive(Debug, PartialEq, Eq)]
pub enum Job {
    Validate { bot_id: String, job_id: String },
    Match { match_id: String, is_ranked: bool, white_bot_id: String, black_bot_id: String },
}

/// Status of a game, as stored under the game's key.
#[derive(Debug, PartialEq, Eq)]
pub enum MatchStatus {
    Pending,
    Running,
    Finished { winner: String },
    Failed { reason: String },
}

/// An event published on a game's stream while it is played.
#[derive(Debug, PartialEq, Eq)]
pub enum MatchEvent {
    Move { san: String, fen: String, move_number: u32 },
    Finished { winner: String, reason: String },
    Failed { reason: String },
}

/// A bot as the worker reads it from the database.
#[derive(Debug, PartialEq, Eq)]
pub struct BotInfo {
    pub id: Option<u128>,
    pub name: String,
    pub description: Option<String>,
    pub source_code: Option<String>,
    pub is_active: bool,
    pub is_public: bool,
    pub is_valid: bool,
}

/// Body of the OAuth callback.
#[derive(Debug, PartialEq, Eq)]
pub struct OAuthRequest {
    pub code: String,
    pub state: String,
}

/// The provider's answer to the code exchange.
#[derive(Debug, PartialEq, Eq)]
pub struct OAuthResponse {
    pub access_token: String,
    pub scope: String,
    pub token_type: String,
}

/// The provider's user record.
#[derive(Debug, PartialEq, Eq)]
pub struct GithubResponse {
    pub login: String,
    pub id: u32,
    pub avatar_url: String,
    pub name: String,
    pub email: Option<String>,
}

/// Body of a request that creates or updates a bot.
#[derive(Debug, PartialEq, Eq)]
pub struct NewBotRequest {
    pub name: String,
    pub description: Option<String>,
    pub source_code: String,
    pub is_active: bool,
    pub is_public: bool,
}

/// Body of a request to play one's bot against a system bot.
#[derive(Clone, Copy, Debug, PartialEq, Eq)]
pub struct MatchRequest {
    pub player_bot_id: u128,
    pub opponent_bot_id: u128,
}

/// What the API shows of the signed-in user.
#[derive(Debug, PartialEq, Eq)]
pub struct BasicUserInfo {
    pub display_name: Option<String>,
    pub avatar_url: Option<String>,
}

/// Paging parameters of the leaderboard.
#[derive(Clone, Copy, Debug, PartialEq, Eq)]
pub struct LeaderboardQuery {
    pub page: Option<i64>,
    pub page_size: Option<i64>,
}

/// The signed-in user of a request.
#[derive(Clone, Copy, Debug, PartialEq, Eq)]
pub struct SessionUser {
    pub user_id: u128,
}


/// The bot to run, from what the database gave: the bot and its source
/// code, or the reason published when there is none to run ("Internal
/// error" when the lookup failed, "No such bot", "Bot has no source code").
pub fn runnable_bot(fetched: Result<Option<BotInfo>, ()>) -> (r: Result<(BotInfo, String), String>)
    ensures
        match fetched {
            Err(()) => r matches Err(reason) && reason@ == "Internal error"@,
            Ok(None) => r matches Err(reason) && reason@ == "No such bot"@,
            Ok(Some(b)) => match b.source_code {
                None => r matches Err(reason) && reason@ == "Bot has no source code"@,
                Some(code) => r == Ok::<(BotInfo, String), String>(
                    (BotInfo { source_code: None, ..b }, code),
                ),
            },
        },
{
    match fetched {
        Err(()) => Err(String::from_str("Internal error")),
        Ok(None) => Err(String::from_str("No such bot")),
        Ok(Some(b)) => {
            let BotInfo { id, name, description, source_code, is_active, is_public, is_valid } = b;
            match source_code {
                None => Err(String::from_str("Bot has no source code")),
                Some(code) => Ok(
                    (
                        BotInfo {
                            id,
                            name,
                            description,
                            source_code: None,
                            is_active,
                            is_public,
                            is_valid,
                        },
                        code,
                    ),
                ),
            }
        },
    }
}

} // verus!
