//! Identifiers: UUID text (from the `uuid` crate), the keys and channels
//! through which the web service and the worker share a job's state, the
//! jobs themselves, and session identifiers.

use vstd::prelude::*;
use uuid::Uuid;
use crate::api::AppError;
use crate::models::{Job, SessionUser};
use crate::text::push_str;

verus! {

/// The lower-case hexadecimal digit of `d`, below sixteen.
pub open spec fn hex_digit(d: nat) -> char {
    if d < 10 {
        (48 + d) as char
    } else {
        (87 + d) as char
    }
}

/// The last `n` hexadecimal digits of `v`, most significant first.
pub open spec fn hex_digits(v: nat, n: nat) -> Seq<char>
    decreases n,
{
    if n == 0 {
        Seq::empty()
    } else {
        hex_digits(v / 16, (n - 1) as nat).push(hex_digit(v % 16))
    }
}

/// `Uuid::to_string`: the thirty-two lower-case hexadecimal digits of a
/// UUID, in groups of eight, four, four, four and twelve joined by hyphens.
pub open spec fn uuid_text(id: u128) -> Seq<char> {
    let h = hex_digits(id as nat, 32);
    h.subrange(0, 8) + "-"@ + h.subrange(8, 12) + "-"@ + h.subrange(12, 16) + "-"@ + h.subrange(16, 20)
        + "-"@ + h.subrange(20, 32)
}

/// `Uuid::from_str`: the UUID a text denotes, if any.
pub uninterp spec fn uuid_parse(text: Seq<char>) -> Option<u128>;

/// `Uuid::from_u128(id).to_string()`: the hyphenated lower-case text of a
/// UUID, which parses back to the same UUID.
#[verifier::external_body]
pub fn uuid_to_string(id: u128) -> (s: String)
    ensures
        s@ == uuid_text(id),
        uuid_parse(s@) == Some(id),
{
    Uuid::from_u128(id).to_string()
}

/// `Uuid::from_str`: parses the text of a UUID.
#[verifier::external_body]
pub fn parse_uuid(text: &str) -> (r: Option<u128>)
    ensures
        r == uuid_parse(text@),
{
    text.parse::<Uuid>().ok().map(|u| u.as_u128())
}

/// The number whose big-endian bytes are `bytes`.
pub open spec fn big_endian(bytes: Seq<u8>) -> nat
    decreases bytes.len(),
{
    if bytes.len() == 0 {
        0
    } else {
        (big_endian(bytes.drop_last()) * 256 + bytes.last()) as nat
    }
}

/// `256` to the power `n`.
pub open spec fn byte_power(n: nat) -> nat
    decreases n,
{
    if n == 0 {
        1
    } else {
        256 * byte_power((n - 1) as nat)
    }
}

/// `n` bytes hold less than `256` to the power `n`.
pub proof fn lemma_big_endian_bound(bytes: Seq<u8>)
    ensures
        big_endian(bytes) < byte_power(bytes.len()),
    decreases bytes.len(),
{
    if bytes.len() > 0 {
        let rest = bytes.drop_last();
        lemma_big_endian_bound(rest);
        let p = byte_power(rest.len());
        let v = big_endian(rest);
        let b = bytes.last();
        assert(v * 256 + b < p * 256) by (nonlinear_arith)
            requires
                v < p,
                b < 256,
        ;
    }
}

/// A larger power is no smaller.
pub proof fn lemma_byte_power_grows(i: nat, j: nat)
    requires
        i <= j,
    ensures
        byte_power(i) <= byte_power(j),
    decreases j,
{
    if i < j {
        lemma_byte_power_grows(i, (j - 1) as nat);
    }
}

/// `Uuid::from_slice` followed by `Uuid::as_u128`: the UUID whose sixteen
/// bytes are given, big-endian; `None` for any other length.
pub fn uuid_from_bytes(bytes: &[u8]) -> (r: Option<u128>)
    ensures
        r is Some <==> bytes@.len() == 16,
        r matches Some(v) ==> v == big_endian(bytes@),
{
    if bytes.len() != 16 {
        return None;
    }
    let mut v: u128 = 0;
    let mut i: usize = 0;
    while i < 16
        invariant
            bytes@.len() == 16,
            i <= 16,
            v == big_endian(bytes@.subrange(0, i as int)),
        decreases 16 - i,
    {
        let ghost pre = bytes@.subrange(0, i as int);
        let ghost next = bytes@.subrange(0, i + 1);
        proof {
            assert(next.drop_last() =~= pre);
            lemma_big_endian_bound(pre);
            lemma_byte_power_grows(i as nat, 15);
            reveal_with_fuel(byte_power, 16);
            assert(byte_power(15) == 0x1_00_0000_0000_0000_0000_0000_0000_0000);
        }
        let b = bytes[i];
        assert(v * 256 + b < 0x1_0000_0000_0000_0000_0000_0000_0000_0000) by (nonlinear_arith)
            requires
                v < 0x1_00_0000_0000_0000_0000_0000_0000_0000,
                b < 256,
        ;
        v = v * 256 + b as u128;
        i = i + 1;
    }
    assert(bytes@.subrange(0, 16) =~= bytes@);
    Some(v)
}

/// Key under which a game's status is kept: `match_` and its id.
pub fn match_status_key(match_id: &str) -> (k: String)
    ensures
        k@ == "match_"@ + match_id@,
{
    let mut k = String::from_str("match_");
    push_str(&mut k, match_id);
    k
}

/// Channel on which a game's events are published.
pub fn match_stream_channel(match_uuid: u128) -> (c: String)
    ensures
        c@ == "matchStream_"@ + uuid_text(match_uuid),
{
    let mut c = String::from_str("matchStream_");
    push_str(&mut c, uuid_to_string(match_uuid).as_str());
    c
}

/// The validation job for a bot: its key (`job_` and a fresh id) and the
/// queued job.
pub fn validation_job(bot_id: u128, job_uuid: u128) -> (r: (String, Job))
    ensures
        r.0@ == "job_"@ + uuid_text(job_uuid),
        r.1 matches Job::Validate { bot_id: b, job_id: j } && b@ == uuid_text(bot_id) && j@ == r.0@
            && uuid_parse(b@) == Some(bot_id),
{
    let mut key = String::from_str("job_");
    push_str(&mut key, uuid_to_string(job_uuid).as_str());
    let job = Job::Validate { bot_id: uuid_to_string(bot_id), job_id: key.clone() };
    (key, job)
}

/// The queued job of a game; a side without a bot id is queued as the nil
/// UUID.
pub fn match_job(match_uuid: u128, is_ranked: bool, white: Option<u128>, black: Option<u128>) -> (j: Job)
    ensures
        j matches Job::Match { match_id, is_ranked: r, white_bot_id, black_bot_id } && match_id@
            == uuid_text(match_uuid) && r == is_ranked && white_bot_id@ == uuid_text(
            match white {
                Some(w) => w,
                None => 0,
            },
        ) && black_bot_id@ == uuid_text(
            match black {
                Some(b) => b,
                None => 0,
            },
        ) && uuid_parse(match_id@) == Some(match_uuid) && uuid_parse(white_bot_id@) == Some(
            match white {
                Some(w) => w,
                None => 0,
            },
        ) && uuid_parse(black_bot_id@) == Some(
            match black {
                Some(b) => b,
                None => 0,
            },
        ),
{
    let w = match white {
        Some(w) => w,
        None => 0,
    };
    let b = match black {
        Some(b) => b,
        None => 0,
    };
    Job::Match {
        match_id: uuid_to_string(match_uuid),
        is_ranked,
        white_bot_id: uuid_to_string(w),
        black_bot_id: uuid_to_string(b),
    }
}

/// A job as the worker runs it, with the bot ids read.
#[derive(Debug, PartialEq, Eq)]
pub enum Task {
    Validate { bot_id: u128, job_id: String },
    Play { match_id: String, is_ranked: bool, white_bot_id: u128, black_bot_id: u128 },
}

/// Reads the bot ids of a job; `Err` gives the first id that is not a UUID.
pub fn task_of(job: Job) -> (r: Result<Task, String>)
    ensures
        match job {
            Job::Validate { bot_id, job_id } => match uuid_parse(bot_id@) {
                Some(b) => r matches Ok(Task::Validate { bot_id: rb, job_id: rj }) && rb == b && rj@
                    == job_id@,
                None => r matches Err(bad) && bad@ == bot_id@,
            },
            Job::Match { match_id, is_ranked, white_bot_id, black_bot_id } => match (
                uuid_parse(white_bot_id@),
                uuid_parse(black_bot_id@),
            ) {
                (Some(w), Some(b)) => r matches Ok(
                    Task::Play { match_id: m, is_ranked: ir, white_bot_id: rw, black_bot_id: rb },
                ) && m@ == match_id@ && ir == is_ranked && rw == w && rb == b,
                (None, _) => r matches Err(bad) && bad@ == white_bot_id@,
                (Some(_), None) => r matches Err(bad) && bad@ == black_bot_id@,
            },
        },
{
    match job {
        Job::Validate { bot_id, job_id } => match parse_uuid(bot_id.as_str()) {
            Some(b) => Ok(Task::Validate { bot_id: b, job_id }),
            None => Err(bot_id),
        },
        Job::Match { match_id, is_ranked, white_bot_id, black_bot_id } => {
            let w = match parse_uuid(white_bot_id.as_str()) {
                Some(w) => w,
                None => return Err(white_bot_id),
            };
            let b = match parse_uuid(black_bot_id.as_str()) {
                Some(b) => b,
                None => return Err(black_bot_id),
            };
            Ok(Task::Play { match_id, is_ranked, white_bot_id: w, black_bot_id: b })
        },
    }
}

/// The session a request claims in its `session_id` cookie; a missing or
/// malformed cookie is unauthorized.
pub fn session_of_cookie(cookie: Option<&str>) -> (r: Result<u128, AppError>)
    ensures
        match cookie {
            None => r == Err::<u128, AppError>(AppError::Unauthorized),
            Some(c) => match uuid_parse(c@) {
                Some(id) => r == Ok::<u128, AppError>(id),
                None => r == Err::<u128, AppError>(AppError::Unauthorized),
            },
        },
{
    match cookie {
        None => Err(AppError::Unauthorized),
        Some(c) => match parse_uuid(c) {
            Some(id) => Ok(id),
            None => Err(AppError::Unauthorized),
        },
    }
}

/// The session a logout ends; a missing cookie is unauthorized, a malformed
/// one a bad request.
pub fn session_to_end(cookie: Option<&str>) -> (r: Result<u128, AppError>)
    ensures
        match cookie {
            None => r == Err::<u128, AppError>(AppError::Unauthorized),
            Some(c) => match uuid_parse(c@) {
                Some(id) => r == Ok::<u128, AppError>(id),
                None => r matches Err(AppError::BadRequest(m)) && m@ == "invalid session_id"@,
            },
        },
{
    match cookie {
        None => Err(AppError::Unauthorized),
        Some(c) => match parse_uuid(c) {
            Some(id) => Ok(id),
            None => Err(AppError::BadRequest("invalid session_id")),
        },
    }
}

/// The user of a live session, from the stored user id bytes; anything but
/// a sixteen-byte id is unauthorized.
pub fn session_user(user_id_bytes: &[u8]) -> (r: Result<SessionUser, AppError>)
    ensures
        user_id_bytes@.len() == 16 ==> r == Ok::<SessionUser, AppError>(
            SessionUser { user_id: big_endian(user_id_bytes@) as u128 },
        ),
        user_id_bytes@.len() != 16 ==> r == Err::<SessionUser, AppError>(AppError::Unauthorized),
{
    match uuid_from_bytes(user_id_bytes) {
        Some(id) => Ok(SessionUser { user_id: id }),
        None => Err(AppError::Unauthorized),
    }
}

} // verus!
