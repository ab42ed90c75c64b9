use automate::api::AppError;
use automate::ids::{
    match_job, match_status_key, match_stream_channel, parse_uuid, session_of_cookie, session_to_end,
    session_user, task_of, uuid_from_bytes, uuid_to_string, validation_job, Task,
};
use automate::models::{Job, SessionUser};
use automate::pairing::{assign_colors, pick_colors};

const ID: u128 = 0xa1a2a3a4b1b2c1c2d1d2d3d4d5d6d7d8;
const ID_TEXT: &str = "a1a2a3a4-b1b2-c1c2-d1d2-d3d4d5d6d7d8";

#[test]
fn uuid_text_round_trip() {
    assert_eq!(uuid_to_string(ID), ID_TEXT);
    assert_eq!(parse_uuid(ID_TEXT), Some(ID));
    assert_eq!(parse_uuid("not-a-uuid"), None);
    assert_eq!(uuid_to_string(0), "00000000-0000-0000-0000-000000000000");
}

#[test]
fn keys_and_channels() {
    assert_eq!(match_status_key(ID_TEXT), format!("match_{ID_TEXT}"));
    assert_eq!(match_stream_channel(ID), format!("matchStream_{ID_TEXT}"));
}

#[test]
fn jobs_carry_ids_as_text() {
    let (key, job) = validation_job(ID, 1);
    assert_eq!(key, "job_00000000-0000-0000-0000-000000000001");
    assert_eq!(job, Job::Validate { bot_id: ID_TEXT.to_string(), job_id: key.clone() });
    assert_eq!(
        match_job(2, true, Some(ID), None),
        Job::Match {
            match_id: "00000000-0000-0000-0000-000000000002".to_string(),
            is_ranked: true,
            white_bot_id: ID_TEXT.to_string(),
            black_bot_id: "00000000-0000-0000-0000-000000000000".to_string(),
        }
    );
}

#[test]
fn worker_reads_jobs() {
    assert_eq!(
        task_of(Job::Validate { bot_id: ID_TEXT.to_string(), job_id: "job_x".to_string() }),
        Ok(Task::Validate { bot_id: ID, job_id: "job_x".to_string() })
    );
    assert_eq!(
        task_of(match_job(3, false, Some(ID), Some(4))),
        Ok(Task::Play {
            match_id: "00000000-0000-0000-0000-000000000003".to_string(),
            is_ranked: false,
            white_bot_id: ID,
            black_bot_id: 4,
        })
    );
    assert_eq!(
        task_of(Job::Match {
            match_id: "m".to_string(),
            is_ranked: false,
            white_bot_id: "w".to_string(),
            black_bot_id: "b".to_string(),
        }),
        Err("w".to_string())
    );
    assert_eq!(
        task_of(Job::Match {
            match_id: "m".to_string(),
            is_ranked: false,
            white_bot_id: ID_TEXT.to_string(),
            black_bot_id: "b".to_string(),
        }),
        Err("b".to_string())
    );
    assert_eq!(task_of(Job::Validate { bot_id: "?".to_string(), job_id: "j".to_string() }), Err("?".to_string()));
}

#[test]
fn sessions() {
    assert_eq!(session_of_cookie(Some(ID_TEXT)), Ok(ID));
    assert_eq!(session_of_cookie(Some("junk")), Err(AppError::Unauthorized));
    assert_eq!(session_of_cookie(None), Err(AppError::Unauthorized));
    assert_eq!(session_to_end(Some(ID_TEXT)), Ok(ID));
    assert_eq!(session_to_end(Some("junk")), Err(AppError::BadRequest("invalid session_id")));
    assert_eq!(session_to_end(None), Err(AppError::Unauthorized));
    let bytes = ID.to_be_bytes();
    assert_eq!(session_user(&bytes), Ok(SessionUser { user_id: ID }));
    assert_eq!(session_user(&bytes[..15]), Err(AppError::Unauthorized));
}

#[test]
fn seating() {
    assert_eq!(assign_colors(true, Some(1), Some(2)), (Some(1), Some(2)));
    assert_eq!(assign_colors(false, Some(1), Some(2)), (Some(2), Some(1)));
    assert_eq!(assign_colors(false, None, Some(2)), (Some(2), None));
    for _ in 0..20 {
        let seat = pick_colors(Some(1), Some(2));
        assert!(seat == (Some(1), Some(2)) || seat == (Some(2), Some(1)));
    }
}

#[test]
fn uuid_bytes_are_big_endian() {
    let bytes = ID.to_be_bytes();
    assert_eq!(uuid_from_bytes(&bytes), Some(ID));
    let mut one = [0u8; 16];
    one[15] = 1;
    assert_eq!(uuid_from_bytes(&one), Some(1));
    assert_eq!(uuid_from_bytes(&[0xff; 16]), Some(u128::MAX));
    assert_eq!(uuid_from_bytes(&[1u8; 17]), None);
    assert_eq!(uuid_from_bytes(&[]), None);
    assert_eq!(uuid_to_string(0), "00000000-0000-0000-0000-000000000000");
}
