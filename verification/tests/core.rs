use api::auth::{parse_authorization, parse_session_user, required_setting, session_value_or_unauthorized, AppCredentials};
use api::buckets::{bucket_from_year_month, current_bucket, get_bucket_from_uuidv7, previous_bucket, try_bucket_from_uuid};
use api::clock::Timestamp;
use api::error::AppError;
use api::health::health_report;
use api::ids::{ChannelId, GuildId, UserId};
use api::keys::{build_key, channel_topic, friend_topics, friends_cache_key, guild_members_cache_key, guild_topic, presence_key, user_topic};
use api::response::{ApiResponse, PaginatedData, PaginationMeta};
use api::sweeper::{acquired_sweep_lock, wait_until_next_sweep, SweepWait};
use api::accounts::{new_session, plan_session};
use api::ids::SessionId;

const SAMPLE: &str = "550e8400-e29b-41d4-a716-446655440000";
const SAMPLE_ID: u128 = 0x550e8400e29b41d4a716446655440000;

fn v7_at(millis: u128) -> u128 {
    (millis << 80) | (0x7u128 << 76) | (0x8u128 << 60) | 0x1234
}

#[test]
fn previous_bucket_steps_back_within_a_year() {
    assert_eq!(previous_bucket(202405), 202404);
    assert_eq!(previous_bucket(202412), 202411);
}

#[test]
fn previous_bucket_of_january_is_december_before() {
    assert_eq!(previous_bucket(202401), 202312);
    assert_eq!(previous_bucket(1), -88);
}

#[test]
fn previous_bucket_of_negative_year_keeps_truncating_arithmetic() {
    // January of year -1 is bucket -99; truncating division makes it step to -100.
    assert_eq!(previous_bucket(-99), -100);
}

#[test]
fn bucket_is_year_times_hundred_plus_month() {
    assert_eq!(bucket_from_year_month(2024, 3), 202403);
    assert_eq!(bucket_from_year_month(1999, 12), 199912);
}

#[test]
fn bucket_of_a_v7_id_is_its_utc_month() {
    // 1_700_000_000_000 ms is 2023-11-14T22:13:20Z.
    assert_eq!(get_bucket_from_uuidv7(v7_at(1_700_000_000_000)), 202311);
    // 0 ms is the epoch: January 1970.
    assert_eq!(get_bucket_from_uuidv7(v7_at(0)), 197001);
    assert_eq!(try_bucket_from_uuid(v7_at(1_700_000_000_000)), Some(202311));
}

#[test]
fn ids_without_timestamp_have_no_bucket() {
    assert_eq!(try_bucket_from_uuid(SAMPLE_ID), None);
    assert_eq!(try_bucket_from_uuid(uuid::Uuid::new_v4().as_u128()), None);
}

#[test]
fn bucket_changes_at_the_millisecond_a_month_starts() {
    // 1_701_388_800 s is 2023-12-01T00:00:00Z.
    assert_eq!(get_bucket_from_uuidv7(v7_at(1_701_388_799_999)), 202311);
    assert_eq!(get_bucket_from_uuidv7(v7_at(1_701_388_800_000)), 202312);
}

#[test]
fn current_bucket_is_a_month() {
    let b = current_bucket();
    assert!(b > 202400);
    assert!((1..=12).contains(&(b % 100)));
}

#[test]
fn uuid_text_round_trips() {
    let record = plan_session(SAMPLE_ID, UserId(SAMPLE_ID));
    assert_eq!(record.token, SAMPLE);
    assert_eq!(record.value, SAMPLE);
    assert_eq!(parse_session_user(SAMPLE).ok(), Some(UserId(SAMPLE_ID)));
    assert!(matches!(parse_session_user("not a uuid"), Err(AppError::Unauthorized)));
    let fresh = new_session(UserId(SAMPLE_ID));
    let header = format!("Bearer {}", fresh.token);
    let (token, SessionId(id)) = parse_authorization(Some(header.as_str())).ok().unwrap();
    assert_eq!(token, fresh.token);
    assert_eq!((id >> 76) & 0xf, 4);
    assert_eq!(fresh.key, format!("session:{}", fresh.token));
}

#[test]
fn error_codes_of_every_kind() {
    let (s, c, m) = AppError::Database("db down".to_string()).get_codes();
    assert_eq!((s, c, m.as_str()), (500, "DATABASE_ERROR", "Erro de persistência de dados"));
    let (s, c, m) = AppError::BadRequest("bad".to_string()).get_codes();
    assert_eq!((s, c, m.as_str()), (400, "BAD_REQUEST", "bad"));
    let (s, c, m) = AppError::Conflict("taken".to_string()).get_codes();
    assert_eq!((s, c, m.as_str()), (409, "RESOURCE_CONFLICT", "taken"));
    let (s, c, m) = AppError::Internal("boom".to_string()).get_codes();
    assert_eq!((s, c, m.as_str()), (500, "INTERNAL_ERROR", "Um erro inesperado ocorreu"));
    let (s, c, m) = AppError::InvalidCredentials.get_codes();
    assert_eq!((s, c, m.as_str()), (401, "AUTH_INVALID_CREDENTIALS", "Invalid credentials"));
    let (s, c, m) = AppError::NotFound.get_codes();
    assert_eq!((s, c, m.as_str()), (404, "RESOURCE_NOT_FOUND", "Recurso não encontrado"));
    let (s, c, m) = AppError::ValidationError("name".to_string()).get_codes();
    assert_eq!((s, c, m.as_str()), (400, "VALIDATION_ERROR", "name"));
    let (s, c, m) = AppError::Unauthorized.get_codes();
    assert_eq!((s, c, m.as_str()), (401, "AUTH_REQUIRED", "Autenticação necessária para acessar este recurso"));
    let (s, c, m) = AppError::Forbidden("no".to_string()).get_codes();
    assert_eq!((s, c, m.as_str()), (403, "AUTH_FORBIDDEN", "no"));
    let (s, c, m) = AppError::RedisError("gone".to_string()).get_codes();
    assert_eq!((s, c, m.as_str()), (500, "CACHE_ERROR", "Erro no serviço de sessão"));
    let (s, c, m) = AppError::TooManyRequests.get_codes();
    assert_eq!((s, c, m.as_str()), (429, "RATE_LIMIT_EXCEEDED", "Muitas requisições. Tente novamente em 1 minuto."));
}

#[test]
fn server_failures_hide_their_detail() {
    assert_eq!(AppError::Database("a".to_string()).get_codes(), AppError::Database("b".to_string()).get_codes());
    assert_eq!(AppError::Internal("a".to_string()).get_codes().0, 500);
}

#[test]
fn error_text_matches_display_form() {
    assert_eq!(AppError::Database("x".to_string()).to_text(), "Database error: x");
    assert_eq!(AppError::Forbidden("y".to_string()).to_text(), "Forbidden: y");
    assert_eq!(AppError::NotFound.to_text(), "Not found");
    assert_eq!(AppError::Unauthorized.to_text(), "Unauthorized access");
    assert_eq!(AppError::TooManyRequests.to_text(), "Too many requests");
}

#[test]
fn success_envelope_has_no_page() {
    let r = ApiResponse::success(7u32);
    assert!(r.success);
    assert_eq!(r.data, 7);
    assert!(r.meta.is_none());
}

#[test]
fn paginated_envelope_describes_page() {
    let r = ApiResponse::paginated(PaginatedData { data: vec![1, 2], total_items: 12, current_page: 2, total_pages: 6 });
    assert!(r.success);
    assert_eq!(r.data, vec![1, 2]);
    assert_eq!(r.meta, Some(PaginationMeta { total_items: 12, current_page: 2, total_pages: 6 }));
}

#[test]
fn key_names() {
    assert_eq!(build_key("abc"), "session:abc");
    assert_eq!(presence_key(UserId(SAMPLE_ID)), format!("presence:{}", SAMPLE));
    assert_eq!(friends_cache_key(UserId(SAMPLE_ID)), format!("user_friends:{}", SAMPLE));
    assert_eq!(guild_members_cache_key(GuildId(SAMPLE_ID)), format!("guild_members:{}", SAMPLE));
    assert_eq!(channel_topic(ChannelId(SAMPLE_ID)), format!("channel:{}", SAMPLE));
    assert_eq!(guild_topic(GuildId(SAMPLE_ID)), format!("guild:{}", SAMPLE));
    assert_eq!(user_topic(UserId(SAMPLE_ID)), format!("user:{}", SAMPLE));
    assert_ne!(presence_key(UserId(1)), presence_key(UserId(2)));
    assert_eq!(friend_topics(&vec![UserId(SAMPLE_ID)]), vec![format!("user:{}", SAMPLE)]);
    assert!(friend_topics(&vec![]).is_empty());
}

#[test]
fn bearer_header_with_uuid_is_accepted() {
    let header = format!("Bearer {}", SAMPLE);
    let (token, session) = parse_authorization(Some(&header)).unwrap();
    assert_eq!(token, SAMPLE);
    assert_eq!(session.0, SAMPLE_ID);
}

#[test]
fn other_headers_are_unauthorized() {
    assert!(matches!(parse_authorization(None), Err(AppError::Unauthorized)));
    assert!(matches!(parse_authorization(Some("Basic abc")), Err(AppError::Unauthorized)));
    assert!(matches!(parse_authorization(Some("Bearer")), Err(AppError::Unauthorized)));
    assert!(matches!(parse_authorization(Some("Bearer not-a-uuid")), Err(AppError::Unauthorized)));
    assert!(matches!(parse_authorization(Some(&format!("bearer {}", SAMPLE))), Err(AppError::Unauthorized)));
}

#[test]
fn session_values() {
    assert_eq!(parse_session_user(SAMPLE).unwrap(), UserId(SAMPLE_ID));
    assert!(matches!(parse_session_user("x"), Err(AppError::Unauthorized)));
    assert_eq!(session_value_or_unauthorized(Some("v".to_string())).unwrap(), "v");
    assert!(matches!(session_value_or_unauthorized(None), Err(AppError::Unauthorized)));
}

#[test]
fn settings_must_be_set() {
    assert_eq!(required_setting("K", Some("v".to_string())).unwrap(), "v");
    match required_setting("DATABASE_URL", None) {
        Err(AppError::Internal(m)) => assert_eq!(m, "DATABASE_URL must be set"),
        _ => panic!("expected an internal error"),
    }
    let s = |v: &str| Some(v.to_string());
    match AppCredentials::from_values(s("db"), None, None, s("s"), s("m"), s("c")) {
        Err(AppError::Internal(m)) => assert_eq!(m, "SCYLLA_URL must be set"),
        _ => panic!("expected an internal error"),
    }
    let c = AppCredentials::from_values(s("db"), s("sc"), s("p"), s("s"), s("m"), s("c")).ok().unwrap();
    assert_eq!(c.db_url, "db");
    assert_eq!(c.redis_cache_url, "c");
}

#[test]
fn health_report_all_up_and_one_down() {
    let r = health_report(true, true, true, true, true);
    assert_eq!((r.status_code, r.status, r.database), (200, "healthy", "connected"));
    let r = health_report(true, false, true, true, true);
    assert_eq!((r.status_code, r.status, r.scylla, r.redis_messages), (503, "unhealthy", "disconnected", "connected"));
}

#[test]
fn sweep_waits_until_three_utc() {
    assert_eq!(wait_until_next_sweep(0, 0), SweepWait { secs: 10800, nanos: 0 });
    assert_eq!(wait_until_next_sweep(10800, 0), SweepWait { secs: 86400, nanos: 0 });
    assert_eq!(wait_until_next_sweep(10800, 1), SweepWait { secs: 86399, nanos: 999_999_999 });
    assert_eq!(wait_until_next_sweep(10799, 500), SweepWait { secs: 0, nanos: 999_999_500 });
    assert_eq!(wait_until_next_sweep(-1, 0), SweepWait { secs: 10801, nanos: 0 });
    assert!(acquired_sweep_lock(Some("OK".to_string())));
    assert!(!acquired_sweep_lock(None));
}

#[test]
fn timestamps_format_as_rfc3339() {
    let t = Timestamp::new(0, 0).unwrap();
    assert_eq!(t.to_rfc3339(), "1970-01-01T00:00:00+00:00");
    assert!(Timestamp::new(i64::MAX, 0).is_none());
    let now = Timestamp::now();
    assert!(now.secs() > 1_600_000_000);
}
