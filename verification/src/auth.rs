//! Reading the credentials that a request carries.
use vstd::prelude::*;
use vstd::string::*;
use crate::error::AppError;
use crate::ids::{SessionId, UserId};
use crate::uuids::{parse_uuid, spec_parse_uuid};

verus! {

/// The token of an `Authorization` header value of the form `Bearer <token>`.
pub open spec fn spec_bearer_token(header: Seq<char>) -> Option<Seq<char>> {
    if header.len() >= 7 && header.take(7) == "Bearer "@ {
        Some(header.skip(7))
    } else {
        None
    }
}

/// The token and session of a request whose `Authorization` header is `header`
/// (`None` where the header is missing or is not visible ASCII).
/// A request is refused as unauthorized unless the header reads `Bearer ` followed
/// by a UUID.
pub fn parse_authorization(header: Option<&str>) -> (r: Result<(String, SessionId), AppError>)
    ensures
        match r {
            Ok((token, session)) => header matches Some(h) && spec_bearer_token(h@) == Some(
                token@,
            ) && spec_parse_uuid(token@) == Some(session.0),
            Err(e) => e is Unauthorized,
        },
        (header matches Some(h) && spec_bearer_token(h@) matches Some(t) && spec_parse_uuid(
            t,
        ) is Some) ==> r is Ok,
{
    match header {
        None => Err(AppError::Unauthorized),
        Some(h) => {
            proof {
                reveal_strlit("Bearer ");
            }
            let n = h.unicode_len();
            if n < 7 {
                return Err(AppError::Unauthorized);
            }
            let head = String::from_str(h.substring_char(0, 7));
            let bearer = String::from_str("Bearer ");
            if !(head == bearer) {
                assert(h@.take(7) != "Bearer "@);
                return Err(AppError::Unauthorized);
            }
            let token = h.substring_char(7, n);
            assert(h@.take(7) =~= h@.subrange(0, 7));
            assert(token@ =~= h@.skip(7));
            match parse_uuid(token) {
                Some(id) => Ok((String::from_str(token), SessionId(id))),
                None => Err(AppError::Unauthorized),
            }
        },
    }
}

/// The user that a session record names: its value must be a UUID, else the
/// request is refused as unauthorized.
pub fn parse_session_user(value: &str) -> (r: Result<UserId, AppError>)
    ensures
        match r {
            Ok(u) => spec_parse_uuid(value@) == Some(u.0),
            Err(e) => e is Unauthorized && spec_parse_uuid(value@) is None,
        },
{
    match parse_uuid(value) {
        Some(id) => Ok(UserId(id)),
        None => Err(AppError::Unauthorized),
    }
}

/// The user text that a session lookup found and renewed; a session that is gone
/// or expired makes the request unauthorized.
pub fn session_value_or_unauthorized(found: Option<String>) -> (r: Result<String, AppError>)
    ensures
        match found {
            Some(v) => r == Ok::<String, AppError>(v),
            None => r matches Err(e) && e is Unauthorized,
        },
{
    match found {
        Some(v) => Ok(v),
        None => Err(AppError::Unauthorized),
    }
}

/// The value of the setting `key`, which must be set: `value` is what the
/// environment holds for it.
pub fn required_setting(key: &str, value: Option<String>) -> (r: Result<String, AppError>)
    ensures
        match value {
            Some(v) => r == Ok::<String, AppError>(v),
            None => r matches Err(AppError::Internal(m)) && m@ == key@ + " must be set"@,
        },
{
    match value {
        Some(v) => Ok(v),
        None => Err(AppError::Internal(String::from_str(key).concat(" must be set"))),
    }
}

/// The addresses of the stores that the service connects to.
pub struct AppCredentials {
    pub db_url: String,
    pub scylla_url: String,
    pub redis_presence_url: String,
    pub redis_sessions_url: String,
    pub redis_messages_url: String,
    pub redis_cache_url: String,
}

impl AppCredentials {
    /// The credentials from the values of `DATABASE_URL`, `SCYLLA_URL`,
    /// `REDIS_PRESENCE_URL`, `REDIS_SESSIONS_URL`, `REDIS_MESSAGES_URL` and
    /// `REDIS_CACHE_URL`, in that order; the first that is missing is reported.
    pub fn from_values(
        db: Option<String>,
        scylla: Option<String>,
        presence: Option<String>,
        sessions: Option<String>,
        messages: Option<String>,
        cache: Option<String>,
    ) -> (r: Result<AppCredentials, AppError>)
        ensures
            r is Ok <==> (db is Some && scylla is Some && presence is Some && sessions is Some
                && messages is Some && cache is Some),
            r matches Ok(c) ==> Some(c.db_url) == db && Some(c.scylla_url) == scylla && Some(
                c.redis_presence_url,
            ) == presence && Some(c.redis_sessions_url) == sessions && Some(c.redis_messages_url)
                == messages && Some(c.redis_cache_url) == cache,
            r matches Err(AppError::Internal(m)) ==> m@ == (if db is None {
                "DATABASE_URL"@
            } else if scylla is None {
                "SCYLLA_URL"@
            } else if presence is None {
                "REDIS_PRESENCE_URL"@
            } else if sessions is None {
                "REDIS_SESSIONS_URL"@
            } else if messages is None {
                "REDIS_MESSAGES_URL"@
            } else {
                "REDIS_CACHE_URL"@
            }) + " must be set"@,
            r matches Err(e) ==> e is Internal,
    {
        let db_url = required_setting("DATABASE_URL", db)?;
        let scylla_url = required_setting("SCYLLA_URL", scylla)?;
        let redis_presence_url = required_setting("REDIS_PRESENCE_URL", presence)?;
        let redis_sessions_url = required_setting("REDIS_SESSIONS_URL", sessions)?;
        let redis_messages_url = required_setting("REDIS_MESSAGES_URL", messages)?;
        let redis_cache_url = required_setting("REDIS_CACHE_URL", cache)?;
        Ok(AppCredentials {
            db_url,
            scylla_url,
            redis_presence_url,
            redis_sessions_url,
            redis_messages_url,
            redis_cache_url,
        })
    }
}

/// The credentials of the object store.
pub struct S3Credentials {
    pub endpoint_url: String,
    pub access_key_id: String,
    pub secret_access_key: String,
    pub bucket: String,
}

impl S3Credentials {
    /// The credentials from the values of `R2_ENDPOINT_URL`, `R2_ACCESS_KEY_ID`,
    /// `R2_SECRET_ACCESS_KEY` and `R2_BUCKET`, in that order; the first that is
    /// missing is reported.
    pub fn from_values(
        endpoint: Option<String>,
        access_key: Option<String>,
        secret: Option<String>,
        bucket: Option<String>,
    ) -> (r: Result<S3Credentials, AppError>)
        ensures
            r is Ok <==> (endpoint is Some && access_key is Some && secret is Some && bucket is Some),
            r matches Ok(c) ==> Some(c.endpoint_url) == endpoint && Some(c.access_key_id) == access_key
                && Some(c.secret_access_key) == secret && Some(c.bucket) == bucket,
            r matches Err(AppError::Internal(m)) ==> m@ == (if endpoint is None {
                "R2_ENDPOINT_URL"@
            } else if access_key is None {
                "R2_ACCESS_KEY_ID"@
            } else if secret is None {
                "R2_SECRET_ACCESS_KEY"@
            } else {
                "R2_BUCKET"@
            }) + " must be set"@,
            r matches Err(e) ==> e is Internal,
    {
        let endpoint_url = required_setting("R2_ENDPOINT_URL", endpoint)?;
        let access_key_id = required_setting("R2_ACCESS_KEY_ID", access_key)?;
        let secret_access_key = required_setting("R2_SECRET_ACCESS_KEY", secret)?;
        let bucket = required_setting("R2_BUCKET", bucket)?;
        Ok(S3Credentials { endpoint_url, access_key_id, secret_access_key, bucket })
    }
}

} // verus!
