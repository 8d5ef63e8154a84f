//! Registering, logging in and the session records that a login leaves.
use vstd::prelude::*;
use vstd::string::*;
use crate::clock::Timestamp;
use crate::crypto::{hash_password, spec_check, verify_password};
use crate::error::AppError;
use crate::ids::UserId;
use crate::keys::{build_key, SESSION_TTL_SECONDS, TICKET_TTL_SECONDS};
use crate::models::{
    DbThemeColor, DbThemeDarkMode, DbThemeRounding, DbThemeSpacing, UserAccountModel, UserModel,
    UserSettingsModel,
};
use crate::uuids::{new_v4, spec_uuid_text, uuid_version, uuid_to_string};

verus! {

/// How a new user will log in.
#[derive(Clone, Debug)]
pub struct AccountData {
    pub email: String,
    pub username: String,
    pub password: String,
}

/// How a new user presents themself.
#[derive(Clone, Debug)]
pub struct ProfileData {
    pub display_name: Option<String>,
    pub avatar_url: Option<String>,
    pub banner_url: Option<String>,
    pub bio: Option<String>,
}

/// A request to register.
#[derive(Clone, Debug)]
pub struct RegisterRequest {
    pub account: AccountData,
    pub profile: ProfileData,
}

/// A request to log in.
#[derive(Clone, Debug)]
pub struct LoginRequest {
    pub email: String,
    pub password: String,
}

/// The rows that registering stores.
#[derive(Clone, Debug)]
pub struct Registration {
    pub user_row: UserModel,
    pub account_row: UserAccountModel,
    pub settings_row: UserSettingsModel,
}

/// Registers `req` as user `user_id` at `now`. Refused with `BadRequest` where the
/// email is in use, else with `Conflict` where the username is taken. The stored
/// profile is the requested one without a colour; the account stores a hash that the
/// password verifies against, unverified and without second factor; the settings are
/// the defaults with notifications on.
pub fn plan_registration(
    req: RegisterRequest,
    email_taken: bool,
    username_taken: bool,
    user_id: u128,
    now: Timestamp,
) -> (r: Result<Registration, AppError>)
    ensures
        email_taken ==> (r matches Err(AppError::BadRequest(m)) && m@ == "Email is already in use"@),
        !email_taken && username_taken ==> (r matches Err(AppError::Conflict(m)) && m@
            == "Username is already taken"@),
        !email_taken && !username_taken ==> (r matches Err(e) ==> e is Internal),
        r matches Ok(reg) ==> !email_taken && !username_taken && reg.user_row == (UserModel {
            id: user_id,
            username: req.account.username,
            display_name: req.profile.display_name,
            avatar_url: req.profile.avatar_url,
            banner_url: req.profile.banner_url,
            bio: req.profile.bio,
            profile_color: None,
            created_at: now,
            updated_at: now,
        }) && reg.account_row.user_id == user_id && reg.account_row.email == req.account.email
            && spec_check(req.account.password@, reg.account_row.password_hash@) == Some(true)
            && !reg.account_row.verified && !reg.account_row.two_factor_enabled
            && reg.account_row.two_factor_secret is None && reg.account_row.recovery_keys@.len() == 0
            && reg.account_row.created_at == now && reg.account_row.updated_at == now
            && reg.settings_row == (UserSettingsModel {
            user_id,
            theme_dark_mode: DbThemeDarkMode::System,
            theme_color: DbThemeColor::Default,
            theme_rounding: DbThemeRounding::Default,
            theme_spacing: DbThemeSpacing::Default,
            notification_active: true,
        }),
{
    if email_taken {
        return Err(AppError::BadRequest(String::from_str("Email is already in use")));
    }
    if username_taken {
        return Err(AppError::Conflict(String::from_str("Username is already taken")));
    }
    let hashed = hash_password(req.account.password.as_str())?;
    let user_row = UserModel {
        id: user_id,
        username: req.account.username,
        display_name: req.profile.display_name,
        avatar_url: req.profile.avatar_url,
        banner_url: req.profile.banner_url,
        bio: req.profile.bio,
        profile_color: None,
        created_at: now,
        updated_at: now,
    };
    let account_row = UserAccountModel {
        user_id,
        email: req.account.email,
        password_hash: hashed,
        verified: false,
        two_factor_enabled: false,
        two_factor_secret: None,
        recovery_keys: Vec::new(),
        created_at: now,
        updated_at: now,
    };
    let settings_row = UserSettingsModel {
        user_id,
        theme_dark_mode: DbThemeDarkMode::System,
        theme_color: DbThemeColor::Default,
        theme_rounding: DbThemeRounding::Default,
        theme_spacing: DbThemeSpacing::Default,
        notification_active: true,
    };
    Ok(Registration { user_row, account_row, settings_row })
}

/// The user that logs in with `password` to the account found for the email
/// (`None` where there is none). An unknown email, a stored hash that does not parse
/// and a wrong password are all refused alike, as unauthorized.
pub fn decide_login(account: Option<UserAccountModel>, password: &str) -> (r: Result<UserId, AppError>)
    ensures
        match account {
            None => r matches Err(e) && e is Unauthorized,
            Some(a) => match r {
                Ok(u) => u.0 == a.user_id && spec_check(password@, a.password_hash@) == Some(true),
                Err(e) => e is Unauthorized && spec_check(password@, a.password_hash@) != Some(true),
            },
        },
{
    let a = match account {
        None => return Err(AppError::Unauthorized),
        Some(a) => a,
    };
    let is_valid = verify_password(password, a.password_hash.as_str())?;
    if !is_valid {
        return Err(AppError::Unauthorized);
    }
    Ok(UserId(a.user_id))
}

/// A record that lets a bearer of `token` act as a user: stored under `key` with
/// the user's id as its text, for `ttl_seconds`.
#[derive(Clone, Debug)]
pub struct SessionRecord {
    pub token: String,
    pub key: String,
    pub value: String,
    pub ttl_seconds: u64,
}

/// The session record for a new login of `user` whose token is the UUID `token_id`:
/// it lives a week.
pub fn plan_session(token_id: u128, user: UserId) -> (r: SessionRecord)
    ensures
        r.token@ == spec_uuid_text(token_id),
        r.key@ == "session:"@ + spec_uuid_text(token_id),
        r.value@ == spec_uuid_text(user.0),
        r.ttl_seconds == SESSION_TTL_SECONDS,
{
    let token = uuid_to_string(token_id);
    let key = build_key(token.as_str());
    SessionRecord { token, key, value: uuid_to_string(user.0), ttl_seconds: SESSION_TTL_SECONDS }
}

/// The record for a connection ticket of `user` whose token is the UUID `ticket_id`:
/// stored like a session, but it lives thirty seconds.
pub fn plan_ticket(ticket_id: u128, user: UserId) -> (r: SessionRecord)
    ensures
        r.token@ == spec_uuid_text(ticket_id),
        r.key@ == "session:"@ + spec_uuid_text(ticket_id),
        r.value@ == spec_uuid_text(user.0),
        r.ttl_seconds == TICKET_TTL_SECONDS,
{
    let token = uuid_to_string(ticket_id);
    let key = build_key(token.as_str());
    SessionRecord { token, key, value: uuid_to_string(user.0), ttl_seconds: TICKET_TTL_SECONDS }
}

/// A new login session of `user` with a fresh random token.
pub fn new_session(user: UserId) -> (r: SessionRecord)
    ensures
        exists|t: u128| uuid_version(t) == 4 && r.token@ == spec_uuid_text(t) && r.key@ == "session:"@
            + spec_uuid_text(t),
        r.value@ == spec_uuid_text(user.0),
        r.ttl_seconds == SESSION_TTL_SECONDS,
{
    let t = new_v4();
    plan_session(t, user)
}

/// A new connection ticket of `user` with a fresh random token.
pub fn new_ticket(user: UserId) -> (r: SessionRecord)
    ensures
        exists|t: u128| uuid_version(t) == 4 && r.token@ == spec_uuid_text(t) && r.key@ == "session:"@
            + spec_uuid_text(t),
        r.value@ == spec_uuid_text(user.0),
        r.ttl_seconds == TICKET_TTL_SECONDS,
{
    let t = new_v4();
    plan_ticket(t, user)
}

} // verus!
