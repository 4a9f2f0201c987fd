//! Signing in: who a stored user is, and how a sign-in attempt ends.

use vstd::prelude::*;

verus! {

/// What a user may do.
#[derive(Clone, Copy, Debug, PartialEq, Eq, Structural)]
pub enum UserRole {
    SuperAdmin,
    Admin,
    Moderator,
    User,
}

/// Whether a user's account is in use.
#[derive(Clone, Copy, Debug, PartialEq, Eq, Structural)]
pub enum UserStatus {
    Active,
    Inactive,
    Suspended,
    Banned,
}

/// Seconds for which a token is valid: one day.
pub const TOKEN_LIFETIME: i64 = 86_400;

/// The role a stored name stands for; an unknown name is an ordinary user.
pub open spec fn role_named(name: Seq<char>) -> UserRole {
    if name == "superadmin"@ {
        UserRole::SuperAdmin
    } else if name == "admin"@ {
        UserRole::Admin
    } else if name == "moderator"@ {
        UserRole::Moderator
    } else {
        UserRole::User
    }
}

/// The status a stored name stands for; an unknown name is an active account.
pub open spec fn status_named(name: Seq<char>) -> UserStatus {
    if name == "inactive"@ {
        UserStatus::Inactive
    } else if name == "suspended"@ {
        UserStatus::Suspended
    } else if name == "banned"@ {
        UserStatus::Banned
    } else {
        UserStatus::Active
    }
}

/// Tells whether two texts are the same.
fn same_text(a: &str, b: &str) -> (same: bool)
    ensures
        same == (a@ == b@),
{
    let left: String = a.to_owned();
    let right: String = b.to_owned();
    left == right
}

/// Reads a role from its stored name.
pub fn role_from_name(name: &str) -> (role: UserRole)
    ensures
        role == role_named(name@),
{
    if same_text(name, "superadmin") {
        UserRole::SuperAdmin
    } else if same_text(name, "admin") {
        UserRole::Admin
    } else if same_text(name, "moderator") {
        UserRole::Moderator
    } else {
        UserRole::User
    }
}

/// Reads an account status from its stored name.
pub fn status_from_name(name: &str) -> (status: UserStatus)
    ensures
        status == status_named(name@),
{
    if same_text(name, "inactive") {
        UserStatus::Inactive
    } else if same_text(name, "suspended") {
        UserStatus::Suspended
    } else if same_text(name, "banned") {
        UserStatus::Banned
    } else {
        UserStatus::Active
    }
}

/// The instant at which a token issued at `now` expires, if it can be told.
pub fn token_expiration(now: i64) -> (expires: Option<i64>)
    ensures
        expires == if now + TOKEN_LIFETIME <= i64::MAX {
            Some((now + TOKEN_LIFETIME) as i64)
        } else {
            None
        },
{
    now.checked_add(TOKEN_LIFETIME)
}

/// How a sign-in attempt ends.
#[derive(Clone, Copy, Debug, PartialEq, Eq, Structural)]
pub enum LoginOutcome {
    /// The token is handed out.
    Granted,
    /// No such user, or a wrong password.
    Unauthorized,
    /// The store or the token maker failed.
    Failed,
}

/// The outcome of a sign-in attempt, given how its steps went.
pub open spec fn login_outcome(user_lookup: Option<bool>, password_matches: bool, token_issued: bool)
    -> LoginOutcome {
    match user_lookup {
        None => LoginOutcome::Failed,
        Some(false) => LoginOutcome::Unauthorized,
        Some(true) => if !password_matches {
            LoginOutcome::Unauthorized
        } else if !token_issued {
            LoginOutcome::Failed
        } else {
            LoginOutcome::Granted
        },
    }
}

/// Decides how a sign-in attempt ends. `user_lookup` is `None` where the
/// store failed and else tells whether the user was found; a password is
/// only looked at for a user that was found, and a token only matters once
/// the password matched.
pub fn login_user(user_lookup: Option<bool>, password_matches: bool, token_issued: bool) -> (outcome:
    LoginOutcome)
    ensures
        outcome == login_outcome(user_lookup, password_matches, token_issued),
{
    match user_lookup {
        None => LoginOutcome::Failed,
        Some(false) => LoginOutcome::Unauthorized,
        Some(true) => if !password_matches {
            LoginOutcome::Unauthorized
        } else if !token_issued {
            LoginOutcome::Failed
        } else {
            LoginOutcome::Granted
        },
    }
}

impl LoginOutcome {
    /// The HTTP status with which the attempt is answered.
    pub fn status_code(self) -> (code: u16)
        ensures
            code == match self {
                LoginOutcome::Granted => 200u16,
                LoginOutcome::Unauthorized => 401u16,
                LoginOutcome::Failed => 500u16,
            },
    {
        match self {
            LoginOutcome::Granted => 200,
            LoginOutcome::Unauthorized => 401,
            LoginOutcome::Failed => 500,
        }
    }
}

} // verus!
