//! Who may act as an organiser: claims, the bearer token of a request, passwords
//! held against their hashes, and the answers to a login and a change of password.

use vstd::prelude::*;
use crate::clock::{Timestamp, MAX_SECS, NANOS_PER_SEC};
use crate::text::same_text;

verus! {

/// Seconds for which a token is good.
pub const TOKEN_LIFETIME_SECONDS: i64 = 86_400;

/// What a token says of its bearer.
#[derive(Clone, Debug, PartialEq, Eq)]
pub struct Claims {
    /// Who the bearer is.
    pub sub: String,
    /// Seconds since the epoch at which the token stops being good.
    pub exp: usize,
    /// What the bearer may act as.
    pub role: String,
}

/// An organiser's login.
#[derive(Clone, Debug, PartialEq, Eq)]
pub struct LoginAdminRequest {
    pub username: String,
    pub password: String,
}

/// An organiser's change of password.
#[derive(Clone, Debug, PartialEq, Eq)]
pub struct ChangePasswordRequest {
    pub old_password: String,
    pub new_password: String,
}

/// The answer to a login.
#[derive(Clone, Debug, PartialEq, Eq)]
pub struct AuthResponse {
    pub success: bool,
    pub token: Option<String>,
    pub error: Option<String>,
}

/// How a change of password ended.
#[derive(Clone, Copy, Debug, PartialEq, Eq, Structural)]
pub enum PasswordChange {
    /// The request did not come from an organiser.
    Unauthorized,
    /// The stored hash could not be read.
    StoreUnreadable,
    /// The old password is wrong, or the new one could not be stored.
    Refused,
    /// The new password is in place.
    Changed,
}

/// What bcrypt makes of a password held against a hash: whether it fits,
/// or nothing where the hash is none that bcrypt can read.
pub uninterp spec fn bcrypt_verdict(password: Seq<char>, hash: Seq<char>) -> Option<bool>;

/// `bcrypt::verify`.
/// Trusted: the outcome depends on the password and the hash alone, and an
/// error of bcrypt is handed on as an absent verdict.
#[verifier::external_body]
pub(crate) fn verify_with_bcrypt(password: &str, hash: &str) -> (r: Option<bool>)
    ensures
        r == bcrypt_verdict(password@, hash@),
{
    bcrypt::verify(password, hash).ok()
}

/// `bcrypt::hash`, at the cost that bcrypt takes by default.
/// Trusted: `bcrypt::verify` accepts the password against every hash that comes
/// back, for it takes cost and salt from the hash and makes the hash anew. The salt
/// is left to chance; where none can be drawn, the error becomes an absent hash.
#[verifier::external_body]
pub(crate) fn hash_with_bcrypt(password: &str) -> (r: Option<String>)
    ensures
        r matches Some(hash) ==> bcrypt_verdict(password@, hash@) == Some(true),
{
    bcrypt::hash(password, bcrypt::DEFAULT_COST).ok()
}

/// The token that a header of the form `Bearer <token>` carries.
pub open spec fn bearer_of(header: Seq<char>) -> Option<Seq<char>> {
    if header.len() >= 7 && header.subrange(0, 7) == "Bearer "@ {
        Some(header.subrange(7, header.len() as int))
    } else {
        None
    }
}

/// The token that an authorization header carries, if it carries one as a
/// bearer.
pub fn bearer_token(header: &str) -> (r: Option<&str>)
    ensures
        match r {
            Some(token) => bearer_of(header@) == Some(token@),
            None => bearer_of(header@) is None,
        },
{
    let len = header.unicode_len();
    if len < 7 {
        return None;
    }
    let scheme = header.substring_char(0, 7);
    if same_text(scheme, "Bearer ") {
        Some(header.substring_char(7, len))
    } else {
        None
    }
}

/// Whether the password fits the stored hash. Without a stored hash, or
/// with one that bcrypt cannot read, it does not.
pub fn password_accepted(password: &str, stored_hash: Option<&str>) -> (r: bool)
    ensures
        r == (stored_hash matches Some(hash) && bcrypt_verdict(password@, hash@) == Some(true)),
{
    match stored_hash {
        Some(hash) => match verify_with_bcrypt(password, hash) {
            Some(fits) => fits,
            None => false,
        },
        None => false,
    }
}

/// The hash to store for a new password: one against which it is accepted. There
/// is none where the old password was not accepted, or bcrypt could not make one.
pub fn replacement_hash(old_accepted: bool, new_password: &str) -> (r: Option<String>)
    ensures
        !old_accepted ==> r is None,
        r matches Some(hash) ==> bcrypt_verdict(new_password@, hash@) == Some(true),
{
    if old_accepted {
        hash_with_bcrypt(new_password)
    } else {
        None
    }
}

impl Claims {
    /// The claims of a token issued at `now`: good for one day.
    pub fn issue(username: &str, role: &str, now: Timestamp) -> (r: Claims)
        requires
            0 <= now.secs + TOKEN_LIFETIME_SECONDS <= MAX_SECS,
            now.secs + TOKEN_LIFETIME_SECONDS <= usize::MAX,
        ensures
            r.sub@ == username@,
            r.role@ == role@,
            r.exp == now.secs + TOKEN_LIFETIME_SECONDS,
    {
        Claims {
            sub: username.to_owned(),
            exp: (now.secs + TOKEN_LIFETIME_SECONDS) as usize,
            role: role.to_owned(),
        }
    }

    /// The claims of a token issued now, by the clock of the machine: what
    /// `issue_at` gives for the time that the clock shows, which is a point
    /// in time of the calendar and lies in no leap second.
    pub fn issue_now(username: &str, role: &str) -> (r: Option<Claims>)
        ensures
            exists|now: Timestamp|
                {
                    &&& now.representable()
                    &&& now.nanos < NANOS_PER_SEC
                    &&& claims_view(r) == #[trigger] claims_issued(username@, role@, now)
                },
    {
        let now = Timestamp::now();
        let r = Claims::issue_at(username, role, now);
        assert(claims_view(r) == claims_issued(username@, role@, now));
        r
    }

    /// The claims of a token issued at `now`, good for one day. There are
    /// none where that day does not end within the calendar, or ends at a
    /// second that the machine cannot count to.
    pub fn issue_at(username: &str, role: &str, now: Timestamp) -> (r: Option<Claims>)
        ensures
            claims_view(r) == claims_issued(username@, role@, now),
    {
        if now.secs < -TOKEN_LIFETIME_SECONDS || now.secs > MAX_SECS - TOKEN_LIFETIME_SECONDS {
            return None;
        }
        if (now.secs + TOKEN_LIFETIME_SECONDS) as u64 > usize::MAX as u64 {
            return None;
        }
        Some(Claims::issue(username, role, now))
    }

    /// Whether the bearer may act as an organiser.
    pub fn is_admin(&self) -> (r: bool)
        ensures
            r == (self.role@ == "admin"@),
    {
        same_text(self.role.as_str(), "admin")
    }
}

impl AuthResponse {
    /// The answer to a login that went through.
    pub fn granted(token: String) -> (r: AuthResponse)
        ensures
            r.success,
            r.token matches Some(t) && t@ == token@,
            r.error is None,
    {
        AuthResponse { success: true, token: Some(token), error: None }
    }

    /// The answer to a login that did not go through.
    pub fn denied() -> (r: AuthResponse)
        ensures
            !r.success,
            r.token is None,
            r.error matches Some(e) && e@ == "Username atau password salah"@,
    {
        AuthResponse {
            success: false,
            token: None,
            error: Some("Username atau password salah".to_owned()),
        }
    }
}

/// The answer to a login: it goes through where the password was accepted
/// and a token could be made, and is denied otherwise.
pub fn login_response(accepted: bool, token: Option<String>) -> (r: AuthResponse)
    ensures
        r.success == (accepted && token is Some),
        r.success ==> r.error is None && (r.token matches Some(t) && token matches Some(u) && t@
            == u@),
        !r.success ==> r.token is None && (r.error matches Some(e) && e@
            == "Username atau password salah"@),
{
    if accepted {
        match token {
            Some(text) => AuthResponse::granted(text),
            None => AuthResponse::denied(),
        }
    } else {
        AuthResponse::denied()
    }
}

/// How a change of password ends, from what happened on the way: the
/// request must come from an organiser, the stored hash must be readable,
/// the old password must be accepted, and the new one hashed and stored.
pub fn password_change_outcome(
    authorized: bool,
    hash_read: bool,
    old_accepted: bool,
    new_stored: bool,
) -> (r: PasswordChange)
    ensures
        r == if !authorized {
            PasswordChange::Unauthorized
        } else if !hash_read {
            PasswordChange::StoreUnreadable
        } else if old_accepted && new_stored {
            PasswordChange::Changed
        } else {
            PasswordChange::Refused
        },
{
    if !authorized {
        PasswordChange::Unauthorized
    } else if !hash_read {
        PasswordChange::StoreUnreadable
    } else if old_accepted && new_stored {
        PasswordChange::Changed
    } else {
        PasswordChange::Refused
    }
}

/// Claims as plain values.
pub struct ClaimsView {
    pub sub: Seq<char>,
    pub exp: nat,
    pub role: Seq<char>,
}

impl View for Claims {
    type V = ClaimsView;

    open spec fn view(&self) -> ClaimsView {
        ClaimsView { sub: self.sub@, exp: self.exp as nat, role: self.role@ }
    }
}

/// The view of claims that may be absent.
pub open spec fn claims_view(claims: Option<Claims>) -> Option<ClaimsView> {
    match claims {
        Some(c) => Some(c@),
        None => None,
    }
}

/// The second at which a token issued at `now` stops being good: one day
/// on.
pub open spec fn token_end(now: Timestamp) -> int {
    now.secs + TOKEN_LIFETIME_SECONDS
}

/// The claims of a token issued at `now` to the user in the role: good
/// until one day on. There are none where that day ends before 1970 or
/// after the calendar does, or at a second that the machine cannot count
/// to.
pub open spec fn claims_issued(username: Seq<char>, role: Seq<char>, now: Timestamp) -> Option<
    ClaimsView,
> {
    if 0 <= token_end(now) <= MAX_SECS && token_end(now) <= usize::MAX {
        Some(ClaimsView { sub: username, exp: token_end(now) as nat, role })
    } else {
        None
    }
}

} // verus!
