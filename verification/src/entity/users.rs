use vstd::prelude::*;
use crate::entity::enums::user_role::UserRole;
use crate::entity::enums::user_status::UserStatus;
use crate::utils::text::{copy_opt, join3, opt_text};

verus! {

/// One entry of the audit trail of an account.
#[derive(Debug)]
pub struct LoginRecord {
    pub timestamp: i64,
    pub notes: String,
    pub ip_address: String,
}

/// What a [`LoginRecord`] says.
pub struct LoginRecordView {
    pub timestamp: i64,
    pub notes: Seq<char>,
    pub ip_address: Seq<char>,
}

impl View for LoginRecord {
    type V = LoginRecordView;

    open spec fn view(&self) -> LoginRecordView {
        LoginRecordView {
            timestamp: self.timestamp,
            notes: self.notes@,
            ip_address: self.ip_address@,
        }
    }
}

impl LoginRecord {
    pub fn new(timestamp: i64, notes: &str, ip_address: &str) -> (r: LoginRecord)
        ensures
            r@ == (LoginRecordView { timestamp, notes: notes@, ip_address: ip_address@ }),
    {
        LoginRecord { timestamp, notes: notes.to_owned(), ip_address: ip_address.to_owned() }
    }

    pub fn duplicate(&self) -> (r: LoginRecord)
        ensures
            r@ == self@,
    {
        LoginRecord {
            timestamp: self.timestamp,
            notes: self.notes.clone(),
            ip_address: self.ip_address.clone(),
        }
    }
}

/// What each entry of a trail says, in order.
pub open spec fn trail(history: Seq<LoginRecord>) -> Seq<LoginRecordView> {
    Seq::new(history.len(), |i: int| history[i]@)
}

/// A copy of an audit trail.
pub fn copy_trail(history: &Vec<LoginRecord>) -> (r: Vec<LoginRecord>)
    ensures
        trail(r@) == trail(history@),
{
    let mut out: Vec<LoginRecord> = Vec::new();
    let mut i: usize = 0;
    while i < history.len()
        invariant
            i <= history.len(),
            out@.len() == i,
            forall|k: int| 0 <= k < i ==> out@[k]@ == history@[k]@,
        decreases history.len() - i,
    {
        out.push(history[i].duplicate());
        i = i + 1;
    }
    assert(trail(out@) =~= trail(history@));
    out
}

/// The entries of a trail that come after the first `held`: what is left
/// to write where storage holds the first `held` entries already, the
/// trail being append-only. Nothing where the trail is shorter than that.
pub fn entries_after(history: &Vec<LoginRecord>, held: usize) -> (r: Option<Vec<LoginRecord>>)
    ensures
        match r {
            Some(fresh) => held <= history@.len() && trail(fresh@) == trail(history@).skip(
                held as int,
            ),
            None => held > history@.len(),
        },
{
    if held > history.len() {
        return None;
    }
    let mut fresh: Vec<LoginRecord> = Vec::new();
    let mut i: usize = held;
    while i < history.len()
        invariant
            held <= i <= history.len(),
            fresh@.len() == i - held,
            forall|k: int| 0 <= k < fresh@.len() ==> fresh@[k]@ == history@[held + k]@,
        decreases history.len() - i,
    {
        fresh.push(history[i].duplicate());
        i = i + 1;
    }
    assert(trail(fresh@) =~= trail(history@).skip(held as int));
    Some(fresh)
}

/// An account: identity, credential and lifecycle state.
#[derive(Debug)]
pub struct Model {
    pub id: u128,
    pub email: String,
    pub username: String,
    pub password_hash: String,
    pub first_name: Option<String>,
    pub search_tsv: Option<String>,
    pub last_name: Option<String>,
    pub role: UserRole,
    pub status: UserStatus,
    pub email_verified: bool,
    pub last_login: Option<i64>,
    pub created_at: i64,
    pub updated_at: i64,
    /// Append-only audit trail, oldest entry first.
    pub login_history: Vec<LoginRecord>,
}

/// What an account holds.
pub struct UserView {
    pub id: u128,
    pub email: Seq<char>,
    pub username: Seq<char>,
    pub password_hash: Seq<char>,
    pub first_name: Option<Seq<char>>,
    pub search_tsv: Option<Seq<char>>,
    pub last_name: Option<Seq<char>>,
    pub role: UserRole,
    pub status: UserStatus,
    pub email_verified: bool,
    pub last_login: Option<i64>,
    pub created_at: i64,
    pub updated_at: i64,
    pub login_history: Seq<LoginRecordView>,
}

impl UserView {
    /// First and last name where both are known, the one that is known
    /// where only one is, the username where neither is.
    pub open spec fn full_name(self) -> Seq<char> {
        match (self.first_name, self.last_name) {
            (Some(first), Some(last)) => first + " "@ + last,
            (Some(first), None) => first,
            (None, Some(last)) => last,
            (None, None) => self.username,
        }
    }

    /// Only an active account may log in.
    pub open spec fn can_login(self) -> bool {
        self.status == UserStatus::Active
    }

    /// The account waits for its e-mail address to be confirmed.
    pub open spec fn needs_email_verification(self) -> bool {
        !self.email_verified && self.status == UserStatus::PendingVerification
    }

    /// The account as it stands once its e-mail address is confirmed.
    pub open spec fn verified(self) -> UserView {
        UserView { email_verified: true, status: UserStatus::Active, ..self }
    }

    /// The account with one more entry at the end of its audit trail.
    pub open spec fn noted(self, entry: LoginRecordView) -> UserView {
        UserView { login_history: self.login_history.push(entry), ..self }
    }

    /// The account as storage holds it after a write at `now`.
    pub open spec fn touched(self, now: i64) -> UserView {
        UserView { last_login: Some(now), updated_at: now, ..self }
    }
}

impl View for Model {
    type V = UserView;

    open spec fn view(&self) -> UserView {
        UserView {
            id: self.id,
            email: self.email@,
            username: self.username@,
            password_hash: self.password_hash@,
            first_name: opt_text(self.first_name),
            search_tsv: opt_text(self.search_tsv),
            last_name: opt_text(self.last_name),
            role: self.role,
            status: self.status,
            email_verified: self.email_verified,
            last_login: self.last_login,
            created_at: self.created_at,
            updated_at: self.updated_at,
            login_history: trail(self.login_history@),
        }
    }
}

impl Model {
    pub fn duplicate(&self) -> (r: Model)
        ensures
            r@ == self@,
    {
        Model {
            id: self.id,
            email: self.email.clone(),
            username: self.username.clone(),
            password_hash: self.password_hash.clone(),
            first_name: copy_opt(&self.first_name),
            search_tsv: copy_opt(&self.search_tsv),
            last_name: copy_opt(&self.last_name),
            role: self.role,
            status: self.status,
            email_verified: self.email_verified,
            last_login: self.last_login,
            created_at: self.created_at,
            updated_at: self.updated_at,
            login_history: copy_trail(&self.login_history),
        }
    }

    /// Get the user's full name.
    pub fn full_name(&self) -> (r: String)
        ensures
            r@ == self@.full_name(),
    {
        match (&self.first_name, &self.last_name) {
            (Some(first), Some(last)) => join3(first.as_str(), " ", last.as_str()),
            (Some(first), None) => first.clone(),
            (None, Some(last)) => last.clone(),
            (None, None) => self.username.clone(),
        }
    }

    /// Check if the user is active and verified.
    pub fn is_active_and_verified(&self) -> (r: bool)
        ensures
            r == (self@.status == UserStatus::Active && self@.email_verified),
    {
        self.status.is_active() && self.email_verified
    }

    /// Check if the user can login.
    pub fn can_login(&self) -> (r: bool)
        ensures
            r == self@.can_login(),
    {
        self.status.is_active() && !self.status.is_suspended()
    }

    /// Check if the user has admin privileges.
    pub fn is_admin(&self) -> (r: bool)
        ensures
            r == (self@.role == UserRole::Admin),
    {
        self.role.is_admin()
    }

    /// Check if the user can moderate content.
    pub fn can_moderate(&self) -> (r: bool)
        ensures
            r == (self@.role == UserRole::Admin || self@.role == UserRole::Moderator),
    {
        self.role.can_moderate_content()
    }

    /// Check if the user can manage other users.
    pub fn can_manage_users(&self) -> (r: bool)
        ensures
            r == (self@.role == UserRole::Admin),
    {
        self.role.can_manage_users()
    }

    /// Get display name: the full name, which is the username where no
    /// name is known.
    pub fn display_name(&self) -> (r: String)
        ensures
            r@ == self@.full_name(),
    {
        if self.first_name.is_some() || self.last_name.is_some() {
            self.full_name()
        } else {
            self.username.clone()
        }
    }

    /// Check if email needs verification.
    pub fn needs_email_verification(&self) -> (r: bool)
        ensures
            r == self@.needs_email_verification(),
    {
        !self.email_verified && matches!(self.status, UserStatus::PendingVerification)
    }
}

/// What a client sends to register or to log in.
#[derive(Debug)]
pub struct AuthRequestBody {
    pub email: String,
    pub username: Option<String>,
    pub password: String,
    pub first_name: Option<String>,
    pub last_name: Option<String>,
}

/// What a successful login or refresh hands out besides the refresh token.
#[derive(Debug)]
pub struct BodyToken {
    pub email: String,
    pub username: String,
    pub access_token: String,
}

/// Outcome of a successful login or refresh. The refresh token travels
/// apart from the body, in a cookie.
#[derive(Debug)]
pub struct AuthResponseBody {
    pub body: BodyToken,
    pub refresh_token: String,
}

/// Outcome of a successful registration.
#[derive(Debug)]
pub struct RegisterResponseBody {
    pub user_id: String,
    pub email: String,
    pub status: String,
}

/// Criteria of a user search; a missing one matches everything.
#[derive(Debug)]
pub struct UserSearchBody {
    pub email: Option<String>,
    pub username: Option<String>,
    pub first_name: Option<String>,
    pub last_name: Option<String>,
}

/// What a user search shows of an account.
#[derive(Debug)]
pub struct UserSearchResponseBody {
    pub email: String,
    pub username: String,
    pub first_name: String,
    pub last_name: String,
}

/// The characters of an optional string, none where it is missing.
pub open spec fn text_or_empty(s: Option<Seq<char>>) -> Seq<char> {
    match s {
        Some(t) => t,
        None => Seq::<char>::empty(),
    }
}

fn owned_or_empty(s: Option<String>) -> (r: String)
    ensures
        r@ == text_or_empty(opt_text(s)),
{
    match s {
        Some(t) => t,
        None => String::new(),
    }
}

impl UserSearchResponseBody {
    /// The public part of an account; unknown names show as empty.
    pub fn from(user: Model) -> (r: UserSearchResponseBody)
        ensures
            r.email@ == user@.email,
            r.username@ == user@.username,
            r.first_name@ == text_or_empty(user@.first_name),
            r.last_name@ == text_or_empty(user@.last_name),
    {
        UserSearchResponseBody {
            username: user.username,
            first_name: owned_or_empty(user.first_name),
            email: user.email,
            last_name: owned_or_empty(user.last_name),
        }
    }
}

} // verus!
