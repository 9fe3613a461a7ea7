//! Accounts: the table that holds them and the rules on creating them,
//! admitting their owners and confirming their addresses.

use vstd::prelude::*;
use crate::bindings::email::{email_address_valid, is_valid_email_address};
use crate::bindings::clock::LAST_INSTANT;
use crate::bindings::password::{bcrypt_verdict, bcrypt_verify};
use crate::bindings::random::fresh_uuid;
use crate::utils::helpers::{hash_password, now_date_time_utc};
use crate::entity::enums::user_role::UserRole;
use crate::entity::enums::user_status::UserStatus;
use crate::entity::users::{AuthRequestBody, LoginRecord, LoginRecordView, Model, UserView, trail};
use crate::http_response::error_handler::{CustomError, DbFailure, DbFailureKind};
use crate::http_response::HttpCodeW;
use crate::utils::text::{join, opt_text, same_text};

verus! {

/// A value by which an account is looked up.
#[derive(Debug)]
pub enum SearchValue {
    String(String),
    Uuid(u128),
}

/// What an audit entry says of the creation of an account.
pub open spec fn note_created() -> Seq<char> {
    "User was created"@
}

/// What an audit entry says of a login refused for want of verification.
pub open spec fn note_pending() -> Seq<char> {
    "Needs email verification"@
}

/// What an audit entry says of a login.
pub open spec fn note_login() -> Seq<char> {
    "User logged in"@
}

/// What an audit entry says of the confirmation of the address.
pub open spec fn note_verified() -> Seq<char> {
    "Email verified successfully"@
}

/// The audit entry made at `now` for a request from `ip`.
pub open spec fn entry(now: i64, notes: Seq<char>, ip: Seq<char>) -> LoginRecordView {
    LoginRecordView { timestamp: now, notes, ip_address: ip }
}

/// The account that a registration creates: waiting for verification, with
/// the default role and the creation as the first entry of its trail.
pub open spec fn new_account(
    id: u128,
    email: Seq<char>,
    username: Seq<char>,
    password_hash: Seq<char>,
    first_name: Option<Seq<char>>,
    last_name: Option<Seq<char>>,
    ip: Seq<char>,
    now: i64,
) -> UserView {
    UserView {
        id,
        email,
        username,
        password_hash,
        first_name,
        search_tsv: None,
        last_name,
        role: UserRole::User,
        status: UserStatus::PendingVerification,
        email_verified: false,
        last_login: None,
        created_at: now,
        updated_at: now,
        login_history: Seq::<LoginRecordView>::empty().push(entry(now, note_created(), ip)),
    }
}

/// The password is the one the account was created with, as far as the
/// stored hash tells.
pub open spec fn password_accepted(password: Seq<char>, user: UserView) -> bool {
    bcrypt_verdict(password, user.password_hash) == Some(true)
}

/// The account is the one a registration with `request` from `ip` creates,
/// at some instant of the clock: it waits for verification, and its hash is
/// one that the password of the request is accepted against.
pub open spec fn created_from(user: UserView, request: AuthRequestBody, ip: Seq<char>) -> bool {
    &&& request.username matches Some(username) && user == new_account(
        user.id,
        request.email@,
        username@,
        user.password_hash,
        opt_text(request.first_name),
        opt_text(request.last_name),
        ip,
        user.created_at,
    )
    &&& 0 <= user.created_at <= LAST_INSTANT
    &&& password_accepted(request.password@, user)
}

/// How a login attempt on an account ends.
#[derive(Debug)]
pub enum Admission {
    /// The credentials hold: the account, with the login noted, is to be
    /// stored.
    Granted(Model),
    /// The address is not confirmed yet: the account, with the attempt
    /// noted, is to be stored, and the login refused.
    Pending(Model),
    /// The account may not log in, or the password is wrong.
    Refused,
}

/// How a login attempt at `now` from `ip` on `user` ends.
///
/// An account that waits for verification is never admitted, whatever the
/// password. Of the others only an active account with the right password
/// is.
pub open spec fn admission(password: Seq<char>, ip: Seq<char>, user: UserView, now: i64) -> (
    Option<UserView>,
    bool,
) {
    if user.needs_email_verification() {
        (Some(user.noted(entry(now, note_pending(), ip))), false)
    } else if user.can_login() && password_accepted(password, user) {
        (Some(user.noted(entry(now, note_login(), ip)).touched(now)), true)
    } else {
        (None, false)
    }
}

/// Some account of the table has the address.
pub open spec fn has_email(users: Seq<UserView>, email: Seq<char>) -> bool {
    exists|i: int| 0 <= i < users.len() && (#[trigger] users[i]).email == email
}

/// Some account of the table has the id.
pub open spec fn has_user_id(users: Seq<UserView>, id: u128) -> bool {
    exists|i: int| 0 <= i < users.len() && (#[trigger] users[i]).id == id
}

/// Some account of the table has the username.
pub open spec fn has_username(users: Seq<UserView>, username: Seq<char>) -> bool {
    exists|i: int| 0 <= i < users.len() && (#[trigger] users[i]).username == username
}

/// Every account has a well-formed address. Registration stores no other,
/// and no use case changes an address.
pub open spec fn addresses_valid(users: Seq<UserView>) -> bool {
    forall|i: int| 0 <= i < users.len() ==> email_address_valid((#[trigger] users[i]).email)
}

/// No two accounts share an id, an address or a username.
pub open spec fn users_distinct(users: Seq<UserView>) -> bool {
    forall|i: int, j: int|
        0 <= i < j < users.len() ==> {
            &&& (#[trigger] users[i]).id != (#[trigger] users[j]).id
            &&& users[i].email != users[j].email
            &&& users[i].username != users[j].username
        }
}

/// An account with another id has the address or the username of `user`.
pub open spec fn taken_by_another(users: Seq<UserView>, user: UserView) -> bool {
    exists|k: int|
        0 <= k < users.len() && (#[trigger] users[k]).id != user.id && (users[k].email
            == user.email || users[k].username == user.username)
}

/// What each account of a table holds, in order.
pub open spec fn user_rows(users: Seq<Model>) -> Seq<UserView> {
    Seq::new(users.len(), |i: int| users[i]@)
}

/// The failure storage reports when a write would repeat a unique value.
pub fn duplicate_key_failure() -> (r: DbFailure)
    ensures
        r.kind == DbFailureKind::Exec,
        r.detail@ == "duplicate key value violates unique constraint"@,
{
    DbFailure {
        kind: DbFailureKind::Exec,
        detail: "duplicate key value violates unique constraint".to_owned(),
    }
}

/// The failure storage reports when the row to change is not there.
pub fn missing_record_failure() -> (r: DbFailure)
    ensures
        r.kind == DbFailureKind::RecordNotFound,
        r.detail@ == "None of the records are updated"@,
{
    DbFailure {
        kind: DbFailureKind::RecordNotFound,
        detail: "None of the records are updated".to_owned(),
    }
}

/// The table of accounts.
#[derive(Debug)]
pub struct UsersService {
    users: Vec<Model>,
}

impl View for UsersService {
    type V = Seq<UserView>;

    closed spec fn view(&self) -> Seq<UserView> {
        user_rows(self.users@)
    }
}

impl UsersService {
    /// No two accounts share an id, an address or a username.
    pub open spec fn wf(&self) -> bool {
        users_distinct(self@)
    }

    pub fn new() -> (r: UsersService)
        ensures
            r@ == Seq::<UserView>::empty(),
            r.wf(),
    {
        let r = UsersService { users: Vec::new() };
        assert(r@ =~= Seq::<UserView>::empty());
        r
    }

    /// Number of accounts.
    pub fn len(&self) -> (r: usize)
        ensures
            r == self@.len(),
    {
        self.users.len()
    }

    /// A copy of the table, row for row.
    pub fn duplicate(&self) -> (r: UsersService)
        ensures
            r@ == self@,
    {
        let mut users: Vec<Model> = Vec::new();
        let mut i: usize = 0;
        while i < self.users.len()
            invariant
                i <= self.users.len(),
                users@.len() == i,
                forall|k: int| 0 <= k < i ==> users@[k]@ == self.users@[k]@,
            decreases self.users.len() - i,
        {
            users.push(self.users[i].duplicate());
            i = i + 1;
        }
        let r = UsersService { users };
        assert(r@ =~= self@);
        r
    }

    /// Index of the account with the address, if there is one.
    fn position_of_email(&self, email: &str) -> (r: Option<usize>)
        ensures
            match r {
                Some(i) => i < self@.len() && self@[i as int].email == email@,
                None => !has_email(self@, email@),
            },
    {
        let mut i: usize = 0;
        while i < self.users.len()
            invariant
                i <= self.users.len(),
                forall|k: int| 0 <= k < i ==> (#[trigger] self@[k]).email != email@,
            decreases self.users.len() - i,
        {
            assert(self@[i as int] == self.users@[i as int]@);
            if same_text(self.users[i].email.as_str(), email) {
                return Some(i);
            }
            i = i + 1;
        }
        None
    }

    /// Index of the account with the id, if there is one.
    fn position_of_id(&self, id: u128) -> (r: Option<usize>)
        ensures
            match r {
                Some(i) => i < self@.len() && self@[i as int].id == id,
                None => !has_user_id(self@, id),
            },
    {
        let mut i: usize = 0;
        while i < self.users.len()
            invariant
                i <= self.users.len(),
                forall|k: int| 0 <= k < i ==> (#[trigger] self@[k]).id != id,
            decreases self.users.len() - i,
        {
            assert(self@[i as int] == self.users@[i as int]@);
            if self.users[i].id == id {
                return Some(i);
            }
            i = i + 1;
        }
        None
    }

    /// Whether a row other than `skip` repeats the id, the address or the
    /// username of `model`.
    fn clashes(&self, model: &Model, skip: Option<usize>) -> (r: bool)
        ensures
            r == exists|k: int|
                0 <= k < self@.len() && !(skip matches Some(s) && s == k) && ((#[trigger] self@[k]).id
                    == model@.id || self@[k].email == model@.email || self@[k].username
                    == model@.username),
    {
        let mut i: usize = 0;
        while i < self.users.len()
            invariant
                i <= self.users.len(),
                forall|k: int|
                    0 <= k < i && !(skip matches Some(s) && s == k) ==> (#[trigger] self@[k]).id
                        != model@.id && self@[k].email != model@.email && self@[k].username
                        != model@.username,
            decreases self.users.len() - i,
        {
            assert(self@[i as int] == self.users@[i as int]@);
            let skipped = match skip {
                Some(s) => s == i,
                None => false,
            };
            if !skipped && (self.users[i].id == model.id || same_text(
                self.users[i].email.as_str(),
                model.email.as_str(),
            ) || same_text(self.users[i].username.as_str(), model.username.as_str())) {
                return true;
            }
            i = i + 1;
        }
        false
    }

    /// The account with the address: the row storage answers a lookup by
    /// address with.
    pub fn find_by_email(&self, email: &str) -> (r: Option<Model>)
        ensures
            match r {
                Some(user) => self@.contains(user@) && user@.email == email@,
                None => !has_email(self@, email@),
            },
    {
        match self.position_of_email(email) {
            Some(i) => {
                assert(self@[i as int] == self.users@[i as int]@);
                Some(self.users[i].duplicate())
            },
            None => None,
        }
    }

    /// The account with the id: the row storage answers a lookup by id
    /// with.
    pub fn find_by_id(&self, id: u128) -> (r: Option<Model>)
        ensures
            match r {
                Some(user) => self@.contains(user@) && user@.id == id,
                None => !has_user_id(self@, id),
            },
    {
        match self.position_of_id(id) {
            Some(i) => {
                assert(self@[i as int] == self.users@[i as int]@);
                Some(self.users[i].duplicate())
            },
            None => None,
        }
    }

    /// Looks an account up by `id` or by `email`.
    ///
    /// An address that is not well-formed and any other pairing of field
    /// and value are a bad request; an account that is not there is not
    /// found.
    pub fn find(&self, field: &str, value: SearchValue) -> (r: Result<Model, CustomError>)
        ensures
            match value {
                SearchValue::Uuid(id) if field@ == "id"@ => match r {
                    Ok(user) => self@.contains(user@) && user@.id == id,
                    Err(e) => !has_user_id(self@, id) && e.is(
                        HttpCodeW::NotFound,
                        "User not found"@,
                    ),
                },
                SearchValue::String(email) if field@ == "email"@ => if !email_address_valid(
                    email@,
                ) {
                    r matches Err(e) && e.is(HttpCodeW::BadRequest, "Invalid email format"@)
                } else {
                    match r {
                        Ok(user) => self@.contains(user@) && user@.email == email@,
                        Err(e) => !has_email(self@, email@) && e.is(
                            HttpCodeW::NotFound,
                            "User not found"@,
                        ),
                    }
                },
                _ => r matches Err(e) && e.is(HttpCodeW::BadRequest, "Invalid field or value"@),
            },
    {
        let found = match value {
            SearchValue::Uuid(id) => {
                if !same_text(field, "id") {
                    return Err(CustomError::with(HttpCodeW::BadRequest, "Invalid field or value"));
                }
                self.find_by_id(id)
            },
            SearchValue::String(email) => {
                if !same_text(field, "email") {
                    return Err(CustomError::with(HttpCodeW::BadRequest, "Invalid field or value"));
                }
                if !is_valid_email_address(email.as_str()) {
                    return Err(CustomError::with(HttpCodeW::BadRequest, "Invalid email format"));
                }
                self.find_by_email(email.as_str())
            },
        };
        match found {
            Some(user) => Ok(user),
            None => Err(CustomError::with(HttpCodeW::NotFound, "User not found")),
        }
    }

    /// Adds an account. Storage refuses one that repeats an id, an address
    /// or a username, and then stays as it is.
    pub fn insert(&mut self, model: Model) -> (r: Result<Model, DbFailure>)
        requires
            old(self).wf(),
        ensures
            final(self).wf(),
            match r {
                Ok(stored) => {
                    &&& stored@ == model@
                    &&& final(self)@ == old(self)@.push(model@)
                    &&& !has_user_id(old(self)@, model@.id)
                    &&& !has_email(old(self)@, model@.email)
                    &&& !has_username(old(self)@, model@.username)
                },
                Err(failure) => {
                    &&& final(self)@ == old(self)@
                    &&& failure.kind == DbFailureKind::Exec
                    &&& failure.detail@ == "duplicate key value violates unique constraint"@
                    &&& (has_user_id(old(self)@, model@.id) || has_email(old(self)@, model@.email)
                        || has_username(old(self)@, model@.username))
                },
            },
    {
        if self.clashes(&model, None) {
            return Err(duplicate_key_failure());
        }
        let stored = model.duplicate();
        let ghost before = self@;
        self.users.push(model);
        assert(self@ =~= before.push(stored@));
        Ok(stored)
    }

    /// Replaces the account that has the id of `model`. Storage refuses the
    /// change where no account has the id, or where another account has
    /// the address or the username, and then stays as it is.
    pub fn replace(&mut self, model: Model) -> (r: Result<Model, DbFailure>)
        requires
            old(self).wf(),
        ensures
            final(self).wf(),
            match r {
                Ok(stored) => {
                    &&& stored@ == model@
                    &&& exists|i: int|
                        0 <= i < old(self)@.len() && (#[trigger] old(self)@[i]).id == model@.id
                            && final(self)@ == old(self)@.update(i, model@)
                },
                Err(failure) => {
                    &&& final(self)@ == old(self)@
                    &&& !has_user_id(old(self)@, model@.id) ==> failure.kind
                        == DbFailureKind::RecordNotFound
                    &&& !has_user_id(old(self)@, model@.id) || taken_by_another(
                        old(self)@,
                        model@,
                    )
                },
            },
    {
        let i = match self.position_of_id(model.id) {
            Some(i) => i,
            None => {
                return Err(missing_record_failure());
            },
        };
        if self.clashes(&model, Some(i)) {
            proof {
                let k = choose|k: int|
                    0 <= k < self@.len() && !(Some(i) matches Some(s) && s == k) && ((
                    #[trigger] self@[k]).id == model@.id || self@[k].email == model@.email
                        || self@[k].username == model@.username);
                if k < i {
                    assert(self@[k].id != self@[i as int].id);
                } else {
                    assert(self@[i as int].id != self@[k].id);
                }
            }
            return Err(duplicate_key_failure());
        }
        let stored = model.duplicate();
        let ghost before = self@;
        self.users.set(i, model);
        assert(self@ =~= before.update(i as int, stored@));
        assert(before[i as int].id == stored@.id);
        assert(users_distinct(self@)) by {
            assert forall|a: int, b: int| 0 <= a < b < self@.len() implies {
                &&& (#[trigger] self@[a]).id != (#[trigger] self@[b]).id
                &&& self@[a].email != self@[b].email
                &&& self@[a].username != self@[b].username
            } by {
                let other = if a == i { b } else { a };
                if a == i || b == i {
                    assert(before[other].id != stored@.id && before[other].email != stored@.email
                        && before[other].username != stored@.username);
                } else {
                    assert(before[a].id != before[b].id);
                }
            }
        }
        Ok(stored)
    }

    /// Creates the account of a registration and stores it.
    ///
    /// Fails as a bad request without a username, and inside the service
    /// where the password cannot be hashed or storage refuses the account;
    /// the table is then as it was.
    pub fn create(&mut self, payload: AuthRequestBody, ip_address: &str) -> (r: Result<
        Model,
        CustomError,
    >)
        requires
            old(self).wf(),
        ensures
            final(self).wf(),
            match r {
                Ok(user) => final(self)@ == old(self)@.push(user@) && created_from(
                    user@,
                    payload,
                    ip_address@,
                ),
                Err(e) => final(self)@ == old(self)@ && if payload.username is None {
                    e.is(HttpCodeW::BadRequest, "Missing username"@)
                } else {
                    e.error_status_code == HttpCodeW::InternalServerError
                },
            },
    {
        let username = match &payload.username {
            Some(name) => name.clone(),
            None => {
                return Err(CustomError::with(HttpCodeW::BadRequest, "Missing username"));
            },
        };
        let hash = match hash_password(payload.password.as_str()) {
            Ok(hash) => hash,
            Err(e) => {
                return Err(e);
            },
        };
        let ghost request = payload;
        let model = Self::create_payload(
            fresh_uuid(),
            payload,
            username,
            hash,
            ip_address,
            now_date_time_utc(),
        );
        match self.insert(model) {
            Ok(user) => Ok(user),
            Err(failure) => Err(
                CustomError {
                    error_status_code: HttpCodeW::InternalServerError,
                    error_message: join(
                        "Error creating user: ",
                        failure.detail.as_str(),
                    ),
                },
            ),
        }
    }

    /// The account a registration creates, before it is stored.
    pub fn create_payload(
        id: u128,
        payload: AuthRequestBody,
        username: String,
        password_hash: String,
        ip_address: &str,
        now: i64,
    ) -> (r: Model)
        ensures
            r@ == new_account(
                id,
                payload.email@,
                username@,
                password_hash@,
                opt_text(payload.first_name),
                opt_text(payload.last_name),
                ip_address@,
                now,
            ),
    {
        let mut login_history: Vec<LoginRecord> = Vec::new();
        login_history.push(LoginRecord::new(now, "User was created", ip_address));
        let r = Model {
            id,
            email: payload.email,
            username,
            password_hash,
            first_name: payload.first_name,
            search_tsv: None,
            last_name: payload.last_name,
            role: UserRole::default(),
            status: UserStatus::PendingVerification,
            email_verified: false,
            last_login: None,
            created_at: now,
            updated_at: now,
            login_history,
        };
        assert(r@.login_history =~= Seq::<LoginRecordView>::empty().push(
            entry(now, note_created(), ip_address@),
        ));
        r
    }

    /// Checks a password against an account: only an active account with
    /// the right password passes, and no failure tells which of the two
    /// was wrong.
    pub fn check_credentials(password: &str, user_model: &Model) -> (r: Result<Model, CustomError>)
        ensures
            match r {
                Ok(user) => user@ == user_model@ && user_model@.can_login() && password_accepted(
                    password@,
                    user_model@,
                ),
                Err(e) => !(user_model@.can_login() && password_accepted(password@, user_model@))
                    && e.is(HttpCodeW::Unauthorized, "Invalid credentials"@),
            },
    {
        if user_model.can_login() {
            match bcrypt_verify(password, user_model.password_hash.as_str()) {
                Some(true) => {
                    return Ok(user_model.duplicate());
                },
                _ => {},
            }
        }
        Err(CustomError::with(HttpCodeW::Unauthorized, "Invalid credentials"))
    }

    /// Appends an entry to the audit trail of an account.
    pub fn add_details_login(user: &mut Model, new_login: LoginRecord)
        ensures
            final(user)@ == old(user)@.noted(new_login@),
    {
        let ghost before = user@;
        user.login_history.push(new_login);
        assert(user@.login_history =~= before.login_history.push(new_login@));
    }

    /// Decides a login attempt at `now` from `ip_address`.
    pub fn check_credentials_and_email_verification(
        password: &str,
        ip_address: &str,
        user_model: Model,
        now: i64,
    ) -> (r: Admission)
        ensures
            match r {
                Admission::Granted(user) => admission(password@, ip_address@, user_model@, now) == (
                    Some(user@),
                    true,
                ),
                Admission::Pending(user) => admission(password@, ip_address@, user_model@, now) == (
                    Some(user@),
                    false,
                ),
                Admission::Refused => admission(password@, ip_address@, user_model@, now) == (
                    None::<UserView>,
                    false,
                ),
            },
    {
        if user_model.needs_email_verification() {
            let mut user = user_model;
            Self::add_details_login(
                &mut user,
                LoginRecord::new(now, "Needs email verification", ip_address),
            );
            return Admission::Pending(user);
        }
        match Self::check_credentials(password, &user_model) {
            Ok(mut user) => {
                Self::add_details_login(
                    &mut user,
                    LoginRecord::new(now, "User logged in", ip_address),
                );
                user.last_login = Some(now);
                user.updated_at = now;
                Admission::Granted(user)
            },
            Err(_) => Admission::Refused,
        }
    }

    /// Confirms the address of an account at `now`: the account becomes
    /// active, and the confirmation is noted.
    pub fn update(model: &mut Model, ip_address: &str, now: i64)
        ensures
            final(model)@ == old(model)@.noted(entry(now, note_verified(), ip_address@)).verified(),
    {
        Self::add_details_login(
            model,
            LoginRecord::new(now, "Email verified successfully", ip_address),
        );
        model.email_verified = true;
        model.status = UserStatus::Active;
    }
}

} // verus!
