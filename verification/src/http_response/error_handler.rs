use vstd::prelude::*;
use crate::http_response::HttpCodeW;
use crate::utils::text::join;

verus! {

/// Failure of a use case: the status to answer with and a message.
#[derive(Debug)]
pub struct CustomError {
    pub error_status_code: HttpCodeW,
    pub error_message: String,
}

/// The ways in which storage fails.
#[derive(Debug, Clone, Copy, PartialEq, Eq, Structural)]
pub enum DbFailureKind {
    Conn,
    Exec,
    Query,
    Json,
    ConvertFromU64,
    RecordNotFound,
    Custom,
    Other,
}

/// A failure reported by storage: its kind and what storage said.
#[derive(Debug)]
pub struct DbFailure {
    pub kind: DbFailureKind,
    pub detail: String,
}

impl DbFailureKind {
    /// The status a failure of this kind is answered with.
    pub open spec fn status(self) -> HttpCodeW {
        match self {
            DbFailureKind::RecordNotFound => HttpCodeW::NotFound,
            _ => HttpCodeW::InternalServerError,
        }
    }

    /// How the message of a failure of this kind begins.
    pub open spec fn preamble(self) -> Seq<char> {
        match self {
            DbFailureKind::Conn => "Auth database connection error: "@,
            DbFailureKind::Exec => "Auth database execution error: "@,
            DbFailureKind::Query => "Auth database query error: "@,
            DbFailureKind::Json => "Auth JSON error: "@,
            DbFailureKind::ConvertFromU64 => "Auth conversion error: "@,
            DbFailureKind::RecordNotFound => "Auth record not found"@,
            DbFailureKind::Custom => "Custom auth database error: "@,
            DbFailureKind::Other => "Unknown auth database error: "@,
        }
    }

    /// The message of a failure of this kind: what storage said after the
    /// preamble, but for a missing record, whose message is fixed.
    pub open spec fn message(self, detail: Seq<char>) -> Seq<char> {
        match self {
            DbFailureKind::RecordNotFound => self.preamble(),
            _ => self.preamble() + detail,
        }
    }

    fn preamble_text(&self) -> (r: &'static str)
        ensures
            r@ == self.preamble(),
    {
        match self {
            DbFailureKind::Conn => "Auth database connection error: ",
            DbFailureKind::Exec => "Auth database execution error: ",
            DbFailureKind::Query => "Auth database query error: ",
            DbFailureKind::Json => "Auth JSON error: ",
            DbFailureKind::ConvertFromU64 => "Auth conversion error: ",
            DbFailureKind::RecordNotFound => "Auth record not found",
            DbFailureKind::Custom => "Custom auth database error: ",
            DbFailureKind::Other => "Unknown auth database error: ",
        }
    }
}

impl DbFailure {
    pub fn new(kind: DbFailureKind, detail: String) -> (r: DbFailure)
        ensures
            r.kind == kind,
            r.detail == detail,
    {
        DbFailure { kind, detail }
    }
}

impl CustomError {
    pub fn new(error_status_code: HttpCodeW, error_message: String) -> (r: CustomError)
        ensures
            r.error_status_code == error_status_code,
            r.error_message == error_message,
    {
        CustomError { error_status_code, error_message }
    }

    /// The error with the given status and message.
    pub fn with(error_status_code: HttpCodeW, error_message: &str) -> (r: CustomError)
        ensures
            r.error_status_code == error_status_code,
            r.error_message@ == error_message@,
    {
        CustomError { error_status_code, error_message: error_message.to_owned() }
    }

    /// This error is `status` with `message`.
    pub open spec fn is(&self, status: HttpCodeW, message: Seq<char>) -> bool {
        self.error_status_code == status && self.error_message@ == message
    }

    /// The error a storage failure is reported as: not found for a missing
    /// record, an internal error for everything else.
    pub fn from(error: DbFailure) -> (r: CustomError)
        ensures
            r.is(error.kind.status(), error.kind.message(error.detail@)),
    {
        match error.kind {
            DbFailureKind::RecordNotFound => CustomError::with(
                HttpCodeW::NotFound,
                error.kind.preamble_text(),
            ),
            _ => CustomError {
                error_status_code: HttpCodeW::InternalServerError,
                error_message: join(error.kind.preamble_text(), error.detail.as_str()),
            },
        }
    }

    /// The message of the error.
    pub fn to_string(&self) -> (r: String)
        ensures
            r@ == self.error_message@,
    {
        self.error_message.clone()
    }

    /// The numeric status the error is answered with.
    pub fn status_code(&self) -> (r: u16)
        ensures
            r == self.error_status_code.number(),
    {
        self.error_status_code.as_u16()
    }

    pub fn duplicate(&self) -> (r: CustomError)
        ensures
            r.is(self.error_status_code, self.error_message@),
    {
        CustomError {
            error_status_code: self.error_status_code,
            error_message: self.error_message.clone(),
        }
    }
}

} // verus!
