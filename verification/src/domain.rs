//! The stores and the request handlers, and the error that they share.

use vstd::prelude::*;
use vstd::string::*;
use crate::clock::Instant;
use crate::ident::{fresh_token, is_uuid_v7_text};
use crate::text::concat2;

pub mod games;
pub mod payments;
pub mod users;

verus! {

/// What can go wrong in a store or a handler. Each variant carries its detail.
#[derive(Debug)]
pub enum Error {
    Database(String),
    NotFound(String),
    InvalidInput(String),
    Authentication(String),
    Thread(String),
}

/// An error as an HTTP status and the text sent with it.
#[derive(Debug)]
pub struct ErrorReply {
    pub status: u16,
    pub message: String,
}

pub const STATUS_OK: u16 = 200;

pub const STATUS_CREATED: u16 = 201;

pub const STATUS_BAD_REQUEST: u16 = 400;

pub const STATUS_UNAUTHORIZED: u16 = 401;

pub const STATUS_PAYMENT_REQUIRED: u16 = 402;

pub const STATUS_FORBIDDEN: u16 = 403;

pub const STATUS_NOT_FOUND: u16 = 404;

pub const STATUS_INTERNAL_SERVER_ERROR: u16 = 500;

impl Error {
    /// The detail that the error carries.
    pub open spec fn detail(self) -> Seq<char> {
        match self {
            Error::Database(m) => m@,
            Error::NotFound(m) => m@,
            Error::InvalidInput(m) => m@,
            Error::Authentication(m) => m@,
            Error::Thread(m) => m@,
        }
    }

    /// The words that introduce each kind of error.
    pub open spec fn heading(self) -> Seq<char> {
        match self {
            Error::Database(_) => "Database error: "@,
            Error::NotFound(_) => "Resource not found: "@,
            Error::InvalidInput(_) => "Invalid input: "@,
            Error::Authentication(_) => "Authentication error: "@,
            Error::Thread(_) => "Thread error: "@,
        }
    }

    /// The error as one line of text: its heading, then its detail.
    pub fn message(&self) -> (text: String)
        ensures
            text@ == self.heading() + self.detail(),
    {
        match self {
            Error::Database(m) => concat2("Database error: ", m.as_str()),
            Error::NotFound(m) => concat2("Resource not found: ", m.as_str()),
            Error::InvalidInput(m) => concat2("Invalid input: ", m.as_str()),
            Error::Authentication(m) => concat2("Authentication error: ", m.as_str()),
            Error::Thread(m) => concat2("Thread error: ", m.as_str()),
        }
    }
}

/// Whether `e` is the error of a clock that stands outside the years that a
/// timestamp can name.
pub open spec fn clock_stopped(e: Error) -> bool {
    e is InvalidInput && e.detail() == "System clock is out of range"@
}

/// The reading of the clock, or the error of a clock that stands outside the
/// years that a timestamp can name.
pub fn current_time() -> (r: Result<Instant, Error>)
    ensures
        r matches Err(e) ==> clock_stopped(e),
        r matches Ok(now) ==> crate::clock::representable(now.nanos()),
{
    match Instant::now() {
        Some(now) => {
            let _ = now.unix_nanos();
            Ok(now)
        },
        None => Err(Error::InvalidInput(String::from_str("System clock is out of range"))),
    }
}

/// A new identifier made at `now`, or the error of a clock that stands
/// before the time from which identifiers count.
pub fn new_token(now: &Instant) -> (r: Result<String, Error>)
    ensures
        r is Ok <==> now.nanos() >= 0,
        match r {
            Ok(token) => is_uuid_v7_text(token@),
            Err(e) => clock_stopped(e),
        },
{
    match fresh_token(now) {
        Some(token) => Ok(token),
        None => Err(Error::InvalidInput(String::from_str("System clock is out of range"))),
    }
}

/// The status that answers each kind of error.
pub open spec fn error_status(err: Error) -> u16 {
    match err {
        Error::NotFound(_) => STATUS_NOT_FOUND,
        Error::InvalidInput(_) => STATUS_BAD_REQUEST,
        Error::Authentication(_) => STATUS_UNAUTHORIZED,
        _ => STATUS_INTERNAL_SERVER_ERROR,
    }
}

/// The text that answers each kind of error: its detail, but for the errors
/// of the service itself, whose detail stays inside.
pub open spec fn error_text(err: Error) -> Seq<char> {
    match err {
        Error::NotFound(m) => m@,
        Error::InvalidInput(m) => m@,
        Error::Authentication(m) => m@,
        _ => "Internal server error"@,
    }
}

/// The reply that a handler sends for `err`.
pub fn map_error(err: Error) -> (reply: ErrorReply)
    ensures
        reply.status == error_status(err),
        reply.message@ == error_text(err),
{
    match err {
        Error::NotFound(m) => ErrorReply { status: STATUS_NOT_FOUND, message: m },
        Error::InvalidInput(m) => ErrorReply { status: STATUS_BAD_REQUEST, message: m },
        Error::Authentication(m) => ErrorReply { status: STATUS_UNAUTHORIZED, message: m },
        _ => ErrorReply {
            status: STATUS_INTERNAL_SERVER_ERROR,
            message: String::from_str("Internal server error"),
        },
    }
}

} // verus!
