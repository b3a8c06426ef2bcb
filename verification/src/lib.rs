//! Client-side logic for the Untis JSON-RPC service, which gives read-only
//! access to the timetables of a school.
//!
//! The library performs no network access. It builds the requests and
//! decides what the replies mean; sending a request is left to the caller:
//!
//! 1. [`Client::login`] returns a [`client::Login`], whose call asks the
//!    server to authenticate the user.
//! 2. The caller posts the body of the call to its URL and wraps what came
//!    back in a [`jsonrpc::Reply`].
//! 3. [`client::Login::finish`] reads the reply. Where it carries a session,
//!    the result is a [`Client`], the handle of the logged-in user.
//! 4. Each operation of the handle returns a [`jsonrpc::Call`] that knows the
//!    type of its result, and [`jsonrpc::Call::answer`] reads the reply to
//!    it.
//! 5. [`Client::logout`] takes the handle into a [`client::Logout`], and
//!    [`client::Logout::finish`] gives it back where the logout failed.
//!
//! The modules, from the bottom up: [`json`] holds JSON values, reads them
//! with `serde_json` and writes them; [`codec`] turns typed values into
//! JSON and back; [`jsonrpc`] builds request envelopes with their ids and
//! matches responses against them; [`error`] names the failures;
//! [`datetime`], [`params`] and [`resources`] are the values that go over
//! the wire; [`operation`] lists the methods of the service; [`client`] and
//! [`schools`] are the typed operations.

pub mod client;
pub mod codec;
pub mod datetime;
pub mod error;
pub mod json;
pub mod jsonrpc;
pub mod operation;
pub mod params;
pub mod resources;
pub mod schools;

pub use client::Client;
pub use datetime::{Date, Time, UtcDateTime};
pub use error::Error;
pub use resources::{
    Class, Department, ElementType, Holiday, Lesson, LessonElement, Room, School, SchoolSearchResult, Schoolyear,
    Session, StatusColor, StatusData, Student, Subject, Teacher,
};
