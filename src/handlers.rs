//! The four request handlers over a session: inspect, increment, login and
//! logout.

use crate::session::{
    insert_i32, insert_string, purge_session, renew_session,
    int_at, int_written, lookup_int, lookup_text, no_entries, session_entries,
    session_phase, string_from_json, text_at, Lookup, Phase,
};
use actix_session::Session;
use vstd::prelude::*;
use vstd::string::*;

verus! {

/// The body of the inspect and increment responses.
#[derive(Debug, PartialEq, Eq)]
pub struct IndexResponse {
    pub user_id: Option<String>,
    pub counter: i32,
}

/// The login payload.
pub struct Identity {
    pub user_id: String,
}

/// Why a handler gave no response body.
#[derive(Clone, Copy, Debug, PartialEq, Eq, Structural)]
pub enum HandlerError {
    /// A session value does not decode as the type its key holds.
    MalformedSessionValue,
    /// The request body is missing or is not a valid payload.
    MissingOrInvalidPayload,
    /// The counter is already at its largest value.
    CounterOverflow,
}

impl HandlerError {
    /// The HTTP status that answers this error.
    pub fn status_code(&self) -> (r: u16)
        ensures
            r == match *self {
                HandlerError::MissingOrInvalidPayload => 400u16,
                _ => 500u16,
            },
    {
        match self {
            HandlerError::MissingOrInvalidPayload => 400,
            _ => 500,
        }
    }
}

/// What a reply says: the user, if one is logged in, and the counter.
pub type Reply = (Option<Seq<char>>, i32);

impl View for IndexResponse {
    type V = Reply;

    open spec fn view(&self) -> Reply {
        (
            match self.user_id {
                Some(u) => Some(u@),
                None => None,
            },
            self.counter,
        )
    }
}

/// A handler's JSON outcome, with the body seen as a `Reply`.
pub open spec fn reply_view(r: Result<IndexResponse, HandlerError>) -> Result<Reply, HandlerError> {
    match r {
        Ok(v) => Ok(v@),
        Err(e) => Err(e),
    }
}

/// A handler's text outcome, with the message seen as characters.
pub open spec fn message_view(r: Result<String, HandlerError>) -> Result<Seq<char>, HandlerError> {
    match r {
        Ok(m) => Ok(m@),
        Err(e) => Err(e),
    }
}

/// The logged-in user of a session, if any.
pub open spec fn known_user(s: Session) -> Result<Option<Seq<char>>, HandlerError> {
    match text_at(s, "user_id"@) {
        Lookup::Absent => Ok(None),
        Lookup::Valid(u) => Ok(Some(u)),
        Lookup::Malformed => Err(HandlerError::MalformedSessionValue),
    }
}

/// The counter of a session; a session without one counts zero.
pub open spec fn known_counter(s: Session) -> Result<i32, HandlerError> {
    match int_at(s, "counter"@) {
        Lookup::Absent => Ok(0),
        Lookup::Valid(n) => Ok(n),
        Lookup::Malformed => Err(HandlerError::MalformedSessionValue),
    }
}

/// What inspecting a session replies.
pub open spec fn index_spec(s: Session) -> Result<Reply, HandlerError> {
    match known_user(s) {
        Err(e) => Err(e),
        Ok(u) => match known_counter(s) {
            Err(e) => Err(e),
            Ok(c) => Ok((u, c)),
        },
    }
}

/// What incrementing the counter of a session replies.
pub open spec fn increment_spec(s: Session) -> Result<Reply, HandlerError> {
    match index_spec(s) {
        Err(e) => Err(e),
        Ok((u, c)) => if c == i32::MAX {
            Err(HandlerError::CounterOverflow)
        } else {
            Ok((u, (c + 1) as i32))
        },
    }
}

/// One increment: `out` is the reply, `post` the session after it. On
/// success the new counter is written; on failure nothing changes.
pub open spec fn increment_step(pre: Session, post: Session, out: Result<Reply, HandlerError>) -> bool {
    &&& out == increment_spec(pre)
    &&& match out {
        Ok((_, n)) => int_written(pre, post, "counter"@, n),
        Err(_) => post == pre,
    }
}

/// What logging in as `id` replies.
pub open spec fn login_spec(s: Session, id: Option<Seq<char>>) -> Result<Reply, HandlerError> {
    match id {
        None => Err(HandlerError::MissingOrInvalidPayload),
        Some(u) => match known_counter(s) {
            Err(e) => Err(e),
            Ok(c) => Ok((Some(u), c)),
        },
    }
}

/// One login: on success the user is written and the session renewed (a
/// purged session stays purged and keeps its entries); on failure nothing
/// changes.
pub open spec fn login_step(
    pre: Session,
    post: Session,
    id: Option<Seq<char>>,
    out: Result<Reply, HandlerError>,
) -> bool {
    &&& out == login_spec(pre, id)
    &&& match out {
        Ok((Some(u), _)) => if session_phase(pre) == Phase::Purged {
            &&& session_entries(post) == session_entries(pre)
            &&& session_phase(post) == Phase::Purged
        } else {
            &&& session_phase(post) == Phase::Renewed
            &&& session_entries(post) == session_entries(pre).insert(
                "user_id"@,
                session_entries(post)["user_id"@],
            )
            &&& string_from_json(session_entries(post)["user_id"@]) == Some(u)
        },
        _ => post == pre,
    }
}

/// What logging out replies.
pub open spec fn logout_spec(s: Session) -> Result<Seq<char>, HandlerError> {
    match known_user(s) {
        Err(e) => Err(e),
        Ok(Some(u)) => Ok("Logged out: "@ + u),
        Ok(None) => Ok("Could not log out anonymous user"@),
    }
}

/// One logout: a logged-in session is purged; any other is left alone.
pub open spec fn logout_step(pre: Session, post: Session, out: Result<Seq<char>, HandlerError>) -> bool {
    &&& out == logout_spec(pre)
    &&& match known_user(pre) {
        Ok(Some(_)) => session_entries(post) == no_entries() && session_phase(post) == Phase::Purged,
        _ => post == pre,
    }
}

fn read_user(s: &Session) -> (r: Result<Option<String>, HandlerError>)
    ensures
        match (r, known_user(*s)) {
            (Ok(Some(u)), Ok(Some(w))) => u@ == w,
            (Ok(None), Ok(None)) => true,
            (Err(e), Err(f)) => e == f,
            _ => false,
        },
{
    match lookup_text(s, "user_id") {
        Lookup::Absent => Ok(None),
        Lookup::Valid(u) => Ok(Some(u)),
        Lookup::Malformed => Err(HandlerError::MalformedSessionValue),
    }
}

fn read_counter(s: &Session) -> (r: Result<i32, HandlerError>)
    ensures
        r == known_counter(*s),
{
    match lookup_int(s, "counter") {
        Lookup::Absent => Ok(0),
        Lookup::Valid(n) => Ok(n),
        Lookup::Malformed => Err(HandlerError::MalformedSessionValue),
    }
}

/// Inspect: the logged-in user and the counter, a missing counter being zero.
/// Nothing is written.
pub fn index(session: &Session) -> (r: Result<IndexResponse, HandlerError>)
    ensures
        reply_view(r) == index_spec(*session),
{
    let user_id = match read_user(session) {
        Ok(u) => u,
        Err(e) => return Err(e),
    };
    let counter = match read_counter(session) {
        Ok(c) => c,
        Err(e) => return Err(e),
    };
    Ok(IndexResponse { user_id, counter })
}

/// Increment: writes the counter plus one and replies with it and the
/// unchanged user.
pub fn do_something(session: &mut Session) -> (r: Result<IndexResponse, HandlerError>)
    ensures
        increment_step(*old(session), *final(session), reply_view(r)),
{
    let user_id = match read_user(session) {
        Ok(u) => u,
        Err(e) => return Err(e),
    };
    let counter = match read_counter(session) {
        Ok(c) => c,
        Err(e) => return Err(e),
    };
    if counter == i32::MAX {
        return Err(HandlerError::CounterOverflow);
    }
    let counter = counter + 1;
    match insert_i32(session, "counter", counter) {
        Ok(()) => {},
        // Not reached: encoding a string or an integer cannot fail.
        Err(_) => return Err(HandlerError::MalformedSessionValue),
    }
    Ok(IndexResponse { user_id, counter })
}

/// Login: without a valid payload, fails with `MissingOrInvalidPayload` and
/// writes nothing. Otherwise writes the user, renews the session id and
/// replies with the user and the unchanged counter.
pub fn login(session: &mut Session, payload: Option<Identity>) -> (r: Result<
    IndexResponse,
    HandlerError,
>)
    ensures
        login_step(
            *old(session),
            *final(session),
            match payload {
                Some(p) => Some(p.user_id@),
                None => None,
            },
            reply_view(r),
        ),
{
    let id = match payload {
        Some(p) => p.user_id,
        None => return Err(HandlerError::MissingOrInvalidPayload),
    };
    let counter = match read_counter(session) {
        Ok(c) => c,
        Err(e) => return Err(e),
    };
    match insert_string(session, "user_id", id.as_str()) {
        Ok(()) => {},
        // Not reached: encoding a string or an integer cannot fail.
        Err(_) => return Err(HandlerError::MalformedSessionValue),
    }
    renew_session(session);
    Ok(IndexResponse { user_id: Some(id), counter })
}

/// Logout: a logged-in session is purged and the reply names the user; an
/// anonymous one is left alone and the reply says so. Neither is an error.
pub fn logout(session: &mut Session) -> (r: Result<String, HandlerError>)
    ensures
        logout_step(*old(session), *final(session), message_view(r)),
{
    match read_user(session) {
        Err(e) => Err(e),
        Ok(Some(u)) => {
            purge_session(session);
            let mut m = String::from_str("Logged out: ");
            m.append(u.as_str());
            Ok(m)
        },
        Ok(None) => Ok(String::from_str("Could not log out anonymous user")),
    }
}

} // verus!
