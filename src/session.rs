//! Typed access to an `actix_session::Session`.
//!
//! A session holds a map from keys to JSON texts and a phase (unchanged,
//! changed, renewed, purged) that the session middleware acts on when the
//! response is finalised. Both are named here so that contracts can speak of
//! them; every read and write goes through one of the wrappers below.

use actix_session::{Session, SessionGetError, SessionInsertError};
use vstd::prelude::*;

verus! {

#[verifier::external_type_specification]
#[verifier::external_body]
pub struct ExSession(Session);

#[verifier::external_type_specification]
#[verifier::external_body]
pub struct ExSessionGetError(SessionGetError);

#[verifier::external_type_specification]
#[verifier::external_body]
pub struct ExSessionInsertError(SessionInsertError);

/// What the session middleware does with a session once the response is ready.
#[derive(Clone, Copy, Debug, PartialEq, Eq, Structural)]
pub enum Phase {
    /// Nothing was written: the store is left alone.
    Unchanged,
    /// Entries were written: they are stored under the same session id.
    Changed,
    /// The entries move to a freshly allocated session id and a new cookie is set.
    Renewed,
    /// The stored state is deleted and the cookie is cleared.
    Purged,
}

/// Outcome of reading one key of a session as a given type.
pub enum Lookup<T> {
    /// The key holds no value.
    Absent,
    /// The key holds a value of the expected type.
    Valid(T),
    /// The key holds a value that does not decode as the expected type.
    Malformed,
}

/// The JSON texts that a session holds, by key.
pub uninterp spec fn session_entries(s: Session) -> Map<Seq<char>, Seq<char>>;

/// The phase a session is in.
pub uninterp spec fn session_phase(s: Session) -> Phase;

/// What `serde_json::from_str::<String>` makes of a text: `None` where it fails.
pub uninterp spec fn string_from_json(text: Seq<char>) -> Option<Seq<char>>;

/// What `serde_json::from_str::<i32>` makes of a text: `None` where it fails.
pub uninterp spec fn i32_from_json(text: Seq<char>) -> Option<i32>;

/// A session that holds nothing.
pub open spec fn no_entries() -> Map<Seq<char>, Seq<char>> {
    Map::empty()
}

/// The value under `key`, read as a string.
pub open spec fn text_at(s: Session, key: Seq<char>) -> Lookup<Seq<char>> {
    if !session_entries(s).contains_key(key) {
        Lookup::Absent
    } else {
        match string_from_json(session_entries(s)[key]) {
            Some(v) => Lookup::Valid(v),
            None => Lookup::Malformed,
        }
    }
}

/// The value under `key`, read as a 32-bit integer.
pub open spec fn int_at(s: Session, key: Seq<char>) -> Lookup<i32> {
    if !session_entries(s).contains_key(key) {
        Lookup::Absent
    } else {
        match i32_from_json(session_entries(s)[key]) {
            Some(v) => Lookup::Valid(v),
            None => Lookup::Malformed,
        }
    }
}

/// The phase after a write: a purged session stays purged, a renewed one
/// stays renewed, any other becomes changed.
pub open spec fn phase_after_write(p: Phase) -> Phase {
    match p {
        Phase::Purged => Phase::Purged,
        Phase::Renewed => Phase::Renewed,
        _ => Phase::Changed,
    }
}

/// `post` is `pre` after the text `v` was written under `key`: nothing
/// changes on a purged session; otherwise `key` now reads back as `v`, and
/// every other key is kept.
pub open spec fn text_written(pre: Session, post: Session, key: Seq<char>, v: Seq<char>) -> bool {
    &&& session_phase(post) == phase_after_write(session_phase(pre))
    &&& if session_phase(pre) == Phase::Purged {
        session_entries(post) == session_entries(pre)
    } else {
        &&& session_entries(post) == session_entries(pre).insert(key, session_entries(post)[key])
        &&& string_from_json(session_entries(post)[key]) == Some(v)
    }
}

/// `post` is `pre` after the integer `v` was written under `key`, as
/// `text_written` says for text.
pub open spec fn int_written(pre: Session, post: Session, key: Seq<char>, v: i32) -> bool {
    &&& session_phase(post) == phase_after_write(session_phase(pre))
    &&& if session_phase(pre) == Phase::Purged {
        session_entries(post) == session_entries(pre)
    } else {
        &&& session_entries(post) == session_entries(pre).insert(key, session_entries(post)[key])
        &&& i32_from_json(session_entries(post)[key]) == Some(v)
    }
}

/// Relies on `Session::get::<String>`: `Ok(None)` for a missing key, the
/// string that `serde_json` decodes from the stored text, or an error where
/// it does not decode.
#[verifier::external_body]
fn get_string(s: &Session, key: &str) -> (r: Result<Option<String>, SessionGetError>)
    ensures
        !session_entries(*s).contains_key(key@) ==> r is Ok && r->Ok_0 is None,
        session_entries(*s).contains_key(key@) ==> match string_from_json(
            session_entries(*s)[key@],
        ) {
            Some(v) => r is Ok && r->Ok_0 is Some && r->Ok_0->Some_0@ == v,
            None => r is Err,
        },
{
    s.get::<String>(key)
}

/// Relies on `Session::get::<i32>`, as `get_string` does for strings.
#[verifier::external_body]
fn get_i32(s: &Session, key: &str) -> (r: Result<Option<i32>, SessionGetError>)
    ensures
        !session_entries(*s).contains_key(key@) ==> r is Ok && r->Ok_0 is None,
        session_entries(*s).contains_key(key@) ==> match i32_from_json(
            session_entries(*s)[key@],
        ) {
            Some(v) => r is Ok && r->Ok_0 == Some(v),
            None => r is Err,
        },
{
    s.get::<i32>(key)
}

/// Relies on `Session::insert` with a `String` value: unless the session is
/// purged, the value is stored as its JSON text (which `serde_json` decodes
/// back to the same string), other keys are kept, and the phase becomes
/// changed unless it is renewed; a purged session is left as it is.
/// Encoding a string cannot fail, so the result is `Ok`.
#[verifier::external_body]
pub(crate) fn insert_string(s: &mut Session, key: &str, v: &str) -> (r: Result<(), SessionInsertError>)
    ensures
        r is Ok,
        session_phase(*final(s)) == phase_after_write(session_phase(*old(s))),
        session_phase(*old(s)) == Phase::Purged ==> session_entries(*final(s)) == session_entries(
            *old(s),
        ),
        session_phase(*old(s)) != Phase::Purged ==> session_entries(*final(s)) == session_entries(
            *old(s),
        ).insert(key@, session_entries(*final(s))[key@]),
        session_phase(*old(s)) != Phase::Purged ==> string_from_json(
            session_entries(*final(s))[key@],
        ) == Some(v@),
{
    s.insert(key, v)
}

/// Relies on `Session::insert` with an `i32` value, as `insert_string` does
/// for strings.
#[verifier::external_body]
pub(crate) fn insert_i32(s: &mut Session, key: &str, v: i32) -> (r: Result<(), SessionInsertError>)
    ensures
        r is Ok,
        session_phase(*final(s)) == phase_after_write(session_phase(*old(s))),
        session_phase(*old(s)) == Phase::Purged ==> session_entries(*final(s)) == session_entries(
            *old(s),
        ),
        session_phase(*old(s)) != Phase::Purged ==> session_entries(*final(s)) == session_entries(
            *old(s),
        ).insert(key@, session_entries(*final(s))[key@]),
        session_phase(*old(s)) != Phase::Purged ==> i32_from_json(
            session_entries(*final(s))[key@],
        ) == Some(v),
{
    s.insert(key, v)
}

/// Relies on `Session::renew`: a session that is not purged becomes renewed;
/// the entries are kept.
#[verifier::external_body]
pub(crate) fn renew_session(s: &mut Session)
    ensures
        session_entries(*final(s)) == session_entries(*old(s)),
        session_phase(*final(s)) == (if session_phase(*old(s)) == Phase::Purged {
            Phase::Purged
        } else {
            Phase::Renewed
        }),
{
    s.renew()
}

/// Relies on `Session::purge`: the session becomes purged and its entries
/// are cleared.
#[verifier::external_body]
pub(crate) fn purge_session(s: &mut Session)
    ensures
        session_entries(*final(s)) == no_entries(),
        session_phase(*final(s)) == Phase::Purged,
{
    s.purge()
}

/// Reads `key` as a string, telling a missing value from one that does not
/// decode.
pub fn lookup_text(s: &Session, key: &str) -> (r: Lookup<String>)
    ensures
        match (r, text_at(*s, key@)) {
            (Lookup::Absent, Lookup::Absent) => true,
            (Lookup::Valid(v), Lookup::Valid(w)) => v@ == w,
            (Lookup::Malformed, Lookup::Malformed) => true,
            _ => false,
        },
{
    match get_string(s, key) {
        Ok(Some(v)) => Lookup::Valid(v),
        Ok(None) => Lookup::Absent,
        Err(_) => Lookup::Malformed,
    }
}

/// Reads `key` as an integer, telling a missing value from one that does not
/// decode.
pub fn lookup_int(s: &Session, key: &str) -> (r: Lookup<i32>)
    ensures
        r == int_at(*s, key@),
{
    match get_i32(s, key) {
        Ok(Some(v)) => Lookup::Valid(v),
        Ok(None) => Lookup::Absent,
        Err(_) => Lookup::Malformed,
    }
}

} // verus!
