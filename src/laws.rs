//! Properties of the handlers over several requests, proved from their
//! contracts.
//!
//! Between two requests the session middleware stores the entries a request
//! left and loads them for the next request on the same cookie; a law below
//! states that hand-over as equality of entries.

use crate::handlers::{
    increment_step, index_spec, known_counter, known_user, login_step, logout_step, HandlerError,
    Reply,
};
use crate::session::{
    int_at, no_entries, session_entries, session_phase, text_at, Lookup, Phase,
};
use actix_session::Session;
use vstd::prelude::*;

verus! {

proof fn lemma_keys_differ()
    ensures
        "user_id"@ != "counter"@,
{
    reveal_strlit("user_id");
    reveal_strlit("counter");
    assert("user_id"@[0] != "counter"@[0]);
}

/// A session with no entries (a request without a session cookie) is
/// inspected as no user and a zero counter.
pub proof fn lemma_fresh_index(s: Session)
    requires
        session_entries(s) == no_entries(),
    ensures
        index_spec(s) == Ok::<Reply, HandlerError>((None, 0)),
{
}

proof fn lemma_increment_once(pre: Session, post: Session, out: Result<Reply, HandlerError>, c: int)
    requires
        increment_step(pre, post, out),
        session_phase(pre) != Phase::Purged,
        known_user(pre) is Ok,
        known_counter(pre) == Ok::<i32, HandlerError>(c as i32),
        0 <= c < i32::MAX,
    ensures
        out == Ok::<Reply, HandlerError>((known_user(pre)->Ok_0, (c + 1) as i32)),
        int_at(post, "counter"@) == Lookup::Valid((c + 1) as i32),
        known_user(post) == known_user(pre),
        session_phase(post) != Phase::Purged,
{
    lemma_keys_differ();
    assert(text_at(post, "user_id"@) == text_at(pre, "user_id"@));
}

proof fn lemma_increments_upto(
    pre: Seq<Session>,
    post: Seq<Session>,
    out: Seq<Result<Reply, HandlerError>>,
    k: int,
)
    requires
        pre.len() == post.len() == out.len(),
        out.len() <= i32::MAX,
        0 <= k < out.len(),
        int_at(pre[0], "counter"@) is Absent,
        known_user(pre[0]) is Ok,
        forall|i: int| 0 <= i < out.len() ==> session_phase(pre[i]) != Phase::Purged,
        forall|i: int| 0 <= i < out.len() ==> increment_step(pre[i], post[i], out[i]),
        forall|i: int|
            0 <= i < out.len() - 1 ==> session_entries(pre[i + 1]) == session_entries(post[i]),
    ensures
        out[k] == Ok::<Reply, HandlerError>((known_user(pre[0])->Ok_0, (k + 1) as i32)),
        int_at(post[k], "counter"@) == Lookup::Valid((k + 1) as i32),
        known_user(post[k]) == known_user(pre[0]),
    decreases k,
{
    if k == 0 {
        lemma_increment_once(pre[0], post[0], out[0], 0);
    } else {
        lemma_increments_upto(pre, post, out, k - 1);
        assert(int_at(pre[k], "counter"@) == int_at(post[k - 1], "counter"@));
        assert(text_at(pre[k], "user_id"@) == text_at(post[k - 1], "user_id"@));
        lemma_increment_once(pre[k], post[k], out[k], k);
    }
}

/// Increments made one after another, each request seeing what the one
/// before it stored, starting from a session without a counter and with a
/// readable user: the k-th reply carries the counter k and the starting user,
/// and after N increments the session holds the counter N and the same user.
pub proof fn lemma_sequential_increments(
    pre: Seq<Session>,
    post: Seq<Session>,
    out: Seq<Result<Reply, HandlerError>>,
)
    requires
        pre.len() == post.len() == out.len(),
        out.len() <= i32::MAX,
        out.len() > 0 ==> int_at(pre[0], "counter"@) is Absent && known_user(pre[0]) is Ok,
        forall|i: int| 0 <= i < out.len() ==> session_phase(pre[i]) != Phase::Purged,
        forall|i: int| 0 <= i < out.len() ==> increment_step(pre[i], post[i], out[i]),
        forall|i: int|
            0 <= i < out.len() - 1 ==> session_entries(pre[i + 1]) == session_entries(post[i]),
    ensures
        forall|i: int|
            0 <= i < out.len() ==> out[i] == Ok::<Reply, HandlerError>(
                (known_user(pre[0])->Ok_0, (i + 1) as i32),
            ),
        out.len() > 0 ==> int_at(post[out.len() - 1], "counter"@) == Lookup::Valid(
            out.len() as i32,
        ),
        out.len() > 0 ==> known_user(post[out.len() - 1]) == known_user(pre[0]),
{
    assert forall|i: int| 0 <= i < out.len() implies out[i] == Ok::<Reply, HandlerError>(
        (known_user(pre[0])->Ok_0, (i + 1) as i32),
    ) by {
        lemma_increments_upto(pre, post, out, i);
    }
    if out.len() > 0 {
        lemma_increments_upto(pre, post, out, out.len() - 1);
    }
}

/// Logging in as `id` on a fresh session replies with `id` and a zero
/// counter, marks the session for a new id, and leaves `id` as its user.
pub proof fn lemma_login_fresh(
    pre: Session,
    post: Session,
    id: Seq<char>,
    out: Result<Reply, HandlerError>,
)
    requires
        session_entries(pre) == no_entries(),
        session_phase(pre) == Phase::Unchanged,
        login_step(pre, post, Some(id), out),
    ensures
        out == Ok::<Reply, HandlerError>((Some(id), 0)),
        session_phase(post) == Phase::Renewed,
        known_user(post) == Ok::<Option<Seq<char>>, HandlerError>(Some(id)),
{
}

/// After a successful login as `id`, a logout on the stored session replies
/// with a message naming `id` and purges the session; a later request on the
/// cleared session is inspected as no user and a zero counter.
pub proof fn lemma_login_then_logout(
    s0: Session,
    s1: Session,
    id: Seq<char>,
    out1: Result<Reply, HandlerError>,
    s2: Session,
    s3: Session,
    out2: Result<Seq<char>, HandlerError>,
    s4: Session,
)
    requires
        session_phase(s0) != Phase::Purged,
        login_step(s0, s1, Some(id), out1),
        out1 is Ok,
        session_entries(s2) == session_entries(s1),
        logout_step(s2, s3, out2),
        session_entries(s4) == session_entries(s3),
    ensures
        out2 == Ok::<Seq<char>, HandlerError>("Logged out: "@ + id),
        session_phase(s3) == Phase::Purged,
        index_spec(s4) == Ok::<Reply, HandlerError>((None, 0)),
{
    assert(text_at(s2, "user_id"@) == text_at(s1, "user_id"@));
}

/// Logging out a session without a user replies that nobody was logged in,
/// as a success, and changes nothing.
pub proof fn lemma_logout_anonymous(pre: Session, post: Session, out: Result<Seq<char>, HandlerError>)
    requires
        text_at(pre, "user_id"@) is Absent,
        logout_step(pre, post, out),
    ensures
        out == Ok::<Seq<char>, HandlerError>("Could not log out anonymous user"@),
        post == pre,
{
}

/// A login without a valid payload fails as a client error and changes
/// nothing.
pub proof fn lemma_login_without_payload(
    pre: Session,
    post: Session,
    out: Result<Reply, HandlerError>,
)
    requires
        login_step(pre, post, None, out),
    ensures
        out == Err::<Reply, HandlerError>(HandlerError::MissingOrInvalidPayload),
        post == pre,
{
}

} // verus!
