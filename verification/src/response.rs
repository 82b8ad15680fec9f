//! Reading the agent's answers.

use vstd::prelude::*;

verus! {

/// The status code of a successful call.
pub open spec fn status_ok() -> u16 {
    200
}

/// The status code the agent answers when the object of a call does not exist.
pub open spec fn status_not_found() -> u16 {
    404
}

/// Whether a call that answers with a yes or no succeeded: exactly when the
/// status is `200 OK`.
pub fn is_ok_status(status: u16) -> (r: bool)
    ensures
        r == (status == status_ok()),
{
    status == 200
}

/// Whether the object of a call does not exist: exactly when the status is
/// `404 Not Found`. Calls that look an object up answer `None` then, and read
/// the body otherwise.
pub fn is_not_found_status(status: u16) -> (r: bool)
    ensures
        r == (status == status_not_found()),
{
    status == 404
}

/// The payload the agent reports for an event that was fired without one: the
/// Base64 encoding of `null`.
pub open spec fn null_event_payload() -> Seq<char> {
    "bnVsbA=="@
}

/// The payload of a listed event as the library reports it: an event whose
/// payload is the encoded `null` has no payload; every other payload is kept.
pub open spec fn reported_payload(payload: Option<Seq<char>>) -> Option<Seq<char>> {
    match payload {
        Some(p) => if p == null_event_payload() {
            None
        } else {
            Some(p)
        },
        None => None,
    }
}

/// The payload of one listed event as the library reports it: see
/// `reported_payload`.
pub fn normalize_event_payload(payload: Option<String>) -> (r: Option<String>)
    ensures
        r.deep_view() == reported_payload(payload.deep_view()),
{
    match payload {
        Some(p) => {
            let marker = String::from_str("bnVsbA==");
            if p == marker {
                None
            } else {
                Some(p)
            }
        },
        None => None,
    }
}

/// A user event as the agent lists it: its ID, name, payload (the Base64
/// text of its bytes), the filters it was fired with, and its version and
/// Lamport time.
#[derive(Debug, Default, PartialEq, Eq)]
pub struct UserEvent {
    pub id: String,
    pub name: String,
    pub payload: Option<String>,
    pub node_filter: String,
    pub service_filter: String,
    pub tag_filter: String,
    pub version: u64,
    pub l_time: u64,
}

/// `after` is `before` with the payload as the library reports it, and every
/// other field unchanged.
pub open spec fn reported_event(before: UserEvent, after: UserEvent) -> bool {
    &&& after.payload.deep_view() == reported_payload(before.payload.deep_view())
    &&& after.id == before.id
    &&& after.name == before.name
    &&& after.node_filter == before.node_filter
    &&& after.service_filter == before.service_filter
    &&& after.tag_filter == before.tag_filter
    &&& after.version == before.version
    &&& after.l_time == before.l_time
}

/// A listed event as the library reports it: see `reported_payload`.
pub fn normalize_event(event: UserEvent) -> (r: UserEvent)
    ensures
        reported_event(event, r),
{
    let UserEvent { id, name, payload, node_filter, service_filter, tag_filter, version, l_time } =
        event;
    UserEvent {
        id,
        name,
        payload: normalize_event_payload(payload),
        node_filter,
        service_filter,
        tag_filter,
        version,
        l_time,
    }
}

/// The listed events as the library reports them: one for each event, in
/// the same order, each as `normalize_event` gives it.
pub fn normalize_events(events: Vec<UserEvent>) -> (r: Vec<UserEvent>)
    ensures
        r.len() == events.len(),
        forall|i: int| 0 <= i < r.len() ==> reported_event(events@[i], #[trigger] r@[i]),
{
    let ghost original = events@;
    let mut out: Vec<UserEvent> = Vec::new();
    for e in it: events
        invariant
            it.seq() == original,
            out.len() == it.index(),
            forall|j: int| 0 <= j < out.len() ==> reported_event(original[j], #[trigger] out@[j]),
    {
        out.push(normalize_event(e));
    }
    out
}

/// What a lookup answers, given the status and, when it was read, the body:
/// nothing when the object does not exist (`404`), else the body.
pub fn lookup_answer<T>(status: u16, body: Option<T>) -> (r: Option<T>)
    ensures
        status == status_not_found() ==> r is None,
        status != status_not_found() ==> r == body,
{
    if is_not_found_status(status) {
        None
    } else {
        body
    }
}

/// Reporting a payload twice changes nothing: a reported payload is reported
/// as it is.
pub proof fn lemma_reported_payload_idempotent(payload: Option<Seq<char>>)
    ensures
        reported_payload(reported_payload(payload)) == reported_payload(payload),
{
}

/// A reported payload is never the encoded `null`, and every payload other
/// than it is reported unchanged.
pub proof fn lemma_reported_payload_drops_only_null(payload: Option<Seq<char>>)
    ensures
        reported_payload(payload) != Some(null_event_payload()),
        payload != Some(null_event_payload()) ==> reported_payload(payload) == payload,
{
}

} // verus!
