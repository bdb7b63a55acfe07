use vstd::prelude::*;
use crate::response::{Response, STATUS_OK, STATUS_BAD_REQUEST, STATUS_INTERNAL_SERVER_ERROR};
use crate::classifier::{handle_error, class_message};
use crate::store::{TtlStore, EntryModel, lookup, stored_after, is_live};

verus! {

/// The one key that the read-modify-write handler reads and writes.
pub const RMW_KEY: u16 = 0;

/// What a read of the shared key at `now` reports: its live value, or the
/// empty text when there is none.
pub open spec fn previous(m: Map<u16, EntryModel>, now: u64) -> Seq<char> {
    match lookup(m, RMW_KEY, now) {
        Some(v) => v,
        None => Seq::empty(),
    }
}

/// The content that the read-modify-write handler answers with: the previous
/// value, one space, then the submitted content.
pub open spec fn rmw_reply(m: Map<u16, EntryModel>, content: Seq<char>, now: u64) -> Seq<char> {
    previous(m, now) + " "@ + content
}

/// The query: a fixed acknowledgement, whatever the cache holds.
pub fn healthz() -> (r: Response)
    ensures
        r.status == STATUS_OK,
        r.content@ == "foo"@,
{
    Response { status: STATUS_OK, content: "foo".to_string() }
}

/// The response of the generic internal failure.
pub fn error_response() -> (r: Response)
    ensures
        r.status == STATUS_INTERNAL_SERVER_ERROR,
        r.content@ == "error occurred"@,
{
    Response { status: STATUS_INTERNAL_SERVER_ERROR, content: "error occurred".to_string() }
}

/// The read-modify-write request at time `now`. `body` is the submitted
/// `content`, or `None` where the request body did not parse: that is a bad
/// request, with empty content for the classifier to fill, and the cache is
/// left alone. Otherwise the live value under the shared key is read, the
/// submitted content is written there, and the answer is the value read, a
/// space, and the submitted content.
pub fn post_healthz(store: &mut TtlStore, body: Option<String>, now: u64) -> (r: Response)
    ensures
        match body {
            None => {
                &&& r.status == STATUS_BAD_REQUEST
                &&& r.content@ == Seq::<char>::empty()
                &&& final(store)@ == old(store)@
            },
            Some(c) => {
                &&& r.status == STATUS_OK
                &&& r.content@ == rmw_reply(old(store)@, c@, now)
                &&& final(store)@ == stored_after(old(store)@, RMW_KEY, c@, now)
            },
        },
{
    match body {
        None => Response { status: STATUS_BAD_REQUEST, content: String::new() },
        Some(c) => {
            let mut content = match store.get(RMW_KEY, now) {
                Some(v) => v,
                None => String::new(),
            };
            content.append(" ");
            content.append(c.as_str());
            store.insert(RMW_KEY, c, now);
            Response { status: STATUS_OK, content }
        },
    }
}

/// A request as the boundary hands it over.
pub enum Request {
    /// `GET /healthz`.
    Query,
    /// `POST /healthz`, with the submitted `content`, or `None` where the body
    /// did not parse.
    ReadModifyWrite(Option<String>),
}

/// The response that leaves the system for `req` at `now`: the handler's
/// response, rewritten by the classifier where it is an error.
pub fn serve(store: &mut TtlStore, req: Request, now: u64) -> (r: Response)
    ensures
        match req {
            Request::Query => {
                &&& r.status == STATUS_OK
                &&& r.content@ == "foo"@
                &&& final(store)@ == old(store)@
            },
            Request::ReadModifyWrite(None) => {
                &&& r.status == STATUS_BAD_REQUEST
                &&& r.content@ == class_message(STATUS_BAD_REQUEST)
                &&& final(store)@ == old(store)@
            },
            Request::ReadModifyWrite(Some(c)) => {
                &&& r.status == STATUS_OK
                &&& r.content@ == rmw_reply(old(store)@, c@, now)
                &&& final(store)@ == stored_after(old(store)@, RMW_KEY, c@, now)
            },
        },
{
    let mut res = match req {
        Request::Query => healthz(),
        Request::ReadModifyWrite(body) => post_healthz(store, body, now),
    };
    let _ = handle_error(&mut res);
    res
}

/// Two read-modify-write requests in a row on a fresh shared key: the first
/// reports an empty previous value, the second reports what the first wrote,
/// as long as the second comes within the TTL of the first.
pub proof fn lemma_rmw_sequence(
    m: Map<u16, EntryModel>,
    first: Seq<char>,
    second: Seq<char>,
    t1: u64,
    t2: u64,
)
    requires
        lookup(m, RMW_KEY, t1) is None,
        is_live(t1, t2),
    ensures
        rmw_reply(m, first, t1) == " "@ + first,
        rmw_reply(stored_after(m, RMW_KEY, first, t1), second, t2) == first + " "@ + second,
{
    assert(Seq::<char>::empty() + " "@ =~= " "@);
}

} // verus!
