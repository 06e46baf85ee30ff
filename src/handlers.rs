use vstd::prelude::*;
use vstd::string::StringSliceAdditionalSpecFns;
use crate::path::{parse_id_str, segment_id};
use crate::store::{SharedStore, UserStore};
use crate::user::{User, UserView};

verus! {

/// The outcome of a request, as an HTTP status.
#[derive(Clone, Copy, Debug, PartialEq, Eq, Structural)]
pub enum Status {
    Success,
    Created,
    BadRequest,
    NotFound,
}

impl Status {
    /// The numeric HTTP status code.
    pub open spec fn spec_code(self) -> u16 {
        match self {
            Status::Success => 200,
            Status::Created => 201,
            Status::BadRequest => 400,
            Status::NotFound => 404,
        }
    }

    /// The numeric HTTP status code.
    pub fn code(&self) -> (r: u16)
        ensures
            r == self.spec_code(),
    {
        match self {
            Status::Success => 200,
            Status::Created => 201,
            Status::BadRequest => 400,
            Status::NotFound => 404,
        }
    }
}

/// A handler's answer: a status and, for success, the record to send back.
#[derive(Debug)]
pub struct Response {
    pub status: Status,
    pub body: Option<User>,
}

/// The mathematical value of a [`Response`].
pub ghost struct ResponseView {
    pub status: Status,
    pub body: Option<UserView>,
}

/// The value of an optional record.
pub open spec fn record_view(b: Option<User>) -> Option<UserView> {
    match b {
        Some(u) => Some(u@),
        None => None,
    }
}

impl View for Response {
    type V = ResponseView;

    open spec fn view(&self) -> ResponseView {
        ResponseView { status: self.status, body: record_view(self.body) }
    }
}

/// The answer to a request that was malformed.
pub open spec fn bad_request() -> ResponseView {
    ResponseView { status: Status::BadRequest, body: None }
}

/// The answer to a fetch of an id that the store does not hold.
pub open spec fn not_found() -> ResponseView {
    ResponseView { status: Status::NotFound, body: None }
}

/// The answer to fetching `id` from a store whose value is `m`.
pub open spec fn lookup_outcome(m: Map<u64, UserView>, id: u64) -> ResponseView {
    if m.contains_key(id) {
        ResponseView { status: Status::Success, body: Some(m[id]) }
    } else {
        not_found()
    }
}

/// The answer to fetching the id written in `segment` from a store `m`.
pub open spec fn get_outcome(m: Map<u64, UserView>, segment: Seq<u8>) -> ResponseView {
    match segment_id(segment) {
        Some(id) => lookup_outcome(m, id),
        None => bad_request(),
    }
}

/// The store after a create request whose body decoded to `body`, if it did.
pub open spec fn create_effect(m: Map<u64, UserView>, body: Option<UserView>) -> Map<
    u64,
    UserView,
> {
    match body {
        Some(u) => m.insert(u.id, u),
        None => m,
    }
}

/// The answer to a create request whose body decoded to `body`, if it did.
pub open spec fn create_outcome(body: Option<UserView>) -> ResponseView {
    match body {
        Some(u) => ResponseView { status: Status::Created, body: Some(u) },
        None => bad_request(),
    }
}

/// The answer for a lookup that found `found`: the record, or not found.
pub fn found_response(found: Option<User>) -> (r: Response)
    ensures
        r@ == (match record_view(found) {
            Some(u) => ResponseView { status: Status::Success, body: Some(u) },
            None => not_found(),
        }),
{
    match found {
        Some(u) => Response { status: Status::Success, body: Some(u) },
        None => Response { status: Status::NotFound, body: None },
    }
}

/// Fetches the record stored under `id`.
pub fn get_user_by_id(store: &UserStore, id: u64) -> (r: Response)
    ensures
        r@ == lookup_outcome(store@, id),
{
    found_response(store.get(id))
}

/// Answers a fetch whose path segment is `segment`: a malformed id is refused
/// before the store is consulted.
pub fn get_user(store: &UserStore, segment: &str) -> (r: Response)
    ensures
        r@ == get_outcome(store@, segment.spec_bytes()),
{
    match parse_id_str(segment) {
        Some(id) => get_user_by_id(store, id),
        None => Response { status: Status::BadRequest, body: None },
    }
}

/// Answers a create request whose body decoded to `body`, or failed to when
/// `body` is none; a decoded record is stored, replacing any with its id.
pub fn create_user(store: &mut UserStore, body: Option<User>) -> (r: Response)
    ensures
        r@ == create_outcome(record_view(body)),
        final(store)@ == create_effect(old(store)@, record_view(body)),
{
    match body {
        Some(u) => {
            store.put(u.clone());
            Response { status: Status::Created, body: Some(u) }
        },
        None => Response { status: Status::BadRequest, body: None },
    }
}

/// Answers a fetch against a shared store. The id is read before the lock is
/// taken; a found record is the one stored under that id at the time.
pub fn get_user_shared(store: &SharedStore, segment: &str) -> (r: Response)
    ensures
        match segment_id(segment.spec_bytes()) {
            None => r@ == bad_request(),
            Some(id) => {
                ||| (r.status == Status::Success && r.body is Some && r.body->0.id == id)
                ||| r@ == not_found()
            },
        },
{
    match parse_id_str(segment) {
        Some(id) => found_response(store.get(id)),
        None => Response { status: Status::BadRequest, body: None },
    }
}

/// Answers a create request against a shared store, storing a decoded record.
pub fn create_user_shared(store: &SharedStore, body: Option<User>) -> (r: Response)
    ensures
        r@ == create_outcome(record_view(body)),
{
    match body {
        Some(u) => {
            store.put(u.clone());
            Response { status: Status::Created, body: Some(u) }
        },
        None => Response { status: Status::BadRequest, body: None },
    }
}

} // verus!
