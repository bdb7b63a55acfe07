use vstd::prelude::*;

verus! {

/// Status code of a successful response.
pub const STATUS_OK: u16 = 200;

/// Status code of a request whose input could not be read.
pub const STATUS_BAD_REQUEST: u16 = 400;

/// Status code of an unexpected failure.
pub const STATUS_INTERNAL_SERVER_ERROR: u16 = 500;

/// A response as the handlers produce it: a status code and the single
/// `content` field of its JSON body.
#[derive(Clone, Debug)]
pub struct Response {
    pub status: u16,
    pub content: String,
}

} // verus!
