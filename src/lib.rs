//! A time-bounded in-memory cache, the bounded fan-out harness that fills and
//! checks it, the read-modify-write request handlers built on it, the error
//! classifier that rewrites failing responses, and the drain-on-stop logic of
//! the serving loop.
mod response;
mod classifier;
mod store;
mod harness;
mod handler;
mod shutdown;

pub use response::{Response, STATUS_OK, STATUS_BAD_REQUEST, STATUS_INTERNAL_SERVER_ERROR};
pub use classifier::{
    classify_status, class_message, handle_error, is_client_error, is_server_error,
    is_informational, is_success, is_redirection,
};
pub use store::{TtlStore, TTL_MILLIS, lemma_expiry, lemma_read_your_write};
pub use harness::{
    Admission, HARNESS_LIMIT, to_value, populate_one, verify_one, populate, verify_all,
    lemma_round_trip,
};
pub use handler::{
    Request, RMW_KEY, healthz, error_response, post_healthz, serve, lemma_rmw_sequence,
};
pub use shutdown::{Drain, lemma_drain};
