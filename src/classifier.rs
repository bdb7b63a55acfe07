use vstd::prelude::*;
use crate::response::Response;

verus! {

/// 1xx.
pub open spec fn spec_is_informational(s: u16) -> bool {
    100 <= s <= 199
}

/// 2xx.
pub open spec fn spec_is_success(s: u16) -> bool {
    200 <= s <= 299
}

/// 3xx.
pub open spec fn spec_is_redirection(s: u16) -> bool {
    300 <= s <= 399
}

/// 4xx.
pub open spec fn spec_is_client_error(s: u16) -> bool {
    400 <= s <= 499
}

/// 5xx.
pub open spec fn spec_is_server_error(s: u16) -> bool {
    500 <= s <= 599
}

/// A status that the classifier rewrites.
pub open spec fn spec_is_error(s: u16) -> bool {
    spec_is_client_error(s) || spec_is_server_error(s)
}

/// The message that the classifier gives to a status.
pub open spec fn class_message(s: u16) -> Seq<char> {
    if s == 400 {
        "invalid parameter is set."@
    } else if s == 500 {
        "internal error occurred."@
    } else if spec_is_client_error(s) {
        "4xx error occurred."@
    } else if spec_is_server_error(s) {
        "5xx error occurred."@
    } else if spec_is_informational(s) || spec_is_success(s) || spec_is_redirection(s) {
        Seq::empty()
    } else {
        "something went wrong."@
    }
}

pub fn is_informational(s: u16) -> (r: bool)
    ensures
        r == spec_is_informational(s),
{
    100 <= s && s <= 199
}

pub fn is_success(s: u16) -> (r: bool)
    ensures
        r == spec_is_success(s),
{
    200 <= s && s <= 299
}

pub fn is_redirection(s: u16) -> (r: bool)
    ensures
        r == spec_is_redirection(s),
{
    300 <= s && s <= 399
}

pub fn is_client_error(s: u16) -> (r: bool)
    ensures
        r == spec_is_client_error(s),
{
    400 <= s && s <= 499
}

pub fn is_server_error(s: u16) -> (r: bool)
    ensures
        r == spec_is_server_error(s),
{
    500 <= s && s <= 599
}

/// The message for a status, by the classifier's table.
pub fn classify_status(s: u16) -> (r: String)
    ensures
        r@ == class_message(s),
{
    if s == 400 {
        "invalid parameter is set.".to_string()
    } else if s == 500 {
        "internal error occurred.".to_string()
    } else if is_client_error(s) {
        "4xx error occurred.".to_string()
    } else if is_server_error(s) {
        "5xx error occurred.".to_string()
    } else if is_informational(s) || is_success(s) || is_redirection(s) {
        String::new()
    } else {
        "something went wrong.".to_string()
    }
}

/// Runs after a handler. A client or server error has its content replaced by
/// the table's message, keeps its status, and ends the chain (`true`); any
/// other response is left as it is and the chain goes on (`false`).
pub fn handle_error(res: &mut Response) -> (stop: bool)
    ensures
        stop == spec_is_error(old(res).status),
        stop ==> final(res).status == old(res).status && final(res).content@ == class_message(
            old(res).status,
        ),
        !stop ==> *final(res) == *old(res),
{
    let status = res.status;
    let content = classify_status(status);
    if is_client_error(status) || is_server_error(status) {
        res.content = content;
        true
    } else {
        false
    }
}

} // verus!
