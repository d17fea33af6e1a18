//! The response value a request produces, as the store keeps it. A reserved
//! out-of-band status marks a local execution failure, with the error text
//! carried in the body.

use std::collections::HashMap;

use vstd::prelude::*;

verus! {

/// The status the networking collaborator never produces itself: it marks a
/// failure of the local execution machinery.
pub const INTERNAL_ERROR_STATUS: i32 = 77;

#[derive(Clone, Debug)]
pub struct Response {
    pub status: i32,
    pub response_time: i32,
    pub headers: HashMap<String, String>,
    pub body: String,
}

impl Response {
    /// The response that stands for a local failure: the reserved status, no
    /// headers, and the error text as the body.
    pub fn default_internal_error(err: String) -> (r: Self)
        ensures
            r.status == INTERNAL_ERROR_STATUS,
            r.response_time == 0,
            r.headers@ == Map::<String, String>::empty(),
            r.body == err,
    {
        Self { status: INTERNAL_ERROR_STATUS, response_time: 0, headers: HashMap::new(), body: err }
    }

    /// Overwrites this response with a newly arrived one.
    pub fn replace(&mut self, new_response: Response)
        ensures
            *final(self) == new_response,
    {
        *self = new_response;
    }
}

impl Default for Response {
    /// The empty response the store starts with: zero status, no headers, an
    /// empty body.
    fn default() -> (r: Self)
        ensures
            r.status == 0,
            r.response_time == 0,
            r.headers@ == Map::<String, String>::empty(),
            r.body@ == Seq::<char>::empty(),
    {
        Response {
            status: 0,
            response_time: 0,
            headers: HashMap::new(),
            body: String::new(),
        }
    }
}

} // verus!
