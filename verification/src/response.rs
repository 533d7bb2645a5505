use vstd::prelude::*;

verus! {

/// An HTTP response as the handlers shape it: a status code, the response
/// headers in the order they are set, and the body text.
pub struct Response {
    pub status: u16,
    pub headers: Vec<(String, String)>,
    pub body: String,
}

} // verus!
