use vstd::prelude::*;

verus! {

/// An HTTP error answer: the status code and the text sent back to the client.
pub struct ApiError {
    pub status: u16,
    pub message: String,
}

impl ApiError {
    /// Builds an error answer from a status code and a message.
    pub fn new(status: u16, message: &str) -> (res: ApiError)
        ensures
            res.status == status,
            res.message@ == message@,
    {
        ApiError { status, message: message.to_string() }
    }
}

} // verus!
