use vstd::prelude::*;

verus! {

/// The body of a request to create a user.
pub struct UserRequest {
    pub username: String,
    pub email: String,
}

/// The path parameters of a request for trades: a view name, the raw tail of
/// the path, and an optional date.
pub struct GetTradesRequest {
    pub view: Option<String>,
    pub tail: Option<String>,
    pub year: Option<i32>,
    pub month: Option<u32>,
    pub day: Option<u32>,
}

} // verus!
