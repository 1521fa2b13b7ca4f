//! The fixed response that the serving loop hands back for every request.

use vstd::prelude::*;

verus! {

/// The characters of the one configured response body.
pub open spec fn hello_body() -> Seq<char> {
    "hello world"@
}

/// What the single configured route answers: a status code and a body.
pub struct RouteResponse {
    pub status: u16,
    pub body: String,
}

/// The handler of the one configured route. Every accepted request is
/// answered with status 200 and the fixed body, regardless of its contents.
pub fn greet() -> (r: RouteResponse)
    ensures
        r.status == 200,
        r.body@ == hello_body(),
{
    RouteResponse { status: 200, body: String::from_str("hello world") }
}

} // verus!
