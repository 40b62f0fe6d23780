use vstd::prelude::*;

use crate::subscribe::STATUS_OK;

verus! {

/// `Hello <name>!`.
pub open spec fn greeting(name: Seq<char>) -> Seq<char> {
    "Hello "@ + name + "!"@
}

/// The greeting of the `/greet/{name}` route.
pub fn greet(name: &str) -> (r: String)
    ensures
        r@ == greeting(name@),
{
    let mut out = String::from_str("Hello ");
    out.append(name);
    out.append("!");
    out
}

/// The status of the `/health_check` route: always `200 OK`, with no body.
pub fn health_check() -> (r: u16)
    ensures
        r == STATUS_OK,
{
    STATUS_OK
}

} // verus!
