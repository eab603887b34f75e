//! The two routes that touch no table.

use vstd::prelude::*;
use vstd::string::StringExecFns;

verus! {

/// The body of the greeting route: `{"message": "Hello <name>"}`.
#[derive(Debug, PartialEq, Eq)]
pub struct Greeting {
    pub message: String,
}

/// The plain text served at the root path.
pub fn root() -> (text: &'static str)
    ensures
        text@ == "Hello, World!"@,
{
    "Hello, World!"
}

/// Greets `name`: status 200 and the name behind `Hello `, unchanged.
pub fn json_hello(name: &str) -> (reply: (u16, Greeting))
    ensures
        reply.0 == 200,
        reply.1.message@ == "Hello "@ + name@,
{
    let hello = String::from_str("Hello ");
    (200u16, Greeting { message: hello.concat(name) })
}

} // verus!
