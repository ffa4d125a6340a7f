//! The parts of HTTP that the rollup decides on.

use vstd::prelude::*;
use crate::text::same_text;

verus! {

pub const STATUS_OK: u16 = 200;

pub const STATUS_BAD_REQUEST: u16 = 400;

pub const STATUS_METHOD_NOT_ALLOWED: u16 = 405;

/// The method of a request.
#[derive(Clone, Copy, Debug, PartialEq, Eq, Structural)]
pub enum HttpMethod {
    /// A read of the chain.
    Get,
    /// A write to the chain.
    Post,
    /// Any other method, which is not allowed.
    Other,
}

/// What is sent back in the body of a reply.
#[derive(Clone, Copy, Debug, PartialEq, Eq, Structural)]
pub enum HttpBody {
    Empty,
    /// The whole state of the rollup, as JSON.
    State,
    /// The routers, as JSON.
    Routers,
    /// The text of a receipt.
    Receipt,
}

/// A reply to a request.
#[derive(Clone, Copy, Debug, PartialEq, Eq, Structural)]
pub struct HttpReply {
    pub status: u16,
    pub body: HttpBody,
}

/// The method that a name stands for.
pub open spec fn method_named(name: Seq<char>) -> HttpMethod {
    if name == "GET"@ {
        HttpMethod::Get
    } else if name == "POST"@ {
        HttpMethod::Post
    } else {
        HttpMethod::Other
    }
}

/// Tells which method a name stands for.
pub fn http_method(name: &str) -> (r: HttpMethod)
    ensures
        r == method_named(name@),
{
    if same_text(name, "GET") {
        HttpMethod::Get
    } else if same_text(name, "POST") {
        HttpMethod::Post
    } else {
        HttpMethod::Other
    }
}

/// The text of a receipt.
pub fn receipt() -> (r: &'static str)
    ensures
        r@ == "send tx receipt or error here"@,
{
    "send tx receipt or error here"
}

impl HttpReply {
    /// The type of the content, where it is declared: it is for JSON alone.
    pub fn content_type(&self) -> (r: Option<&'static str>)
        ensures
            match r {
                Some(t) => (self.body is State || self.body is Routers) && t@
                    == "application/json"@,
                None => self.body is Empty || self.body is Receipt,
            },
    {
        match self.body {
            HttpBody::State | HttpBody::Routers => Some("application/json"),
            HttpBody::Empty | HttpBody::Receipt => None,
        }
    }
}

} // verus!
