//! The description of an HTTP call that a request object produces.
use vstd::prelude::*;

use crate::query::QueryParam;

verus! {

/// The HTTP verbs that the endpoints use.
#[derive(Clone, Copy, Debug, PartialEq, Eq, Structural)]
pub enum HttpMethod {
    Get,
    Post,
    Patch,
    Put,
    Delete,
}

/// A fully configured call: verb, path relative to the API's base address,
/// query parameters in order, and the JSON body, if any. Building one does no
/// I/O; a transport carries it out.
#[derive(Debug)]
pub struct RequestSpec {
    pub method: HttpMethod,
    pub path: String,
    pub query: Vec<QueryParam>,
    pub body: Option<String>,
}

} // verus!
