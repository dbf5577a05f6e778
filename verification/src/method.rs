//! Request methods.

use vstd::prelude::*;

verus! {

/// The method of an HTTP request. `Other` stands for any method that has
/// no variant of its own.
#[derive(Clone, Copy, Debug, PartialEq, Eq, Structural)]
pub enum Method {
    Get,
    Head,
    Post,
    Put,
    Delete,
    Connect,
    Options,
    Trace,
    Patch,
    Other,
}

} // verus!
