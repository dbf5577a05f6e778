//! Routes: a method and a path, mapped to a fixed reply.

use vstd::prelude::*;
use crate::method::Method;
use crate::reply::{Reply, ReplyView};

verus! {

/// A method and a path, and the reply that requests for them receive.
#[derive(Debug)]
pub struct Route {
    pub method: Method,
    pub path: String,
    pub reply: Reply,
}

/// The mathematical value of a [`Route`].
pub struct RouteView {
    pub method: Method,
    pub path: Seq<char>,
    pub reply: ReplyView,
}

impl RouteView {
    /// A route matches a request with the same method and exactly the same
    /// path, character for character.
    pub open spec fn matches(self, method: Method, path: Seq<char>) -> bool {
        self.method == method && self.path == path
    }
}

impl View for Route {
    type V = RouteView;

    open spec fn view(&self) -> RouteView {
        RouteView { method: self.method, path: self.path@, reply: self.reply@ }
    }
}

impl Clone for Route {
    fn clone(&self) -> (r: Self)
        ensures
            r == *self,
    {
        Route { method: self.method, path: self.path.clone(), reply: self.reply.clone() }
    }
}

impl Route {
    /// The route that answers `method` requests for `path` with `reply`.
    pub fn new(method: Method, path: &str, reply: Reply) -> (r: Route)
        ensures
            r@ == (RouteView { method, path: path@, reply: reply@ }),
    {
        Route { method, path: path.to_owned(), reply }
    }

    /// The route that answers `GET` requests for `path` with `reply`.
    pub fn get(path: &str, reply: Reply) -> (r: Route)
        ensures
            r@ == (RouteView { method: Method::Get, path: path@, reply: reply@ }),
    {
        Route::new(Method::Get, path, reply)
    }

    /// Whether this route is the one for a request with the given method
    /// and path.
    pub fn matches(&self, method: Method, path: &str) -> (r: bool)
        ensures
            r == self@.matches(method, path@),
    {
        let wanted: String = path.to_owned();
        self.matches_owned(method, &wanted)
    }

    /// As [`Route::matches`], for a path that is already owned.
    pub(crate) fn matches_owned(&self, method: Method, path: &String) -> (r: bool)
        ensures
            r == self@.matches(method, path@),
    {
        self.method == method && self.path == *path
    }
}

} // verus!
