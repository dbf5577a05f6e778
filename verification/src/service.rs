//! A service: where it listens, and the table of routes it dispatches over.

use vstd::prelude::*;
use crate::method::Method;
use crate::reply::{Reply, ReplyView};
use crate::route::{Route, RouteView};

verus! {

/// A listening address and a table of routes. Earlier routes take
/// precedence over later ones.
#[derive(Debug)]
pub struct Service {
    pub host: String,
    pub port: u16,
    pub routes: Vec<Route>,
}

/// The mathematical value of a [`Service`].
pub struct ServiceView {
    pub host: Seq<char>,
    pub port: u16,
    pub routes: Seq<RouteView>,
}

/// The reply of the first route in `routes` that matches the request, and
/// "not found" where none does.
pub open spec fn answer(routes: Seq<RouteView>, method: Method, path: Seq<char>) -> ReplyView
    decreases routes.len(),
{
    if routes.len() == 0 {
        ReplyView::not_found()
    } else if routes.first().matches(method, path) {
        routes.first().reply
    } else {
        answer(routes.drop_first(), method, path)
    }
}

/// No route among the first `upto` matches the request.
pub open spec fn none_before(
    routes: Seq<RouteView>,
    upto: int,
    method: Method,
    path: Seq<char>,
) -> bool {
    forall|j: int| 0 <= j < upto && j < routes.len() ==> !(#[trigger] routes[j]).matches(method, path)
}

/// Routes that match nothing may be skipped: where none of the first `n`
/// routes matches, the answer is that of the remaining routes.
pub proof fn lemma_answer_skip(routes: Seq<RouteView>, n: int, method: Method, path: Seq<char>)
    requires
        0 <= n <= routes.len(),
        none_before(routes, n, method, path),
    ensures
        answer(routes, method, path) == answer(routes.skip(n), method, path),
    decreases n,
{
    if n == 0 {
        assert(routes.skip(0) =~= routes);
    } else {
        let rest = routes.drop_first();
        assert(!routes[0].matches(method, path));
        assert forall|j: int| 0 <= j < n - 1 && j < rest.len() implies !(#[trigger] rest[j]).matches(
            method,
            path,
        ) by {
            assert(rest[j] == routes[j + 1]);
        }
        lemma_answer_skip(rest, n - 1, method, path);
        assert(rest.skip(n - 1) =~= routes.skip(n));
    }
}

/// The first matching route decides: where route `i` matches the request
/// and no earlier route does, the answer is the reply of route `i`.
pub proof fn lemma_answer_first_match(
    routes: Seq<RouteView>,
    i: int,
    method: Method,
    path: Seq<char>,
)
    requires
        0 <= i < routes.len(),
        routes[i].matches(method, path),
        none_before(routes, i, method, path),
    ensures
        answer(routes, method, path) == routes[i].reply,
{
    lemma_answer_skip(routes, i, method, path);
    assert(routes.skip(i).first() == routes[i]);
}

/// A request that no route matches is answered with status 404 and no
/// body, which is no success.
pub proof fn lemma_answer_unmatched(routes: Seq<RouteView>, method: Method, path: Seq<char>)
    requires
        none_before(routes, routes.len() as int, method, path),
    ensures
        answer(routes, method, path) == ReplyView::not_found(),
        !answer(routes, method, path).is_success(),
{
    lemma_answer_skip(routes, routes.len() as int, method, path);
    assert(routes.skip(routes.len() as int).len() == 0);
}

/// Every answer comes from the table or is "not found": the service makes
/// up no reply of its own.
pub proof fn lemma_answer_from_table(routes: Seq<RouteView>, method: Method, path: Seq<char>)
    ensures
        answer(routes, method, path) == ReplyView::not_found() || exists|i: int|
            0 <= i < routes.len() && (#[trigger] routes[i]).matches(method, path) && answer(
                routes,
                method,
                path,
            ) == routes[i].reply,
    decreases routes.len(),
{
    if routes.len() == 0 {
    } else if routes.first().matches(method, path) {
        assert(routes[0].matches(method, path));
    } else {
        let rest = routes.drop_first();
        lemma_answer_from_table(rest, method, path);
        if answer(rest, method, path) != ReplyView::not_found() {
            let i = choose|i: int|
                0 <= i < rest.len() && (#[trigger] rest[i]).matches(method, path) && answer(
                    rest,
                    method,
                    path,
                ) == rest[i].reply;
            assert(routes[i + 1] == rest[i]);
        }
    }
}

impl View for Service {
    type V = ServiceView;

    open spec fn view(&self) -> ServiceView {
        ServiceView {
            host: self.host@,
            port: self.port,
            routes: Seq::new(self.routes@.len(), |i: int| self.routes@[i]@),
        }
    }
}

impl ServiceView {
    /// What the service answers to a request.
    pub open spec fn answer(self, method: Method, path: Seq<char>) -> ReplyView {
        answer(self.routes, method, path)
    }
}

impl Service {
    /// A service that listens on `host` and `port` and has no routes yet.
    pub fn bind(host: &str, port: u16) -> (s: Service)
        ensures
            s@ == (ServiceView { host: host@, port, routes: Seq::empty() }),
    {
        let s = Service { host: host.to_owned(), port, routes: Vec::new() };
        assert(s@.routes =~= Seq::empty());
        s
    }

    /// The same service with `route` added behind the routes it has.
    pub fn route(self, route: Route) -> (s: Service)
        ensures
            s@ == (ServiceView {
                host: self@.host,
                port: self@.port,
                routes: self@.routes.push(route@),
            }),
    {
        let Service { host, port, mut routes } = self;
        routes.push(route);
        let s = Service { host, port, routes };
        assert(s@.routes =~= self@.routes.push(route@));
        s
    }

    /// The reply to a request: that of the first route with the request's
    /// method and path, and 404 without a body where there is none.
    pub fn dispatch(&self, method: Method, path: &str) -> (r: Reply)
        ensures
            r@ == self@.answer(method, path@),
    {
        let wanted: String = path.to_owned();
        let mut i: usize = 0;
        while i < self.routes.len()
            invariant
                i <= self.routes.len(),
                wanted@ == path@,
                none_before(self@.routes, i as int, method, path@),
            decreases self.routes.len() - i,
        {
            if self.routes[i].matches_owned(method, &wanted) {
                proof {
                    assert(self@.routes[i as int] == self.routes@[i as int]@);
                    lemma_answer_first_match(self@.routes, i as int, method, path@);
                }
                return self.routes[i].reply.clone();
            }
            assert(self@.routes[i as int] == self.routes@[i as int]@);
            i += 1;
        }
        proof {
            lemma_answer_unmatched(self@.routes, method, path@);
        }
        Reply::not_found()
    }
}

} // verus!
