//! The text service: one line of plain text at `/api` for `GET`, on port
//! 8080 of every interface.

use vstd::prelude::*;
use crate::method::Method;
use crate::reply::{Body, BodyView, Reply, ReplyView};
use crate::route::{Route, RouteView};
use crate::service::{answer, Service, ServiceView};

verus! {

/// The line of text that the service sends.
pub open spec fn banner() -> Seq<char> {
    "Rust + React API"@
}

/// Status 200 with the banner as plain text.
pub open spec fn index_view() -> ReplyView {
    ReplyView::ok(BodyView::Text(banner()))
}

/// The service as data: the address it listens on and its one route.
pub open spec fn service_view() -> ServiceView {
    ServiceView {
        host: "0.0.0.0"@,
        port: 8080,
        routes: seq![RouteView { method: Method::Get, path: "/api"@, reply: index_view() }],
    }
}

/// What the service answers to each request: the banner for `GET /api`,
/// and 404 without a body for every other method or path.
pub open spec fn respond_view(method: Method, path: Seq<char>) -> ReplyView {
    if method == Method::Get && path == "/api"@ {
        index_view()
    } else {
        ReplyView::not_found()
    }
}

/// Dispatch over the service's table gives exactly the answers listed in
/// [`respond_view`], for every method and every path.
pub proof fn lemma_service_answers(method: Method, path: Seq<char>)
    ensures
        service_view().answer(method, path) == respond_view(method, path),
{
    assert(service_view().routes.drop_first().len() == 0);
    reveal_with_fuel(answer, 2);
}

/// Only the one route succeeds: any other method, and any other path, is
/// answered with status 404, which is outside the 2xx range.
pub proof fn lemma_elsewhere_not_found(method: Method, path: Seq<char>)
    requires
        !(method == Method::Get && path == "/api"@),
    ensures
        service_view().answer(method, path) == ReplyView::not_found(),
        !service_view().answer(method, path).is_success(),
{
    lemma_service_answers(method, path);
}

/// The one route does succeed, with the banner.
pub proof fn lemma_route_succeeds()
    ensures
        service_view().answer(Method::Get, "/api"@) == index_view(),
        index_view().is_success(),
{
    lemma_service_answers(Method::Get, "/api"@);
}

/// The reply to `GET /api`: status 200 and the banner.
pub fn index() -> (r: Reply)
    ensures
        r@ == index_view(),
{
    Reply::ok(Body::text("Rust + React API"))
}

/// The service with its route.
pub fn service() -> (s: Service)
    ensures
        s@ == service_view(),
{
    Service::bind("0.0.0.0", 8080).route(Route::get("/api", index()))
}

/// The reply of the service to one request.
pub fn respond(method: Method, path: &str) -> (r: Reply)
    ensures
        r@ == respond_view(method, path@),
        r@.is_success() <==> method == Method::Get && path@ == "/api"@,
{
    proof {
        lemma_service_answers(method, path@);
    }
    service().dispatch(method, path)
}

} // verus!
