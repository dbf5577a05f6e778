//! The JSON service: a greeting at `/` and a health report at `/health`,
//! both for `GET`, on port 8080 of every interface.

use vstd::prelude::*;
use crate::method::Method;
use crate::reply::{healthy_text, Body, BodyView, Health, Message, Reply, ReplyView};
use crate::route::{Route, RouteView};
use crate::service::{answer, Service, ServiceView};

verus! {

/// The text of the greeting.
pub open spec fn greeting() -> Seq<char> {
    "Rust Actix API - Testing Auto-Docker Extension"@
}

/// Status 200 with the greeting as a message object.
pub open spec fn index_view() -> ReplyView {
    ReplyView::ok(BodyView::Message(greeting()))
}

/// Status 200 with the health object that reports `healthy`.
pub open spec fn health_view() -> ReplyView {
    ReplyView::ok(BodyView::Health(healthy_text()))
}

/// The service as data: the address it listens on and its two routes.
pub open spec fn service_view() -> ServiceView {
    ServiceView {
        host: "0.0.0.0"@,
        port: 8080,
        routes: seq![
            RouteView { method: Method::Get, path: "/"@, reply: index_view() },
            RouteView { method: Method::Get, path: "/health"@, reply: health_view() },
        ],
    }
}

/// What the service answers to each request, route by route: the greeting
/// for `GET /`, the health report for `GET /health`, and 404 without a body
/// for every other method or path.
pub open spec fn respond_view(method: Method, path: Seq<char>) -> ReplyView {
    if method == Method::Get && path == "/"@ {
        index_view()
    } else if method == Method::Get && path == "/health"@ {
        health_view()
    } else {
        ReplyView::not_found()
    }
}

/// The two paths of the service are different texts.
pub proof fn lemma_paths_differ()
    ensures
        "/"@ != "/health"@,
{
    reveal_strlit("/");
    reveal_strlit("/health");
    assert("/"@.len() == 1);
    assert("/health"@.len() == 7);
}

/// Dispatch over the service's table gives exactly the answers listed in
/// [`respond_view`], for every method and every path.
pub proof fn lemma_service_answers(method: Method, path: Seq<char>)
    ensures
        service_view().answer(method, path) == respond_view(method, path),
{
    let routes = service_view().routes;
    let tail = routes.drop_first();
    lemma_paths_differ();
    assert(tail.first() == routes[1]);
    assert(tail.drop_first().len() == 0);
    reveal_with_fuel(answer, 3);
}

/// Only the two routes succeed: any other method, and any other path, is
/// answered with status 404, which is outside the 2xx range.
pub proof fn lemma_elsewhere_not_found(method: Method, path: Seq<char>)
    requires
        !(method == Method::Get && (path == "/"@ || path == "/health"@)),
    ensures
        service_view().answer(method, path) == ReplyView::not_found(),
        !service_view().answer(method, path).is_success(),
{
    lemma_service_answers(method, path);
}

/// The two routes do succeed, each with its own body.
pub proof fn lemma_routes_succeed()
    ensures
        service_view().answer(Method::Get, "/"@) == index_view(),
        service_view().answer(Method::Get, "/health"@) == health_view(),
        index_view().is_success(),
        health_view().is_success(),
        index_view() != health_view(),
{
    lemma_service_answers(Method::Get, "/"@);
    lemma_service_answers(Method::Get, "/health"@);
    lemma_paths_differ();
}

/// The reply to `GET /`: status 200 and the greeting.
pub fn index() -> (r: Reply)
    ensures
        r@ == index_view(),
{
    Reply::ok(Body::Message(Message::new("Rust Actix API - Testing Auto-Docker Extension")))
}

/// The reply to `GET /health`: status 200 and the health report.
pub fn health() -> (r: Reply)
    ensures
        r@ == health_view(),
{
    Reply::ok(Body::Health(Health::healthy()))
}

/// The service, with its routes in the order in which they are tried.
pub fn service() -> (s: Service)
    ensures
        s@ == service_view(),
{
    let s = Service::bind("0.0.0.0", 8080).route(Route::get("/", index())).route(
        Route::get("/health", health()),
    );
    assert(s@.routes =~= service_view().routes);
    s
}

/// The reply of the service to one request.
pub fn respond(method: Method, path: &str) -> (r: Reply)
    ensures
        r@ == respond_view(method, path@),
        method == Method::Get && path@ == "/"@ ==> r@ == index_view(),
        method == Method::Get && path@ == "/health"@ ==> r@ == health_view(),
        r@.is_success() <==> method == Method::Get && (path@ == "/"@ || path@ == "/health"@),
{
    proof {
        lemma_service_answers(method, path@);
        lemma_paths_differ();
    }
    service().dispatch(method, path)
}

} // verus!
