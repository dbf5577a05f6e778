use static_routes::method::Method;
use static_routes::reply::{Body, Health, MediaType, Message, Reply, NOT_FOUND, OK};
use static_routes::route::Route;
use static_routes::service::Service;

fn text_reply(status: u16, text: &str) -> Reply {
    Reply { status, body: Body::text(text) }
}

fn text_of(reply: &Reply) -> String {
    match &reply.body {
        Body::Text(t) => t.clone(),
        other => panic!("expected a text body, got {:?}", other),
    }
}

#[test]
fn status_constants() {
    assert_eq!(OK, 200);
    assert_eq!(NOT_FOUND, 404);
}

#[test]
fn ok_reply_keeps_its_body() {
    let reply = Reply::ok(Body::text("hello"));
    assert_eq!(reply.status, 200);
    assert_eq!(text_of(&reply), "hello");
}

#[test]
fn not_found_reply_is_empty() {
    let reply = Reply::not_found();
    assert_eq!(reply.status, 404);
    assert!(matches!(reply.body, Body::Empty));
}

#[test]
fn success_is_the_2xx_range() {
    for (status, expected) in [
        (0u16, false),
        (199, false),
        (200, true),
        (204, true),
        (299, true),
        (300, false),
        (404, false),
        (405, false),
        (500, false),
        (u16::MAX, false),
    ] {
        let reply = Reply { status, body: Body::Empty };
        assert_eq!(reply.is_success(), expected, "status {}", status);
    }
}

#[test]
fn media_type_follows_the_body() {
    assert_eq!(Body::Message(Message::new("m")).media_type(), MediaType::Json);
    assert_eq!(Body::Health(Health::healthy()).media_type(), MediaType::Json);
    assert_eq!(Body::text("t").media_type(), MediaType::PlainText);
    assert_eq!(Body::Empty.media_type(), MediaType::Absent);
}

#[test]
fn message_holds_its_text() {
    assert_eq!(Message::new("").message, "");
    assert_eq!(Message::new("a \"quoted\" word").message, "a \"quoted\" word");
    assert_eq!(Message::new("h\u{e9}llo").message, "h\u{e9}llo");
}

#[test]
fn health_is_healthy() {
    assert_eq!(Health::healthy().status, "healthy");
}

#[test]
fn clones_are_equal_and_independent() {
    let route = Route::new(Method::Put, "/thing", text_reply(201, "made"));
    let mut copy = route.clone();
    assert_eq!(copy.method, Method::Put);
    assert_eq!(copy.path, "/thing");
    assert_eq!(copy.reply.status, 201);
    assert_eq!(text_of(&copy.reply), "made");
    copy.path.push('s');
    assert_eq!(route.path, "/thing");
    let health = Health::healthy().clone();
    assert_eq!(health.status, "healthy");
    let message = Message::new("again").clone();
    assert_eq!(message.message, "again");
}

#[test]
fn route_matches_method_and_exact_path() {
    let route = Route::get("/a", Reply::not_found());
    assert_eq!(route.method, Method::Get);
    assert!(route.matches(Method::Get, "/a"));
    assert!(!route.matches(Method::Head, "/a"));
    assert!(!route.matches(Method::Post, "/a"));
    assert!(!route.matches(Method::Get, "/a/"));
    assert!(!route.matches(Method::Get, "/A"));
    assert!(!route.matches(Method::Get, "/"));
    assert!(!route.matches(Method::Get, ""));
    assert!(!route.matches(Method::Get, "/ab"));
}

#[test]
fn new_route_keeps_its_method() {
    let route = Route::new(Method::Delete, "/a", Reply::not_found());
    assert!(route.matches(Method::Delete, "/a"));
    assert!(!route.matches(Method::Get, "/a"));
}

#[test]
fn empty_service_finds_nothing() {
    let s = Service::bind("127.0.0.1", 9000);
    assert_eq!(s.host, "127.0.0.1");
    assert_eq!(s.port, 9000);
    assert!(s.routes.is_empty());
    let reply = s.dispatch(Method::Get, "/");
    assert_eq!(reply.status, 404);
    assert!(matches!(reply.body, Body::Empty));
}

#[test]
fn routes_are_kept_in_the_order_given() {
    let s = Service::bind("localhost", 1)
        .route(Route::get("/one", text_reply(200, "1")))
        .route(Route::new(Method::Post, "/two", text_reply(200, "2")))
        .route(Route::get("/three", text_reply(200, "3")));
    assert_eq!(s.host, "localhost");
    assert_eq!(s.port, 1);
    let paths: Vec<&str> = s.routes.iter().map(|r| r.path.as_str()).collect();
    assert_eq!(paths, vec!["/one", "/two", "/three"]);
    assert_eq!(text_of(&s.dispatch(Method::Get, "/one")), "1");
    assert_eq!(text_of(&s.dispatch(Method::Post, "/two")), "2");
    assert_eq!(text_of(&s.dispatch(Method::Get, "/three")), "3");
    assert_eq!(s.dispatch(Method::Get, "/two").status, 404);
    assert_eq!(s.dispatch(Method::Post, "/one").status, 404);
}

#[test]
fn first_matching_route_wins() {
    let s = Service::bind("localhost", 1)
        .route(Route::new(Method::Post, "/same", text_reply(200, "post")))
        .route(Route::get("/same", text_reply(200, "first")))
        .route(Route::get("/same", text_reply(201, "second")));
    let reply = s.dispatch(Method::Get, "/same");
    assert_eq!(reply.status, 200);
    assert_eq!(text_of(&reply), "first");
    assert_eq!(text_of(&s.dispatch(Method::Post, "/same")), "post");
}

#[test]
fn last_route_is_reached() {
    let s = Service::bind("localhost", 1)
        .route(Route::get("/a", text_reply(200, "a")))
        .route(Route::get("/b", text_reply(200, "b")))
        .route(Route::get("/c", text_reply(503, "c")));
    let reply = s.dispatch(Method::Get, "/c");
    assert_eq!(reply.status, 503);
    assert_eq!(text_of(&reply), "c");
    assert!(!reply.is_success());
}

#[test]
fn dispatch_hands_back_the_route_reply_unchanged() {
    let s = Service::bind("localhost", 1).route(Route::get(
        "/m",
        Reply { status: 202, body: Body::Message(Message::new("queued")) },
    ));
    let reply = s.dispatch(Method::Get, "/m");
    assert_eq!(reply.status, 202);
    match reply.body {
        Body::Message(m) => assert_eq!(m.message, "queued"),
        other => panic!("expected a message body, got {:?}", other),
    }
}
