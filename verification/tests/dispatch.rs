use page_dispatch::{AppResponse, Application, Cors, Handler, Page, Request};

/// The shared resources of these tests: a log of the pages that rendered.
struct Pool {
    rendered: Vec<u16>,
}

/// A page that answers with its status and the request's path as body, and
/// leaves its status in the log.
struct Marked {
    status: u16,
}

impl Page<Pool> for Marked {
    fn render(&self, request: &Request, resources: &mut Pool) -> AppResponse {
        resources.rendered.push(self.status);
        AppResponse::new(self.status, Vec::new(), request.path.clone().into_bytes())
    }
}

fn marked(status: u16) -> Box<Marked> {
    Box::new(Marked { status })
}

fn pool() -> Pool {
    Pool { rendered: Vec::new() }
}

fn pair(name: &str, value: &str) -> (String, String) {
    (name.to_string(), value.to_string())
}

fn is_default_404(response: &AppResponse) -> bool {
    response.status_code == 404
        && response.headers.is_empty()
        && response.body.is_empty()
        && response.cookies.eat_cookies() == pair("Set-Cookie", "")
}

fn is_options(request: &Request) -> bool {
    request.method == "OPTIONS"
}

fn any(_request: &Request) -> bool {
    true
}

fn none(_request: &Request) -> bool {
    false
}

#[test]
fn get_matches_its_method_and_path_only() {
    let handler: Handler<Pool> = Handler::get("/x", marked(200));
    assert!(handler.match_request(&Request::new("GET", "/x")));
    assert!(!handler.match_request(&Request::new("POST", "/x")));
    assert!(!handler.match_request(&Request::new("PUT", "/x")));
    assert!(!handler.match_request(&Request::new("GET", "/y")));
    assert!(!handler.match_request(&Request::new("GET", "/x/")));
    assert!(!handler.match_request(&Request::new("get", "/x")));
    assert!(!handler.match_request(&Request::new("", "")));
}

#[test]
fn post_matches_its_method_and_path_only() {
    let handler: Handler<Pool> = Handler::post("/x", marked(200));
    assert!(handler.match_request(&Request::new("POST", "/x")));
    assert!(!handler.match_request(&Request::new("GET", "/x")));
    assert!(!handler.match_request(&Request::new("PUT", "/x")));
    assert!(!handler.match_request(&Request::new("POST", "/")));
}

#[test]
fn put_matches_its_method_and_path_only() {
    let handler: Handler<Pool> = Handler::put("/x", marked(200));
    assert!(handler.match_request(&Request::new("PUT", "/x")));
    assert!(!handler.match_request(&Request::new("GET", "/x")));
    assert!(!handler.match_request(&Request::new("POST", "/x")));
    assert!(!handler.match_request(&Request::new("PUT", "/xx")));
}

#[test]
fn route_with_an_empty_path() {
    let handler: Handler<Pool> = Handler::get("", marked(200));
    assert!(handler.match_request(&Request::new("GET", "")));
    assert!(!handler.match_request(&Request::new("GET", "/")));
}

#[test]
fn simple_matcher_is_asked() {
    let handler: Handler<Pool> = Handler::new(is_options, Box::new(Cors));
    assert!(handler.match_request(&Request::new("OPTIONS", "/anything")));
    assert!(!handler.match_request(&Request::new("GET", "/anything")));
}

#[test]
fn closure_as_matcher() {
    let handler: Handler<Pool> = Handler::new(|request| request.path == "/signup", marked(200));
    assert!(handler.match_request(&Request::new("DELETE", "/signup")));
    assert!(!handler.match_request(&Request::new("DELETE", "/login")));
}

#[test]
fn matching_reads_neither_headers_nor_body() {
    let handler: Handler<Pool> = Handler::get("/x", marked(200));
    let request = Request {
        method: "GET".to_string(),
        path: "/x".to_string(),
        headers: vec![pair("X-Method", "POST")],
        body: b"/y".to_vec(),
    };
    assert!(handler.match_request(&request));
}

#[test]
fn handler_renders_with_its_page() {
    let handler: Handler<Pool> = Handler::get("/x", marked(207));
    let mut resources = pool();
    let response = handler.render(&Request::new("GET", "/x"), &mut resources);
    assert_eq!(response.status_code, 207);
    assert_eq!(resources.rendered, vec![207]);
    let response = handler.page.render(&Request::new("GET", "/z"), &mut resources);
    assert_eq!(response.body, b"/z".to_vec());
    assert_eq!(resources.rendered, vec![207, 207]);
}

#[test]
fn empty_application_answers_404() {
    let app: Application<Pool> = Application::new();
    let mut resources = pool();
    for (method, path) in [("GET", "/"), ("POST", "/x"), ("OPTIONS", ""), ("", "")] {
        let response = app.handle_request(&Request::new(method, path), &mut resources);
        assert!(is_default_404(&response));
    }
    assert!(resources.rendered.is_empty());
}

#[test]
fn default_application_is_empty() {
    let app: Application<Pool> = Application::default();
    let mut resources = pool();
    let response = app.handle_request(&Request::new("GET", "/"), &mut resources);
    assert!(is_default_404(&response));
}

#[test]
fn no_match_answers_404_and_renders_nothing() {
    let mut app: Application<Pool> = Application::new();
    app.register(Handler::get("/a", marked(200)));
    app.register(Handler::post("/b", marked(201)));
    app.register(Handler::new(none, marked(202)));
    let mut resources = pool();
    let response = app.handle_request(&Request::new("GET", "/b"), &mut resources);
    assert!(is_default_404(&response));
    assert!(resources.rendered.is_empty());
}

#[test]
fn first_match_renders() {
    let mut app: Application<Pool> = Application::new();
    app.register(Handler::get("/a", marked(200)));
    app.register(Handler::post("/a", marked(201)));
    app.register(Handler::put("/a", marked(202)));
    let mut resources = pool();
    let response = app.handle_request(&Request::new("POST", "/a"), &mut resources);
    assert_eq!(response.status_code, 201);
    assert_eq!(response.body, b"/a".to_vec());
    assert!(response.headers.is_empty());
    assert_eq!(resources.rendered, vec![201]);
    let response = app.handle_request(&Request::new("PUT", "/a"), &mut resources);
    assert_eq!(response.status_code, 202);
    assert_eq!(resources.rendered, vec![201, 202]);
}

#[test]
fn earlier_of_two_matching_handlers_wins() {
    let mut app: Application<Pool> = Application::new();
    app.register(Handler::get("/x", marked(1)));
    app.register(Handler::get("/x", marked(2)));
    app.register(Handler::new(any, marked(3)));
    let mut resources = pool();
    let response = app.handle_request(&Request::new("GET", "/x"), &mut resources);
    assert_eq!(response.status_code, 1);
    assert_eq!(resources.rendered, vec![1]);
    let response = app.handle_request(&Request::new("GET", "/other"), &mut resources);
    assert_eq!(response.status_code, 3);
    assert_eq!(resources.rendered, vec![1, 3]);
}

#[test]
fn from_keeps_the_order_of_the_handlers() {
    let handlers: Vec<Handler<Pool>> =
        vec![Handler::new(any, marked(10)), Handler::new(any, marked(20))];
    let app = Application::from(handlers);
    let mut resources = pool();
    let response = app.handle_request(&Request::new("GET", "/"), &mut resources);
    assert_eq!(response.status_code, 10);
    assert_eq!(resources.rendered, vec![10]);
}

#[test]
fn register_appends_behind_the_handlers_given_at_construction() {
    let mut app = Application::from(vec![Handler::get("/x", marked(10))]);
    app.register(Handler::new(any, marked(20)));
    let mut resources = pool();
    assert_eq!(app.handle_request(&Request::new("GET", "/x"), &mut resources).status_code, 10);
    assert_eq!(app.handle_request(&Request::new("GET", "/y"), &mut resources).status_code, 20);
    assert_eq!(resources.rendered, vec![10, 20]);
}

#[test]
fn cors_answers_the_preflight() {
    let mut resources = pool();
    let response = Cors.render(&Request::new("OPTIONS", "/x"), &mut resources);
    assert_eq!(response.status_code, 200);
    assert!(response.body.is_empty());
    assert_eq!(
        response.headers,
        vec![
            pair("Access-Control-Allow-Origin", "*"),
            pair("Access-Control-Allow-Methods", "GET, POST, OPTIONS"),
            pair("Access-Control-Allow-Headers", "Content-Type"),
        ]
    );
    assert_eq!(response.cookies.eat_cookies(), pair("Set-Cookie", ""));
    assert!(resources.rendered.is_empty());
}

#[test]
fn cors_ignores_the_request() {
    let mut resources = pool();
    let request = Request {
        method: "DELETE".to_string(),
        path: "/elsewhere".to_string(),
        headers: vec![pair("Origin", "https://example.org")],
        body: vec![1, 2, 3],
    };
    let one = Cors.render(&request, &mut resources);
    let other = Cors.render(&Request::new("", ""), &mut resources);
    assert_eq!(one.status_code, other.status_code);
    assert_eq!(one.headers, other.headers);
    assert_eq!(one.body, other.body);
}

#[test]
fn cors_behind_an_options_matcher() {
    let mut app: Application<Pool> = Application::new();
    app.register(Handler::new(is_options, Box::new(Cors)));
    app.register(Handler::get("/x", marked(200)));
    let mut resources = pool();
    let response = app.handle_request(&Request::new("OPTIONS", "/x"), &mut resources);
    assert_eq!(response.status_code, 200);
    assert_eq!(response.headers.len(), 3);
    assert!(resources.rendered.is_empty());
    let response = app.handle_request(&Request::new("GET", "/x"), &mut resources);
    assert_eq!(response.status_code, 200);
    assert!(response.headers.is_empty());
    assert_eq!(resources.rendered, vec![200]);
}

#[test]
fn new_request_has_neither_headers_nor_body() {
    let request = Request::new("GET", "/x");
    assert_eq!(request.method, "GET");
    assert_eq!(request.path, "/x");
    assert!(request.headers.is_empty());
    assert!(request.body.is_empty());
}

fn shareable<S: Send + Sync>(_value: &S) -> bool {
    true
}

#[test]
fn application_and_handlers_can_be_shared() {
    let handler: Handler<Pool> = Handler::get("/x", marked(200));
    assert!(shareable(&handler));
    let app = Application::from(vec![handler]);
    assert!(shareable(&app));
}

#[test]
fn paths_are_compared_as_they_are_written() {
    let handler: Handler<Pool> = Handler::get("/caf\u{e9}", marked(200));
    assert!(handler.match_request(&Request::new("GET", "/caf\u{e9}")));
    assert!(!handler.match_request(&Request::new("GET", "/cafe")));
    assert!(!handler.match_request(&Request::new("GET", "/caf%C3%A9")));
    assert!(!handler.match_request(&Request::new("GET", "/CAF\u{c9}")));
}
