use url_shortener::dispatcher::handler;
use url_shortener::key::ShortKey;
use url_shortener::memory::{serve, MemoryStore};
use url_shortener::request::{AddRedirectRequest, Body, Method, Request};
use url_shortener::resolver::{Action, Resolver};
use url_shortener::response::Response;
use url_shortener::store::{encode_target, InsertOutcome, LookupOutcome, ServiceError};

const WELCOME: &str = "<!DOCTYPE html><html><body><h1>Welcome</h1></body></html>\n";

fn resolver() -> Resolver {
    Resolver::new(WELCOME.to_string()).expect("a document that is not empty")
}

fn get(path: &str) -> Request {
    Request { method: Method::Get, path: path.to_string(), body: Body::Absent }
}

fn put(path: &str, target: &str) -> Request {
    Request {
        method: Method::Put,
        path: path.to_string(),
        body: Body::Redirect(AddRedirectRequest { path: target.to_string() }),
    }
}

fn key(text: &str) -> ShortKey {
    ShortKey::from_path(&format!("/{}", text)).expect("a short key")
}

fn test_any_redirect(store: &mut MemoryStore, key: &'static str, path: &'static str) {
    let req = get(&format!("/{}", key));
    let resp = serve(&resolver(), store, &req).expect("request succeeds");
    assert_eq!(resp.status, 308);
    assert_eq!(resp.header("Location"), Some(path));
    assert_eq!(resp.header("Content-Type"), Some("text/plain; charset=utf-8"));
    assert_eq!(resp.body, "You have been redirected.\n");
}

#[test]
fn test_redirect() {
    let mut store = MemoryStore::new();
    let written = store.insert(&key("abc123"), encode_target("https://rustmanchester.co.uk/"));
    assert_eq!(written, InsertOutcome::Stored);
    test_any_redirect(&mut store, "abc123", "https://rustmanchester.co.uk/");
}

#[test]
fn test_handle_put() {
    let mut store = MemoryStore::new();
    let req = put("/xyz789", "https://example.com/xyz789");
    let resp = serve(&resolver(), &mut store, &req).expect("request succeeds");
    assert_eq!(resp.status, 201);
    assert_eq!(resp.body, "Stored value for key: xyz789\n");

    test_any_redirect(&mut store, "xyz789", "https://example.com/xyz789");
}

#[test]
fn put_answers_in_plain_text() {
    let mut store = MemoryStore::new();
    let resp = serve(&resolver(), &mut store, &put("/xyz789", "https://example.com/xyz789"))
        .expect("request succeeds");
    assert_eq!(
        resp,
        Response::from_status(201).with_body_text_plain("Stored value for key: xyz789\n")
    );
    assert_eq!(resp.headers.len(), 1);
    assert_eq!(resp.header("Content-Type"), Some("text/plain; charset=utf-8"));
}

#[test]
fn redirect_defeats_caches() {
    let mut store = MemoryStore::new();
    store.insert(&key("Ab3dE9"), encode_target("https://example.org/a?b=c#d"));
    let resp = serve(&resolver(), &mut store, &get("/Ab3dE9")).expect("request succeeds");
    assert_eq!(resp.status, 308);
    assert_eq!(resp.header("Location"), Some("https://example.org/a?b=c#d"));
    assert_eq!(
        resp.header("Cache-Control"),
        Some("no-cache, no-store, max-age=0, must-revalidate")
    );
    assert_eq!(resp.header("Pragma"), Some("no-cache"));
    assert_eq!(resp.header("Expires"), Some("0"));
    assert_eq!(resp.header("Content-Type"), Some("text/plain; charset=utf-8"));
    assert_eq!(resp.headers.len(), 5);
    assert_eq!(resp.body, "You have been redirected.\n");
}

#[test]
fn redirect_hands_the_target_on_verbatim() {
    let mut store = MemoryStore::new();
    let target = " not a url at all \u{e9}\u{4e16}\u{1f600} ";
    let resp = serve(&resolver(), &mut store, &put("/000000", target)).expect("request succeeds");
    assert_eq!(resp.status, 201);
    let resp = serve(&resolver(), &mut store, &get("/000000")).expect("request succeeds");
    assert_eq!(resp.status, 308);
    assert_eq!(resp.header("Location"), Some(target));
}

#[test]
fn head_is_answered_as_get() {
    let mut store = MemoryStore::new();
    store.insert(&key("abc123"), encode_target("https://rustmanchester.co.uk/"));
    for path in ["/", "/abc123", "/zzzzzz", "/nothing/here"] {
        let as_get = serve(&resolver(), &mut store, &get(path));
        let head = Request { method: Method::Head, path: path.to_string(), body: Body::Absent };
        let as_head = serve(&resolver(), &mut store, &head);
        assert_eq!(as_get, as_head);
    }
}

#[test]
fn unknown_methods_take_the_read_path() {
    let mut store = MemoryStore::new();
    let req = Request { method: Method::Other, path: "/".to_string(), body: Body::Malformed };
    let resp = serve(&resolver(), &mut store, &req).expect("request succeeds");
    assert_eq!(resp.status, 200);
    assert_eq!(resp.body, WELCOME);
}

#[test]
fn put_to_short_path_is_refused() {
    let mut store = MemoryStore::new();
    let resp = serve(&resolver(), &mut store, &put("/abc12", "https://example.com/"))
        .expect("request succeeds");
    assert_eq!(resp.status, 400);
    assert_eq!(resp.body, "Invalid key format. Use /<6 alphanumeric characters>\n");
    assert_eq!(resp.header("Content-Type"), Some("text/plain; charset=utf-8"));
    assert_eq!(store, MemoryStore::new());
}

#[test]
fn put_to_other_invalid_paths_is_refused() {
    for path in ["/", "", "/abc1234", "/abc-12", "/abc 12", "abc1234", "//abc12", "/abc12\u{e9}", "/a/b/c"] {
        let mut store = MemoryStore::new();
        let resp = serve(&resolver(), &mut store, &put(path, "https://example.com/"))
            .expect("request succeeds");
        assert_eq!(resp.status, 400, "{:?}", path);
        assert_eq!(resp.body, "Invalid key format. Use /<6 alphanumeric characters>\n");
        assert_eq!(store, MemoryStore::new());
    }
}

#[test]
fn put_without_body_is_refused() {
    let mut store = MemoryStore::new();
    for path in ["/abc123", "/abc12", "/"] {
        let req = Request { method: Method::Put, path: path.to_string(), body: Body::Absent };
        let resp = serve(&resolver(), &mut store, &req).expect("request succeeds");
        assert_eq!(resp.status, 400);
        assert_eq!(resp.body, "PUT requests must have a body\n");
        assert_eq!(resp.header("Content-Type"), Some("text/plain; charset=utf-8"));
    }
    assert_eq!(store, MemoryStore::new());
}

#[test]
fn put_with_malformed_body_is_refused() {
    let mut store = MemoryStore::new();
    for path in ["/abc123", "/abc12"] {
        let req = Request { method: Method::Put, path: path.to_string(), body: Body::Malformed };
        let resp = serve(&resolver(), &mut store, &req).expect("request succeeds");
        assert_eq!(resp.status, 400);
        assert_eq!(resp.body, "Invalid request body. Use {\"path\": \"<destination>\"}\n");
        assert_eq!(resp.header("Content-Type"), Some("text/plain; charset=utf-8"));
    }
    assert_eq!(store, MemoryStore::new());
}

#[test]
fn refused_methods_get_405() {
    let mut store = MemoryStore::new();
    store.insert(&key("abc123"), encode_target("https://rustmanchester.co.uk/"));
    let mut before = MemoryStore::new();
    before.insert(&key("abc123"), encode_target("https://rustmanchester.co.uk/"));
    for method in [Method::Post, Method::Patch, Method::Delete] {
        for path in ["/", "/abc123", "/abc12", "", "no slash", "/a/b"] {
            for body in [
                Body::Absent,
                Body::Malformed,
                Body::Redirect(AddRedirectRequest { path: "https://example.com/".to_string() }),
            ] {
                let req = Request { method, path: path.to_string(), body };
                let resp = serve(&resolver(), &mut store, &req).expect("request succeeds");
                assert_eq!(resp.status, 405);
                assert_eq!(resp.header("Allow"), Some("GET, HEAD, PURGE"));
                assert_eq!(resp.header("Content-Type"), Some("text/plain; charset=utf-8"));
                assert_eq!(resp.headers.len(), 2);
                assert_eq!(resp.body, "This method is not allowed\n");
            }
        }
    }
    assert_eq!(store, before);
}

#[test]
fn last_write_wins() {
    let mut store = MemoryStore::new();
    let first = serve(&resolver(), &mut store, &put("/abc123", "https://a.example/"))
        .expect("request succeeds");
    assert_eq!(first.status, 201);
    let second = serve(&resolver(), &mut store, &put("/abc123", "https://b.example/"))
        .expect("request succeeds");
    assert_eq!(second.status, 201);
    assert_eq!(second.body, "Stored value for key: abc123\n");
    let resp = serve(&resolver(), &mut store, &get("/abc123")).expect("request succeeds");
    assert_eq!(resp.status, 308);
    assert_eq!(resp.header("Location"), Some("https://b.example/"));
}

#[test]
fn writes_to_one_key_leave_the_others() {
    let mut store = MemoryStore::new();
    for (path, target) in [("/aaaaaa", "one"), ("/bbbbbb", "two"), ("/aaaaaa", "three"), ("/cccccc", "four")] {
        let resp = serve(&resolver(), &mut store, &put(path, target)).expect("request succeeds");
        assert_eq!(resp.status, 201);
    }
    for (path, target) in [("/aaaaaa", "three"), ("/bbbbbb", "two"), ("/cccccc", "four")] {
        let resp = serve(&resolver(), &mut store, &get(path)).expect("request succeeds");
        assert_eq!(resp.header("Location"), Some(target));
    }
    assert_eq!(store.lookup(&key("AAAAAA")), LookupOutcome::Absent);
}

#[test]
fn root_is_the_welcome_page() {
    let mut store = MemoryStore::new();
    let resp = serve(&resolver(), &mut store, &get("/")).expect("request succeeds");
    assert_eq!(resp.status, 200);
    assert_eq!(resp.header("Content-Type"), Some("text/html; charset=utf-8"));
    assert_eq!(resp.headers.len(), 1);
    assert!(!resp.body.is_empty());
    assert_eq!(resp.body, WELCOME);
}

#[test]
fn resolver_refuses_an_empty_document() {
    assert!(Resolver::new(String::new()).is_none());
    let resolver = Resolver::new("x".to_string()).expect("a document that is not empty");
    assert_eq!(resolver.welcome(), "x");
}

#[test]
fn unwritten_key_is_not_found() {
    let mut store = MemoryStore::new();
    store.insert(&key("abc123"), encode_target("https://rustmanchester.co.uk/"));
    let resp = serve(&resolver(), &mut store, &get("/abc124")).expect("request succeeds");
    assert_eq!(resp.status, 404);
    assert_eq!(resp.body, "No redirect found for this key\n");
    assert_eq!(resp.header("Content-Type"), Some("text/plain; charset=utf-8"));
    assert_eq!(resp.header("Location"), None);
}

#[test]
fn other_paths_are_not_found() {
    let mut store = MemoryStore::new();
    store.insert(&key("abc123"), encode_target("https://rustmanchester.co.uk/"));
    for path in [
        "", "//", "/abc12", "/abc1234", "/abc12!", "/abc_12", "abc1234", "xabc123", "/abc123/",
        "/abc/23", "/abc12\u{e9}", "\u{e9}abc12", "/\u{ff11}\u{ff12}\u{ff13}\u{ff14}\u{ff15}\u{ff16}",
        "/index.html",
    ] {
        let resp = serve(&resolver(), &mut store, &get(path)).expect("request succeeds");
        assert_eq!(resp.status, 404, "{:?}", path);
        assert_eq!(resp.body, "The page you requested could not be found\n");
        assert_eq!(resp.header("Content-Type"), Some("text/plain; charset=utf-8"));
    }
}

#[test]
fn handler_names_the_store_operation() {
    let resolver = resolver();
    assert_eq!(handler(&resolver, &get("/abc123")), Action::Lookup(key("abc123")));
    assert_eq!(
        handler(&resolver, &put("/abc123", "h\u{e9}")),
        Action::Insert(key("abc123"), vec![0x68, 0xc3, 0xa9])
    );
    assert_eq!(handler(&resolver, &get("/nope")), Action::Respond(Response::not_found()));
    assert_eq!(resolver.handle_get(&put("/abc123", "x")), Action::Lookup(key("abc123")));
    assert_eq!(
        resolver.handle_put(&get("/abc123")),
        Action::Respond(Response::missing_body())
    );
}

#[test]
fn store_failures_fail_the_request() {
    let resolver = resolver();
    let key = key("abc123");
    assert_eq!(resolver.redirect(LookupOutcome::Failed), Err(ServiceError::Store));
    assert_eq!(resolver.stored(&key, InsertOutcome::Failed), Err(ServiceError::Store));
    assert_eq!(
        resolver.stored(&key, InsertOutcome::Stored),
        Ok(Response::stored(&key))
    );
    assert_eq!(resolver.redirect(LookupOutcome::Absent), Ok(Response::no_redirect()));
    assert_eq!(
        resolver.redirect(LookupOutcome::Found(b"https://example.com/".to_vec())),
        Ok(Response::redirected("https://example.com/"))
    );
}

#[test]
fn undecodable_value_fails_the_request() {
    let resolver = resolver();
    let key = key("abc123");
    for bytes in [vec![0xff], vec![0x68, 0xc3], vec![0xed, 0xa0, 0x80], vec![0xc0, 0xaf]] {
        assert_eq!(
            resolver.redirect(LookupOutcome::Found(bytes)),
            Err(ServiceError::Encoding)
        );
    }
    let empty = resolver.redirect(LookupOutcome::Found(Vec::new())).expect("decodes");
    assert_eq!(empty.header("Location"), Some(""));
}
