use std::cell::RefCell;
use std::rc::Rc;

use shio::{
    conclude, default_catch, Body, Context, FutureExt, Handler, HandlerError, Method, Middleware, Outcome,
    Reply, Request, Response, Route, Router, Stack,
};
use tokio_core::reactor::Core;

type Log = Rc<RefCell<Vec<String>>>;

struct Tag {
    name: &'static str,
    log: Log,
}

impl Handler for Tag {
    fn replies(&self, _ctx: Context, _r: Reply) -> bool {
        true
    }

    fn call(&self, ctx: Context) -> Reply {
        let x = ctx.params().get("x").unwrap_or_default();
        self.log.borrow_mut().push(format!("{}:{}", self.name, x));
        let mut r = Response::new();
        r.body = self.name.as_bytes().to_vec();
        Ok(r)
    }
}

struct Failing;

impl Handler for Failing {
    fn replies(&self, _ctx: Context, _r: Reply) -> bool {
        true
    }

    fn call(&self, _ctx: Context) -> Reply {
        Err(HandlerError { message: "boom".to_string() })
    }
}

struct Layer {
    name: &'static str,
    log: Log,
}

impl Middleware for Layer {
    fn wraps<H: Handler>(&self, _ctx: Context, _next: H, _r: Reply) -> bool {
        true
    }

    fn wrap<H: Handler>(&self, ctx: Context, next: &H) -> Reply {
        self.log.borrow_mut().push(format!("{} before", self.name));
        let r = next.call(ctx);
        self.log.borrow_mut().push(format!("{} after", self.name));
        r
    }
}

fn ctx(core: &Core, method: Method, path: &str) -> Context {
    let request = Request {
        method,
        path: path.to_string(),
        headers: vec![],
        body: Body::empty(),
    };
    Context::new(core.handle(), request)
}

#[test]
fn first_registered_route_wins() {
    let core = Core::new().unwrap();
    let log: Log = Rc::new(RefCell::new(vec![]));
    let mut router = Router::new();
    router.add(Method::Get, "/a/:x", Tag { name: "h1", log: log.clone() });
    router.add(Method::Get, "/a/b", Tag { name: "h2", log: log.clone() });
    let r = router.dispatch(ctx(&core, Method::Get, "/a/b")).unwrap();
    assert_eq!(r.body, b"h1".to_vec());
    assert_eq!(*log.borrow(), vec!["h1:b".to_string()]);
    let (i, caps) = router.find(&Method::Get, "/a/b").unwrap();
    assert_eq!(i, 0);
    assert_eq!(caps, vec![("x".to_string(), "b".to_string())]);
}

#[test]
fn unmatched_request_is_not_found_and_calls_nothing() {
    let core = Core::new().unwrap();
    let log: Log = Rc::new(RefCell::new(vec![]));
    let mut router = Router::new();
    router.add(Method::Get, "/a", Tag { name: "h", log: log.clone() });
    let r = router.dispatch(ctx(&core, Method::Get, "/b")).unwrap();
    assert_eq!((r.status, r.body.len()), (404, 0));
    let r = router.dispatch(ctx(&core, Method::Post, "/a")).unwrap();
    assert_eq!(r.status, 404);
    assert!(log.borrow().is_empty());
    assert!(router.find(&Method::Post, "/a").is_none());
}

#[test]
fn method_is_compared_before_path() {
    let core = Core::new().unwrap();
    let log: Log = Rc::new(RefCell::new(vec![]));
    let mut router = Router::new();
    router.add(Method::Post, "/a", Tag { name: "post", log: log.clone() });
    router.add_route(Route::new(Method::Get, "/a", Tag { name: "get", log: log.clone() }));
    let r = router.dispatch(ctx(&core, Method::Get, "/a")).unwrap();
    assert_eq!(r.body, b"get".to_vec());
    assert_eq!(router.len(), 2);
    assert!(router.route(1).method() == &Method::Get);
    assert_eq!(router.route(1).pattern().as_str(), "/a");
    let ext = Method::Extension("PURGE".to_string());
    assert!(ext == Method::Extension("PURGE".to_string()));
    assert!(ext != Method::Get);
}

#[test]
fn middleware_added_last_runs_outermost() {
    let core = Core::new().unwrap();
    let log: Log = Rc::new(RefCell::new(vec![]));
    let stack = Stack::new(Tag { name: "root", log: log.clone() })
        .add(Layer { name: "m1", log: log.clone() })
        .add(Layer { name: "m2", log: log.clone() });
    let r = stack.call(ctx(&core, Method::Get, "/")).unwrap();
    assert_eq!(r.body, b"root".to_vec());
    assert_eq!(
        *log.borrow(),
        vec!["m2 before", "m1 before", "root:", "m1 after", "m2 after"]
    );
}

#[test]
fn handler_failure_becomes_internal_error() {
    let core = Core::new().unwrap();
    let reply = Failing.call(ctx(&core, Method::Get, "/"));
    let r = conclude(Outcome::Finished(reply));
    assert_eq!((r.status, r.body.len(), r.headers.len()), (500, 0, 0));
    let r = default_catch(HandlerError { message: "x".to_string() });
    assert_eq!(r.status, 500);
}

#[test]
fn trap_becomes_internal_error_and_service_goes_on() {
    let r = conclude(Outcome::Trapped);
    assert_eq!((r.status, r.body.len()), (500, 0));
    let r = conclude(Outcome::Undecodable);
    assert_eq!(r.status, 500);
    let mut ok = Response::with_status(201);
    ok.body = b"made".to_vec();
    let r = conclude(Outcome::Finished(Ok(ok)));
    assert_eq!((r.status, r.body), (201, b"made".to_vec()));
}

#[test]
fn context_starts_without_parameters() {
    let core = Core::new().unwrap();
    let mut c = ctx(&core, Method::Get, "/p");
    assert_eq!(c.params().len(), 0);
    assert_eq!(c.request().path, "/p");
    let body = c.take_body();
    assert!(!body.has_pending());
}

#[test]
fn into_box_keeps_the_future() {
    let boxed = std::future::ready(3u8).into_box();
    let _: Box<std::future::Ready<u8>> = boxed;
}

#[test]
fn route_context_installs_the_captures() {
    let core = Core::new().unwrap();
    let log: Log = Rc::new(RefCell::new(vec![]));
    let mut router = Router::new();
    router.add(Method::Get, "/a", Tag { name: "a", log: log.clone() });
    router.add(Method::Get, "/u/:x", Tag { name: "u", log: log.clone() });
    let (i, c) = router.route_context(ctx(&core, Method::Get, "/u/7")).ok().unwrap();
    assert_eq!(i, 1);
    assert_eq!(c.params().get("x"), Some("7".to_string()));
    assert_eq!(c.request().path, "/u/7");
    let miss = router.route_context(ctx(&core, Method::Get, "/v")).err().unwrap();
    assert_eq!((miss.status, miss.body.len()), (404, 0));
    assert!(log.borrow().is_empty());
}
