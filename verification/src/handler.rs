//! Handlers: a matcher for requests and the page behind it.

use vstd::prelude::*;
use crate::page::{Cors, Page};
use crate::request::{routes_to, Request};
use crate::response::AppResponse;

verus! {

/// What a parameterized matcher is handed besides the request: the path that
/// the handler was bound to.
type InnerData = Option<String>;

/// A predicate on requests, as a handler stores it.
trait Matcher: Send + Sync {
    /// Whether `verdict` is an answer that the predicate may give to `request`.
    spec fn decides(&self, request: &Request, verdict: bool) -> bool;

    fn test(&self, request: &Request) -> (verdict: bool)
        ensures
            self.decides(request, verdict),
    ;
}

/// A predicate on requests and bound data, as a handler stores it.
trait DataMatcher: Send + Sync {
    /// Whether `verdict` is an answer that the predicate may give to `request`
    /// when it is handed `data`.
    spec fn decides(&self, request: &Request, data: &InnerData, verdict: bool) -> bool;

    fn test(&self, request: &Request, data: &InnerData) -> (verdict: bool)
        ensures
            self.decides(request, data, verdict),
    ;
}

/// A function on requests that may be called on every request.
struct Simple<F: Fn(&Request) -> bool> {
    check: F,
}

impl<F: Fn(&Request) -> bool> Simple<F> {
    #[verifier::type_invariant]
    spec fn total(self) -> bool {
        forall|request: &Request| call_requires(self.check, (request,))
    }
}

impl<F: Fn(&Request) -> bool + Send + Sync> Matcher for Simple<F> {
    spec fn decides(&self, request: &Request, verdict: bool) -> bool {
        call_ensures(self.check, (request,), verdict)
    }

    fn test(&self, request: &Request) -> (verdict: bool) {
        proof {
            use_type_invariant(self);
        }
        (self.check)(request)
    }
}

/// A function on requests and bound data that may be called on every pair.
struct Parameterized<F: Fn(&Request, &InnerData) -> bool> {
    check: F,
}

impl<F: Fn(&Request, &InnerData) -> bool> Parameterized<F> {
    #[verifier::type_invariant]
    spec fn total(self) -> bool {
        forall|request: &Request, data: &InnerData| call_requires(self.check, (request, data))
    }
}

impl<F: Fn(&Request, &InnerData) -> bool + Send + Sync> DataMatcher for Parameterized<F> {
    spec fn decides(&self, request: &Request, data: &InnerData, verdict: bool) -> bool {
        call_ensures(self.check, (request, data), verdict)
    }

    fn test(&self, request: &Request, data: &InnerData) -> (verdict: bool) {
        proof {
            use_type_invariant(self);
        }
        (self.check)(request, data)
    }
}

/// Whether `request` asks with `method` for the path that `data` holds. Without
/// a path there is nothing to ask for.
spec fn bound_route(request: &Request, method: Seq<char>, data: &InnerData) -> bool {
    match data {
        Some(path) => routes_to(request, method, path@),
        None => false,
    }
}

fn matches_bound(request: &Request, method: &str, data: &InnerData) -> (verdict: bool)
    ensures
        verdict == bound_route(request, method@, data),
{
    match data {
        Some(path) => request.method == method.to_string() && request.path == *path,
        None => false,
    }
}

fn matches_get(request: &Request, data: &InnerData) -> (verdict: bool)
    ensures
        verdict == bound_route(request, "GET"@, data),
{
    matches_bound(request, "GET", data)
}

fn matches_post(request: &Request, data: &InnerData) -> (verdict: bool)
    ensures
        verdict == bound_route(request, "POST"@, data),
{
    matches_bound(request, "POST", data)
}

fn matches_put(request: &Request, data: &InnerData) -> (verdict: bool)
    ensures
        verdict == bound_route(request, "PUT"@, data),
{
    matches_bound(request, "PUT", data)
}

/// A route: a predicate on requests, and the page that renders the response to
/// the requests it accepts.
///
/// The predicate sits in one of two slots. A simple one sees the request alone.
/// A parameterized one is also handed the data that the handler was bound to.
/// A handler in which not exactly one slot is filled accepts nothing.
#[verifier::reject_recursive_types(T)]
pub struct Handler<T> where T: Send + Sync {
    pub page: Box<dyn Page<T>>,
    inner_data: InnerData,
    data_match: Option<Box<dyn DataMatcher>>,
    simple_match: Option<Box<dyn Matcher>>,
}

impl<T> Handler<T> where T: Send + Sync {
    /// Whether exactly one of the two matcher slots is filled.
    pub closed spec fn well_formed(&self) -> bool {
        self.data_match.is_some() != self.simple_match.is_some()
    }

    /// Whether `verdict` is an answer that the handler's matcher may give to
    /// `request`.
    pub closed spec fn decides(&self, request: &Request, verdict: bool) -> bool {
        match (self.data_match, self.simple_match) {
            (Some(matcher), None) => matcher.decides(request, &self.inner_data, verdict),
            (None, Some(matcher)) => matcher.decides(request, verdict),
            _ => !verdict,
        }
    }

    /// Whether the handler's matcher decides as `predicate` does: whatever it
    /// answers to a request is the answer of `predicate`.
    pub open spec fn decides_as(&self, predicate: spec_fn(&Request) -> bool) -> bool {
        forall|request: &Request, verdict: bool| #[trigger]
            self.decides(request, verdict) ==> verdict == predicate(request)
    }

    /// Whether the handler's page may render `response` to `request`, taking
    /// the resources from `before` to `after`.
    pub closed spec fn renders(&self, request: &Request, before: T, after: T, response: AppResponse) -> bool {
        self.page.renders(request, before, after, response)
    }

    /// Whether the handler's page renders as `page` does.
    pub open spec fn renders_as<P: Page<T> + ?Sized>(&self, page: &P) -> bool {
        forall|request: &Request, before: T, after: T, response: AppResponse| #[trigger]
            self.renders(request, before, after, response) <==> page.renders(
                request,
                before,
                after,
                response,
            )
    }

    fn assemble(
        page: &mut Box<dyn Page<T>>,
        inner_data: InnerData,
        data_match: Option<Box<dyn DataMatcher>>,
        simple_match: Option<Box<dyn Matcher>>,
    ) -> (handler: Self)
        ensures
            handler.page == *old(page),
            handler.inner_data == inner_data,
            handler.data_match == data_match,
            handler.simple_match == simple_match,
    {
        // The page is moved in by a swap, and reaches this function behind a
        // reference. Wherever a boxed trait object is written into a place of
        // its own type (a field of a struct literal, an argument), it is coerced
        // anew, and of the coerced value nothing is known.
        let mut handler = Handler { page: Box::new(Cors), inner_data, data_match, simple_match };
        core::mem::swap(&mut handler.page, page);
        handler
    }

    /// Asks the matcher about `request`: the parameterized one, with the data
    /// that the handler was bound to, or the simple one. A handler in which
    /// not exactly one slot is filled answers `false`.
    pub fn match_request(&self, request: &Request) -> (verdict: bool)
        ensures
            self.decides(request, verdict),
    {
        match (&self.data_match, &self.simple_match) {
            (Some(data), None) => data.test(request, &self.inner_data),
            (None, Some(simple)) => simple.test(request),
            _ => false,
        }
    }

    /// Lets the page render the response to `request`.
    pub fn render(&self, request: &Request, resources: &mut T) -> (response: AppResponse)
        ensures
            self.renders(request, *old(resources), *final(resources), response),
    {
        self.page.render(request, resources)
    }

    /// A handler for the requests that `match_request` accepts. The predicate
    /// has to take every request.
    pub fn new<F>(match_request: F, page: Box<dyn Page<T>>) -> (handler: Self) where
        F: Fn(&Request) -> bool + Send + Sync + 'static,

        requires
            forall|request: &Request| call_requires(match_request, (request,)),
        ensures
            handler.well_formed(),
            handler.renders_as(&*page),
            forall|request: &Request, verdict: bool| #[trigger]
                handler.decides(request, verdict) ==> call_ensures(
                    match_request,
                    (request,),
                    verdict,
                ),
    {
        let mut page = page;
        Handler::assemble(&mut page, None, None, Some(Box::new(Simple { check: match_request })))
    }

    fn new_inner<F>(
        match_request: F,
        page: &mut Box<dyn Page<T>>,
        inner_data: InnerData,
    ) -> (handler: Self) where F: Fn(&Request, &InnerData) -> bool + Send + Sync + 'static
        requires
            forall|request: &Request, data: &InnerData|
                call_requires(match_request, (request, data)),
        ensures
            handler.well_formed(),
            handler.renders_as(&**old(page)),
            forall|request: &Request, verdict: bool| #[trigger]
                handler.decides(request, verdict) ==> call_ensures(
                    match_request,
                    (request, &inner_data),
                    verdict,
                ),
    {
        Handler::assemble(
            page,
            inner_data,
            Some(Box::new(Parameterized { check: match_request })),
            None,
        )
    }

    /// A handler for the `GET` requests for `path`.
    pub fn get(path: &str, page: Box<dyn Page<T>>) -> (handler: Self)
        ensures
            handler.well_formed(),
            handler.renders_as(&*page),
            handler.decides_as(|request: &Request| routes_to(request, "GET"@, path@)),
    {
        let mut page = page;
        Handler::new_inner(matches_get, &mut page, Some(path.to_string()))
    }

    /// A handler for the `POST` requests for `path`.
    pub fn post(path: &str, page: Box<dyn Page<T>>) -> (handler: Self)
        ensures
            handler.well_formed(),
            handler.renders_as(&*page),
            handler.decides_as(|request: &Request| routes_to(request, "POST"@, path@)),
    {
        let mut page = page;
        Handler::new_inner(matches_post, &mut page, Some(path.to_string()))
    }

    /// A handler for the `PUT` requests for `path`.
    pub fn put(path: &str, page: Box<dyn Page<T>>) -> (handler: Self)
        ensures
            handler.well_formed(),
            handler.renders_as(&*page),
            handler.decides_as(|request: &Request| routes_to(request, "PUT"@, path@)),
    {
        let mut page = page;
        Handler::new_inner(matches_put, &mut page, Some(path.to_string()))
    }

    /// A handler bound to a method and a path accepts a request if and only if
    /// the request has that method and that path: what `match_request` answers
    /// for a handler that `get`, `post` or `put` made.
    pub proof fn route_accepts_exactly(
        &self,
        method: Seq<char>,
        path: Seq<char>,
        request: &Request,
        verdict: bool,
    )
        requires
            self.decides_as(|request: &Request| routes_to(request, method, path)),
            self.decides(request, verdict),
        ensures
            verdict <==> request.method@ == method && request.path@ == path,
    {
    }

    /// A handler in which not exactly one matcher slot is filled declines every
    /// request.
    pub proof fn malformed_handler_declines(&self, request: &Request, verdict: bool)
        requires
            !self.well_formed(),
            self.decides(request, verdict),
        ensures
            !verdict,
    {
    }
}

} // verus!
