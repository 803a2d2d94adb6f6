//! The registry of handlers and the dispatch over it.

use vstd::prelude::*;
use crate::handler::Handler;
use crate::request::Request;
use crate::response::{not_found, AppResponse};

verus! {

/// Handlers in the order they were registered, and the dispatch over them.
#[verifier::reject_recursive_types(T)]
pub struct Application<T> where T: Send + Sync {
    handlers: Vec<Handler<T>>,
}

impl<T> View for Application<T> where T: Send + Sync {
    type V = Seq<Handler<T>>;

    /// The handlers, first registered first.
    closed spec fn view(&self) -> Seq<Handler<T>> {
        self.handlers@
    }
}

impl<T> Default for Application<T> where T: Send + Sync {
    fn default() -> (app: Self)
        ensures
            app@ == Seq::<Handler<T>>::empty(),
    {
        Application::new()
    }
}

impl<T> Application<T> where T: Send + Sync {
    /// Whether each of the first `k` handlers may decline `request`.
    pub open spec fn declined_before(&self, request: &Request, k: int) -> bool {
        forall|j: int| 0 <= j < k ==> (#[trigger] self@[j]).decides(request, false)
    }

    /// Whether dispatch may stop after `k` handlers with `response`, taking the
    /// resources from `before` to `after`: the first `k` handlers decline, and
    /// then either the next one accepts and its page renders, or there is no
    /// next one, the response is the empty 404 and the resources are untouched.
    pub open spec fn dispatched_at(
        &self,
        k: int,
        request: &Request,
        before: T,
        after: T,
        response: AppResponse,
    ) -> bool {
        &&& 0 <= k <= self@.len()
        &&& self.declined_before(request, k)
        &&& if k < self@.len() {
            &&& self@[k].decides(request, true)
            &&& self@[k].renders(request, before, after, response)
        } else {
            &&& response@ == not_found()
            &&& after == before
        }
    }

    /// Whether dispatch of `request` may give `response` and take the resources
    /// from `before` to `after`.
    pub open spec fn dispatches(&self, request: &Request, before: T, after: T, response: AppResponse) -> bool {
        exists|k: int| self.dispatched_at(k, request, before, after, response)
    }

    /// An application without handlers.
    pub fn new() -> (app: Self)
        ensures
            app@ == Seq::<Handler<T>>::empty(),
    {
        Application { handlers: Vec::new() }
    }

    /// An application with the given handlers, in their order.
    pub fn from(handlers: Vec<Handler<T>>) -> (app: Self)
        ensures
            app@ == handlers@,
    {
        Application { handlers }
    }

    /// Registers `handler` behind the handlers already there.
    pub fn register(&mut self, handler: Handler<T>)
        ensures
            final(self)@ == old(self)@.push(handler),
    {
        self.handlers.push(handler);
    }

    /// Dispatches `request`: asks the handlers in the order of registration and
    /// lets the page of the first one that accepts render the response. No
    /// handler behind that one is asked, and no other page renders. When no
    /// handler accepts, the response is the empty 404.
    pub fn handle_request(&self, request: &Request, resources: &mut T) -> (response: AppResponse)
        ensures
            self.dispatches(request, *old(resources), *final(resources), response),
    {
        let n = self.handlers.len();
        let mut i: usize = 0;
        while i < n
            invariant
                n == self@.len(),
                i <= n,
                self.declined_before(request, i as int),
                *resources == *old(resources),
            decreases n - i,
        {
            let handler = &self.handlers[i];
            if handler.match_request(request) {
                let response = handler.render(request, resources);
                assert(self.dispatched_at(
                    i as int,
                    request,
                    *old(resources),
                    *resources,
                    response,
                ));
                return response;
            }
            i += 1;
        }
        let response = AppResponse::new(404, Vec::new(), Vec::new());
        assert(response@.headers =~= Seq::empty());
        assert(self.dispatched_at(n as int, request, *old(resources), *resources, response));
        response
    }

    /// The first match renders. When no handler before `k` can accept
    /// `request` and the handler at `k` cannot decline it, every outcome of
    /// dispatch is a rendering by the page of the handler at `k`, whatever
    /// stands behind it.
    pub proof fn first_match_renders(
        &self,
        k: int,
        request: &Request,
        before: T,
        after: T,
        response: AppResponse,
    )
        requires
            0 <= k < self@.len(),
            forall|j: int| 0 <= j < k ==> !(#[trigger] self@[j]).decides(request, true),
            !self@[k].decides(request, false),
            self.dispatches(request, before, after, response),
        ensures
            self@[k].renders(request, before, after, response),
    {
    }

    /// Registration order decides. When the handler at `i` cannot decline
    /// `request`, dispatch stops at `i` or before it: the page of a handler
    /// registered behind `i` does not render, whether or not that handler
    /// would accept the request too.
    pub proof fn earlier_match_wins(
        &self,
        i: int,
        stop: int,
        request: &Request,
        before: T,
        after: T,
        response: AppResponse,
    )
        requires
            0 <= i < self@.len(),
            !self@[i].decides(request, false),
            self.dispatched_at(stop, request, before, after, response),
        ensures
            stop <= i,
    {
    }

    /// Without handlers, every request gets the empty 404 and the resources are
    /// left as they were.
    pub proof fn empty_application_not_found(
        &self,
        request: &Request,
        before: T,
        after: T,
        response: AppResponse,
    )
        requires
            self@.len() == 0,
            self.dispatches(request, before, after, response),
        ensures
            response@ == not_found(),
            after == before,
    {
    }
}

} // verus!
