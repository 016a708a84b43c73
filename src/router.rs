use std::sync::Arc;

use vstd::prelude::*;

verus! {

/// Relies on `Arc::clone`: the new handle shares the same value.
#[verifier::external_body]
fn share<T>(a: &Arc<T>) -> (r: Arc<T>)
    ensures
        r == *a,
{
    Arc::clone(a)
}

/// A shared application context and the handler that serves each request with it.
///
/// Middleware is composition: `with` hands the current handler to a function that
/// returns the wrapping one, and keeps the context.
pub struct Router<T, H> {
    pub app: Arc<T>,
    pub handler: H,
}

impl<T, H> Router<T, H> {
    /// Replaces the handler by what `middleware` makes of it; the context is kept.
    pub fn with<F, H2>(self, middleware: F) -> (r: Router<T, H2>)
        where
            F: FnOnce(H) -> H2,
        requires
            middleware.requires((self.handler,)),
        ensures
            r.app == self.app,
            middleware.ensures((self.handler,), r.handler),
    {
        let Router { app, handler } = self;
        let handler = middleware(handler);
        Router { app, handler }
    }

    /// Calls the handler with a shared handle to the context and the request.
    pub fn call<Req, Resp>(&self, request: Req) -> (r: Resp)
        where
            H: Fn(Arc<T>, Req) -> Resp,
        requires
            self.handler.requires((self.app, request)),
        ensures
            self.handler.ensures((self.app, request), r),
    {
        let app = share(&self.app);
        (self.handler)(app, request)
    }

    /// A shared handle to the application context.
    pub fn app(&self) -> (r: Arc<T>)
        ensures
            r == self.app,
    {
        share(&self.app)
    }
}

/// Middleware is seen on every response: when each handler that `middleware` makes
/// out of the current one answers only with responses that are `marked` (say, that
/// carry a header it adds), every response of the router that `with` returned is
/// marked, whatever the request, an error body included.
pub proof fn lemma_middleware_on_every_response<T, H, F, H2, Req, Resp>(
    router: Router<T, H>,
    middleware: F,
    wrapped: Router<T, H2>,
    request: Req,
    response: Resp,
    marked: spec_fn(Resp) -> bool,
)
    where
        F: FnOnce(H) -> H2,
        H2: Fn(Arc<T>, Req) -> Resp,
    requires
        wrapped.app == router.app,
        middleware.ensures((router.handler,), wrapped.handler),
        forall|h: H2, app: Arc<T>, q: Req, x: Resp|
            middleware.ensures((router.handler,), h) && #[trigger] h.ensures((app, q), x) ==> marked(x),
        wrapped.handler.ensures((wrapped.app, request), response),
    ensures
        marked(response),
{
}

impl<T, H: Clone> Clone for Router<T, H> {
    /// Shares the context and clones the handler.
    fn clone(&self) -> (r: Self)
        ensures
            r.app == self.app,
            vstd::pervasive::cloned(self.handler, r.handler),
    {
        Router { app: share(&self.app), handler: self.handler.clone() }
    }
}

} // verus!
