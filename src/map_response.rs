use crate::service::{Layer, Service};
use vstd::pervasive::cloned;
use vstd::prelude::*;

verus! {

/// Middleware that passes each request to the inner service unchanged and
/// applies a mapping function to its successful responses. Errors pass
/// through untouched.
#[derive(Clone)]
pub struct MapResponse<S, F> {
    inner: S,
    f: F,
}

/// A layer that wraps services in [`MapResponse`] with a copy of its mapping
/// function.
#[derive(Debug, Clone)]
pub struct MapResponseLayer<F> {
    f: F,
}

impl<S, F> MapResponse<S, F> {
    /// The wrapped service.
    pub closed spec fn inner_service(&self) -> S {
        self.inner
    }

    /// The function applied to successful responses.
    pub closed spec fn mapper(&self) -> F {
        self.f
    }

    /// Creates a new `MapResponse` service.
    pub fn new(inner: S, f: F) -> (r: Self)
        ensures
            r.inner_service() == inner,
            r.mapper() == f,
    {
        MapResponse { f, inner }
    }

    /// A layer that wraps services in this middleware with `f`.
    pub fn layer(f: F) -> (r: MapResponseLayer<F>)
        ensures
            r.mapper() == f,
    {
        MapResponseLayer { f }
    }
}

/// Applies `f` to a successful outcome and passes an error through as it is;
/// `f` is not called on an error.
pub fn map_success<F, Inner, Resp, E>(f: &F, outcome: Result<Inner, E>) -> (r: Result<Resp, E>) where
    F: Fn(Inner) -> Resp,

    requires
        outcome is Ok ==> f.requires((outcome->Ok_0,)),
    ensures
        match outcome {
            Ok(x) => r is Ok && f.ensures((x,), r->Ok_0),
            Err(e) => r == Err::<Resp, E>(e),
        },
{
    match outcome {
        Ok(response) => Ok(f(response)),
        Err(error) => Err(error),
    }
}

impl<S, F, Request, Inner, Resp> Service<Request> for MapResponse<S, F> where
    S: Service<Request, Response = Inner>,
    F: Fn(Inner) -> Resp,
 {
    type Response = Resp;

    type Error = S::Error;

    open spec fn can_call(&self, req: Request) -> bool {
        &&& self.inner_service().can_call(req)
        &&& forall|x: Inner| #[trigger] self.mapper().requires((x,))
    }

    open spec fn call_outcome(
        pre: Self,
        req: Request,
        post: Self,
        r: Result<Resp, S::Error>,
    ) -> bool {
        &&& post.mapper() == pre.mapper()
        &&& match r {
            Ok(y) => exists|x: Inner|
                #[trigger] S::call_outcome(pre.inner_service(), req, post.inner_service(), Ok(x))
                    && pre.mapper().ensures((x,), y),
            Err(e) => S::call_outcome(pre.inner_service(), req, post.inner_service(), Err(e)),
        }
    }

    fn call(&mut self, request: Request) -> (r: Result<Resp, S::Error>) {
        let ghost pre = *self;
        let outcome = self.inner.call(request);
        proof {
            if outcome is Ok {
                assert(pre.mapper().requires((outcome->Ok_0,)));
            }
        }
        let r = map_success(&self.f, outcome);
        proof {
            if outcome is Ok {
                assert(S::call_outcome(
                    pre.inner_service(),
                    request,
                    self.inner_service(),
                    Ok(outcome->Ok_0),
                ));
            }
        }
        r
    }
}

impl<F> MapResponseLayer<F> {
    /// The mapping function that each built service gets a clone of.
    pub closed spec fn mapper(&self) -> F {
        self.f
    }

    /// Creates a new [`MapResponseLayer`] layer.
    pub fn new(f: F) -> (r: Self)
        ensures
            r.mapper() == f,
    {
        MapResponseLayer { f }
    }
}

impl<S, F: Clone> Layer<S> for MapResponseLayer<F> {
    type Service = MapResponse<S, F>;

    open spec fn builds(&self, inner: S, out: MapResponse<S, F>) -> bool {
        out.inner_service() == inner && cloned(self.mapper(), out.mapper())
    }

    fn layer(&self, inner: S) -> (r: MapResponse<S, F>) {
        MapResponse { f: self.f.clone(), inner }
    }
}

/// A call on `req` succeeds with `y` exactly when the inner service may
/// succeed with some `x` that the mapping function turns into `y`, and fails
/// with `e` exactly when the inner service may fail with that very `e`. The
/// mapping function stays as it was, whatever the outcome.
pub proof fn mapped_call_outcome<S, F, Request, Inner, Resp>(
    mw: MapResponse<S, F>,
    req: Request,
    post: MapResponse<S, F>,
    r: Result<Resp, S::Error>,
) where S: Service<Request, Response = Inner>, F: Fn(Inner) -> Resp
    ensures
        MapResponse::<S, F>::call_outcome(mw, req, post, r) ==> post.mapper() == mw.mapper(),
        r is Ok ==> (MapResponse::<S, F>::call_outcome(mw, req, post, r) <==> (post.mapper()
            == mw.mapper() && exists|x: Inner|
            #[trigger] S::call_outcome(mw.inner_service(), req, post.inner_service(), Ok(x))
                && mw.mapper().ensures((x,), r->Ok_0))),
        r is Err ==> (MapResponse::<S, F>::call_outcome(mw, req, post, r) <==> (post.mapper()
            == mw.mapper() && S::call_outcome(
            mw.inner_service(),
            req,
            post.inner_service(),
            Err(r->Err_0),
        ))),
{
    if r is Ok {
        let y = r->Ok_0;
        if MapResponse::<S, F>::call_outcome(mw, req, post, r) {
            let x = choose|x: Inner|
                #[trigger] S::call_outcome(mw.inner, req, post.inner, Ok(x)) && mw.f.ensures(
                    (x,),
                    y,
                );
            assert(S::call_outcome(mw.inner_service(), req, post.inner_service(), Ok(x)));
        }
        if post.mapper() == mw.mapper() && exists|x: Inner|
            #[trigger] S::call_outcome(mw.inner_service(), req, post.inner_service(), Ok(x))
                && mw.mapper().ensures((x,), y) {
            let x = choose|x: Inner|
                #[trigger] S::call_outcome(mw.inner_service(), req, post.inner_service(), Ok(x))
                    && mw.mapper().ensures((x,), y);
            assert(S::call_outcome(mw.inner, req, post.inner, Ok(x)));
        }
    }
}

/// Building is deterministic and leaves the inner service alone: every
/// service the layer builds around `inner` holds `inner` itself and a clone of
/// the layer's mapping function, so two builds differ at most in how the
/// function clones.
pub proof fn layer_builds_alike<S, F: Clone>(
    l: MapResponseLayer<F>,
    inner: S,
    out1: MapResponse<S, F>,
    out2: MapResponse<S, F>,
)
    requires
        l.builds(inner, out1),
        l.builds(inner, out2),
    ensures
        out1.inner_service() == inner,
        out2.inner_service() == inner,
        cloned(l.mapper(), out1.mapper()),
        cloned(l.mapper(), out2.mapper()),
        (forall|c: F| cloned(l.mapper(), c) ==> c == l.mapper()) ==> out1 == out2,
{
}

} // verus!
