use crate::service::{Layer, Service};
use http::{Request, Response};
use vstd::pervasive::cloned;
use vstd::prelude::*;

verus! {

/// An HTTP request from the `http` crate, carried through unopened.
#[verifier::external_type_specification]
#[verifier::external_body]
#[verifier::reject_recursive_types(T)]
pub struct ExRequest<T>(http::Request<T>);

/// An HTTP response from the `http` crate, carried through unopened.
#[verifier::external_type_specification]
#[verifier::external_body]
#[verifier::reject_recursive_types(T)]
pub struct ExResponse<T>(http::Response<T>);

/// A policy that decides whether a request may go on.
///
/// It either hands the request back (possibly rewritten, possibly with a new
/// body type) or answers it with a rejection response. A decision may change
/// the policy's own state; `decision` relates the state before, the request,
/// the state after and the outcome.
pub trait AsyncAuthorizeRequest<B>: Sized {
    /// The body type of a request that is let through.
    type RequestBody;

    /// The body type of a rejection response.
    type ResponseBody;

    /// Holds when `authorize` may be called on `request` from this state.
    spec fn can_authorize(&self, request: Request<B>) -> bool;

    /// Holds when deciding on `request` from `pre` may leave the policy as
    /// `post` with outcome `r`.
    spec fn decision(
        pre: Self,
        request: Request<B>,
        post: Self,
        r: Result<Request<Self::RequestBody>, Response<Self::ResponseBody>>,
    ) -> bool;

    /// Authorize the request: `Ok` lets it through, `Err` answers it.
    fn authorize(&mut self, request: Request<B>) -> (r: Result<
        Request<Self::RequestBody>,
        Response<Self::ResponseBody>,
    >)
        requires
            old(self).can_authorize(request),
        ensures
            Self::decision(*old(self), request, *final(self), r),
    ;
}

/// A plain function from request to decision is a policy with no state of its
/// own: its decisions are whatever the function may return.
impl<B, F, ReqBody, ResBody> AsyncAuthorizeRequest<B> for F where
    F: Fn(Request<B>) -> Result<Request<ReqBody>, Response<ResBody>>,
 {
    type RequestBody = ReqBody;

    type ResponseBody = ResBody;

    open spec fn can_authorize(&self, request: Request<B>) -> bool {
        self.requires((request,))
    }

    open spec fn decision(
        pre: F,
        request: Request<B>,
        post: F,
        r: Result<Request<ReqBody>, Response<ResBody>>,
    ) -> bool {
        post == pre && pre.ensures((request,), r)
    }

    fn authorize(&mut self, request: Request<B>) -> (r: Result<
        Request<ReqBody>,
        Response<ResBody>,
    >) {
        (self)(request)
    }
}

/// Layer that wraps services in [`AsyncRequireAuthorization`] with a copy of
/// its policy.
#[derive(Debug, Clone)]
pub struct AsyncRequireAuthorizationLayer<T> {
    auth: T,
}

impl<T> AsyncRequireAuthorizationLayer<T> {
    /// The policy that each built service gets a clone of.
    pub closed spec fn policy(&self) -> T {
        self.auth
    }

    /// Authorize requests using a custom policy.
    pub fn new(auth: T) -> (r: AsyncRequireAuthorizationLayer<T>)
        ensures
            r.policy() == auth,
    {
        AsyncRequireAuthorizationLayer { auth }
    }
}

impl<S, T: Clone> Layer<S> for AsyncRequireAuthorizationLayer<T> {
    type Service = AsyncRequireAuthorization<S, T>;

    open spec fn builds(&self, inner: S, out: AsyncRequireAuthorization<S, T>) -> bool {
        out.inner_service() == inner && cloned(self.policy(), out.policy())
    }

    fn layer(&self, inner: S) -> (r: AsyncRequireAuthorization<S, T>) {
        AsyncRequireAuthorization::new(inner, self.auth.clone())
    }
}

/// Middleware that lets a request reach the inner service only when its
/// policy authorizes it, and otherwise answers with the policy's rejection.
#[derive(Clone, Debug)]
pub struct AsyncRequireAuthorization<S, T> {
    inner: S,
    auth: T,
}

impl<S, T> AsyncRequireAuthorization<S, T> {
    /// The wrapped service.
    pub closed spec fn inner_service(&self) -> S {
        self.inner
    }

    /// The policy that decides on each request.
    pub closed spec fn policy(&self) -> T {
        self.auth
    }

    /// Authorize requests to `inner` using a custom policy.
    pub fn new(inner: S, auth: T) -> (r: AsyncRequireAuthorization<S, T>)
        ensures
            r.inner_service() == inner,
            r.policy() == auth,
    {
        AsyncRequireAuthorization { inner, auth }
    }

    /// A layer that wraps services in this middleware with `auth`.
    pub fn layer(auth: T) -> (r: AsyncRequireAuthorizationLayer<T>)
        ensures
            r.policy() == auth,
    {
        AsyncRequireAuthorizationLayer::new(auth)
    }

    /// The wrapped service, borrowed.
    pub fn get_ref(&self) -> (r: &S)
        ensures
            *r == self.inner_service(),
    {
        &self.inner
    }

    /// The wrapped service, taken out of the middleware.
    pub fn into_inner(self) -> (r: S)
        ensures
            r == self.inner_service(),
    {
        self.inner
    }
}

impl<ReqBody, ResBody, S, Auth> Service<Request<ReqBody>> for AsyncRequireAuthorization<S, Auth> where
    Auth: AsyncAuthorizeRequest<ReqBody, ResponseBody = ResBody>,
    S: Service<Request<Auth::RequestBody>, Response = Response<ResBody>>,
 {
    type Response = Response<ResBody>;

    type Error = S::Error;

    open spec fn can_call(&self, req: Request<ReqBody>) -> bool {
        &&& self.policy().can_authorize(req)
        &&& forall|a: Auth, fwd: Request<Auth::RequestBody>|
            #[trigger] Auth::decision(self.policy(), req, a, Ok(fwd))
                ==> self.inner_service().can_call(fwd)
    }

    open spec fn call_outcome(
        pre: Self,
        req: Request<ReqBody>,
        post: Self,
        r: Result<Response<ResBody>, S::Error>,
    ) -> bool {
        exists|d: Result<Request<Auth::RequestBody>, Response<ResBody>>|
            #[trigger] Auth::decision(pre.policy(), req, post.policy(), d) && match d {
                Ok(fwd) => S::call_outcome(pre.inner_service(), fwd, post.inner_service(), r),
                Err(resp) => post.inner_service() == pre.inner_service() && r == Ok::<
                    Response<ResBody>,
                    S::Error,
                >(resp),
            }
    }

    fn call(&mut self, req: Request<ReqBody>) -> (r: Result<Response<ResBody>, S::Error>) {
        let ghost pre = *self;
        let d = self.auth.authorize(req);
        let r = match d {
            Ok(fwd) => {
                assert(Auth::decision(pre.policy(), req, self.policy(), Ok(fwd)));
                self.inner.call(fwd)
            },
            Err(resp) => Ok(resp),
        };
        assert(Auth::decision(pre.policy(), req, self.policy(), d));
        r
    }
}

/// When the policy's only possible decision on `req` is to let `fwd` through
/// and become `auth2`, calling the middleware is calling the inner service on
/// `fwd`: the outcomes are exactly the inner service's, with the policy left
/// as `auth2`.
pub proof fn authorized_call_is_forwarded<ReqBody, ResBody, S, Auth>(
    mw: AsyncRequireAuthorization<S, Auth>,
    req: Request<ReqBody>,
    auth2: Auth,
    fwd: Request<Auth::RequestBody>,
    post: AsyncRequireAuthorization<S, Auth>,
    r: Result<Response<ResBody>, S::Error>,
) where
    Auth: AsyncAuthorizeRequest<ReqBody, ResponseBody = ResBody>,
    S: Service<Request<Auth::RequestBody>, Response = Response<ResBody>>,

    requires
        forall|a: Auth, d: Result<Request<Auth::RequestBody>, Response<ResBody>>|
            #[trigger] Auth::decision(mw.policy(), req, a, d) <==> (a == auth2 && d == Ok::<
                Request<Auth::RequestBody>,
                Response<ResBody>,
            >(fwd)),
    ensures
        AsyncRequireAuthorization::<S, Auth>::call_outcome(mw, req, post, r) <==> (post.policy()
            == auth2 && S::call_outcome(mw.inner_service(), fwd, post.inner_service(), r)),
{
    let okd = Ok::<Request<Auth::RequestBody>, Response<ResBody>>(fwd);
    assert(Auth::decision(mw.policy(), req, auth2, okd));
}

/// When every possible decision of the policy on `req` is a rejection, a call
/// leaves the inner service untouched and returns, as a success, a rejection
/// response that the policy may give.
pub proof fn rejected_call_short_circuits<ReqBody, ResBody, S, Auth>(
    mw: AsyncRequireAuthorization<S, Auth>,
    req: Request<ReqBody>,
    post: AsyncRequireAuthorization<S, Auth>,
    r: Result<Response<ResBody>, S::Error>,
) where
    Auth: AsyncAuthorizeRequest<ReqBody, ResponseBody = ResBody>,
    S: Service<Request<Auth::RequestBody>, Response = Response<ResBody>>,

    requires
        forall|a: Auth, d: Result<Request<Auth::RequestBody>, Response<ResBody>>|
            #[trigger] Auth::decision(mw.policy(), req, a, d) ==> d is Err,
        AsyncRequireAuthorization::<S, Auth>::call_outcome(mw, req, post, r),
    ensures
        post.inner_service() == mw.inner_service(),
        r is Ok,
        Auth::decision(
            mw.policy(),
            req,
            post.policy(),
            Err::<Request<Auth::RequestBody>, Response<ResBody>>(r->Ok_0),
        ),
{
    let d = choose|d: Result<Request<Auth::RequestBody>, Response<ResBody>>|
        #[trigger] Auth::decision(mw.auth, req, post.auth, d) && match d {
            Ok(fwd) => S::call_outcome(mw.inner, fwd, post.inner, r),
            Err(resp) => post.inner == mw.inner && r == Ok::<Response<ResBody>, S::Error>(resp),
        };
    assert(Auth::decision(mw.policy(), req, post.auth, d));
}

/// Building is deterministic and leaves the inner service alone: every
/// service the layer builds around `inner` holds `inner` itself and a clone of
/// the layer's policy, so two builds differ at most in how the policy clones.
pub proof fn layer_builds_alike<S, T: Clone>(
    l: AsyncRequireAuthorizationLayer<T>,
    inner: S,
    out1: AsyncRequireAuthorization<S, T>,
    out2: AsyncRequireAuthorization<S, T>,
)
    requires
        l.builds(inner, out1),
        l.builds(inner, out2),
    ensures
        out1.inner_service() == inner,
        out2.inner_service() == inner,
        cloned(l.policy(), out1.policy()),
        cloned(l.policy(), out2.policy()),
        (forall|c: T| cloned(l.policy(), c) ==> c == l.policy()) ==> out1 == out2,
{
}

} // verus!
