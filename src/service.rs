use vstd::prelude::*;

verus! {

/// A unit of work that turns a request into a response or an error.
///
/// A call may change the service's own state (a counter, a cache); what a
/// call may do is stated by `call_outcome`, which relates the state before,
/// the request, the state after and the result.
pub trait Service<Req>: Sized {
    type Response;

    type Error;

    /// Holds when `call` may be made on `req` from this state.
    spec fn can_call(&self, req: Req) -> bool;

    /// Holds when a call on `req` from `pre` may leave the service as `post`
    /// and return `r`.
    spec fn call_outcome(
        pre: Self,
        req: Req,
        post: Self,
        r: Result<Self::Response, Self::Error>,
    ) -> bool;

    fn call(&mut self, req: Req) -> (r: Result<Self::Response, Self::Error>)
        requires
            old(self).can_call(req),
        ensures
            Self::call_outcome(*old(self), req, *final(self), r),
    ;
}

/// A factory that wraps a service into another one. Building never calls the
/// wrapped service.
pub trait Layer<S>: Sized {
    type Service;

    /// Holds when `out` may be what `layer` builds around `inner`.
    spec fn builds(&self, inner: S, out: Self::Service) -> bool;

    fn layer(&self, inner: S) -> (r: Self::Service)
        ensures
            self.builds(inner, r),
    ;
}

/// Holds when `out` may be what `outer` builds around what `inner_layer` builds
/// around `inner`.
pub open spec fn stacked<S, A: Layer<S>, B: Layer<A::Service>>(
    inner_layer: A,
    outer: B,
    inner: S,
    out: B::Service,
) -> bool {
    exists|mid: A::Service| inner_layer.builds(inner, mid) && outer.builds(mid, out)
}

/// Two layers applied in turn: `inner` first, then `outer` around its result.
#[derive(Clone, Debug)]
pub struct Stack<Inner, Outer> {
    pub inner: Inner,
    pub outer: Outer,
}

impl<Inner, Outer> Stack<Inner, Outer> {
    pub fn new(inner: Inner, outer: Outer) -> (r: Self)
        ensures
            r.inner == inner,
            r.outer == outer,
    {
        Stack { inner, outer }
    }
}

impl<S, Inner: Layer<S>, Outer: Layer<Inner::Service>> Layer<S> for Stack<Inner, Outer> {
    type Service = Outer::Service;

    open spec fn builds(&self, inner: S, out: Outer::Service) -> bool {
        stacked(self.inner, self.outer, inner, out)
    }

    fn layer(&self, inner: S) -> (r: Outer::Service) {
        let mid = self.inner.layer(inner);
        self.outer.layer(mid)
    }
}

/// Stacking layers is associative: `(l1 then l2) then l3` builds exactly the
/// services that `l1 then (l2 then l3)` builds, around every inner service.
pub proof fn stack_is_associative<S, L1, L2, L3>(
    l1: L1,
    l2: L2,
    l3: L3,
    inner: S,
    out: L3::Service,
) where L1: Layer<S>, L2: Layer<L1::Service>, L3: Layer<L2::Service>
    ensures
        (Stack { inner: Stack { inner: l1, outer: l2 }, outer: l3 }).builds(inner, out) <==> (Stack {
            inner: l1,
            outer: Stack { inner: l2, outer: l3 },
        }).builds(inner, out),
{
    let left = Stack { inner: Stack { inner: l1, outer: l2 }, outer: l3 };
    let right = Stack { inner: l1, outer: Stack { inner: l2, outer: l3 } };
    if left.builds(inner, out) {
        let mid2 = choose|mid2: L2::Service|
            (Stack { inner: l1, outer: l2 }).builds(inner, mid2) && l3.builds(mid2, out);
        let mid1 = choose|mid1: L1::Service| l1.builds(inner, mid1) && l2.builds(mid1, mid2);
        assert((Stack { inner: l2, outer: l3 }).builds(mid1, out));
    }
    if right.builds(inner, out) {
        let mid1 = choose|mid1: L1::Service|
            l1.builds(inner, mid1) && (Stack { inner: l2, outer: l3 }).builds(mid1, out);
        let mid2 = choose|mid2: L2::Service| l2.builds(mid1, mid2) && l3.builds(mid2, out);
        assert((Stack { inner: l1, outer: l2 }).builds(inner, mid2));
    }
}

} // verus!
