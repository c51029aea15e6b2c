//! Building the routes of the dashboard's API on a web framework's router.
use vstd::prelude::*;

verus! {

/// Registers the routes of one backend on a router.
pub trait RegisterRoute<B, T>: Sized {
    /// Registers the routes of `backend`.
    fn register(self, backend: B) -> Self;
}

/// Collects routes on a router of type `R`.
#[derive(Clone, Debug)]
pub struct ApiBuilder<R> {
    router: R,
    root: bool,
}

impl<R> ApiBuilder<R> {
    /// The router as built so far.
    pub closed spec fn router(&self) -> R {
        self.router
    }

    /// Whether the routes that span all queues are registered on the router.
    pub closed spec fn registers_root(&self) -> bool {
        self.root
    }

    /// A builder on `router` that registers the routes that span all queues.
    pub fn new(router: R) -> (builder: Self)
        ensures
            builder.router() == router,
            builder.registers_root(),
    {
        ApiBuilder { router, root: true }
    }

    /// A builder on `router` that registers the routes that span all queues
    /// only if `register_root` says so.
    pub fn new_with_router(router: R, register_root: bool) -> (builder: Self)
        ensures
            builder.router() == router,
            builder.registers_root() == register_root,
    {
        ApiBuilder { router, root: register_root }
    }

    /// Whether the routes that span all queues are registered on the router.
    pub fn root(&self) -> (root: bool)
        ensures
            root == self.registers_root(),
    {
        self.root
    }

    /// Ends the building and hands out the router.
    pub fn build(self) -> (router: R)
        ensures
            router == self.router(),
    {
        self.router
    }
}

} // verus!
