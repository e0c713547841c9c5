//! A clonable factory wrapper used to box middleware behind one nominal
//! type.
//!
//! `BoxNewService` owns an inner factory and forwards service construction
//! to it; `layer` lifts the wrapping into a reusable `Layer`, so a factory
//! stack can be capped with a single named type. The wrapper stays generic
//! over the inner factory — the verifier reasons about concrete types, not
//! erased ones — and carries its duplicate capability through `Clone`.

use vstd::prelude::*;

verus! {

/// A factory that builds a service for a target.
pub trait NewService<T> {
    type Service;

    fn new_service(&mut self, target: T) -> Self::Service;
}

/// A transformation that wraps one factory into another.
pub trait Layer<N> {
    type Service;

    fn layer(&self, inner: N) -> Self::Service;
}

/// A factory wrapped behind one nominal type, with a clone capability.
#[derive(Clone)]
pub struct BoxNewService<N> {
    pub inner: N,
}

/// The layer that wraps any factory into a `BoxNewService`.
#[derive(Clone, Copy, PartialEq, Eq, Structural, Debug)]
pub struct BoxNewServiceLayer {}

impl<N> BoxNewService<N> {
    /// A layer that boxes each factory handed to it.
    pub fn layer() -> (r: BoxNewServiceLayer)
        ensures
            r == (BoxNewServiceLayer {  }),
    {
        BoxNewServiceLayer {  }
    }

    /// Wraps `inner`.
    pub fn new(inner: N) -> (r: Self)
        ensures
            r.inner == inner,
    {
        BoxNewService { inner }
    }
}

impl<N> Layer<N> for BoxNewServiceLayer {
    type Service = BoxNewService<N>;

    fn layer(&self, inner: N) -> BoxNewService<N> {
        BoxNewService::new(inner)
    }
}

impl<T, N: NewService<T>> NewService<T> for BoxNewService<N> {
    type Service = N::Service;

    fn new_service(&mut self, target: T) -> N::Service {
        self.inner.new_service(target)
    }
}

} // verus!
