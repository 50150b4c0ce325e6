//! A provider bound to the node it talks to.

use crate::instance::EraTestNodeInstance;
use std::sync::Arc;
use vstd::prelude::*;

verus! {

/// What every provider offers: the root provider, through which all its requests go.
///
/// Nothing is asked of `root` here. What holds of a wrapper is stated against the wrapped
/// provider's own `root`, whatever that one does.
pub trait Provider {
    /// The root provider.
    type Root;

    /// Returns the root provider.
    fn root(&self) -> &Self::Root;
}

/// A provider that wraps an [`EraTestNodeInstance`], preventing the instance from being dropped
/// while the provider is in use.
///
/// The instance is never read: it is held for its lifetime alone. Every request is answered by
/// the inner provider.
#[derive(Debug)]
pub struct EraTestNodeProvider<P, R> {
    inner: P,
    instance: Arc<EraTestNodeInstance<R>>,
}

/// What an [`EraTestNodeProvider`] stands for: the provider it forwards to and the node it keeps
/// alive.
pub ghost struct ProviderView<P, R> {
    pub inner: P,
    pub instance: EraTestNodeInstance<R>,
}

impl<P, R> View for EraTestNodeProvider<P, R> {
    type V = ProviderView<P, R>;

    closed spec fn view(&self) -> ProviderView<P, R> {
        ProviderView { inner: self.inner, instance: *self.instance }
    }
}

impl<P: Provider, R> EraTestNodeProvider<P, R> {
    /// Creates a new `EraTestNodeProvider` with the given inner provider and node instance.
    pub fn new(inner: P, instance: Arc<EraTestNodeInstance<R>>) -> (provider: Self)
        ensures
            provider@ == (ProviderView { inner, instance: *instance }),
    {
        EraTestNodeProvider { inner, instance }
    }
}

impl<P: Provider, R> Provider for EraTestNodeProvider<P, R> {
    type Root = P::Root;

    /// Forwards to the inner provider: the result is one that the inner provider's own `root`
    /// gives for the same call.
    fn root(&self) -> (root: &P::Root)
        ensures
            call_ensures(P::root, (&self@.inner,), root),
    {
        self.inner.root()
    }
}

impl<P: Clone, R> Clone for EraTestNodeProvider<P, R> {
    /// The copy forwards to a clone of the inner provider and holds the same node instance.
    fn clone(&self) -> (copy: Self)
        ensures
            cloned(self@.inner, copy@.inner),
            copy@.instance == self@.instance,
    {
        EraTestNodeProvider { inner: self.inner.clone(), instance: Arc::clone(&self.instance) }
    }
}

} // verus!
