//! The layer: a node configuration, and the node that was spawned from it.

use crate::instance::EraTestNodeInstance;
use crate::provider::{EraTestNodeProvider, Provider};
use std::sync::Arc;
use url::Url;
use vstd::prelude::*;

verus! {

/// A node configuration that can start the node it describes.
pub trait Spawn {
    /// The process that runs a spawned node. Dropping it ends the node.
    type Process;

    /// Starts a node and returns once its endpoint is known.
    ///
    /// Each call starts a node of its own. A spawn that fails does not return: it panics, and
    /// the panic passes through the layer to the caller who asked for the node.
    fn spawn(&self) -> EraTestNodeInstance<Self::Process>;
}

/// A layer that wraps a node configuration.
///
/// The configuration is used to spawn an [`EraTestNodeInstance`] when the layer is applied, or
/// when the user asks for anything about the node (such as its endpoint). The node is spawned at
/// most once; from then on the layer hands out the same instance.
///
/// Every access takes the layer by `&mut`. Callers on several threads share a layer behind a
/// lock, so that their accesses take place one after the other, and what holds of every run of
/// accesses (see [`crate::run`]) holds of theirs.
///
/// The layer never retries by itself. It stores an instance only once `spawn` has returned one,
/// so a spawn that failed leaves the layer vacant, and the next access spawns again.
#[derive(Debug)]
pub struct EraTestNodeLayer<C: Spawn> {
    config: C,
    instance: Option<Arc<EraTestNodeInstance<C::Process>>>,
}

/// What an [`EraTestNodeLayer`] stands for: its configuration, and the instance it holds once
/// the node has been spawned.
pub ghost struct LayerView<C: Spawn> {
    pub config: C,
    pub instance: Option<EraTestNodeInstance<C::Process>>,
}

impl<C: Spawn> LayerView<C> {
    /// No node has been spawned yet: the next access spawns one.
    pub open spec fn vacant(self) -> bool {
        self.instance is None
    }

    /// One access to the layer `self` may leave the layer `next` and hand out `handle`.
    ///
    /// The configuration stays, and the layer holds what it handed out. A layer that held an
    /// instance hands out that one; a vacant layer hands out what `spawn` returned for its
    /// configuration.
    pub open spec fn access(self, next: Self, handle: EraTestNodeInstance<C::Process>) -> bool {
        &&& next.config == self.config
        &&& next.instance == Some(handle)
        &&& match self.instance {
            Some(held) => handle == held,
            None => call_ensures(C::spawn, (&self.config,), handle),
        }
    }
}

impl<C: Spawn> View for EraTestNodeLayer<C> {
    type V = LayerView<C>;

    closed spec fn view(&self) -> LayerView<C> {
        LayerView {
            config: self.config,
            instance: match self.instance {
                Some(handle) => Some(*handle),
                None => None,
            },
        }
    }
}

impl<C: Spawn> From<C> for EraTestNodeLayer<C> {
    /// Wraps a configuration. Nothing is spawned.
    fn from(config: C) -> (layer: Self)
        ensures
            layer@ == (LayerView { config, instance: None }),
    {
        EraTestNodeLayer { config, instance: None }
    }
}

impl<C: Spawn> vstd::std_specs::convert::FromSpecImpl<C> for EraTestNodeLayer<C> {
    open spec fn obeys_from_spec() -> bool {
        true
    }

    closed spec fn from_spec(config: C) -> Self {
        EraTestNodeLayer { config, instance: None }
    }
}

impl<C: Spawn + Default> Default for EraTestNodeLayer<C> {
    /// Wraps the default configuration. Nothing is spawned.
    fn default() -> (layer: Self)
        ensures
            call_ensures(C::default, (), layer@.config),
            layer@.vacant(),
    {
        EraTestNodeLayer { config: C::default(), instance: None }
    }
}

impl<C: Spawn + Clone> Clone for EraTestNodeLayer<C> {
    /// The copy has a clone of the configuration. Where the node runs already, the copy holds
    /// the same instance and will not spawn another.
    fn clone(&self) -> (copy: Self)
        ensures
            cloned(self@.config, copy@.config),
            copy@.instance == self@.instance,
    {
        let instance = match &self.instance {
            Some(handle) => Some(Arc::clone(handle)),
            None => None,
        };
        EraTestNodeLayer { config: self.config.clone(), instance }
    }
}

impl<C: Spawn> EraTestNodeLayer<C> {
    /// Starts the node, or gets a reference to the existing instance.
    ///
    /// This is the one place where `spawn` is called: once on a vacant layer, and not at all on a
    /// layer that holds an instance.
    pub fn instance(&mut self) -> (handle: &Arc<EraTestNodeInstance<C::Process>>)
        ensures
            old(self)@.access(final(self)@, **handle),
    {
        if self.instance.is_none() {
            let fresh = self.config.spawn();
            self.instance = Some(Arc::new(fresh));
        }
        self.instance.as_ref().unwrap()
    }

    /// Get the endpoint of the node, starting the node if it does not run yet.
    pub fn endpoint_url(&mut self) -> (url: Url)
        ensures
            final(self)@.instance matches Some(handle) && old(self)@.access(final(self)@, handle)
                && url == handle@.endpoint,
    {
        self.instance().endpoint_url()
    }

    /// Wraps the given provider in a provider that keeps this layer's node alive, starting the
    /// node if it does not run yet.
    pub fn layer<P: Provider>(&mut self, inner: P) -> (provider: EraTestNodeProvider<
        P,
        C::Process,
    >)
        ensures
            old(self)@.access(final(self)@, provider@.instance),
            provider@.inner == inner,
    {
        let instance = Arc::clone(self.instance());
        EraTestNodeProvider::new(inner, instance)
    }
}

} // verus!
