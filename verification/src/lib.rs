//! A lazily spawned test node, and a provider that keeps the node alive.
//!
//! [`EraTestNodeLayer`] holds the configuration of a node and starts the node on first use, at
//! most once. [`EraTestNodeProvider`] wraps a provider together with a shared handle to the
//! running node, so that the node lives for as long as any provider built on it.

pub mod instance;
pub mod layer;
pub mod provider;
pub mod run;

pub use instance::{EraTestNodeInstance, InstanceView};
pub use layer::{EraTestNodeLayer, LayerView, Spawn};
pub use provider::{EraTestNodeProvider, Provider, ProviderView};
