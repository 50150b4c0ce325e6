//! The handle to a running node.

use url::Url;
use vstd::prelude::*;

verus! {

/// `url::Url`, a parsed URL. Nothing of its contents is known here: a value is only carried from
/// the place that discovered the endpoint to the caller who asks for it.
#[verifier::external_type_specification]
#[verifier::external_body]
pub struct ExUrl(url::Url);

/// Calls `<url::Url as Clone>::clone`. `Url` is a record of owned plain fields with a derived
/// `Clone`, so the copy is the same URL as the original.
#[verifier::external_body]
fn duplicate(url: &Url) -> (copy: Url)
    ensures
        copy == *url,
{
    url.clone()
}

/// A running node: the process that runs it and the endpoint at which it answers.
///
/// The process is whatever the spawner hands over; dropping it is what ends the node. The
/// endpoint never changes once the instance exists.
#[derive(Debug)]
pub struct EraTestNodeInstance<P> {
    process: P,
    endpoint: Url,
}

/// What an [`EraTestNodeInstance`] stands for.
pub ghost struct InstanceView<P> {
    pub process: P,
    pub endpoint: Url,
}

impl<P> View for EraTestNodeInstance<P> {
    type V = InstanceView<P>;

    closed spec fn view(&self) -> InstanceView<P> {
        InstanceView { process: self.process, endpoint: self.endpoint }
    }
}

impl<P> EraTestNodeInstance<P> {
    /// Binds a started process to the endpoint that was discovered for it.
    pub fn new(process: P, endpoint: Url) -> (instance: Self)
        ensures
            instance@ == (InstanceView { process, endpoint }),
    {
        EraTestNodeInstance { process, endpoint }
    }

    /// The process behind the node.
    pub fn process(&self) -> (process: &P)
        ensures
            *process == self@.process,
    {
        &self.process
    }

    /// The endpoint of the node.
    pub fn endpoint_url(&self) -> (url: Url)
        ensures
            url == self@.endpoint,
    {
        duplicate(&self.endpoint)
    }
}

} // verus!
