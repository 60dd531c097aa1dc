//! What the providers have in common.

use vstd::prelude::*;
use crate::models::service::{service_views, Service, ServiceView};

verus! {

/// The operating system of the host.
#[derive(Debug, Clone, Copy, PartialEq, Eq, Structural)]
pub enum HostOs {
    Macos,
    Linux,
    Windows,
    Other,
}

/// Why a provider's listing could not be read as a whole.
#[derive(Debug, Clone, Copy, PartialEq, Eq, Structural)]
pub enum DiscoveryError {
    /// The listing is not the document that the provider expects.
    MalformedListing,
}

/// A source of service records.
pub trait ServiceDiscovery {
    /// The name of the provider.
    spec fn name() -> Seq<char>;

    fn provider_name(&self) -> (r: &'static str)
        ensures
            r@ == Self::name(),
    ;
}

/// What an optional record says.
pub open spec fn record_view(s: Option<Service>) -> Option<ServiceView> {
    match s {
        Some(r) => Some(r@),
        None => None,
    }
}

/// An empty list of records.
pub fn no_services() -> (r: Vec<Service>)
    ensures
        service_views(r@) == Seq::<ServiceView>::empty(),
        r.len() == 0,
{
    let r: Vec<Service> = Vec::new();
    assert(service_views(r@) == Seq::<ServiceView>::empty());
    r
}

} // verus!
