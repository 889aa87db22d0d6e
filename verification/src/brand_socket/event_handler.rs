//! A consumer that only follows events and connections.

use vstd::prelude::*;
use crate::brand_socket::models::BrandSocketEvent;

verus! {

/// The consumer of the feed that does not care about lost connections.
/// Implemented by the user of the client.
pub trait BrandSocketEventHandler {
    /// An event arrived.
    fn on_event(&self, event: BrandSocketEvent);

    /// A connection was established.
    fn on_connected(&self);
}

} // verus!
