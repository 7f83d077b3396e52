use vstd::prelude::*;

use crate::device::{DeviceView, P2pDevice};

verus! {

/// Domain events broadcast to every subscriber of the topic. Values are
/// immutable and cheaply duplicable; a failure never becomes an event.
#[derive(Debug, Clone, PartialEq, Eq)]
pub enum P2pEvent {
    /// Local discovery request succeeded and the scan is active.
    DiscoveryStarted,
    /// Local request to stop discovery succeeded.
    DiscoveryStopped,
    /// Local request to form a group succeeded.
    GroupCreated,
    /// Local connect request succeeded for the given peer address.
    Connected(String),
    /// Placeholder event for peer detection (driven by an external signal
    /// producer that is an unfinished extension point).
    PeerFound(P2pDevice),
}

/// Mathematical image of an event: the same variant over character
/// sequences and the device image.
pub enum EventView {
    DiscoveryStarted,
    DiscoveryStopped,
    GroupCreated,
    Connected(Seq<char>),
    PeerFound(DeviceView),
}

impl View for P2pEvent {
    type V = EventView;

    open spec fn view(&self) -> EventView {
        match self {
            P2pEvent::DiscoveryStarted => EventView::DiscoveryStarted,
            P2pEvent::DiscoveryStopped => EventView::DiscoveryStopped,
            P2pEvent::GroupCreated => EventView::GroupCreated,
            P2pEvent::Connected(addr) => EventView::Connected(addr@),
            P2pEvent::PeerFound(device) => EventView::PeerFound(device@),
        }
    }
}

/// The image of a whole event log, oldest first.
pub open spec fn events_view(events: Seq<P2pEvent>) -> Seq<EventView> {
    events.map_values(|e: P2pEvent| e@)
}

impl P2pEvent {
    /// An owned copy with the same variant and payload, as handed to each
    /// broadcast subscriber.
    pub fn duplicate(&self) -> (r: Self)
        ensures
            r@ == self@,
    {
        match self {
            P2pEvent::DiscoveryStarted => P2pEvent::DiscoveryStarted,
            P2pEvent::DiscoveryStopped => P2pEvent::DiscoveryStopped,
            P2pEvent::GroupCreated => P2pEvent::GroupCreated,
            P2pEvent::Connected(addr) => P2pEvent::Connected(addr.clone()),
            P2pEvent::PeerFound(device) => P2pEvent::PeerFound(device.duplicate()),
        }
    }
}

} // verus!
