//! Urgency routing: which behaviour of a handler a packet reaches.

use vstd::prelude::*;
use vstd::string::StringSliceAdditionalSpecFns;

use crate::protocol::{Packet, PacketHeader, Urgency};

verus! {

/// The behaviour of a handler that a packet is routed to.
#[derive(Debug, Clone, Copy, PartialEq, Eq, Structural)]
pub enum Behavior {
    Critical,
    Elevated,
    Normal,
}

/// Behaviours that react to packets of each urgency.
///
/// A handler must say what to do with `Red` and `Green` packets. Handling
/// `Yellow` packets apart is optional: a handler that does so overrides
/// `on_urgent_yellow` and declares it through `distinct_elevated`, which
/// `has_elevated_behavior` reports; one that does not declares `false`, and
/// its `Yellow` packets go to `on_normal`, exactly as `Green` ones.
pub trait StrategyHandler {
    /// Handle a packet that needs immediate action.
    fn on_urgent_red(&self, packet: &Packet);

    /// Handle a routine packet.
    fn on_normal(&self, packet: &Packet);

    /// Handle a time-sensitive packet; by default as a routine one.
    fn on_urgent_yellow(&self, packet: &Packet) {
        self.on_normal(packet)
    }

    /// Whether this handler has a behaviour of its own for time-sensitive packets.
    spec fn distinct_elevated(&self) -> bool;

    /// Whether this handler treats time-sensitive packets apart.
    fn has_elevated_behavior(&self) -> (r: bool)
        ensures
            r == self.distinct_elevated(),
    ;
}

/// Where a packet of urgency `u` goes, for a handler that does
/// (`distinct_elevated`) or does not handle `Yellow` packets apart.
pub open spec fn route_spec(u: Urgency, distinct_elevated: bool) -> Behavior {
    match u {
        Urgency::Red => Behavior::Critical,
        Urgency::Yellow => if distinct_elevated {
            Behavior::Elevated
        } else {
            Behavior::Normal
        },
        Urgency::Green => Behavior::Normal,
    }
}

pub fn route(u: Urgency, distinct_elevated: bool) -> (b: Behavior)
    ensures
        b == route_spec(u, distinct_elevated),
{
    match u {
        Urgency::Red => Behavior::Critical,
        Urgency::Yellow => if distinct_elevated {
            Behavior::Elevated
        } else {
            Behavior::Normal
        },
        Urgency::Green => Behavior::Normal,
    }
}

/// For a handler without a behaviour of its own for `Yellow`, dispatching a
/// `Yellow` packet reaches the same behaviour as dispatching a `Green` one,
/// namely `on_normal`.
pub proof fn lemma_elevated_defaults_to_normal<H: StrategyHandler>(handler: &H, yellow: Packet, green: Packet)
    requires
        !handler.distinct_elevated(),
        yellow.header.urgency == Urgency::Yellow,
        green.header.urgency == Urgency::Green,
    ensures
        route_spec(yellow.header.urgency, handler.distinct_elevated()) == route_spec(
            green.header.urgency,
            handler.distinct_elevated(),
        ),
        route_spec(yellow.header.urgency, handler.distinct_elevated()) == Behavior::Normal,
{
}

/// Entry point for building and routing packets.
#[derive(Debug)]
pub struct ProtocolApi;

impl ProtocolApi {
    pub fn new() -> (r: Self) {
        ProtocolApi
    }

    /// A packet of the current version carrying `message`.
    pub fn make_packet(&self, message: &str, urgency: Urgency) -> (r: Packet)
        requires
            message.spec_bytes().len() <= u32::MAX,
        ensures
            r.wf(),
            r.header == PacketHeader::spec_new(urgency, message.spec_bytes().len() as u32),
            r.payload@ == message.spec_bytes(),
    {
        Packet::new(message, urgency)
    }

    /// Hand `packet`, unchanged, to the one behaviour of `handler` that its
    /// urgency selects, and say which one that was: `Critical` calls
    /// `on_urgent_red`, `Elevated` calls `on_urgent_yellow`, `Normal` calls
    /// `on_normal`.
    pub fn dispatch<H: StrategyHandler>(&self, packet: &Packet, handler: &H) -> (b: Behavior)
        ensures
            b == route_spec(packet.header.urgency, handler.distinct_elevated()),
    {
        let distinct = handler.has_elevated_behavior();
        let b = route(packet.header.urgency, distinct);
        match b {
            Behavior::Critical => handler.on_urgent_red(packet),
            Behavior::Elevated => handler.on_urgent_yellow(packet),
            Behavior::Normal => handler.on_normal(packet),
        }
        b
    }
}

} // verus!
