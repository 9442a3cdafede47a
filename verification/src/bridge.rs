//! The decision core of a WebSocket bridging session.
//!
//! One bridged session relays frames between an inbound (client) socket and
//! an outbound (upstream) socket, full duplex, until either side closes,
//! errors, or sends a close frame. The surrounding task owns the sockets and
//! the scheduling; it feeds every observation into `bridge_step` and carries
//! out the returned action, stopping — and closing both sockets — as soon
//! as the session leaves the open state. Keeping the reaction to each event
//! here, as a pure step function, pins the relay semantics: frames cross
//! verbatim, in arrival order, and nothing outlives a close.
use vstd::prelude::*;

verus! {

/// One WebSocket frame, preserved verbatim by the relay.
#[derive(Debug, Clone, PartialEq, Eq)]
pub enum WsFrame {
    Text(String),
    Binary(Vec<u8>),
    Ping(Vec<u8>),
    Pong(Vec<u8>),
    Close,
}

/// One observation made by the bridging task.
#[derive(Debug, Clone, PartialEq, Eq)]
pub enum BridgeEvent {
    /// The inbound (client) socket delivered a frame.
    InboundFrame(WsFrame),
    /// The outbound (upstream) socket delivered a frame.
    OutboundFrame(WsFrame),
    /// The inbound socket disconnected or failed.
    InboundGone,
    /// The outbound socket disconnected or failed.
    OutboundGone,
}

/// What the bridging task must do next.
#[derive(Debug, Clone, PartialEq, Eq)]
pub enum BridgeAction {
    /// Send the frame to the outbound (upstream) socket.
    ForwardToOutbound(WsFrame),
    /// Send the frame to the inbound (client) socket.
    ForwardToInbound(WsFrame),
    /// Close both sockets without sending anything further.
    CloseBoth,
}

/// Whether an event ends the session: a disconnect on either side, or a
/// close frame from either side (which is still relayed before the session
/// ends).
pub open spec fn spec_terminates(event: BridgeEvent) -> bool {
    match event {
        BridgeEvent::InboundFrame(f) => f == WsFrame::Close,
        BridgeEvent::OutboundFrame(f) => f == WsFrame::Close,
        BridgeEvent::InboundGone => true,
        BridgeEvent::OutboundGone => true,
    }
}

/// The reaction to one event: the action to carry out, and whether the
/// session is still open afterwards.
pub open spec fn spec_bridge_step(event: BridgeEvent) -> (BridgeAction, bool) {
    match event {
        BridgeEvent::InboundFrame(f) => (
            BridgeAction::ForwardToOutbound(f),
            !spec_terminates(BridgeEvent::InboundFrame(f)),
        ),
        BridgeEvent::OutboundFrame(f) => (
            BridgeAction::ForwardToInbound(f),
            !spec_terminates(BridgeEvent::OutboundFrame(f)),
        ),
        BridgeEvent::InboundGone => (BridgeAction::CloseBoth, false),
        BridgeEvent::OutboundGone => (BridgeAction::CloseBoth, false),
    }
}

/// One bridged session's state: open until a terminating event is seen.
pub struct BridgeState {
    pub open: bool,
}

impl BridgeState {
    /// A freshly established session, both sockets connected.
    pub fn begin() -> (r: BridgeState)
        ensures
            r.open,
    {
        BridgeState { open: true }
    }

    /// Whether the session is still relaying.
    pub fn is_open(&self) -> (r: bool)
        ensures
            r == self.open,
    {
        self.open
    }

    /// React to one observation. Only an open session takes events; the
    /// returned action and the new state are exactly `spec_bridge_step`.
    pub fn step(&mut self, event: BridgeEvent) -> (a: BridgeAction)
        requires
            old(self).open,
        ensures
            a == spec_bridge_step(event).0,
            final(self).open == spec_bridge_step(event).1,
    {
        match event {
            BridgeEvent::InboundFrame(f) => {
                let is_close = matches!(f, WsFrame::Close);
                self.open = !is_close;
                BridgeAction::ForwardToOutbound(f)
            },
            BridgeEvent::OutboundFrame(f) => {
                let is_close = matches!(f, WsFrame::Close);
                self.open = !is_close;
                BridgeAction::ForwardToInbound(f)
            },
            BridgeEvent::InboundGone => {
                self.open = false;
                BridgeAction::CloseBoth
            },
            BridgeEvent::OutboundGone => {
                self.open = false;
                BridgeAction::CloseBoth
            },
        }
    }
}

/// The actions of a whole session over a sequence of observations:
/// events are processed in order, and processing stops with the first
/// terminating event.
pub open spec fn spec_relay_run(events: Seq<BridgeEvent>) -> Seq<BridgeAction>
    decreases events.len(),
{
    if events.len() == 0 {
        Seq::empty()
    } else {
        let step = spec_bridge_step(events.first());
        if step.1 {
            seq![step.0] + spec_relay_run(events.drop_first())
        } else {
            seq![step.0]
        }
    }
}

/// A session without a terminating event relays every frame verbatim and in
/// arrival order: the run has one action per event, and the i-th action is
/// exactly the reaction to the i-th event — a frame from the inbound side
/// crosses to the outbound side unchanged, and vice versa, each direction's
/// frames in their own send order.
pub proof fn lemma_bridge_relays_in_order(events: Seq<BridgeEvent>)
    requires
        forall|i: int| 0 <= i < events.len() ==> !spec_terminates(#[trigger] events[i]),
    ensures
        spec_relay_run(events).len() == events.len(),
        forall|i: int|
            0 <= i < events.len() ==> spec_relay_run(events)[i] == spec_bridge_step(
                #[trigger] events[i],
            ).0,
    decreases events.len(),
{
    if events.len() > 0 {
        assert(!spec_terminates(events[0]));
        assert(spec_bridge_step(events.first()).1);
        assert forall|i: int| 0 <= i < events.drop_first().len() implies !spec_terminates(
            #[trigger] events.drop_first()[i],
        ) by {
            assert(events.drop_first()[i] == events[i + 1]);
        }
        lemma_bridge_relays_in_order(events.drop_first());
        assert forall|i: int| 0 <= i < events.len() implies spec_relay_run(events)[i]
            == spec_bridge_step(#[trigger] events[i]).0 by {
            if i > 0 {
                assert(events.drop_first()[i - 1] == events[i]);
                assert(spec_relay_run(events)[i] == spec_relay_run(events.drop_first())[i - 1]);
            }
        }
    }
}

/// A session ends promptly once either side closes or disconnects: with the
/// first terminating event at position `i`, the run reacts to exactly the
/// events up to and including it — a close frame is still relayed — and
/// takes no action afterwards.
pub proof fn lemma_bridge_stops_after_terminal(events: Seq<BridgeEvent>, i: int)
    requires
        0 <= i < events.len(),
        forall|j: int| 0 <= j < i ==> !spec_terminates(#[trigger] events[j]),
        spec_terminates(events[i]),
    ensures
        spec_relay_run(events).len() == i + 1,
        forall|j: int|
            0 <= j <= i ==> spec_relay_run(events)[j] == spec_bridge_step(
                #[trigger] events[j],
            ).0,
    decreases events.len(),
{
    if i == 0 {
        assert(!spec_bridge_step(events.first()).1);
    } else {
        assert(!spec_terminates(events[0]));
        assert forall|j: int| 0 <= j < i - 1 implies !spec_terminates(
            #[trigger] events.drop_first()[j],
        ) by {
            assert(events.drop_first()[j] == events[j + 1]);
        }
        assert(events.drop_first()[i - 1] == events[i]);
        lemma_bridge_stops_after_terminal(events.drop_first(), i - 1);
        assert forall|j: int| 0 <= j <= i implies spec_relay_run(events)[j] == spec_bridge_step(
            #[trigger] events[j],
        ).0 by {
            if j > 0 {
                assert(events.drop_first()[j - 1] == events[j]);
                assert(spec_relay_run(events)[j] == spec_relay_run(events.drop_first())[j - 1]);
            }
        }
    }
}

} // verus!
