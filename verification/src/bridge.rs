use vstd::prelude::*;
use crate::classify::RawEvent;
use crate::rewrite::Direction;
use crate::rewrite::process_event;
use crate::rewrite::spec_output;

verus! {

/// The lifecycle of one directional route: closed until its connections
/// are opened, then open until teardown, with no intermediate states.
#[derive(Clone, Copy, Debug, PartialEq, Eq, Structural)]
pub enum RouteState {
    Closed,
    Open,
}

/// The bridge owns exactly two directional routes, set up together at
/// startup and torn down together on the termination signal.
#[derive(Clone, Copy, Debug, PartialEq, Eq, Structural)]
pub struct Bridge {
    pub a_to_b: RouteState,
    pub b_to_a: RouteState,
}

impl Bridge {
    /// A bridge starts with both routes closed.
    pub fn new() -> (b: Bridge)
        ensures
            b.a_to_b == RouteState::Closed,
            b.b_to_a == RouteState::Closed,
    {
        Bridge { a_to_b: RouteState::Closed, b_to_a: RouteState::Closed }
    }

    /// The state of the route carrying the given direction.
    pub open spec fn route(&self, dir: Direction) -> RouteState {
        match dir {
            Direction::AToB => self.a_to_b,
            Direction::BToA => self.b_to_a,
        }
    }
}

/// What the outside world reports to the bridge.
pub enum BridgeEvent {
    /// Both connection pairs were attempted at startup; each flag says
    /// whether the route's pair succeeded.
    Started { a_to_b_ready: bool, b_to_a_ready: bool },
    /// A raw event arrived on the given route.
    Inbound { dir: Direction, event: RawEvent },
    /// Sending the previous output failed on the given route.
    SendFailed { dir: Direction },
    /// The termination signal arrived.
    Shutdown,
}

/// What the surrounding program must do next.
#[derive(Debug, PartialEq, Eq)]
pub enum BridgeAction {
    /// Emit these bytes on the given route's outbound connection.
    Send { dir: Direction, bytes: Vec<u8> },
    /// Emit nothing.
    NoOutput,
    /// Abort startup: at least one route's connections failed, so the
    /// whole bridge fails to start.
    AbortStartup,
    /// Both routes are now closed; exit.
    Exit,
}

/// One step of the bridge's decision logic. Startup opens both routes
/// together or none; an inbound event on an open route is classified,
/// rewritten and dispatched; a send failure never closes a route; the
/// termination signal closes both routes together.
pub fn run(bridge: &mut Bridge, event: BridgeEvent) -> (action: BridgeAction)
    requires
        (event matches BridgeEvent::Inbound { dir, event: e } ==> e.wf()),
    ensures
        (match event {
            BridgeEvent::Started { a_to_b_ready, b_to_a_ready } => {
                if a_to_b_ready && b_to_a_ready {
                    &&& final(bridge).a_to_b == RouteState::Open
                    &&& final(bridge).b_to_a == RouteState::Open
                    &&& action == BridgeAction::NoOutput
                } else {
                    &&& final(bridge).a_to_b == RouteState::Closed
                    &&& final(bridge).b_to_a == RouteState::Closed
                    &&& action == BridgeAction::AbortStartup
                }
            },
            BridgeEvent::Inbound { dir, event: e } => {
                &&& *final(bridge) == *old(bridge)
                &&& (if old(bridge).route(dir) == RouteState::Open {
                    match spec_output(e.bytes@, dir) {
                        Some(v) => (action matches BridgeAction::Send { dir: d, bytes }
                            && d == dir && bytes@ == v),
                        None => action == BridgeAction::NoOutput,
                    }
                } else {
                    action == BridgeAction::NoOutput
                })
            },
            BridgeEvent::SendFailed { dir } => {
                &&& *final(bridge) == *old(bridge)
                &&& action == BridgeAction::NoOutput
            },
            BridgeEvent::Shutdown => {
                &&& final(bridge).a_to_b == RouteState::Closed
                &&& final(bridge).b_to_a == RouteState::Closed
                &&& action == BridgeAction::Exit
            },
        }),
{
    match event {
        BridgeEvent::Started { a_to_b_ready, b_to_a_ready } => {
            if a_to_b_ready && b_to_a_ready {
                bridge.a_to_b = RouteState::Open;
                bridge.b_to_a = RouteState::Open;
                BridgeAction::NoOutput
            } else {
                bridge.a_to_b = RouteState::Closed;
                bridge.b_to_a = RouteState::Closed;
                BridgeAction::AbortStartup
            }
        },
        BridgeEvent::Inbound { dir, event: e } => {
            let open = match dir {
                Direction::AToB => matches!(bridge.a_to_b, RouteState::Open),
                Direction::BToA => matches!(bridge.b_to_a, RouteState::Open),
            };
            if open {
                match process_event(&e, dir) {
                    Some(bytes) => BridgeAction::Send { dir, bytes },
                    None => BridgeAction::NoOutput,
                }
            } else {
                BridgeAction::NoOutput
            }
        },
        BridgeEvent::SendFailed { dir: _ } => BridgeAction::NoOutput,
        BridgeEvent::Shutdown => {
            bridge.a_to_b = RouteState::Closed;
            bridge.b_to_a = RouteState::Closed;
            BridgeAction::Exit
        },
    }
}

} // verus!
