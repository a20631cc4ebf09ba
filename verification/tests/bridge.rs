use midi_bridge::bridge::{run, Bridge, BridgeAction, BridgeEvent, RouteState};
use midi_bridge::classify::RawEvent;
use midi_bridge::errors::{exn, BridgeError};
use midi_bridge::ports::resolve_port;
use midi_bridge::rewrite::Direction;

fn event(bytes: Vec<u8>) -> RawEvent {
    RawEvent { timestamp: 0, bytes }
}

#[test]
fn a_new_bridge_has_both_routes_closed() {
    let b = Bridge::new();
    assert_eq!(b.a_to_b, RouteState::Closed);
    assert_eq!(b.b_to_a, RouteState::Closed);
}

#[test]
fn startup_opens_both_routes_together() {
    let mut b = Bridge::new();
    let action = run(&mut b, BridgeEvent::Started { a_to_b_ready: true, b_to_a_ready: true });
    assert_eq!(action, BridgeAction::NoOutput);
    assert_eq!(b.a_to_b, RouteState::Open);
    assert_eq!(b.b_to_a, RouteState::Open);
}

#[test]
fn startup_fails_whole_bridge_when_one_route_fails() {
    let mut b = Bridge::new();
    let action = run(&mut b, BridgeEvent::Started { a_to_b_ready: true, b_to_a_ready: false });
    assert_eq!(action, BridgeAction::AbortStartup);
    assert_eq!(b.a_to_b, RouteState::Closed);
    assert_eq!(b.b_to_a, RouteState::Closed);
}

#[test]
fn inbound_event_on_open_route_is_dispatched() {
    let mut b = Bridge::new();
    run(&mut b, BridgeEvent::Started { a_to_b_ready: true, b_to_a_ready: true });
    let action = run(
        &mut b,
        BridgeEvent::Inbound { dir: Direction::AToB, event: event(vec![0x85, 40, 0]) },
    );
    assert_eq!(
        action,
        BridgeAction::Send { dir: Direction::AToB, bytes: vec![0x95, 40, 0] },
    );
}

#[test]
fn inbound_chatter_on_open_route_is_suppressed() {
    let mut b = Bridge::new();
    run(&mut b, BridgeEvent::Started { a_to_b_ready: true, b_to_a_ready: true });
    let action = run(
        &mut b,
        BridgeEvent::Inbound { dir: Direction::BToA, event: event(vec![0xBB, 7, 0]) },
    );
    assert_eq!(action, BridgeAction::NoOutput);
}

#[test]
fn inbound_event_on_closed_route_emits_nothing() {
    let mut b = Bridge::new();
    let action = run(
        &mut b,
        BridgeEvent::Inbound { dir: Direction::AToB, event: event(vec![0x85, 40, 0]) },
    );
    assert_eq!(action, BridgeAction::NoOutput);
}

#[test]
fn a_send_failure_does_not_close_the_route() {
    let mut b = Bridge::new();
    run(&mut b, BridgeEvent::Started { a_to_b_ready: true, b_to_a_ready: true });
    let action = run(&mut b, BridgeEvent::SendFailed { dir: Direction::AToB });
    assert_eq!(action, BridgeAction::NoOutput);
    assert_eq!(b.a_to_b, RouteState::Open);
    assert_eq!(b.b_to_a, RouteState::Open);

    let action = run(
        &mut b,
        BridgeEvent::Inbound { dir: Direction::AToB, event: event(vec![0x85, 41, 0]) },
    );
    assert_eq!(
        action,
        BridgeAction::Send { dir: Direction::AToB, bytes: vec![0x95, 41, 0] },
    );
}

#[test]
fn shutdown_closes_both_routes_together() {
    let mut b = Bridge::new();
    run(&mut b, BridgeEvent::Started { a_to_b_ready: true, b_to_a_ready: true });
    let action = run(&mut b, BridgeEvent::Shutdown);
    assert_eq!(action, BridgeAction::Exit);
    assert_eq!(b.a_to_b, RouteState::Closed);
    assert_eq!(b.b_to_a, RouteState::Closed);
}

#[test]
fn resolver_returns_the_first_matching_port() {
    let handles = vec!["A", "B"];
    let names = vec![String::from("name x"), String::from("name y")];
    let wanted = String::from("name y");
    let i = resolve_port(&names, &wanted).expect("the port should resolve");
    assert_eq!(i, 1);
    assert_eq!(handles[i], "B");
}

#[test]
fn resolver_is_stable_on_duplicate_names() {
    let names = vec![
        String::from("same"),
        String::from("same"),
        String::from("other"),
    ];
    let wanted = String::from("same");
    assert_eq!(resolve_port(&names, &wanted).ok(), Some(0));
}

#[test]
fn resolver_reports_an_absent_name() {
    let names = vec![String::from("name x"), String::from("name y")];
    let wanted = String::from("name z");
    match resolve_port(&names, &wanted) {
        Err(BridgeError::PortNotFound { name }) => assert_eq!(name, "name z"),
        other => panic!("expected the port to be missing, got {:?}", other),
    }
}

#[test]
fn resolver_reports_an_empty_port_list() {
    let names: Vec<String> = Vec::new();
    let wanted = String::from("anything");
    assert!(resolve_port(&names, &wanted).is_err());
}

#[test]
fn exn_wraps_a_plain_message() {
    match exn(String::from("cannot be opened")) {
        BridgeError::Other { message } => assert_eq!(message, "cannot be opened"),
        other => panic!("expected a plain-message error, got {:?}", other),
    }
}
