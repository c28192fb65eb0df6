use net_route::addr::{Family, IpAddress, WireAddress};
use net_route::events::{route_change, stream_step, InboundMessage, Received, RouteChange, StreamStep};
use net_route::route::{Route, RouteAttribute, RouteMessage};
use tokio::sync::broadcast;
use tokio::sync::broadcast::error::TryRecvError;

fn msg(dst: u32) -> RouteMessage {
    RouteMessage {
        address_family: Family::Inet,
        destination_prefix_length: 32,
        source_prefix_length: 0,
        table: 254,
        attributes: vec![RouteAttribute::Destination(WireAddress::Inet(dst))],
    }
}

fn route(dst: u32) -> Route {
    Route::from_message(&msg(dst))
}

#[test]
fn new_and_removed_routes_become_events() {
    assert_eq!(route_change(&InboundMessage::NewRoute(msg(1))), Some(RouteChange::Add(route(1))));
    assert_eq!(route_change(&InboundMessage::DelRoute(msg(2))), Some(RouteChange::Delete(route(2))));
    assert_eq!(route_change(&InboundMessage::Other), None);
    assert_eq!(route(2).destination, IpAddress::V4(2));
}

#[test]
fn unreadable_route_is_not_publishable() {
    let mut m = msg(1);
    m.attributes.clear();
    m.address_family = Family::Other(1);
    assert!(!InboundMessage::NewRoute(m).is_publishable());
    assert!(InboundMessage::Other.is_publishable());
}

#[test]
fn stream_steps() {
    let e = RouteChange::Add(route(3));
    assert_eq!(stream_step(Received::Event(e)), StreamStep::Yield(e));
    assert_eq!(stream_step(Received::Lagged(4)), StreamStep::Skip);
    assert_eq!(stream_step(Received::Closed), StreamStep::End);
}

fn receive(rx: &mut broadcast::Receiver<RouteChange>) -> Option<Received> {
    match rx.try_recv() {
        Ok(e) => Some(Received::Event(e)),
        Err(TryRecvError::Lagged(n)) => Some(Received::Lagged(n)),
        Err(TryRecvError::Closed) => Some(Received::Closed),
        Err(TryRecvError::Empty) => None,
    }
}

/// Drains what is buffered, as the event sequence would.
fn drain(rx: &mut broadcast::Receiver<RouteChange>) -> (Vec<RouteChange>, bool) {
    let mut seen = vec![];
    while let Some(r) = receive(rx) {
        match stream_step(r) {
            StreamStep::Yield(e) => seen.push(e),
            StreamStep::Skip => {}
            StreamStep::End => return (seen, true),
        }
    }
    (seen, false)
}

#[test]
fn slow_subscriber_sees_a_suffix() {
    let (tx, mut rx) = broadcast::channel::<RouteChange>(4);
    let events: Vec<RouteChange> = (0..10).map(|i| RouteChange::Add(route(i))).collect();
    for e in &events {
        assert!(tx.send(*e).is_ok());
    }
    let (seen, ended) = drain(&mut rx);
    assert!(!ended);
    assert_eq!(seen, events[6..].to_vec());
}

#[test]
fn stream_ends_after_teardown() {
    let (tx, mut rx) = broadcast::channel::<RouteChange>(4);
    tx.send(RouteChange::Delete(route(1))).unwrap();
    drop(tx);
    let (seen, ended) = drain(&mut rx);
    assert_eq!(seen, vec![RouteChange::Delete(route(1))]);
    assert!(ended);
}
