use net_route::addr::{Family, IpAddress, WireAddress};
use net_route::route::{
    default_route, route_to_delete, route_to_wire, Route, RouteAttribute, RouteError,
    RouteMessage,
};

fn v4(a: u8, b: u8, c: u8, d: u8) -> IpAddress {
    IpAddress::V4(u32::from_be_bytes([a, b, c, d]))
}

fn full_route(table: u32) -> Route {
    Route {
        destination: v4(10, 0, 0, 0),
        prefix: 24,
        source: Some(v4(10, 1, 0, 0)),
        source_prefix: 16,
        source_hint: Some(v4(192, 168, 1, 20)),
        gateway: Some(v4(192, 168, 1, 1)),
        ifindex: Some(3),
        table,
        metric: Some(100),
    }
}

fn plain_route(destination: IpAddress, prefix: u8, gateway: Option<IpAddress>) -> Route {
    Route {
        destination,
        prefix,
        source: None,
        source_prefix: 0,
        source_hint: None,
        gateway,
        ifindex: None,
        table: 254,
        metric: None,
    }
}

fn message(family: Family, dst_len: u8, attributes: Vec<RouteAttribute>) -> RouteMessage {
    RouteMessage {
        address_family: family,
        destination_prefix_length: dst_len,
        source_prefix_length: 0,
        table: 254,
        attributes,
    }
}

#[test]
fn round_trip_with_table_in_header() {
    let route = full_route(254);
    let msg = route_to_wire(&route).unwrap();
    assert_eq!(msg.table, 254);
    assert_eq!(msg.address_family, Family::Inet);
    assert!(!msg.attributes.iter().any(|a| matches!(a, RouteAttribute::Table(_))));
    assert_eq!(Route::from_message(&msg), route);
}

#[test]
fn round_trip_with_table_as_attribute() {
    let route = full_route(1000);
    let msg = route_to_wire(&route).unwrap();
    assert_eq!(msg.table, 254);
    assert_eq!(msg.attributes[0], RouteAttribute::Table(1000));
    assert_eq!(Route::from_message(&msg), route);
}

#[test]
fn round_trip_v6() {
    let route = Route {
        destination: IpAddress::V6(0x2001_0db8 << 96),
        prefix: 32,
        source: Some(IpAddress::V6(0xfd00 << 112)),
        source_prefix: 8,
        source_hint: Some(IpAddress::V6(1)),
        gateway: Some(IpAddress::V6((0xfe80 << 112) | 1)),
        ifindex: Some(2),
        table: 100,
        metric: Some(1024),
    };
    let msg = route_to_wire(&route).unwrap();
    assert_eq!(msg.address_family, Family::Inet6);
    assert_eq!(msg.table, 100);
    assert_eq!(Route::from_message(&msg), route);
}

#[test]
fn add_message_attribute_order() {
    let msg = route_to_wire(&full_route(254)).unwrap();
    assert_eq!(
        msg.attributes,
        vec![
            RouteAttribute::Destination(WireAddress::Inet(0x0a00_0000)),
            RouteAttribute::Oif(3),
            RouteAttribute::Priority(100),
            RouteAttribute::Gateway(WireAddress::Inet(0xc0a8_0101)),
            RouteAttribute::PrefSource(WireAddress::Inet(0xc0a8_0114)),
            RouteAttribute::Source(WireAddress::Inet(0x0a01_0000)),
        ]
    );
    assert_eq!(msg.destination_prefix_length, 24);
    assert_eq!(msg.source_prefix_length, 16);
}

#[test]
fn add_rejects_gateway_of_other_version() {
    let mut route = full_route(254);
    route.gateway = Some(IpAddress::V6(1));
    route.source = Some(IpAddress::V6(2));
    assert_eq!(route_to_wire(&route).unwrap_err(), RouteError::GatewayVersion);
}

#[test]
fn add_rejects_source_hint_of_other_version() {
    let mut route = full_route(254);
    route.source_hint = Some(IpAddress::V6(1));
    assert_eq!(route_to_wire(&route).unwrap_err(), RouteError::SourceHintVersion);
}

#[test]
fn add_rejects_source_of_other_version() {
    let mut route = full_route(254);
    route.source = Some(IpAddress::V6(1));
    assert_eq!(route_to_wire(&route).unwrap_err(), RouteError::SourceVersion);
}

#[test]
fn missing_destination_reads_as_unspecified() {
    let m4 = message(Family::Inet, 0, vec![RouteAttribute::Gateway(WireAddress::Inet(7))]);
    let r4 = Route::from_message(&m4);
    assert_eq!(r4.destination, IpAddress::V4(0));
    assert_eq!(r4.gateway, Some(IpAddress::V4(7)));
    let m6 = message(Family::Inet6, 0, vec![]);
    assert_eq!(Route::from_message(&m6).destination, IpAddress::V6(0));
    let other = message(Family::Other(7), 0, vec![]);
    assert!(!other.is_decodable());
}

#[test]
fn later_attributes_replace_earlier_ones() {
    let m = RouteMessage {
        address_family: Family::Inet,
        destination_prefix_length: 8,
        source_prefix_length: 0,
        table: 5,
        attributes: vec![
            RouteAttribute::Table(300),
            RouteAttribute::Priority(1),
            RouteAttribute::Priority(2),
            RouteAttribute::Gateway(WireAddress::Inet(9)),
            RouteAttribute::Gateway(WireAddress::Other),
            RouteAttribute::Other,
        ],
    };
    let r = Route::from_message(&m);
    assert_eq!(r.table, 300);
    assert_eq!(r.metric, Some(2));
    assert_eq!(r.gateway, None);
}

#[test]
fn destination_prefix_takes_first_ip_destination() {
    let m = message(
        Family::Inet,
        16,
        vec![
            RouteAttribute::Destination(WireAddress::Other),
            RouteAttribute::Destination(WireAddress::Inet(0x0a0b_0000)),
            RouteAttribute::Destination(WireAddress::Inet(1)),
        ],
    );
    assert_eq!(m.destination_prefix(), Some((IpAddress::V4(0x0a0b_0000), 16)));
    let none = message(Family::Inet, 0, vec![RouteAttribute::Destination(WireAddress::Other)]);
    assert_eq!(none.destination_prefix(), None);
}

#[test]
fn default_route_is_the_entry_without_destination() {
    let specific = message(
        Family::Inet,
        24,
        vec![RouteAttribute::Destination(WireAddress::Inet(0x0a00_0000))],
    );
    let default = message(Family::Inet, 0, vec![RouteAttribute::Gateway(WireAddress::Inet(1))]);
    let listing = vec![specific.clone(), default, specific.clone()];
    let found = default_route(&listing).unwrap();
    assert_eq!(found.destination, IpAddress::V4(0));
    assert_eq!(found.gateway, Some(IpAddress::V4(1)));
    assert_eq!(default_route(&vec![specific.clone(), specific]), None);
    assert_eq!(default_route(&vec![]), None);
}

#[test]
fn default_route_by_attribute_not_by_address() {
    // An explicit 0.0.0.0/0 destination is not taken for the default route.
    let explicit = message(Family::Inet, 0, vec![RouteAttribute::Destination(WireAddress::Inet(0))]);
    assert_eq!(default_route(&vec![explicit]), None);
}

#[test]
fn delete_picks_one_of_two_routes_sharing_the_key() {
    let a = route_to_wire(&plain_route(v4(10, 0, 0, 0), 24, Some(v4(192, 168, 1, 1)))).unwrap();
    let b = route_to_wire(&plain_route(v4(10, 0, 0, 0), 24, Some(v4(192, 168, 1, 2)))).unwrap();
    let mut listing = vec![a, b];
    let wanted = plain_route(v4(10, 0, 0, 0), 24, None);
    let i = route_to_delete(&wanted, &listing).unwrap();
    listing.remove(i);
    assert_eq!(listing.len(), 1);
    let i = route_to_delete(&wanted, &listing).unwrap();
    listing.remove(i);
    assert_eq!(route_to_delete(&wanted, &listing), Err(RouteError::NotFound));
}

#[test]
fn delete_compares_metric_and_prefix() {
    let mut with_metric = plain_route(v4(10, 0, 0, 0), 24, None);
    with_metric.metric = Some(5);
    let listing = vec![
        route_to_wire(&plain_route(v4(10, 0, 0, 0), 25, None)).unwrap(),
        route_to_wire(&with_metric).unwrap(),
    ];
    assert_eq!(route_to_delete(&plain_route(v4(10, 0, 0, 0), 24, None), &listing), Err(RouteError::NotFound));
    assert_eq!(route_to_delete(&with_metric, &listing), Ok(1));
}

#[test]
fn add_list_delete_scenario() {
    let route = plain_route(v4(10, 0, 0, 0), 24, Some(v4(192, 168, 1, 1)));
    let other = route_to_wire(&plain_route(v4(172, 16, 0, 0), 12, None)).unwrap();
    let added = route_to_wire(&route).unwrap();
    let mut kernel = vec![other, added];
    let listed: Vec<Route> = kernel.iter().map(Route::from_message).collect();
    assert!(listed.iter().any(|r| r.destination == v4(10, 0, 0, 0)
        && r.prefix == 24
        && r.table == 254
        && r.gateway == Some(v4(192, 168, 1, 1))));
    let again = plain_route(v4(10, 0, 0, 0), 24, Some(v4(192, 168, 1, 1)));
    let i = route_to_delete(&again, &kernel).unwrap();
    assert_eq!(i, 1);
    kernel.remove(i);
    let listed: Vec<Route> = kernel.iter().map(Route::from_message).collect();
    assert!(!listed.iter().any(|r| r.destination == v4(10, 0, 0, 0) && r.prefix == 24));
    assert_eq!(route_to_delete(&again, &kernel), Err(RouteError::NotFound));
}
