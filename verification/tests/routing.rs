//! Routing table tests: filling the table, longest prefix match, expiry
//! and capacity exhaustion.

use ethox::route::{Route, Routes};
use ethox::time::Instant;
use ethox::wire::{IpAddress, IpCidr, Ipv4Address, Ipv6Address, Ipv6Cidr};

fn addr_1a() -> Ipv6Address {
    Ipv6Address([0xfe, 0x80, 0, 0, 0, 0, 0, 2, 0, 0, 0, 0, 0, 0, 0, 1])
}

fn addr_1b() -> Ipv6Address {
    Ipv6Address([0xfe, 0x80, 0, 0, 0, 0, 0, 2, 0, 0, 0, 0, 0, 0, 0, 13])
}

fn addr_1c() -> Ipv6Address {
    Ipv6Address([0xfe, 0x80, 0, 0, 0, 0, 0, 2, 0, 0, 0, 0, 0, 0, 0, 42])
}

fn cidr_1() -> Ipv6Cidr {
    Ipv6Cidr::new(Ipv6Address([0xfe, 0x80, 0, 0, 0, 0, 0, 2, 0, 0, 0, 0, 0, 0, 0, 0]), 64)
}

fn addr_2a() -> Ipv6Address {
    Ipv6Address([0xfe, 0x80, 0, 0, 0, 0, 51, 100, 0, 0, 0, 0, 0, 0, 0, 1])
}

fn addr_2b() -> Ipv6Address {
    Ipv6Address([0xfe, 0x80, 0, 0, 0, 0, 51, 100, 0, 0, 0, 0, 0, 0, 0, 21])
}

fn cidr_2() -> Ipv6Cidr {
    Ipv6Cidr::new(Ipv6Address([0xfe, 0x80, 0, 0, 0, 0, 51, 100, 0, 0, 0, 0, 0, 0, 0, 0]), 64)
}

fn storage(n: usize) -> Vec<Option<(IpCidr, Route)>> {
    let mut v: Vec<Option<(IpCidr, Route)>> = Vec::new();
    for _ in 0..n {
        v.push(None);
    }
    v
}

#[test]
fn test_fill() {
    let mut routes = Routes::new(storage(3));

    assert_eq!(routes.lookup(&addr_1a().into(), Instant::from_millis(0)), None);
    assert_eq!(routes.lookup(&addr_1b().into(), Instant::from_millis(0)), None);
    assert_eq!(routes.lookup(&addr_1c().into(), Instant::from_millis(0)), None);
    assert_eq!(routes.lookup(&addr_2a().into(), Instant::from_millis(0)), None);
    assert_eq!(routes.lookup(&addr_2b().into(), Instant::from_millis(0)), None);

    let route = Route {
        via_router: addr_1a().into(),
        preferred_until: None,
        expires_at: None,
    };
    routes.update(cidr_1().into(), route).unwrap();

    assert_eq!(
        routes.lookup(&addr_1a().into(), Instant::from_millis(0)),
        Some(addr_1a().into())
    );
    assert_eq!(
        routes.lookup(&addr_1b().into(), Instant::from_millis(0)),
        Some(addr_1a().into())
    );
    assert_eq!(
        routes.lookup(&addr_1c().into(), Instant::from_millis(0)),
        Some(addr_1a().into())
    );
    assert_eq!(routes.lookup(&addr_2a().into(), Instant::from_millis(0)), None);
    assert_eq!(routes.lookup(&addr_2b().into(), Instant::from_millis(0)), None);

    let route2 = Route {
        via_router: addr_2a().into(),
        preferred_until: Some(Instant::from_millis(10)),
        expires_at: Some(Instant::from_millis(10)),
    };
    routes.update(cidr_2().into(), route2).unwrap();

    assert_eq!(
        routes.lookup(&addr_1a().into(), Instant::from_millis(0)),
        Some(addr_1a().into())
    );
    assert_eq!(
        routes.lookup(&addr_1b().into(), Instant::from_millis(0)),
        Some(addr_1a().into())
    );
    assert_eq!(
        routes.lookup(&addr_1c().into(), Instant::from_millis(0)),
        Some(addr_1a().into())
    );
    assert_eq!(
        routes.lookup(&addr_2a().into(), Instant::from_millis(0)),
        Some(addr_2a().into())
    );
    assert_eq!(
        routes.lookup(&addr_2b().into(), Instant::from_millis(0)),
        Some(addr_2a().into())
    );

    assert_eq!(
        routes.lookup(&addr_1a().into(), Instant::from_millis(10)),
        Some(addr_1a().into())
    );
    assert_eq!(
        routes.lookup(&addr_1b().into(), Instant::from_millis(10)),
        Some(addr_1a().into())
    );
    assert_eq!(
        routes.lookup(&addr_1c().into(), Instant::from_millis(10)),
        Some(addr_1a().into())
    );
    assert_eq!(
        routes.lookup(&addr_2a().into(), Instant::from_millis(10)),
        Some(addr_2a().into())
    );
    assert_eq!(
        routes.lookup(&addr_2b().into(), Instant::from_millis(10)),
        Some(addr_2a().into())
    );
}

#[test]
fn route_expires_strictly_after_deadline() {
    let mut routes = Routes::new(storage(2));
    let route = Route {
        via_router: addr_2a().into(),
        preferred_until: Some(Instant::from_millis(10)),
        expires_at: Some(Instant::from_millis(10)),
    };
    routes.update(cidr_2().into(), route).unwrap();

    assert_eq!(
        routes.lookup(&addr_2b().into(), Instant::from_millis(10)),
        Some(addr_2a().into()),
        "a route matches up to and including its expiry instant"
    );
    assert_eq!(
        routes.lookup(&addr_2b().into(), Instant::from_millis(11)),
        None,
        "a route no longer matches strictly after its expiry instant"
    );
}

fn lpm_table(first_default: bool) -> Routes {
    let g1 = Ipv4Address([192, 0, 2, 1]);
    let g2 = Route {
        via_router: IpAddress::Ipv4(Ipv4Address([192, 0, 2, 2])),
        preferred_until: None,
        expires_at: None,
    };
    let ten_slash_8 = IpCidr::new(IpAddress::v4(10, 0, 0, 0), 8);
    let mut routes = Routes::new(storage(4));
    if first_default {
        routes.add_default_ipv4_route(g1).unwrap();
        routes.update(ten_slash_8, g2).unwrap();
    } else {
        routes.update(ten_slash_8, g2).unwrap();
        routes.add_default_ipv4_route(g1).unwrap();
    }
    routes
}

#[test]
fn longest_prefix_wins_either_insertion_order() {
    let g1 = IpAddress::Ipv4(Ipv4Address([192, 0, 2, 1]));
    let g2 = IpAddress::Ipv4(Ipv4Address([192, 0, 2, 2]));
    let now = Instant::from_millis(0);

    for first_default in [false, true] {
        let routes = lpm_table(first_default);
        assert_eq!(routes.lookup(&IpAddress::v4(10, 1, 2, 3), now), Some(g2));
        assert_eq!(routes.lookup(&IpAddress::v4(8, 8, 8, 8), now), Some(g1));
    }
}

#[test]
fn disjoint_prefixes_answer_independently() {
    let mut routes = Routes::new(storage(4));
    let r1 = Route {
        via_router: addr_1a().into(),
        preferred_until: None,
        expires_at: None,
    };
    let r2 = Route {
        via_router: addr_2a().into(),
        preferred_until: None,
        expires_at: None,
    };
    routes.update(cidr_2().into(), r2).unwrap();
    routes.update(cidr_1().into(), r1).unwrap();

    assert_eq!(
        routes.lookup(&addr_1b().into(), Instant::from_millis(0)),
        Some(addr_1a().into())
    );
    assert_eq!(
        routes.lookup(&addr_2b().into(), Instant::from_millis(0)),
        Some(addr_2a().into())
    );
    let outside = Ipv6Address([0xfe, 0x80, 0, 0, 0, 0, 0, 9, 0, 0, 0, 0, 0, 0, 0, 1]);
    assert_eq!(routes.lookup(&outside.into(), Instant::from_millis(0)), None);
}

#[test]
fn full_table_reports_exhaustion_but_still_replaces() {
    let mut routes = Routes::new(storage(1));
    routes.add_default_ipv4_route(Ipv4Address([192, 0, 2, 1])).unwrap();

    let other = IpCidr::new(IpAddress::v4(10, 0, 0, 0), 8);
    let route = Route {
        via_router: IpAddress::Ipv4(Ipv4Address([192, 0, 2, 2])),
        preferred_until: None,
        expires_at: None,
    };
    let refused = routes.update(other, route);
    assert!(matches!(refused, Err(ethox::Error::Exhausted)));

    let displaced = routes.add_default_ipv4_route(Ipv4Address([192, 0, 2, 3])).unwrap();
    assert!(displaced.is_some(), "replacing an identical prefix needs no free slot");
    assert_eq!(
        routes.lookup(&IpAddress::v4(8, 8, 8, 8), Instant::from_millis(0)),
        Some(IpAddress::Ipv4(Ipv4Address([192, 0, 2, 3])))
    );
}

#[test]
fn storage_is_not_cleared_on_creation() {
    let preloaded = Route {
        via_router: addr_1a().into(),
        preferred_until: None,
        expires_at: None,
    };
    let storage: Vec<Option<(IpCidr, Route)>> =
        vec![None, Some((cidr_1().into(), preloaded)), None];
    let routes = Routes::new(storage);

    assert_eq!(
        routes.lookup(&addr_1b().into(), Instant::from_millis(0)),
        Some(addr_1a().into()),
        "a route already present in the backing storage stays visible"
    );
    assert_eq!(routes.lookup(&addr_2a().into(), Instant::from_millis(0)), None);
}
