//! The longest-prefix-match routing table with time-bounded route validity.

use vstd::prelude::*;

use crate::Error;
use crate::time::Instant;
use crate::wire::{lemma_canonical_contains_unique, IpAddress, IpCidr, Ipv4Address, Ipv6Address};

verus! {

/// A prefix of addresses that should be routed via a router.
#[derive(Clone, Copy, Debug)]
pub struct Route {
    pub via_router: IpAddress,
    /// `None` means "forever".
    pub preferred_until: Option<Instant>,
    /// `None` means "forever".
    pub expires_at: Option<Instant>,
}

impl Route {
    /// A route via the `gateway`, with no expiry, suitable for 0.0.0.0/0.
    pub fn new_ipv4_gateway(gateway: Ipv4Address) -> (r: Route)
        ensures
            r.via_router == IpAddress::Ipv4(gateway),
            r.preferred_until == None::<Instant>,
            r.expires_at == None::<Instant>,
    {
        Route {
            via_router: IpAddress::Ipv4(gateway),
            preferred_until: None,
            expires_at: None,
        }
    }

    /// A route via the `gateway`, with no expiry, suitable for ::/0.
    pub fn new_ipv6_gateway(gateway: Ipv6Address) -> (r: Route)
        ensures
            r.via_router == IpAddress::Ipv6(gateway),
            r.preferred_until == None::<Instant>,
            r.expires_at == None::<Instant>,
    {
        Route {
            via_router: IpAddress::Ipv6(gateway),
            preferred_until: None,
            expires_at: None,
        }
    }
}

/// Whether a route may no longer be used at time `now`.
pub open spec fn spec_expired(route: Route, now: Instant) -> bool {
    match route.expires_at {
        Some(t) => now.val() > t.val(),
        None => false,
    }
}

/// Whether a table entry is a candidate for `addr` at time `now`: its
/// prefix contains the address and it has not expired.
pub open spec fn spec_route_matches(entry: (IpCidr, Route), addr: IpAddress, now: Instant) -> bool {
    entry.0.spec_contains(addr) && !spec_expired(entry.1, now)
}

/// What a lookup result means over a table: `None` exactly when no entry is
/// a candidate; otherwise the gateway of a candidate whose prefix is at
/// least as long as every other candidate's.
pub open spec fn lookup_post(
    t: Seq<(IpCidr, Route)>,
    addr: IpAddress,
    now: Instant,
    r: Option<IpAddress>,
) -> bool {
    match r {
        None => forall|i: int|
            0 <= i < t.len() ==> !#[trigger] spec_route_matches(t[i], addr, now),
        Some(gw) => exists|i: int|
            0 <= i < t.len() && #[trigger] spec_route_matches(t[i], addr, now)
                && t[i].1.via_router == gw
                && (forall|j: int|
                    0 <= j < t.len() && #[trigger] spec_route_matches(t[j], addr, now)
                        ==> t[j].0.spec_prefix_len() <= t[i].0.spec_prefix_len()),
    }
}

/// A well-formed table: one route per distinct prefix, every prefix a
/// canonical address range.  Every table this module builds satisfies it.
pub open spec fn spec_table_wf(t: Seq<(IpCidr, Route)>) -> bool {
    &&& forall|i: int, j: int| 0 <= i < j < t.len() ==> (#[trigger] t[i]).0 != (#[trigger] t[j]).0
    &&& forall|i: int| 0 <= i < t.len() ==> (#[trigger] t[i]).0.spec_canonical()
}

/// What an insertion does to a table: replace the entry with an identical
/// prefix and hand the displaced route back, append when the prefix is new
/// and there is room, or fail with resource exhaustion when there is none.
pub open spec fn update_post(
    pre: Routes,
    post: Routes,
    cidr: IpCidr,
    route: Route,
    r: Result<Option<Route>, Error>,
) -> bool {
    &&& post.spec_capacity() == pre.spec_capacity()
    &&& match r {
        Ok(Some(displaced)) => exists|i: int|
            0 <= i < pre.table().len() && (#[trigger] pre.table()[i]) == (cidr, displaced)
                && post.table() == pre.table().update(i, (cidr, route)),
        Ok(None) => (forall|j: int|
            0 <= j < pre.table().len() ==> (#[trigger] pre.table()[j]).0 != cidr)
            && pre.table().len() < pre.spec_capacity()
            && post.table() == pre.table().push((cidr, route)),
        Err(e) => e == Error::Exhausted
            && (forall|j: int|
                0 <= j < pre.table().len() ==> (#[trigger] pre.table()[j]).0 != cidr)
            && pre.table().len() >= pre.spec_capacity()
            && post.table() == pre.table(),
    }
}

/// The routes held in the filled slots of a backing storage, in slot
/// order.
pub open spec fn spec_stored_entries(storage: Seq<Option<(IpCidr, Route)>>) -> Seq<(IpCidr, Route)>
    decreases storage.len(),
{
    if storage.len() == 0 {
        Seq::empty()
    } else {
        spec_stored_entries(storage.drop_last()) + (match storage.last() {
            Some(entry) => seq![entry],
            None => Seq::empty(),
        })
    }
}

/// A routing table over fixed-capacity backing storage.
///
/// The table holds at most one route per distinct prefix.  Insertion into a
/// full table fails with [`Error::Exhausted`].
#[derive(Debug)]
pub struct Routes {
    entries: Vec<(IpCidr, Route)>,
    cap: usize,
}

impl Routes {
    #[verifier::type_invariant]
    spec fn type_inv(self) -> bool {
        &&& self.entries@.len() <= self.cap
        &&& forall|i: int, j: int|
            0 <= i < j < self.entries@.len() ==> (#[trigger] self.entries@[i]).0 != (
            #[trigger] self.entries@[j]).0
    }

    /// The entries of the table, one route per distinct prefix.
    pub closed spec fn table(self) -> Seq<(IpCidr, Route)> {
        self.entries@
    }

    /// The fixed number of entries the backing storage can hold.
    pub closed spec fn spec_capacity(self) -> nat {
        self.cap as nat
    }

    /// A routing table whose capacity is the length of the given backing
    /// storage.  The backing storage is **not** cleared upon creation:
    /// routes already present in its filled slots stay in the table.  As
    /// the table is a mapping, those slots must hold at most one route per
    /// distinct prefix.
    pub fn new(storage: Vec<Option<(IpCidr, Route)>>) -> (r: Routes)
        requires
            forall|i: int, j: int|
                0 <= i < j < storage@.len() && storage@[i] is Some && storage@[j] is Some
                    ==> (#[trigger] storage@[i])->Some_0.0 != (#[trigger] storage@[j])->Some_0.0,
        ensures
            r.table() == spec_stored_entries(storage@),
            r.spec_capacity() == storage@.len(),
    {
        let cap = storage.len();
        let mut entries: Vec<(IpCidr, Route)> = Vec::new();
        let mut i: usize = 0;
        while i < cap
            invariant
                i <= cap,
                cap == storage@.len(),
                entries@ == spec_stored_entries(storage@.take(i as int)),
                entries@.len() <= i,
                forall|p: int, q: int|
                    0 <= p < q < entries@.len() ==> (#[trigger] entries@[p]).0 != (
                    #[trigger] entries@[q]).0,
                forall|p: int, j: int|
                    0 <= p < entries@.len() && i <= j < storage@.len() && storage@[j] is Some
                        ==> (#[trigger] entries@[p]).0 != (#[trigger] storage@[j])->Some_0.0,
                forall|i2: int, j: int|
                    0 <= i2 < j < storage@.len() && storage@[i2] is Some && storage@[j] is Some
                        ==> (#[trigger] storage@[i2])->Some_0.0 != (
                        #[trigger] storage@[j])->Some_0.0,
            decreases cap - i,
        {
            proof {
                assert(storage@.take(i + 1).drop_last() =~= storage@.take(i as int));
            }
            match &storage[i] {
                Some(entry) => {
                    proof {
                        assert forall|p: int|
                            0 <= p < entries@.len() implies (#[trigger] entries@[p]).0
                            != storage@[i as int]->Some_0.0 by {}
                    }
                    entries.push(*entry);
                },
                None => {},
            }
            i = i + 1;
        }
        proof {
            assert(storage@.take(cap as int) =~= storage@);
        }
        Routes { entries, cap }
    }

    /// Insert or replace the route for a prefix.
    ///
    /// On success returns the route previously stored under an identical
    /// prefix, if any.  Fails with [`Error::Exhausted`] when the prefix is
    /// new and the backing storage is full.
    pub fn update(&mut self, cidr: IpCidr, route: Route) -> (r: Result<Option<Route>, Error>)
        ensures
            update_post(*old(self), *final(self), cidr, route, r),
    {
        proof {
            use_type_invariant(&*self);
        }
        let ghost pre = *self;
        let mut entries: Vec<(IpCidr, Route)> = Vec::new();
        core::mem::swap(&mut entries, &mut self.entries);
        let n = entries.len();
        let mut i: usize = 0;
        let mut found: Option<(usize, Route)> = None;
        while i < n
            invariant
                i <= n,
                n == entries@.len(),
                entries@ == pre.entries@,
                match found {
                    None => forall|j: int| 0 <= j < i ==> (#[trigger] entries@[j]).0 != cidr,
                    Some((at, displaced)) => at < i && entries@[at as int] == (cidr, displaced),
                },
            decreases n - i,
        {
            if found.is_none() && entries[i].0.same_as(&cidr) {
                found = Some((i, entries[i].1));
            }
            i = i + 1;
        }
        match found {
            Some((at, displaced)) => {
                entries[at] = (cidr, route);
                proof {
                    assert(entries@ =~= pre.entries@.update(at as int, (cidr, route)));
                    assert(pre.table()[at as int] == (cidr, displaced));
                }
                self.entries = entries;
                proof {
                    assert(self.table() == pre.table().update(at as int, (cidr, route)));
                }
                Ok(Some(displaced))
            },
            None => {
                proof {
                    assert(forall|j: int|
                        0 <= j < pre.table().len() ==> (#[trigger] pre.table()[j]).0 != cidr);
                }
                if entries.len() < self.cap {
                    entries.push((cidr, route));
                    self.entries = entries;
                    proof {
                        assert(self.table() =~= pre.table().push((cidr, route)));
                    }
                    Ok(None)
                } else {
                    self.entries = entries;
                    Err(Error::Exhausted)
                }
            },
        }
    }

    /// Add a default v4 gateway, the route for 0.0.0.0/0.
    ///
    /// On success, returns the previous default route, if any.
    pub fn add_default_ipv4_route(&mut self, gateway: Ipv4Address) -> (r: Result<
        Option<Route>,
        Error,
    >)
        ensures
            exists|c: IpCidr|
                (#[trigger] c.spec_base()) == IpAddress::Ipv4(Ipv4Address([0, 0, 0, 0]))
                    && c.spec_prefix_len() == 0
                    && update_post(
                    *old(self),
                    *final(self),
                    c,
                    (Route {
                        via_router: IpAddress::Ipv4(gateway),
                        preferred_until: None,
                        expires_at: None,
                    }),
                    r,
                ),
    {
        let addr = IpAddress::v4(0, 0, 0, 0);
        proof {
            assert forall|i: int| 0 <= i < 4 implies Ipv4Address([0u8, 0, 0, 0]).0@[i]
                == 0u8 by {}
        }
        let cidr = IpCidr::new(addr, 0);
        let route = Route::new_ipv4_gateway(gateway);
        self.update(cidr, route)
    }

    /// Add a default v6 gateway, the route for ::/0.
    ///
    /// On success, returns the previous default route, if any.
    pub fn add_default_ipv6_route(&mut self, gateway: Ipv6Address) -> (r: Result<
        Option<Route>,
        Error,
    >)
        ensures
            exists|c: IpCidr|
                (#[trigger] c.spec_base()) == IpAddress::Ipv6(
                    Ipv6Address([0, 0, 0, 0, 0, 0, 0, 0, 0, 0, 0, 0, 0, 0, 0, 0]),
                ) && c.spec_prefix_len() == 0
                    && update_post(
                    *old(self),
                    *final(self),
                    c,
                    (Route {
                        via_router: IpAddress::Ipv6(gateway),
                        preferred_until: None,
                        expires_at: None,
                    }),
                    r,
                ),
    {
        let addr = IpAddress::v6(0, 0, 0, 0, 0, 0, 0, 0);
        proof {
            assert forall|i: int|
                0 <= i < 16 implies Ipv6Address(
                [0u8, 0, 0, 0, 0, 0, 0, 0, 0, 0, 0, 0, 0, 0, 0, 0],
            ).0@[i] == 0u8 by {}
        }
        let cidr = IpCidr::new(addr, 0);
        let route = Route::new_ipv6_gateway(gateway);
        self.update(cidr, route)
    }

    /// Find the gateway for a single host address at time `now`.
    ///
    /// Scans the candidates whose prefix contains the address and have not
    /// expired, and returns the gateway of the one with the longest prefix.
    /// `preferred_until` is carried as data but does not gate selection;
    /// only `expires_at` does.
    pub fn lookup(&self, addr: &IpAddress, timestamp: Instant) -> (r: Option<IpAddress>)
        requires
            addr.spec_is_unicast(),
        ensures
            lookup_post(self.table(), *addr, timestamp, r),
            spec_table_wf(self.table()),
    {
        proof {
            use_type_invariant(&*self);
        }
        let n = self.entries.len();
        let mut best: Option<(u8, IpAddress)> = None;
        let mut i: usize = 0;
        while i < n
            invariant
                i <= n,
                n == self.table().len(),
                match best {
                    None => forall|k: int|
                        0 <= k < i ==> !#[trigger] spec_route_matches(
                            self.table()[k],
                            *addr,
                            timestamp,
                        ),
                    Some((best_len, gw)) => exists|k: int|
                        0 <= k < i && #[trigger] spec_route_matches(
                            self.table()[k],
                            *addr,
                            timestamp,
                        ) && self.table()[k].1.via_router == gw
                            && self.table()[k].0.spec_prefix_len() == best_len
                            && (forall|j: int|
                            0 <= j < i && #[trigger] spec_route_matches(
                                self.table()[j],
                                *addr,
                                timestamp,
                            ) ==> self.table()[j].0.spec_prefix_len() <= best_len),
                },
                forall|k: int| 0 <= k < i ==> (#[trigger] self.table()[k]).0.spec_canonical(),
            decreases n - i,
        {
            let entry = &self.entries[i];
            match &entry.0 {
                IpCidr::Ipv4(c) => {
                    proof {
                        use_type_invariant(c);
                        assert(self.table()[i as int].0 == IpCidr::Ipv4(*c));
                        assert(self.table()[i as int].0.spec_canonical());
                    }
                },
                IpCidr::Ipv6(c) => {
                    proof {
                        use_type_invariant(c);
                        assert(self.table()[i as int].0 == IpCidr::Ipv6(*c));
                        assert(self.table()[i as int].0.spec_canonical());
                    }
                },
            }
            let expired_now = match entry.1.expires_at {
                Some(t) => timestamp.is_after(&t),
                None => false,
            };
            let is_candidate = !expired_now && entry.0.contains_addr(addr);
            proof {
                assert(is_candidate == spec_route_matches(
                    self.table()[i as int],
                    *addr,
                    timestamp,
                ));
            }
            if is_candidate {
                let plen = entry.0.prefix_len();
                match best {
                    None => {
                        best = Some((plen, entry.1.via_router));
                    },
                    Some((best_len, _)) => {
                        if plen > best_len {
                            best = Some((plen, entry.1.via_router));
                        }
                    },
                }
            }
            i = i + 1;
        }
        match best {
            None => None,
            Some((_, gw)) => Some(gw),
        }
    }
}

/// Longest prefix match: when the table consists, in either order, of a
/// candidate entry whose prefix contains the address and an entry whose
/// prefix does not, a lookup result that satisfies [`lookup_post`] is the
/// gateway of the containing entry, independent of insertion order.
pub proof fn lemma_longest_prefix_two_disjoint(
    t: Seq<(IpCidr, Route)>,
    e1: (IpCidr, Route),
    e2: (IpCidr, Route),
    addr: IpAddress,
    now: Instant,
    r: Option<IpAddress>,
)
    requires
        t.len() == 2,
        (t[0] == e1 && t[1] == e2) || (t[0] == e2 && t[1] == e1),
        e1.0.spec_contains(addr),
        !spec_expired(e1.1, now),
        !e2.0.spec_contains(addr),
        lookup_post(t, addr, now, r),
    ensures
        r == Some(e1.1.via_router),
{
    assert(spec_route_matches(e1, addr, now));
    assert(!spec_route_matches(e2, addr, now));
    let i1: int = if t[0] == e1 && t[1] == e2 {
        0
    } else {
        1
    };
    assert(spec_route_matches(t[i1], addr, now));
    match r {
        None => {
            assert(false);
        },
        Some(gw) => {
            let i = choose|i: int|
                0 <= i < t.len() && #[trigger] spec_route_matches(t[i], addr, now)
                    && t[i].1.via_router == gw
                    && (forall|j: int|
                    0 <= j < t.len() && #[trigger] spec_route_matches(t[j], addr, now)
                        ==> t[j].0.spec_prefix_len() <= t[i].0.spec_prefix_len());
            assert(t[i] == e1);
        },
    }
}

/// A lookup over a table with no candidate for the address returns no
/// route.
pub proof fn lemma_lookup_no_candidate(
    t: Seq<(IpCidr, Route)>,
    addr: IpAddress,
    now: Instant,
    r: Option<IpAddress>,
)
    requires
        forall|i: int| 0 <= i < t.len() ==> !#[trigger] spec_route_matches(t[i], addr, now),
        lookup_post(t, addr, now, r),
    ensures
        r == None::<IpAddress>,
{
    match r {
        None => {
        },
        Some(gw) => {
            let i = choose|i: int|
                0 <= i < t.len() && #[trigger] spec_route_matches(t[i], addr, now)
                    && t[i].1.via_router == gw;
            assert(false);
        },
    }
}

/// Route expiry: over a table holding one route for the address with
/// `expires_at` set, a lookup result satisfying [`lookup_post`] is that
/// route's gateway while `now` has not passed the expiry, and no route
/// strictly after it.
pub proof fn lemma_route_expiry(
    t: Seq<(IpCidr, Route)>,
    e: (IpCidr, Route),
    t0: Instant,
    addr: IpAddress,
    now: Instant,
    r: Option<IpAddress>,
)
    requires
        t.len() == 1,
        t[0] == e,
        e.1.expires_at == Some(t0),
        e.0.spec_contains(addr),
        lookup_post(t, addr, now, r),
    ensures
        now.val() <= t0.val() ==> r == Some(e.1.via_router),
        now.val() > t0.val() ==> r == None::<IpAddress>,
{
    if now.val() <= t0.val() {
        assert(spec_route_matches(t[0], addr, now));
        match r {
            None => {
                assert(false);
            },
            Some(gw) => {
                let i = choose|i: int|
                    0 <= i < t.len() && #[trigger] spec_route_matches(t[i], addr, now)
                        && t[i].1.via_router == gw;
                assert(i == 0);
            },
        }
    } else {
        assert(spec_expired(e.1, now));
        match r {
            None => {
            },
            Some(gw) => {
                let i = choose|i: int|
                    0 <= i < t.len() && #[trigger] spec_route_matches(t[i], addr, now)
                        && t[i].1.via_router == gw;
                assert(false);
            },
        }
    }
}

/// Insertion-order independence: two well-formed tables that hold the
/// same set of entries give the same lookup result, whatever order the
/// routes were inserted in.  The result is a function of the mapping's
/// contents, the address and the time alone.
pub proof fn lemma_lookup_order_independent(
    t1: Seq<(IpCidr, Route)>,
    t2: Seq<(IpCidr, Route)>,
    addr: IpAddress,
    now: Instant,
    r1: Option<IpAddress>,
    r2: Option<IpAddress>,
)
    requires
        spec_table_wf(t1),
        spec_table_wf(t2),
        forall|e: (IpCidr, Route)| t1.contains(e) <==> t2.contains(e),
        lookup_post(t1, addr, now, r1),
        lookup_post(t2, addr, now, r2),
    ensures
        r1 == r2,
{
    match (r1, r2) {
        (None, None) => {},
        (None, Some(g2)) => {
            let i2 = choose|i: int|
                0 <= i < t2.len() && #[trigger] spec_route_matches(t2[i], addr, now)
                    && t2[i].1.via_router == g2
                    && (forall|j: int|
                    0 <= j < t2.len() && #[trigger] spec_route_matches(t2[j], addr, now)
                        ==> t2[j].0.spec_prefix_len() <= t2[i].0.spec_prefix_len());
            assert(t2.contains(t2[i2]));
            assert(t1.contains(t2[i2]));
            let j = choose|j: int| 0 <= j < t1.len() && t1[j] == t2[i2];
            assert(spec_route_matches(t1[j], addr, now));
            assert(false);
        },
        (Some(g1), None) => {
            let i1 = choose|i: int|
                0 <= i < t1.len() && #[trigger] spec_route_matches(t1[i], addr, now)
                    && t1[i].1.via_router == g1
                    && (forall|j: int|
                    0 <= j < t1.len() && #[trigger] spec_route_matches(t1[j], addr, now)
                        ==> t1[j].0.spec_prefix_len() <= t1[i].0.spec_prefix_len());
            assert(t1.contains(t1[i1]));
            assert(t2.contains(t1[i1]));
            let j = choose|j: int| 0 <= j < t2.len() && t2[j] == t1[i1];
            assert(spec_route_matches(t2[j], addr, now));
            assert(false);
        },
        (Some(g1), Some(g2)) => {
            let i1 = choose|i: int|
                0 <= i < t1.len() && #[trigger] spec_route_matches(t1[i], addr, now)
                    && t1[i].1.via_router == g1
                    && (forall|j: int|
                    0 <= j < t1.len() && #[trigger] spec_route_matches(t1[j], addr, now)
                        ==> t1[j].0.spec_prefix_len() <= t1[i].0.spec_prefix_len());
            let i2 = choose|i: int|
                0 <= i < t2.len() && #[trigger] spec_route_matches(t2[i], addr, now)
                    && t2[i].1.via_router == g2
                    && (forall|j: int|
                    0 <= j < t2.len() && #[trigger] spec_route_matches(t2[j], addr, now)
                        ==> t2[j].0.spec_prefix_len() <= t2[i].0.spec_prefix_len());
            let e1 = t1[i1];
            let e2 = t2[i2];
            assert(t2.contains(e2));
            assert(t1.contains(e2));
            let j2 = choose|j: int| 0 <= j < t1.len() && t1[j] == e2;
            assert(spec_route_matches(t1[j2], addr, now));
            assert(e2.0.spec_prefix_len() <= e1.0.spec_prefix_len());
            assert(t1.contains(e1));
            assert(t2.contains(e1));
            let j1 = choose|j: int| 0 <= j < t2.len() && t2[j] == e1;
            assert(spec_route_matches(t2[j1], addr, now));
            assert(e1.0.spec_prefix_len() <= e2.0.spec_prefix_len());
            assert(e1.0.spec_canonical());
            assert(e2.0.spec_canonical());
            lemma_canonical_contains_unique(e1.0, e2.0, addr);
            if i1 != j2 {
                assert((#[trigger] t1[i1]).0 != t1[j2].0);
            }
            assert(e1 == e2);
        },
    }
}

} // verus!
