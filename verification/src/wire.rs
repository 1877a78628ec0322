//! Addresses, prefixes and the small wire-level helpers the layers share.

use vstd::prelude::*;

verus! {

/// An error from interpreting wire bytes, e.g. a frame too short to parse.
#[derive(Clone, Copy, Debug, PartialEq, Eq, Hash, Structural)]
pub enum WireError {
    /// The buffer is too short to hold the expected header.
    Truncated,
}

/// The high byte of a 16-bit value in network (big-endian) order.
pub open spec fn be_hi(x: u16) -> u8 {
    (x / 256) as u8
}

/// The low byte of a 16-bit value in network (big-endian) order.
pub open spec fn be_lo(x: u16) -> u8 {
    (x % 256) as u8
}

/// The 16-bit value read from two bytes in network order.
pub open spec fn be_u16(hi: u8, lo: u8) -> u16 {
    (hi * 256 + lo) as u16
}

/// A six-byte Ethernet (MAC) address.
#[derive(Clone, Copy, Debug, PartialEq, Eq, Hash)]
pub struct EthernetAddress(pub [u8; 6]);

impl View for EthernetAddress {
    type V = Seq<u8>;

    open spec fn view(&self) -> Seq<u8> {
        self.0@
    }
}

impl EthernetAddress {
    /// Whether this is the all-ones broadcast address.
    pub open spec fn spec_is_broadcast(self) -> bool {
        forall|i: int| 0 <= i < 6 ==> self.0@[i] == 0xffu8
    }

    /// Whether this is the all-ones broadcast address.
    pub fn is_broadcast(&self) -> (r: bool)
        ensures
            r == self.spec_is_broadcast(),
    {
        self.0[0] == 0xff && self.0[1] == 0xff && self.0[2] == 0xff
            && self.0[3] == 0xff && self.0[4] == 0xff && self.0[5] == 0xff
    }

    /// Byte-wise equality with another address.
    pub fn same_as(&self, other: &EthernetAddress) -> (r: bool)
        ensures
            r == (self@ == other@),
    {
        let r = self.0[0] == other.0[0] && self.0[1] == other.0[1]
            && self.0[2] == other.0[2] && self.0[3] == other.0[3]
            && self.0[4] == other.0[4] && self.0[5] == other.0[5];
        proof {
            if r {
                assert(self@ =~= other@);
            }
        }
        r
    }
}

/// The protocol carried by an Ethernet frame.
#[derive(Clone, Copy, Debug, PartialEq, Eq, Hash)]
pub enum EthernetProtocol {
    Ipv4,
    Ipv6,
    Unknown(u16),
}

/// The wire value of an Ethernet protocol field.
pub open spec fn spec_ethertype_value(p: EthernetProtocol) -> u16 {
    match p {
        EthernetProtocol::Ipv4 => 0x0800,
        EthernetProtocol::Ipv6 => 0x86DD,
        EthernetProtocol::Unknown(x) => x,
    }
}

impl EthernetProtocol {
    /// The wire value of this protocol field.
    pub fn value(&self) -> (r: u16)
        ensures
            r == spec_ethertype_value(*self),
    {
        match self {
            EthernetProtocol::Ipv4 => 0x0800,
            EthernetProtocol::Ipv6 => 0x86DD,
            EthernetProtocol::Unknown(x) => *x,
        }
    }
}

/// A four-byte IPv4 address.
#[derive(Clone, Copy, Debug, PartialEq, Eq, Hash)]
pub struct Ipv4Address(pub [u8; 4]);

/// A sixteen-byte IPv6 address.
#[derive(Clone, Copy, Debug, PartialEq, Eq, Hash)]
pub struct Ipv6Address(pub [u8; 16]);

/// An address of either internet protocol version.
#[derive(Clone, Copy, Debug, PartialEq, Eq, Hash)]
pub enum IpAddress {
    Ipv4(Ipv4Address),
    Ipv6(Ipv6Address),
}

impl Ipv4Address {
    /// Whether this is the limited broadcast address 255.255.255.255.
    pub open spec fn spec_is_broadcast(self) -> bool {
        forall|i: int| 0 <= i < 4 ==> self.0@[i] == 0xffu8
    }

    /// Whether this address lies in the multicast range 224.0.0.0/4.
    pub open spec fn spec_is_multicast(self) -> bool {
        0xe0 <= self.0@[0] < 0xf0
    }

    /// Whether this is the unspecified address 0.0.0.0.
    pub open spec fn spec_is_unspecified(self) -> bool {
        forall|i: int| 0 <= i < 4 ==> self.0@[i] == 0u8
    }
}

impl Ipv6Address {
    /// Whether this address lies in the multicast range ff00::/8.
    pub open spec fn spec_is_multicast(self) -> bool {
        self.0@[0] == 0xffu8
    }

    /// Whether this is the unspecified address ::.
    pub open spec fn spec_is_unspecified(self) -> bool {
        forall|i: int| 0 <= i < 16 ==> self.0@[i] == 0u8
    }
}

impl IpAddress {
    /// A v4 address from its four octets.
    pub fn v4(a: u8, b: u8, c: u8, d: u8) -> (r: IpAddress)
        ensures
            r == IpAddress::Ipv4(Ipv4Address([a, b, c, d])),
    {
        IpAddress::Ipv4(Ipv4Address([a, b, c, d]))
    }

    /// A v6 address from its eight 16-bit groups.
    pub fn v6(a: u16, b: u16, c: u16, d: u16, e: u16, f: u16, g: u16, h: u16) -> (r: IpAddress)
        ensures
            r == IpAddress::Ipv6(
                Ipv6Address(
                    [
                        be_hi(a),
                        be_lo(a),
                        be_hi(b),
                        be_lo(b),
                        be_hi(c),
                        be_lo(c),
                        be_hi(d),
                        be_lo(d),
                        be_hi(e),
                        be_lo(e),
                        be_hi(f),
                        be_lo(f),
                        be_hi(g),
                        be_lo(g),
                        be_hi(h),
                        be_lo(h),
                    ],
                ),
            ),
    {
        IpAddress::Ipv6(
            Ipv6Address(
                [
                    (a / 256) as u8,
                    (a % 256) as u8,
                    (b / 256) as u8,
                    (b % 256) as u8,
                    (c / 256) as u8,
                    (c % 256) as u8,
                    (d / 256) as u8,
                    (d % 256) as u8,
                    (e / 256) as u8,
                    (e % 256) as u8,
                    (f / 256) as u8,
                    (f % 256) as u8,
                    (g / 256) as u8,
                    (g % 256) as u8,
                    (h / 256) as u8,
                    (h % 256) as u8,
                ],
            ),
        )
    }

    /// Whether this address names a single host that may appear as a source
    /// or destination: neither multicast, unspecified nor v4 broadcast.
    pub open spec fn spec_is_unicast(self) -> bool {
        match self {
            IpAddress::Ipv4(a) => !a.spec_is_broadcast() && !a.spec_is_multicast()
                && !a.spec_is_unspecified(),
            IpAddress::Ipv6(a) => !a.spec_is_multicast() && !a.spec_is_unspecified(),
        }
    }

    /// Whether this address names a single host.
    pub fn is_unicast(&self) -> (r: bool)
        ensures
            r == self.spec_is_unicast(),
    {
        match self {
            IpAddress::Ipv4(a) => {
                let broadcast = a.0[0] == 0xff && a.0[1] == 0xff && a.0[2] == 0xff
                    && a.0[3] == 0xff;
                let multicast = 0xe0 <= a.0[0] && a.0[0] < 0xf0;
                let unspecified = a.0[0] == 0 && a.0[1] == 0 && a.0[2] == 0 && a.0[3] == 0;
                !broadcast && !multicast && !unspecified
            },
            IpAddress::Ipv6(a) => {
                let multicast = a.0[0] == 0xff;
                let mut all_zero = true;
                let mut i: usize = 0;
                while i < 16
                    invariant
                        i <= 16,
                        all_zero == (forall|k: int| 0 <= k < i ==> a.0@[k] == 0u8),
                    decreases 16 - i,
                {
                    if a.0[i] != 0 {
                        all_zero = false;
                    }
                    i = i + 1;
                }
                !multicast && !all_zero
            },
        }
    }

    /// The number of bits in an address of this version.
    pub open spec fn spec_width(self) -> int {
        match self {
            IpAddress::Ipv4(_) => 32,
            IpAddress::Ipv6(_) => 128,
        }
    }
}

impl core::convert::From<Ipv4Address> for IpAddress {
    fn from(a: Ipv4Address) -> (r: IpAddress) {
        IpAddress::Ipv4(a)
    }
}

impl vstd::std_specs::convert::FromSpecImpl<Ipv4Address> for IpAddress {
    open spec fn obeys_from_spec() -> bool {
        true
    }

    open spec fn from_spec(a: Ipv4Address) -> IpAddress {
        IpAddress::Ipv4(a)
    }
}

impl core::convert::From<Ipv6Address> for IpAddress {
    fn from(a: Ipv6Address) -> (r: IpAddress) {
        IpAddress::Ipv6(a)
    }
}

impl vstd::std_specs::convert::FromSpecImpl<Ipv6Address> for IpAddress {
    open spec fn obeys_from_spec() -> bool {
        true
    }

    open spec fn from_spec(a: Ipv6Address) -> IpAddress {
        IpAddress::Ipv6(a)
    }
}

/// Whether a byte string is a canonical prefix base of `n` bits: every
/// bit beyond the prefix length is zero, so a prefix names an address
/// range and nothing more.
pub open spec fn spec_canonical_bytes(b: Seq<u8>, n: int) -> bool {
    &&& (n % 8 != 0 ==> (b[n / 8] << ((n % 8) as u8)) == 0)
    &&& (forall|i: int| (n + 7) / 8 <= i < b.len() ==> b[i] == 0)
}

/// Whether the first `n` bits of two byte strings agree.
pub open spec fn spec_prefix_bits_match(a: Seq<u8>, b: Seq<u8>, n: int) -> bool {
    &&& (forall|i: int| 0 <= i < n / 8 ==> a[i] == b[i])
    &&& (n % 8 != 0 ==> (a[n / 8] >> ((8 - n % 8) as u8)) == (b[n / 8] >> ((8 - n % 8) as u8)))
}

/// Compare the first `n` bits of two equally long byte slices.
fn prefix_bits_match(a: &[u8], b: &[u8], n: usize) -> (r: bool)
    requires
        a@.len() == b@.len(),
        n <= 8 * a@.len(),
    ensures
        r == spec_prefix_bits_match(a@, b@, n as int),
{
    let full = n / 8;
    let rem = n % 8;
    let mut i: usize = 0;
    let mut same = true;
    while i < full
        invariant
            i <= full,
            full <= a@.len(),
            a@.len() == b@.len(),
            same == (forall|k: int| 0 <= k < i ==> a@[k] == b@[k]),
        decreases full - i,
    {
        if a[i] != b[i] {
            same = false;
        }
        i = i + 1;
    }
    if !same {
        return false;
    }
    if rem != 0 {
        let shift = (8 - rem) as u8;
        let ha = a[full] >> shift;
        let hb = b[full] >> shift;
        ha == hb
    } else {
        true
    }
}

/// An IPv4 address prefix: base address plus prefix length.
#[derive(Clone, Copy, Debug, PartialEq, Eq, Hash)]
pub struct Ipv4Cidr {
    address: Ipv4Address,
    prefix_len: u8,
}

/// An IPv6 address prefix: base address plus prefix length.
#[derive(Clone, Copy, Debug, PartialEq, Eq, Hash)]
pub struct Ipv6Cidr {
    address: Ipv6Address,
    prefix_len: u8,
}

/// An address prefix of either internet protocol version.
#[derive(Clone, Copy, Debug, PartialEq, Eq, Hash)]
pub enum IpCidr {
    Ipv4(Ipv4Cidr),
    Ipv6(Ipv6Cidr),
}

impl Ipv4Cidr {
    /// The prefix length is bounded by the address width and the base is
    /// canonical: bits beyond the prefix length are zero.
    #[verifier::type_invariant]
    pub open spec fn type_inv(self) -> bool {
        &&& 0 <= self.spec_prefix_len() <= 32
        &&& spec_canonical_bytes(self.spec_address().0@, self.spec_prefix_len())
    }

    /// The base address of the prefix.
    pub closed spec fn spec_address(self) -> Ipv4Address {
        self.address
    }

    /// The prefix length in bits, at most 32.
    pub closed spec fn spec_prefix_len(self) -> int {
        self.prefix_len as int
    }

    /// A prefix from a canonical base address and a length of at most 32
    /// bits.
    pub fn new(address: Ipv4Address, prefix_len: u8) -> (r: Ipv4Cidr)
        requires
            prefix_len <= 32,
            spec_canonical_bytes(address.0@, prefix_len as int),
        ensures
            r.spec_address() == address,
            r.spec_prefix_len() == prefix_len,
    {
        Ipv4Cidr { address, prefix_len }
    }
}

impl Ipv6Cidr {
    /// The prefix length is bounded by the address width and the base is
    /// canonical: bits beyond the prefix length are zero.
    #[verifier::type_invariant]
    pub open spec fn type_inv(self) -> bool {
        &&& 0 <= self.spec_prefix_len() <= 128
        &&& spec_canonical_bytes(self.spec_address().0@, self.spec_prefix_len())
    }

    /// The base address of the prefix.
    pub closed spec fn spec_address(self) -> Ipv6Address {
        self.address
    }

    /// The prefix length in bits, at most 128.
    pub closed spec fn spec_prefix_len(self) -> int {
        self.prefix_len as int
    }

    /// A prefix from a canonical base address and a length of at most 128
    /// bits.
    pub fn new(address: Ipv6Address, prefix_len: u8) -> (r: Ipv6Cidr)
        requires
            prefix_len <= 128,
            spec_canonical_bytes(address.0@, prefix_len as int),
        ensures
            r.spec_address() == address,
            r.spec_prefix_len() == prefix_len,
    {
        Ipv6Cidr { address, prefix_len }
    }
}

impl core::convert::From<Ipv4Cidr> for IpCidr {
    fn from(c: Ipv4Cidr) -> (r: IpCidr) {
        IpCidr::Ipv4(c)
    }
}

impl vstd::std_specs::convert::FromSpecImpl<Ipv4Cidr> for IpCidr {
    open spec fn obeys_from_spec() -> bool {
        true
    }

    open spec fn from_spec(c: Ipv4Cidr) -> IpCidr {
        IpCidr::Ipv4(c)
    }
}

impl core::convert::From<Ipv6Cidr> for IpCidr {
    fn from(c: Ipv6Cidr) -> (r: IpCidr) {
        IpCidr::Ipv6(c)
    }
}

impl vstd::std_specs::convert::FromSpecImpl<Ipv6Cidr> for IpCidr {
    open spec fn obeys_from_spec() -> bool {
        true
    }

    open spec fn from_spec(c: Ipv6Cidr) -> IpCidr {
        IpCidr::Ipv6(c)
    }
}

impl IpCidr {
    /// Whether the prefix contains the given address.  A prefix never
    /// contains an address of the other protocol version.
    pub open spec fn spec_contains(self, addr: IpAddress) -> bool {
        match (self, addr) {
            (IpCidr::Ipv4(c), IpAddress::Ipv4(a)) => spec_prefix_bits_match(
                c.spec_address().0@,
                a.0@,
                c.spec_prefix_len(),
            ),
            (IpCidr::Ipv6(c), IpAddress::Ipv6(a)) => spec_prefix_bits_match(
                c.spec_address().0@,
                a.0@,
                c.spec_prefix_len(),
            ),
            _ => false,
        }
    }

    /// The prefix length in bits.
    pub open spec fn spec_prefix_len(self) -> int {
        match self {
            IpCidr::Ipv4(c) => c.spec_prefix_len(),
            IpCidr::Ipv6(c) => c.spec_prefix_len(),
        }
    }

    /// The base address of the prefix.
    pub open spec fn spec_base(self) -> IpAddress {
        match self {
            IpCidr::Ipv4(c) => IpAddress::Ipv4(c.spec_address()),
            IpCidr::Ipv6(c) => IpAddress::Ipv6(c.spec_address()),
        }
    }

    /// Whether the prefix's base is canonical: bits beyond the prefix
    /// length are zero, so the prefix names exactly an address range.
    pub open spec fn spec_canonical(self) -> bool {
        match self {
            IpCidr::Ipv4(c) => 0 <= c.spec_prefix_len() <= 32 && spec_canonical_bytes(
                c.spec_address().0@,
                c.spec_prefix_len(),
            ),
            IpCidr::Ipv6(c) => 0 <= c.spec_prefix_len() <= 128 && spec_canonical_bytes(
                c.spec_address().0@,
                c.spec_prefix_len(),
            ),
        }
    }

    /// A prefix from a canonical base address and a length bounded by the
    /// address width.
    pub fn new(addr: IpAddress, prefix_len: u8) -> (r: IpCidr)
        requires
            prefix_len <= addr.spec_width(),
            (match addr {
                IpAddress::Ipv4(a) => spec_canonical_bytes(a.0@, prefix_len as int),
                IpAddress::Ipv6(a) => spec_canonical_bytes(a.0@, prefix_len as int),
            }),
        ensures
            r.spec_base() == addr,
            r.spec_prefix_len() == prefix_len,
            r.spec_canonical(),
    {
        match addr {
            IpAddress::Ipv4(a) => IpCidr::Ipv4(Ipv4Cidr::new(a, prefix_len)),
            IpAddress::Ipv6(a) => IpCidr::Ipv6(Ipv6Cidr::new(a, prefix_len)),
        }
    }

    /// Whether the prefix contains the given address.
    pub fn contains_addr(&self, addr: &IpAddress) -> (r: bool)
        ensures
            r == self.spec_contains(*addr),
    {
        match (self, addr) {
            (IpCidr::Ipv4(c), IpAddress::Ipv4(a)) => {
                proof {
                    use_type_invariant(c);
                }
                prefix_bits_match(&c.address.0, &a.0, c.prefix_len as usize)
            },
            (IpCidr::Ipv6(c), IpAddress::Ipv6(a)) => {
                proof {
                    use_type_invariant(c);
                }
                prefix_bits_match(&c.address.0, &a.0, c.prefix_len as usize)
            },
            _ => false,
        }
    }

    /// The prefix length in bits.
    pub fn prefix_len(&self) -> (r: u8)
        ensures
            r as int == self.spec_prefix_len(),
    {
        match self {
            IpCidr::Ipv4(c) => c.prefix_len,
            IpCidr::Ipv6(c) => c.prefix_len,
        }
    }

    /// Structural equality with another prefix.
    pub fn same_as(&self, other: &IpCidr) -> (r: bool)
        ensures
            r == (*self == *other),
    {
        match (self, other) {
            (IpCidr::Ipv4(a), IpCidr::Ipv4(b)) => {
                let addr_eq = a.address.0[0] == b.address.0[0] && a.address.0[1] == b.address.0[1]
                    && a.address.0[2] == b.address.0[2] && a.address.0[3] == b.address.0[3];
                proof {
                    if addr_eq {
                        assert(a.address.0@ =~= b.address.0@);
                        assert(a.address.0 =~= b.address.0);
                    }
                }
                addr_eq && a.prefix_len == b.prefix_len
            },
            (IpCidr::Ipv6(a), IpCidr::Ipv6(b)) => {
                let mut i: usize = 0;
                let mut addr_eq = true;
                while i < 16
                    invariant
                        i <= 16,
                        addr_eq == (forall|k: int| 0 <= k < i ==> a.address.0@[k] == b.address.0@[k]),
                    decreases 16 - i,
                {
                    if a.address.0[i] != b.address.0[i] {
                        addr_eq = false;
                    }
                    i = i + 1;
                }
                proof {
                    if addr_eq {
                        assert(a.address.0@ =~= b.address.0@);
                        assert(a.address.0 =~= b.address.0);
                    }
                }
                addr_eq && a.prefix_len == b.prefix_len
            },
            _ => false,
        }
    }
}

/// Two canonical prefixes of the same length that both contain an address
/// are the same prefix: their bases agree on the prefix bits because both
/// agree with the address, and on everything beyond because both are zero.
pub proof fn lemma_canonical_contains_unique(c1: IpCidr, c2: IpCidr, a: IpAddress)
    requires
        c1.spec_canonical(),
        c2.spec_canonical(),
        c1.spec_contains(a),
        c2.spec_contains(a),
        c1.spec_prefix_len() == c2.spec_prefix_len(),
    ensures
        c1 == c2,
{
    match (c1, c2, a) {
        (IpCidr::Ipv4(p1), IpCidr::Ipv4(p2), IpAddress::Ipv4(host)) => {
            lemma_canonical_bytes_unique(p1.address.0@, p2.address.0@, host.0@, p1.prefix_len as int);
            assert(p1.address.0 =~= p2.address.0);
        },
        (IpCidr::Ipv6(p1), IpCidr::Ipv6(p2), IpAddress::Ipv6(host)) => {
            lemma_canonical_bytes_unique(p1.address.0@, p2.address.0@, host.0@, p1.prefix_len as int);
            assert(p1.address.0 =~= p2.address.0);
        },
        _ => {},
    }
}

/// Two canonical byte strings whose first `n` bits both agree with the
/// same third string are equal.
proof fn lemma_canonical_bytes_unique(b1: Seq<u8>, b2: Seq<u8>, host: Seq<u8>, n: int)
    requires
        b1.len() == b2.len(),
        b2.len() == host.len(),
        0 <= n <= 8 * b1.len(),
        spec_canonical_bytes(b1, n),
        spec_canonical_bytes(b2, n),
        spec_prefix_bits_match(b1, host, n),
        spec_prefix_bits_match(b2, host, n),
    ensures
        b1 =~= b2,
{
    assert forall|i: int| 0 <= i < b1.len() implies b1[i] == b2[i] by {
        if i < n / 8 {
        } else if n % 8 != 0 && i == n / 8 {
            let x = b1[i];
            let y = b2[i];
            let k = (n % 8) as u8;
            let sh = (8 - (n % 8)) as u8;
            assert(x >> sh == y >> sh);
            assert(x == y) by (bit_vector)
                requires
                    0 < k < 8,
                    k + sh == 8,
                    x >> sh == y >> sh,
                    x << k == 0,
                    y << k == 0,
            ;
        } else {
            assert((n + 7) / 8 <= i);
        }
    }
}

} // verus!
