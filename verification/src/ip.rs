//! The network layer packet protocol: header emission over the link-layer
//! region, with the capability chain to reach the device below.
//!
//! Only emission is modelled here: an outgoing packet is prepared by
//! resizing the buffer once — the single resize for the whole stack — and
//! writing the network header behind the link-layer header region, which
//! the link layer fills in its own pass.

use vstd::prelude::*;

use crate::Error;
use crate::eth;
use crate::nic::Info;
use crate::payload::Buffer;
use crate::wire::{be_hi, be_lo, IpAddress};

verus! {

/// How the source address of an outgoing packet is chosen.
#[derive(Clone, Copy, Debug)]
pub enum Source {
    /// Use exactly this address.
    Exact(IpAddress),
}

impl Source {
    /// The address this selection resolves to.
    pub open spec fn spec_address(self) -> IpAddress {
        match self {
            Source::Exact(a) => a,
        }
    }
}

/// The transport protocol carried behind the network header.
#[derive(Clone, Copy, Debug, PartialEq, Eq, Hash)]
pub enum Protocol {
    Udp,
}

/// The wire value of a protocol field.
pub open spec fn spec_protocol_value(p: Protocol) -> u8 {
    match p {
        Protocol::Udp => 17,
    }
}

/// The parsed representation of a network header.
#[derive(Clone, Copy, Debug)]
pub struct Repr {
    pub src_addr: IpAddress,
    pub dst_addr: IpAddress,
    pub protocol: Protocol,
    /// The number of payload bytes behind this header.
    pub payload_len: usize,
}

/// The length in bytes of a network header for an address of this version.
pub open spec fn spec_ip_header_len(a: IpAddress) -> int {
    match a {
        IpAddress::Ipv4(_) => 20,
        IpAddress::Ipv6(_) => 40,
    }
}

/// The bytes of an address, four or sixteen of them.
pub open spec fn spec_addr_bytes(a: IpAddress) -> Seq<u8> {
    match a {
        IpAddress::Ipv4(v) => v.0@,
        IpAddress::Ipv6(v) => v.0@,
    }
}

/// One byte of the emitted network header: version, protocol, the payload
/// length in network order, the source and destination addresses, then
/// zero padding up to the header length.
pub open spec fn spec_ip_header_byte(r: Repr, i: int) -> u8 {
    let w = spec_addr_bytes(r.dst_addr).len() as int;
    if i == 0 {
        match r.dst_addr {
            IpAddress::Ipv4(_) => 4,
            IpAddress::Ipv6(_) => 6,
        }
    } else if i == 1 {
        spec_protocol_value(r.protocol)
    } else if i == 2 {
        be_hi(r.payload_len as u16)
    } else if i == 3 {
        be_lo(r.payload_len as u16)
    } else if 4 <= i < 4 + w {
        spec_addr_bytes(r.src_addr)[i - 4]
    } else if 4 + w <= i < 4 + 2 * w {
        spec_addr_bytes(r.dst_addr)[i - 4 - w]
    } else {
        0
    }
}

/// The backing bytes after a network header is emitted for `r`: the header
/// region behind the link-layer region is overwritten, everything else is
/// untouched.
pub open spec fn spec_ip_prepared_mem(m: Seq<u8>, r: Repr) -> Seq<u8> {
    Seq::new(
        m.len(),
        |i: int|
            if 14 <= i < 14 + spec_ip_header_len(r.dst_addr) {
                spec_ip_header_byte(r, i - 14)
            } else {
                m[i]
            },
    )
}

/// The capability chain from the network layer down to the device: the
/// link-layer handle.
#[derive(Clone, Copy, Debug)]
pub struct Controller {
    pub(crate) handle: eth::Handle,
}

impl Controller {
    /// The link-layer capability below.
    pub closed spec fn spec_handle(self) -> eth::Handle {
        self.handle
    }

    /// Assemble the capability chain over a link-layer handle.
    pub fn new(handle: eth::Handle) -> (r: Controller)
        ensures
            r.spec_handle() == handle,
    {
        Controller { handle }
    }

    /// Whether a handler has requested transmission of this packet.
    pub open spec fn queued(self) -> bool {
        self.spec_handle().queued()
    }

    /// Whether queuing is possible at all.
    pub open spec fn can_queue(self) -> bool {
        self.spec_handle().can_queue()
    }

    /// The hardware info for this packet.
    pub fn info(&self) -> (r: Info)
        ensures
            r == self.spec_handle().nic_view().info_view(),
    {
        self.handle.info()
    }

    /// A copy of the capability with a shorter borrow.
    pub fn borrow_mut(&mut self) -> (r: Controller)
        ensures
            *final(self) == *old(self),
            r == *old(self),
    {
        Controller { handle: self.handle }
    }

    /// Unwrap the link-layer capability below.
    pub(crate) fn into_handle(self) -> (r: eth::Handle)
        ensures
            r == self.spec_handle(),
    {
        self.handle
    }

    /// Request transmission of the current packet.
    pub(crate) fn queue(&mut self) -> (r: Result<(), Error>)
        ensures
            final(self).spec_handle().src_view() == old(self).spec_handle().src_view(),
            final(self).spec_handle().nic_view().info_view() == old(
                self,
            ).spec_handle().nic_view().info_view(),
            old(self).can_queue() ==> r == Ok::<(), Error>(()) && final(self).queued(),
            !old(self).can_queue() ==> r == Err::<(), Error>(Error::Illegal) && *final(self)
                == *old(self),
    {
        self.handle.queue()
    }
}

/// A buffer whose network and transport regions carry an emitted network
/// packet described by a representation.
#[derive(Debug)]
pub struct IpPacket {
    buffer: Buffer,
    repr: Repr,
}

impl IpPacket {
    /// The underlying buffer.
    pub closed spec fn buf(self) -> Buffer {
        self.buffer
    }

    /// The emitted representation.
    pub closed spec fn repr_spec(self) -> Repr {
        self.repr
    }

    /// The offset of the payload region behind the network header.
    pub open spec fn spec_payload_off(self) -> int {
        14 + spec_ip_header_len(self.repr_spec().dst_addr)
    }

    /// A packet is well formed when its buffer length accounts for the
    /// link, network and payload regions, the length field fits its wire
    /// width, and the network header region holds exactly the bytes
    /// emitted from the representation.
    pub open spec fn wf(self) -> bool {
        &&& self.repr_spec().payload_len <= 0xffff
        &&& self.buf().size() == self.spec_payload_off() + self.repr_spec().payload_len
        &&& self.buf().size() <= self.buf().mem().len()
        &&& forall|i: int|
            0 <= i < spec_ip_header_len(self.repr_spec().dst_addr)
                ==> self.buf().mem()[14 + i] == spec_ip_header_byte(self.repr_spec(), i)
    }

    /// The emitted representation.
    pub fn repr(&self) -> (r: Repr)
        ensures
            r == self.repr_spec(),
    {
        self.repr
    }

    /// The number of payload bytes behind the network header.
    pub fn payload_len(&self) -> (r: usize)
        requires
            self.wf(),
        ensures
            r == self.repr_spec().payload_len,
    {
        self.repr.payload_len
    }

    /// Read one payload byte.
    pub fn read_payload_at(&self, off: usize) -> (r: u8)
        requires
            self.wf(),
            off < self.repr_spec().payload_len,
        ensures
            r == self.buf().mem()[self.spec_payload_off() + off],
    {
        proof {
            use_type_invariant(&self.buffer);
        }
        let hdr = match self.repr.dst_addr {
            IpAddress::Ipv4(_) => 20usize,
            IpAddress::Ipv6(_) => 40usize,
        };
        self.buffer.read_at(14 + hdr + off)
    }

    /// Overwrite payload bytes starting at `off`, leaving every header
    /// region untouched.
    pub fn write_payload_slice(&mut self, off: usize, src: &[u8])
        requires
            old(self).wf(),
            off + src@.len() <= old(self).repr_spec().payload_len,
        ensures
            final(self).wf(),
            final(self).repr_spec() == old(self).repr_spec(),
            final(self).buf().size() == old(self).buf().size(),
            final(self).buf().mem().len() == old(self).buf().mem().len(),
            forall|j: int|
                0 <= j < src@.len() ==> final(self).buf().mem()[old(self).spec_payload_off() + off
                    + j] == src@[j],
            forall|j: int|
                0 <= j < old(self).buf().mem().len() && !(old(self).spec_payload_off() + off <= j
                    < old(self).spec_payload_off() + off + src@.len())
                    ==> final(self).buf().mem()[j] == old(self).buf().mem()[j],
    {
        proof {
            use_type_invariant(&self.buffer);
        }
        let hdr = match self.repr.dst_addr {
            IpAddress::Ipv4(_) => 20usize,
            IpAddress::Ipv6(_) => 40usize,
        };
        self.buffer.write_slice_at(14 + hdr + off, src);
    }

    /// Unwrap the raw buffer, discarding the representation.  The bytes
    /// are untouched.
    pub fn into_raw(self) -> (r: Buffer)
        ensures
            r == self.buf(),
    {
        self.buffer
    }
}

/// An initializer for an outgoing network packet.
#[derive(Clone, Copy, Debug)]
pub struct Init {
    /// The source address selection.
    pub source: Source,
    /// The destination address.
    pub dst_addr: IpAddress,
    /// The transport protocol of the payload.
    pub protocol: Protocol,
    /// The length of the payload to reserve behind the header.
    pub payload: usize,
}

impl Init {
    /// The representation this initializer emits.
    pub open spec fn spec_repr(self) -> Repr {
        Repr {
            src_addr: self.source.spec_address(),
            dst_addr: self.dst_addr,
            protocol: self.protocol,
            payload_len: self.payload,
        }
    }

    /// Whether the addressing of this initializer is usable: a unicast
    /// destination and a source of the same protocol version.
    pub open spec fn spec_addressing_ok(self) -> bool {
        &&& self.dst_addr.spec_is_unicast()
        &&& self.source.spec_address().spec_width() == self.dst_addr.spec_width()
    }
}

/// A raw network-layer packet: an uninterpreted buffer plus the capability
/// chain, ready to be prepared.
#[derive(Debug)]
pub struct RawPacket {
    pub control: Controller,
    pub payload: Buffer,
}

/// An incoming network-layer packet.
#[derive(Debug)]
pub struct InPacket {
    pub control: Controller,
    pub packet: IpPacket,
}

/// An outgoing network-layer packet whose header has been emitted.
#[derive(Debug)]
pub struct OutPacket {
    control: Controller,
    packet: IpPacket,
}

impl RawPacket {
    /// Emit a network header for `init`, resizing the buffer once to hold
    /// the link region, this header and the payload.
    ///
    /// Fails with [`Error::Illegal`] when the addressing is unusable, and
    /// with [`Error::BadSize`] when the payload length overflows the wire
    /// length field or the buffer capacity; the packet is then handed back
    /// unchanged.
    pub fn prepare(self, init: Init) -> (r: Result<OutPacket, (Error, RawPacket)>)
        ensures
            match r {
                Ok(out) => {
                    &&& init.spec_addressing_ok()
                    &&& init.payload <= 0xffff
                    &&& 14 + spec_ip_header_len(init.dst_addr) + init.payload
                        <= self.payload.mem().len()
                    &&& out.spec_control() == self.control
                    &&& out.spec_packet().wf()
                    &&& out.spec_packet().repr_spec() == init.spec_repr()
                    &&& out.spec_packet().buf().mem() == spec_ip_prepared_mem(
                        self.payload.mem(),
                        init.spec_repr(),
                    )
                    &&& out.spec_packet().buf().size() == 14 + spec_ip_header_len(init.dst_addr)
                        + init.payload
                },
                Err((e, raw)) => {
                    &&& raw == self
                    &&& !init.spec_addressing_ok() ==> e == Error::Illegal
                    &&& init.spec_addressing_ok() ==> e == Error::BadSize && (init.payload > 0xffff
                        || 14 + spec_ip_header_len(init.dst_addr) + init.payload
                        > self.payload.mem().len())
                },
            },
    {
        let RawPacket { control, mut payload } = self;
        let Source::Exact(src_addr) = init.source;
        let addressing_ok = init.dst_addr.is_unicast() && (match (src_addr, init.dst_addr) {
            (IpAddress::Ipv4(_), IpAddress::Ipv4(_)) => true,
            (IpAddress::Ipv6(_), IpAddress::Ipv6(_)) => true,
            _ => false,
        });
        if !addressing_ok {
            return Err((Error::Illegal, RawPacket { control, payload }));
        }
        let hdr: usize = match init.dst_addr {
            IpAddress::Ipv4(_) => 20,
            IpAddress::Ipv6(_) => 40,
        };
        let cap = payload.capacity();
        if init.payload > 0xffff || cap < 14 + hdr || init.payload > cap - 14 - hdr {
            return Err((Error::BadSize, RawPacket { control, payload }));
        }
        let total = 14 + hdr + init.payload;
        match payload.resize(total) {
            Ok(()) => {},
            Err(_) => {
                return Err((Error::BadSize, RawPacket { control, payload }));
            },
        }
        let ghost m0 = payload.mem();
        let ghost repr = init.spec_repr();
        let version: u8 = match init.dst_addr {
            IpAddress::Ipv4(_) => 4,
            IpAddress::Ipv6(_) => 6,
        };
        payload.write_at(14, version);
        payload.write_at(15, 17);
        let len16 = init.payload as u16;
        payload.write_at(16, (len16 / 256) as u8);
        payload.write_at(17, (len16 % 256) as u8);
        let w: usize = match init.dst_addr {
            IpAddress::Ipv4(_) => 4,
            IpAddress::Ipv6(_) => 16,
        };
        match src_addr {
            IpAddress::Ipv4(a) => payload.write_slice_at(18, &a.0),
            IpAddress::Ipv6(a) => payload.write_slice_at(18, &a.0),
        }
        match init.dst_addr {
            IpAddress::Ipv4(a) => payload.write_slice_at(18 + w, &a.0),
            IpAddress::Ipv6(a) => payload.write_slice_at(18 + w, &a.0),
        }
        let mut z: usize = 18 + 2 * w;
        while z < 14 + hdr
            invariant
                18 + 2 * w <= z <= 14 + hdr,
                hdr == spec_ip_header_len(repr.dst_addr),
                w == spec_addr_bytes(repr.dst_addr).len(),
                w == spec_addr_bytes(repr.src_addr).len(),
                payload.size() == total,
                total == 14 + hdr + repr.payload_len,
                payload.mem().len() == m0.len(),
                forall|j: int| 0 <= j < 4 ==> payload.mem()[14 + j] == spec_ip_header_byte(repr, j),
                forall|j: int|
                    0 <= j < w ==> payload.mem()[18 + j] == spec_addr_bytes(repr.src_addr)[j],
                forall|j: int|
                    0 <= j < w ==> payload.mem()[18 + w + j] == spec_addr_bytes(repr.dst_addr)[j],
                forall|j: int| 18 + 2 * w <= j < z ==> payload.mem()[j] == 0,
                forall|j: int|
                    0 <= j < m0.len() && !(14 <= j < z) ==> payload.mem()[j] == m0[j],
            decreases 14 + hdr - z,
        {
            proof {
                use_type_invariant(&payload);
            }
            payload.write_at(z, 0);
            z = z + 1;
        }
        proof {
            assert forall|i: int| 0 <= i < hdr implies payload.mem()[14 + i]
                == spec_ip_header_byte(repr, i) by {
                if 4 <= i < 4 + w {
                    assert(payload.mem()[18 + (i - 4)] == spec_addr_bytes(repr.src_addr)[i - 4]);
                } else if 4 + w <= i < 4 + 2 * w {
                    assert(payload.mem()[18 + w + (i - 4 - w)] == spec_addr_bytes(
                        repr.dst_addr,
                    )[i - 4 - w]);
                }
            }
            assert(payload.mem() =~= spec_ip_prepared_mem(m0, repr));
            assert(m0 == self.payload.mem());
        }
        let repr_val = Repr {
            src_addr,
            dst_addr: init.dst_addr,
            protocol: init.protocol,
            payload_len: init.payload,
        };
        let packet = IpPacket { buffer: payload, repr: repr_val };
        Ok(OutPacket { control, packet })
    }
}

impl OutPacket {
    /// The capability chain of the packet.
    pub closed spec fn spec_control(self) -> Controller {
        self.control
    }

    /// The emitted packet inside.
    pub closed spec fn spec_packet(self) -> IpPacket {
        self.packet
    }

    /// Wrap an already-emitted packet without re-validating the
    /// invariants established during `prepare`.
    pub fn new_unchecked(control: Controller, packet: IpPacket) -> (r: OutPacket)
        requires
            packet.wf(),
        ensures
            r.spec_control() == control,
            r.spec_packet() == packet,
    {
        OutPacket { control, packet }
    }

    /// Treat the just-written packet as if it had been received, so that a
    /// handler can fill the payload in place.
    pub fn into_incoming(self) -> (r: InPacket)
        ensures
            r.control == self.spec_control(),
            r.packet == self.spec_packet(),
    {
        InPacket { control: self.control, packet: self.packet }
    }

    /// Queue the emitted packet for transmission.
    pub fn send(&mut self) -> (r: Result<(), Error>)
        ensures
            final(self).spec_packet() == old(self).spec_packet(),
            old(self).spec_control().can_queue() ==> r == Ok::<(), Error>(())
                && final(self).spec_control().queued(),
            !old(self).spec_control().can_queue() ==> r == Err::<(), Error>(Error::Illegal)
                && *final(self) == *old(self),
    {
        self.control.queue()
    }
}

} // verus!
