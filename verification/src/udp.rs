//! The transport layer packet protocol: the four-operation lifecycle over
//! the network layer below.
//!
//! A raw buffer is `prepare`d into an outgoing packet, an incoming packet
//! is `deinit`ialised back to a raw buffer without touching its bytes, and
//! `reinit` answers in place: when the new headers have the same size as
//! the old ones, no payload byte is shifted.

use vstd::prelude::*;

use crate::Error;
use crate::ip;
use crate::ip::{spec_ip_header_byte, spec_ip_header_len, IpPacket, Protocol, Source};
use crate::nic::{Checksum, Info};
use crate::payload::Buffer;
use crate::wire::{be_hi, be_lo, IpAddress};

verus! {

/// The parsed representation of a transport header.
#[derive(Clone, Copy, Debug)]
pub struct Repr {
    pub src_port: u16,
    pub dst_port: u16,
    /// Header plus payload length, as carried on the wire.
    pub length: u16,
}

/// One byte of the emitted transport header: both ports and the length in
/// network order, then a zeroed checksum.
pub open spec fn spec_udp_header_byte(r: Repr, i: int) -> u8 {
    if i == 0 {
        be_hi(r.src_port)
    } else if i == 1 {
        be_lo(r.src_port)
    } else if i == 2 {
        be_hi(r.dst_port)
    } else if i == 3 {
        be_lo(r.dst_port)
    } else if i == 4 {
        be_hi(r.length)
    } else if i == 5 {
        be_lo(r.length)
    } else {
        0
    }
}

/// The sum of the first `k` bytes of the transport region, skipping the
/// checksum field itself.
pub open spec fn spec_udp_sum(m: Seq<u8>, start: int, k: int) -> int
    decreases k,
{
    if k <= 0 {
        0
    } else {
        spec_udp_sum(m, start, k - 1) + (if k - 1 == 6 || k - 1 == 7 {
            0
        } else {
            m[start + (k - 1)] as int
        })
    }
}

/// The checksum of a transport region of `len` bytes starting at `start`:
/// the ones' complement of the byte sum, taken modulo the field width.
pub open spec fn spec_udp_checksum(m: Seq<u8>, start: int, len: int) -> u16 {
    (0xffff - spec_udp_sum(m, start, len) % 0x10000) as u16
}

/// A transport datagram carried inside an emitted network packet.
#[derive(Debug)]
pub struct Datagram {
    ip: IpPacket,
    repr: Repr,
}

impl Datagram {
    /// The network packet inside.
    pub closed spec fn ip_spec(self) -> IpPacket {
        self.ip
    }

    /// The transport header representation.
    pub closed spec fn repr_spec(self) -> Repr {
        self.repr
    }

    /// The offset of the transport payload behind all headers.
    pub open spec fn spec_payload_off(self) -> int {
        self.ip_spec().spec_payload_off() + 8
    }

    /// A datagram is well formed when the network packet below is, carries
    /// this transport protocol with a length that covers the header, and
    /// the emitted header bytes match the representation (the checksum
    /// field is free: it is filled at send time).
    pub open spec fn wf(self) -> bool {
        &&& self.ip_spec().wf()
        &&& self.ip_spec().repr_spec().protocol == Protocol::Udp
        &&& self.ip_spec().repr_spec().payload_len == self.repr_spec().length
        &&& self.repr_spec().length >= 8
        &&& forall|i: int|
            0 <= i < 6 ==> self.ip_spec().buf().mem()[self.ip_spec().spec_payload_off() + i]
                == spec_udp_header_byte(self.repr_spec(), i)
    }

    /// Wrap an emitted network packet whose payload already starts with
    /// the header bytes of `repr`, without re-validating them.
    pub fn new_unchecked(ip: IpPacket, repr: Repr) -> (r: Datagram)
        requires
            ip.wf(),
            ip.repr_spec().protocol == Protocol::Udp,
            ip.repr_spec().payload_len == repr.length,
            repr.length >= 8,
            forall|i: int|
                0 <= i < 6 ==> ip.buf().mem()[ip.spec_payload_off() + i] == spec_udp_header_byte(
                    repr,
                    i,
                ),
        ensures
            r.wf(),
            r.ip_spec() == ip,
            r.repr_spec() == repr,
    {
        Datagram { ip, repr }
    }

    /// The transport header representation.
    pub fn repr(&self) -> (r: Repr)
        ensures
            r == self.repr_spec(),
    {
        self.repr
    }

    /// The number of payload bytes behind the transport header.
    pub fn payload_len(&self) -> (r: usize)
        requires
            self.wf(),
        ensures
            r == self.repr_spec().length - 8,
    {
        self.ip.payload_len() - 8
    }

    /// Copy the payload bytes behind the transport header out into a
    /// fresh vector.
    pub fn payload_to_vec(&self) -> (r: Vec<u8>)
        requires
            self.wf(),
        ensures
            r@ == self.ip_spec().buf().mem().subrange(
                self.spec_payload_off(),
                self.spec_payload_off() + (self.repr_spec().length - 8),
            ),
    {
        let mut out: Vec<u8> = Vec::new();
        let len = self.ip.payload_len() - 8;
        let mut k: usize = 0;
        while k < len
            invariant
                k <= len,
                self.wf(),
                len == self.repr_spec().length - 8,
                out@ == self.ip_spec().buf().mem().subrange(
                    self.spec_payload_off(),
                    self.spec_payload_off() + k,
                ),
            decreases len - k,
        {
            let b = self.ip.read_payload_at(8 + k);
            out.push(b);
            proof {
                assert(out@ =~= self.ip_spec().buf().mem().subrange(
                    self.spec_payload_off(),
                    self.spec_payload_off() + k + 1,
                ));
            }
            k = k + 1;
        }
        out
    }

    /// Overwrite payload bytes behind the transport header.
    pub fn write_payload_slice(&mut self, off: usize, src: &[u8])
        requires
            old(self).wf(),
            off + src@.len() + 8 <= old(self).repr_spec().length,
        ensures
            final(self).wf(),
            final(self).repr_spec() == old(self).repr_spec(),
            final(self).ip_spec().repr_spec() == old(self).ip_spec().repr_spec(),
            final(self).ip_spec().buf().size() == old(self).ip_spec().buf().size(),
            final(self).ip_spec().buf().mem().len() == old(self).ip_spec().buf().mem().len(),
            forall|j: int|
                0 <= j < src@.len() ==> final(self).ip_spec().buf().mem()[old(
                    self,
                ).spec_payload_off() + off + j] == src@[j],
            forall|j: int|
                0 <= j < old(self).ip_spec().buf().mem().len() && !(old(self).spec_payload_off()
                    + off <= j < old(self).spec_payload_off() + off + src@.len())
                    ==> final(self).ip_spec().buf().mem()[j] == old(self).ip_spec().buf().mem()[j],
    {
        self.ip.write_payload_slice(8 + off, src);
    }

    /// Fill the checksum field of the emitted header.
    pub(crate) fn fill_checksum(&mut self, value: u16)
        requires
            old(self).wf(),
        ensures
            final(self).wf(),
            final(self).repr_spec() == old(self).repr_spec(),
            final(self).ip_spec().repr_spec() == old(self).ip_spec().repr_spec(),
            final(self).ip_spec().buf().mem() == old(self).ip_spec().buf().mem().update(
                old(self).ip_spec().spec_payload_off() + 6,
                be_hi(value),
            ).update(old(self).ip_spec().spec_payload_off() + 7, be_lo(value)),
            final(self).ip_spec().buf().size() == old(self).ip_spec().buf().size(),
    {
        let ghost pre = *self;
        let bytes: [u8; 2] = [(value / 256) as u8, (value % 256) as u8];
        self.ip.write_payload_slice(6, &bytes);
        proof {
            assert(self.ip_spec().buf().mem() =~= pre.ip_spec().buf().mem().update(
                pre.ip_spec().spec_payload_off() + 6,
                be_hi(value),
            ).update(pre.ip_spec().spec_payload_off() + 7, be_lo(value)));
        }
    }

    /// Borrow the network packet inside.
    pub fn ip_ref(&self) -> (r: &IpPacket)
        ensures
            *r == self.ip_spec(),
    {
        &self.ip
    }

    /// Unwrap the network packet, discarding the transport
    /// representation.
    pub fn into_inner(self) -> (r: IpPacket)
        ensures
            r == self.ip_spec(),
    {
        self.ip
    }
}

/// Compute the checksum over the transport region of an emitted packet.
fn compute_checksum(p: &IpPacket) -> (r: u16)
    requires
        p.wf(),
    ensures
        r == spec_udp_checksum(p.buf().mem(), p.spec_payload_off(), p.repr_spec().payload_len as int),
{
    let len = p.payload_len();
    let mut acc: u32 = 0;
    let mut k: usize = 0;
    while k < len
        invariant
            k <= len,
            p.wf(),
            len == p.repr_spec().payload_len,
            acc < 0x10000,
            acc == spec_udp_sum(p.buf().mem(), p.spec_payload_off(), k as int) % 0x10000,
        decreases len - k,
    {
        if !(k == 6 || k == 7) {
            let b = p.read_payload_at(k);
            acc = (acc + b as u32) % 0x10000;
        }
        k = k + 1;
    }
    (0xffffu32 - acc) as u16
}

/// The capability chain from the transport layer down to the device.
#[derive(Clone, Copy, Debug)]
pub struct Controller {
    pub(crate) inner: ip::Controller,
}

impl Controller {
    /// The network-layer capability below.
    pub closed spec fn spec_inner(self) -> ip::Controller {
        self.inner
    }

    /// Assemble the capability chain over the network layer below.
    pub fn new(inner: ip::Controller) -> (r: Controller)
        ensures
            r.spec_inner() == inner,
    {
        Controller { inner }
    }

    /// Whether a handler has requested transmission of this packet.
    pub open spec fn queued(self) -> bool {
        self.spec_inner().queued()
    }

    /// Whether queuing is possible at all.
    pub open spec fn can_queue(self) -> bool {
        self.spec_inner().can_queue()
    }

    /// Get the hardware info for that packet.
    pub fn info(&self) -> (r: Info)
        ensures
            r == self.spec_inner().spec_handle().nic_view().info_view(),
    {
        self.inner.info()
    }

    /// Proof to the borrow checker that the capability can be handed on
    /// with a shorter borrow.
    pub fn borrow_mut(&mut self) -> (r: Controller)
        ensures
            *final(self) == *old(self),
            r == *old(self),
    {
        Controller { inner: self.inner.borrow_mut() }
    }

    /// Request transmission of the current packet.
    pub(crate) fn queue(&mut self) -> (r: Result<(), Error>)
        ensures
            old(self).can_queue() ==> r == Ok::<(), Error>(()) && final(self).queued(),
            !old(self).can_queue() ==> r == Err::<(), Error>(Error::Illegal) && *final(self)
                == *old(self),
    {
        self.inner.queue()
    }
}

/// An initializer for an outgoing transport packet.
#[derive(Clone, Copy, Debug)]
pub struct Init {
    /// The sender address selection, passed directly to the layer below.
    pub source: Source,
    /// The source port on the local machine.
    pub src_port: u16,
    /// The destination address of the packet.
    pub dst_addr: IpAddress,
    /// The destination port of the packet.
    pub dst_port: u16,
    /// The length of the payload which is sent.
    pub payload: usize,
}

impl Init {
    /// The transport header representation this initializer emits.
    pub open spec fn spec_udp_repr(self) -> Repr {
        Repr { src_port: self.src_port, dst_port: self.dst_port, length: (self.payload + 8) as u16 }
    }

    /// The network header representation this initializer emits below.
    pub open spec fn spec_ip_repr(self) -> ip::Repr {
        ip::Repr {
            src_addr: self.source.spec_address(),
            dst_addr: self.dst_addr,
            protocol: Protocol::Udp,
            payload_len: (self.payload + 8) as usize,
        }
    }

    /// Whether the addressing of this initializer is usable.
    pub open spec fn spec_addressing_ok(self) -> bool {
        &&& self.dst_addr.spec_is_unicast()
        &&& self.source.spec_address().spec_width() == self.dst_addr.spec_width()
    }

    /// Emit the transport header at the front of the packet's payload
    /// region.
    fn initialize(&self, packet: &mut IpPacket) -> (r: Result<Repr, Error>)
        requires
            old(packet).wf(),
            old(packet).repr_spec().payload_len == self.payload + 8,
        ensures
            r == Ok::<Repr, Error>(self.spec_udp_repr()),
            final(packet).wf(),
            final(packet).repr_spec() == old(packet).repr_spec(),
            final(packet).buf().size() == old(packet).buf().size(),
            final(packet).buf().mem().len() == old(packet).buf().mem().len(),
            forall|i: int|
                0 <= i < 8 ==> final(packet).buf().mem()[old(packet).spec_payload_off() + i]
                    == spec_udp_header_byte(self.spec_udp_repr(), i),
            forall|j: int|
                0 <= j < old(packet).buf().mem().len() && !(old(packet).spec_payload_off() <= j
                    < old(packet).spec_payload_off() + 8) ==> final(packet).buf().mem()[j] == old(
                    packet,
                ).buf().mem()[j],
    {
        let length = (self.payload + 8) as u16;
        let header: [u8; 8] = [
            (self.src_port / 256) as u8,
            (self.src_port % 256) as u8,
            (self.dst_port / 256) as u8,
            (self.dst_port % 256) as u8,
            (length / 256) as u8,
            (length % 256) as u8,
            0,
            0,
        ];
        packet.write_payload_slice(0, &header);
        Ok(Repr { src_port: self.src_port, dst_port: self.dst_port, length })
    }
}

/// An incoming (or in-place answered) transport packet.
#[derive(Debug)]
pub struct Packet {
    /// A reference to the transport endpoint chain.
    pub control: Controller,
    /// The valid packet inside the buffer.
    pub packet: Datagram,
}

/// A buffer for an outgoing transport packet.
#[derive(Debug)]
pub struct RawPacket {
    /// A reference to the transport endpoint chain.
    pub control: Controller,
    /// The raw payload buffer.
    pub payload: Buffer,
}

/// The backing bytes after a transport packet is prepared from `init`:
/// the network and transport headers are overwritten behind the untouched
/// link region, everything else is untouched.
pub open spec fn spec_udp_prepared_mem(m: Seq<u8>, init: Init) -> Seq<u8> {
    let hdr = spec_ip_header_len(init.dst_addr);
    Seq::new(
        m.len(),
        |i: int|
            if 14 <= i < 14 + hdr {
                spec_ip_header_byte(init.spec_ip_repr(), i - 14)
            } else if 14 + hdr <= i < 14 + hdr + 8 {
                spec_udp_header_byte(init.spec_udp_repr(), i - 14 - hdr)
            } else {
                m[i]
            },
    )
}

/// Whether preparing `init` over a buffer of this capacity succeeds: the
/// addressing must be usable, the wire length field must fit, and the
/// three regions must fit the capacity.
pub open spec fn spec_prepare_ok(init: Init, capacity: int) -> bool {
    &&& init.spec_addressing_ok()
    &&& init.payload + 8 <= 0xffff
    &&& 14 + spec_ip_header_len(init.dst_addr) + 8 + init.payload <= capacity
}

impl RawPacket {
    /// Get the hardware info for that packet.
    pub fn info(&self) -> (r: Info)
        ensures
            r == self.control.spec_inner().spec_handle().nic_view().info_view(),
    {
        self.control.info()
    }

    /// Hand the buffer back to the device without sending anything.
    pub fn into_parts(self) -> (r: crate::nic::NicPacket)
        ensures
            r.handle == self.control.spec_inner().spec_handle().nic_view(),
            r.payload == self.payload,
    {
        crate::nic::NicPacket {
            handle: self.control.inner.into_handle().into_nic(),
            payload: self.payload,
        }
    }

    /// Initialize to a valid transport packet.
    ///
    /// The layer below reserves room for its own header plus the
    /// requested length in one buffer resize; this layer then emits its
    /// header in place.  Fails with [`Error::Illegal`] on unusable
    /// addressing and with [`Error::BadSize`] when the lengths do not
    /// fit, handing the packet back unchanged.
    pub fn prepare(self, init: Init) -> (r: Result<Packet, (Error, RawPacket)>)
        ensures
            match r {
                Ok(p) => {
                    &&& spec_prepare_ok(init, self.payload.mem().len() as int)
                    &&& p.control == self.control
                    &&& p.packet.wf()
                    &&& p.packet.repr_spec() == init.spec_udp_repr()
                    &&& p.packet.ip_spec().repr_spec() == init.spec_ip_repr()
                    &&& p.packet.ip_spec().buf().mem() == spec_udp_prepared_mem(
                        self.payload.mem(),
                        init,
                    )
                    &&& p.packet.ip_spec().buf().size() == 14 + spec_ip_header_len(init.dst_addr)
                        + 8 + init.payload
                },
                Err((e, raw)) => {
                    &&& raw == self
                    &&& init.payload > usize::MAX - 8 ==> e == Error::BadSize
                    &&& init.payload <= usize::MAX - 8 && !init.spec_addressing_ok() ==> e
                        == Error::Illegal
                    &&& init.payload <= usize::MAX - 8 && init.spec_addressing_ok() ==> e
                        == Error::BadSize && !spec_prepare_ok(
                        init,
                        self.payload.mem().len() as int,
                    )
                },
            },
    {
        let RawPacket { control, payload } = self;
        if init.payload > usize::MAX - 8 {
            return Err((Error::BadSize, RawPacket { control, payload }));
        }
        let Source::Exact(src_addr) = init.source;
        let addressing_ok = init.dst_addr.is_unicast() && (match (src_addr, init.dst_addr) {
            (IpAddress::Ipv4(_), IpAddress::Ipv4(_)) => true,
            (IpAddress::Ipv6(_), IpAddress::Ipv6(_)) => true,
            _ => false,
        });
        if !addressing_ok {
            return Err((Error::Illegal, RawPacket { control, payload }));
        }
        if init.payload > 0xffff - 8 {
            return Err((Error::BadSize, RawPacket { control, payload }));
        }
        let packet_len = init.payload + 8;
        let lower = ip::RawPacket { control: control.inner, payload };
        let lower_init = ip::Init {
            source: init.source,
            dst_addr: init.dst_addr,
            protocol: Protocol::Udp,
            payload: packet_len,
        };
        let prepared = match lower.prepare(lower_init) {
            Ok(out) => out,
            Err((e, raw)) => {
                return Err(
                    (e, RawPacket { control: Controller { inner: raw.control }, payload: raw.payload }),
                );
            },
        };
        let ip::InPacket { control: inner_control, mut packet } = prepared.into_incoming();
        let repr = match init.initialize(&mut packet) {
            Ok(repr) => repr,
            Err(e) => {
                return Err(
                    (
                        e,
                        RawPacket {
                            control: Controller { inner: inner_control },
                            payload: packet.into_raw(),
                        },
                    ),
                );
            },
        };
        let datagram = Datagram::new_unchecked(packet, repr);
        proof {
            assert(datagram.ip_spec().buf().mem() =~= spec_udp_prepared_mem(
                self.payload.mem(),
                init,
            ));
        }
        Ok(Packet { control: Controller { inner: inner_control }, packet: datagram })
    }
}

impl Packet {
    /// Get the hardware info for that packet.
    pub fn info(&self) -> (r: Info)
        ensures
            r == self.control.spec_inner().spec_handle().nic_view().info_view(),
    {
        self.control.info()
    }

    /// Hand the buffer back to the device.
    pub fn into_parts(self) -> (r: crate::nic::NicPacket)
        ensures
            r.handle == self.control.spec_inner().spec_handle().nic_view(),
            r.payload == self.packet.ip_spec().buf(),
    {
        crate::nic::NicPacket {
            handle: self.control.inner.into_handle().into_nic(),
            payload: self.packet.into_inner().into_raw(),
        }
    }

    /// Unwrap the raw packet buffer.
    ///
    /// This does not modify the contents of the buffer but it will drop
    /// the state derived from parsing the different packet layers.
    pub fn deinit(self) -> (r: RawPacket)
        ensures
            r.control == self.control,
            r.payload == self.packet.ip_spec().buf(),
    {
        RawPacket { control: self.control, payload: self.packet.into_inner().into_raw() }
    }

    /// Reinitialize the buffer with a packet generated by the library.
    ///
    /// Discards the parsed state and prepares the same buffer in place.
    /// When the new network header has the same length as the old one, no
    /// payload byte beyond the headers is shifted or rewritten.
    pub fn reinit(self, init: Init) -> (r: Result<Packet, (Error, RawPacket)>)
        ensures
            match r {
                Ok(p) => {
                    &&& spec_prepare_ok(init, self.packet.ip_spec().buf().mem().len() as int)
                    &&& p.control == self.control
                    &&& p.packet.wf()
                    &&& p.packet.repr_spec() == init.spec_udp_repr()
                    &&& p.packet.ip_spec().repr_spec() == init.spec_ip_repr()
                    &&& p.packet.ip_spec().buf().mem() == spec_udp_prepared_mem(
                        self.packet.ip_spec().buf().mem(),
                        init,
                    )
                    &&& spec_ip_header_len(init.dst_addr) == spec_ip_header_len(
                        self.packet.ip_spec().repr_spec().dst_addr,
                    ) ==> forall|i: int|
                        self.packet.spec_payload_off() <= i
                            < self.packet.ip_spec().buf().mem().len()
                            ==> p.packet.ip_spec().buf().mem()[i]
                            == self.packet.ip_spec().buf().mem()[i]
                },
                Err((e, raw)) => {
                    &&& raw.control == self.control
                    &&& raw.payload == self.packet.ip_spec().buf()
                    &&& init.payload > usize::MAX - 8 ==> e == Error::BadSize
                    &&& init.payload <= usize::MAX - 8 && !init.spec_addressing_ok() ==> e
                        == Error::Illegal
                    &&& init.payload <= usize::MAX - 8 && init.spec_addressing_ok() ==> e
                        == Error::BadSize && !spec_prepare_ok(
                        init,
                        self.packet.ip_spec().buf().mem().len() as int,
                    )
                },
            },
    {
        self.deinit().prepare(init)
    }

    /// Called last after having initialized the payload.
    ///
    /// Fills the checksum according to the device's negotiated capability
    /// and queues the packet.  Illegal while receiving: the checksum is
    /// written, but nothing is queued.
    pub fn send(&mut self) -> (r: Result<(), Error>)
        requires
            old(self).packet.wf(),
        ensures
            final(self).packet.wf(),
            final(self).packet.repr_spec() == old(self).packet.repr_spec(),
            final(self).packet.ip_spec().repr_spec() == old(self).packet.ip_spec().repr_spec(),
            ({
                let m = old(self).packet.ip_spec().buf().mem();
                let off = old(self).packet.ip_spec().spec_payload_off();
                let cs = spec_udp_checksum(
                    m,
                    off,
                    old(self).packet.ip_spec().repr_spec().payload_len as int,
                );
                let caps = old(
                    self,
                ).control.spec_inner().spec_handle().nic_view().info_view().personality;
                if caps.udp_tx_checksum == Checksum::Manual {
                    final(self).packet.ip_spec().buf().mem() == m.update(off + 6, be_hi(cs)).update(
                        off + 7,
                        be_lo(cs),
                    )
                } else {
                    final(self).packet.ip_spec().buf().mem() == m
                }
            }),
            old(self).control.can_queue() ==> r == Ok::<(), Error>(())
                && final(self).control.queued(),
            !old(self).control.can_queue() ==> r == Err::<(), Error>(Error::Illegal)
                && final(self).control == old(self).control,
    {
        let caps = self.control.info().personality;
        match caps.udp_tx_checksum {
            Checksum::Manual => {
                let checksum = compute_checksum(self.packet.ip_ref());
                self.packet.fill_checksum(checksum);
            },
            Checksum::Ignored => {},
        }
        self.control.queue()
    }
}

/// Round trip: emitting the same headers over a buffer twice reproduces
/// the identical bytes, so `prepare` followed by `deinit` — which hands
/// the bytes back untouched — and `prepare` again with the same
/// initializer yields a bit-for-bit identical packet.
pub proof fn lemma_prepare_idempotent(m: Seq<u8>, init: Init)
    ensures
        spec_udp_prepared_mem(spec_udp_prepared_mem(m, init), init) == spec_udp_prepared_mem(
            m,
            init,
        ),
{
    assert(spec_udp_prepared_mem(spec_udp_prepared_mem(m, init), init) =~= spec_udp_prepared_mem(
        m,
        init,
    ));
}

/// No shift: preparing over a buffer only writes the header regions;
/// every byte from the end of the headers on is untouched.
pub proof fn lemma_prepare_no_shift(m: Seq<u8>, init: Init)
    ensures
        forall|i: int|
            14 + spec_ip_header_len(init.dst_addr) + 8 <= i < m.len() ==> spec_udp_prepared_mem(
                m,
                init,
            )[i] == m[i],
{
}

} // verus!
