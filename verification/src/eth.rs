//! The link layer: endpoint identity, receive/send dispatch, and the
//! Ethernet packet states.
//!
//! An [`Endpoint`] owns the persistent link address.  Per device poll it is
//! borrowed into a transient [`Receiver`] or [`Sender`] that carries the
//! upper layer's handler; the borrow ends with the poll.  A received frame
//! is validated against the endpoint address and silently dropped when it
//! is addressed elsewhere: foreign traffic is normal, not a fault.

use vstd::prelude::*;

use crate::Error;
use crate::FnHandler;
use crate::nic;
use crate::nic::{Info, NicPacket};
use crate::payload::Buffer;
use crate::wire::{be_u16, spec_ethertype_value, EthernetAddress, EthernetProtocol};

verus! {

/// The parsed representation of an Ethernet frame header.
#[derive(Clone, Copy, Debug)]
pub struct Repr {
    pub dst_addr: EthernetAddress,
    pub src_addr: EthernetAddress,
    pub ethertype: EthernetProtocol,
}

/// The Ethernet protocol variant for a wire value.
pub open spec fn spec_ethertype_from(v: u16) -> EthernetProtocol {
    if v == 0x0800 {
        EthernetProtocol::Ipv4
    } else if v == 0x86DD {
        EthernetProtocol::Ipv6
    } else {
        EthernetProtocol::Unknown(v)
    }
}

/// The Ethernet protocol variant for a wire value.
pub fn ethertype_from(v: u16) -> (r: EthernetProtocol)
    ensures
        r == spec_ethertype_from(v),
{
    if v == 0x0800 {
        EthernetProtocol::Ipv4
    } else if v == 0x86DD {
        EthernetProtocol::Ipv6
    } else {
        EthernetProtocol::Unknown(v)
    }
}

/// The header a buffer parses to: destination, source and protocol read
/// from its first fourteen bytes, or nothing when it is too short.
pub open spec fn spec_frame_repr(b: Buffer) -> Option<Repr> {
    if b.size() >= 14 {
        let m = b.mem();
        Some(
            Repr {
                dst_addr: EthernetAddress([m[0], m[1], m[2], m[3], m[4], m[5]]),
                src_addr: EthernetAddress([m[6], m[7], m[8], m[9], m[10], m[11]]),
                ethertype: spec_ethertype_from(be_u16(m[12], m[13])),
            },
        )
    } else {
        None
    }
}

/// The fourteen header bytes that a frame prepared from `init` carries.
pub open spec fn spec_header_bytes(init: Init) -> Seq<u8> {
    init.dst_addr.0@ + init.src_addr.0@ + seq![
        crate::wire::be_hi(spec_ethertype_value(init.ethertype)),
        crate::wire::be_lo(spec_ethertype_value(init.ethertype)),
    ]
}

/// The backing bytes after a frame is prepared from `init`: the header is
/// overwritten, everything else is untouched.
pub open spec fn spec_prepared_mem(m: Seq<u8>, init: Init) -> Seq<u8> {
    Seq::new(
        m.len(),
        |i: int|
            if 0 <= i < 14 {
                spec_header_bytes(init)[i]
            } else {
                m[i]
            },
    )
}

/// A validated Ethernet frame: a buffer at least one header long, together
/// with the representation parsed from it.
#[derive(Debug)]
pub struct Frame {
    buffer: Buffer,
    repr: Repr,
}

impl Frame {
    /// A frame is well formed when its stored representation is exactly
    /// what its buffer parses to.
    pub open spec fn wf(self) -> bool {
        spec_frame_repr(self.buf()) == Some(self.repr_spec())
    }

    /// The underlying buffer.
    pub closed spec fn buf(self) -> Buffer {
        self.buffer
    }

    /// The parsed header.
    pub closed spec fn repr_spec(self) -> Repr {
        self.repr
    }

    /// Parse a buffer, handing it back unchanged when it is too short to
    /// hold a frame header.
    pub fn new_checked(buffer: Buffer) -> (r: Result<Frame, Buffer>)
        ensures
            match r {
                Ok(frame) => frame.wf() && frame.buf() == buffer && Some(frame.repr_spec())
                    == spec_frame_repr(buffer),
                Err(b) => b == buffer && spec_frame_repr(buffer) == None::<Repr>,
            },
    {
        if buffer.len() < 14 {
            return Err(buffer);
        }
        let dst_addr = EthernetAddress(
            [
                buffer.read_at(0),
                buffer.read_at(1),
                buffer.read_at(2),
                buffer.read_at(3),
                buffer.read_at(4),
                buffer.read_at(5),
            ],
        );
        let src_addr = EthernetAddress(
            [
                buffer.read_at(6),
                buffer.read_at(7),
                buffer.read_at(8),
                buffer.read_at(9),
                buffer.read_at(10),
                buffer.read_at(11),
            ],
        );
        let hi = buffer.read_at(12);
        let lo = buffer.read_at(13);
        let value = (hi as u16) * 256 + (lo as u16);
        let ethertype = ethertype_from(value);
        let repr = Repr { dst_addr, src_addr, ethertype };
        let frame = Frame { buffer, repr };
        proof {
            let m = buffer.mem();
            assert(dst_addr.0@ =~= Seq::new(6, |i: int| m[i]));
            assert(dst_addr == (spec_frame_repr(buffer)->Some_0).dst_addr);
            assert(src_addr == (spec_frame_repr(buffer)->Some_0).src_addr);
        }
        Ok(frame)
    }

    /// The parsed header of the frame.
    pub fn repr(&self) -> (r: Repr)
        ensures
            r == self.repr_spec(),
    {
        self.repr
    }

    /// The number of payload bytes behind the header.
    pub fn payload_len(&self) -> (r: usize)
        requires
            self.wf(),
        ensures
            r == self.buf().size() - 14,
    {
        self.buffer.len() - 14
    }

    /// Copy the payload bytes behind the header out into a fresh vector.
    pub fn payload_to_vec(&self) -> (r: Vec<u8>)
        requires
            self.wf(),
        ensures
            r@ == self.buf().mem().subrange(14, self.buf().size() as int),
    {
        let len = self.buffer.len();
        self.buffer.slice_to_vec(14, len)
    }

    /// Overwrite the payload bytes behind the header.
    pub fn fill_payload(&mut self, src: &[u8])
        requires
            old(self).wf(),
            14 + src@.len() <= old(self).buf().size(),
        ensures
            final(self).wf(),
            final(self).repr_spec() == old(self).repr_spec(),
            final(self).buf().size() == old(self).buf().size(),
            final(self).buf().mem().len() == old(self).buf().mem().len(),
            forall|j: int|
                0 <= j < src@.len() ==> final(self).buf().mem()[14 + j] == src@[j],
            forall|j: int|
                0 <= j < old(self).buf().mem().len() && !(14 <= j < 14 + src@.len())
                    ==> final(self).buf().mem()[j] == old(self).buf().mem()[j],
    {
        proof {
            use_type_invariant(&self.buffer);
        }
        let ghost pre = *self;
        self.buffer.write_slice_at(14, src);
        proof {
            assert(pre.buf().size() <= pre.buf().mem().len());
            assert forall|j: int| 0 <= j < 14 implies self.buffer.mem()[j]
                == pre.buf().mem()[j] by {}
            let r0 = spec_frame_repr(pre.buf())->Some_0;
            let r1 = spec_frame_repr(self.buffer)->Some_0;
            assert(r1.dst_addr.0 =~= r0.dst_addr.0);
            assert(r1.src_addr.0 =~= r0.src_addr.0);
            assert(spec_frame_repr(self.buffer) == Some(self.repr));
        }
    }

    /// Unwrap the underlying buffer, discarding the parsed header.
    pub fn into_inner(self) -> (r: Buffer)
        ensures
            r == self.buf(),
    {
        self.buffer
    }
}

/// The per-packet capability handed to layers above the link layer: the
/// device's flow-control handle plus the link endpoint's identity.
#[derive(Clone, Copy, Debug)]
pub struct Handle {
    nic: nic::Handle,
    src_addr: EthernetAddress,
}

impl Handle {
    /// The device-level flow-control handle.
    pub closed spec fn nic_view(self) -> nic::Handle {
        self.nic
    }

    /// The link address of the endpoint below.
    pub closed spec fn src_view(self) -> EthernetAddress {
        self.src_addr
    }

    /// Whether a handler has requested transmission of this packet.
    pub open spec fn queued(self) -> bool {
        self.nic_view().queued()
    }

    /// Whether queuing is possible at all.
    pub open spec fn can_queue(self) -> bool {
        self.nic_view().can_queue()
    }

    pub(crate) fn new(nic: nic::Handle, src_addr: EthernetAddress) -> (r: Handle)
        ensures
            r.nic_view() == nic,
            r.src_view() == src_addr,
    {
        Handle { nic, src_addr }
    }

    /// The link address of the endpoint this packet travels through.
    pub fn src_addr(&mut self) -> (r: EthernetAddress)
        ensures
            r == old(self).src_view(),
            *final(self) == *old(self),
    {
        self.src_addr
    }

    /// The device information for this packet.
    pub fn info(&self) -> (r: Info)
        ensures
            r == self.nic_view().info_view(),
    {
        self.nic.info()
    }

    /// Request transmission of the current packet; illegal while receiving.
    pub fn queue(&mut self) -> (r: Result<(), Error>)
        ensures
            final(self).src_view() == old(self).src_view(),
            final(self).nic_view().info_view() == old(self).nic_view().info_view(),
            old(self).can_queue() ==> r == Ok::<(), Error>(()) && final(self).queued(),
            !old(self).can_queue() ==> r == Err::<(), Error>(Error::Illegal) && *final(self)
                == *old(self),
    {
        self.nic.queue()
    }

    /// Split the capability back into the device-level handle.
    pub(crate) fn into_nic(self) -> (r: nic::Handle)
        ensures
            r == self.nic_view(),
    {
        self.nic
    }
}

/// An initializer for an outgoing Ethernet frame.
#[derive(Clone, Copy, Debug)]
pub struct Init {
    /// The source address to write, normally the endpoint's own.
    pub src_addr: EthernetAddress,
    /// The destination address to write.
    pub dst_addr: EthernetAddress,
    /// The protocol of the carried payload.
    pub ethertype: EthernetProtocol,
    /// The length of the payload to reserve behind the header.
    pub payload: usize,
}

/// An incoming link-layer packet: a validated frame plus the capability to
/// reach the layers below.
#[derive(Debug)]
pub struct InPacket {
    pub handle: Handle,
    pub frame: Frame,
}

/// A raw link-layer packet: an uninterpreted buffer that may be prepared
/// for sending.
#[derive(Debug)]
pub struct RawPacket {
    pub handle: Handle,
    pub payload: Buffer,
}

/// An outgoing link-layer packet whose header has just been written.
#[derive(Debug)]
pub struct OutPacket {
    pub handle: Handle,
    pub frame: Frame,
}

impl InPacket {
    /// Hand the buffer back to the device.
    pub fn into_parts(self) -> (r: NicPacket)
        ensures
            r.handle == self.handle.nic_view(),
            r.payload == self.frame.buf(),
    {
        NicPacket { handle: self.handle.into_nic(), payload: self.frame.into_inner() }
    }
}

impl RawPacket {
    /// Write a frame header into the buffer, resizing it to hold the
    /// header plus the requested payload length.
    ///
    /// Fails with a size error, handing the packet back unchanged, when the
    /// requested total does not fit the buffer's capacity.
    pub fn prepare(self, init: Init) -> (r: Result<OutPacket, (Error, RawPacket)>)
        ensures
            match r {
                Ok(out) => {
                    &&& 14 + init.payload <= self.payload.mem().len()
                    &&& out.frame.wf()
                    &&& out.handle == self.handle
                    &&& out.frame.buf().mem() == spec_prepared_mem(self.payload.mem(), init)
                    &&& out.frame.buf().size() == 14 + init.payload
                    &&& out.frame.repr_spec().dst_addr == init.dst_addr
                    &&& out.frame.repr_spec().src_addr == init.src_addr
                    &&& spec_ethertype_value(out.frame.repr_spec().ethertype)
                        == spec_ethertype_value(init.ethertype)
                },
                Err((e, raw)) => e == Error::BadSize && raw == self && 14 + init.payload
                    > self.payload.mem().len(),
            },
    {
        let RawPacket { handle, mut payload } = self;
        if payload.capacity() < 14 || init.payload > payload.capacity() - 14 {
            return Err((Error::BadSize, RawPacket { handle, payload }));
        }
        let total = 14 + init.payload;
        match payload.resize(total) {
            Ok(()) => {},
            Err(_) => {
                return Err((Error::BadSize, RawPacket { handle, payload }));
            },
        }
        payload.write_at(0, init.dst_addr.0[0]);
        payload.write_at(1, init.dst_addr.0[1]);
        payload.write_at(2, init.dst_addr.0[2]);
        payload.write_at(3, init.dst_addr.0[3]);
        payload.write_at(4, init.dst_addr.0[4]);
        payload.write_at(5, init.dst_addr.0[5]);
        payload.write_at(6, init.src_addr.0[0]);
        payload.write_at(7, init.src_addr.0[1]);
        payload.write_at(8, init.src_addr.0[2]);
        payload.write_at(9, init.src_addr.0[3]);
        payload.write_at(10, init.src_addr.0[4]);
        payload.write_at(11, init.src_addr.0[5]);
        let v = init.ethertype.value();
        payload.write_at(12, (v / 256) as u8);
        payload.write_at(13, (v % 256) as u8);
        proof {
            assert(payload.mem() =~= spec_prepared_mem(self.payload.mem(), init));
        }
        let repr = Repr {
            dst_addr: init.dst_addr,
            src_addr: init.src_addr,
            ethertype: ethertype_from(v),
        };
        proof {
            let m = payload.mem();
            assert(repr.dst_addr.0@ =~= Seq::new(6, |i: int| m[i]));
            assert(repr.src_addr.0@ =~= Seq::new(6, |i: int| m[6 + i]));
            assert((spec_frame_repr(payload)->Some_0).dst_addr.0 =~= repr.dst_addr.0);
            assert((spec_frame_repr(payload)->Some_0).src_addr.0 =~= repr.src_addr.0);
            assert(be_u16(m[12], m[13]) == v);
        }
        let frame = Frame { buffer: payload, repr };
        Ok(OutPacket { handle, frame })
    }

    /// Hand the buffer back to the device without sending anything.
    pub fn into_parts(self) -> (r: NicPacket)
        ensures
            r.handle == self.handle.nic_view(),
            r.payload == self.payload,
    {
        NicPacket { handle: self.handle.into_nic(), payload: self.payload }
    }
}

impl OutPacket {
    /// Queue the prepared frame for transmission.
    ///
    /// Marks the packet's flow-control handle; the device transmits the
    /// buffer once the handler returns.  Idempotent.  Illegal while
    /// receiving.
    pub fn send(&mut self) -> (r: Result<(), Error>)
        ensures
            final(self).frame == old(self).frame,
            final(self).handle.src_view() == old(self).handle.src_view(),
            old(self).handle.can_queue() ==> r == Ok::<(), Error>(())
                && final(self).handle.queued(),
            !old(self).handle.can_queue() ==> r == Err::<(), Error>(Error::Illegal) && *final(self)
                == *old(self),
    {
        self.handle.queue()
    }

    /// The number of payload bytes behind the header.
    pub fn payload_len(&self) -> (r: usize)
        requires
            self.frame.wf(),
        ensures
            r == self.frame.buf().size() - 14,
    {
        self.frame.payload_len()
    }

    /// Fill the payload region behind the just-written header.
    pub fn fill_payload(&mut self, src: &[u8])
        requires
            old(self).frame.wf(),
            14 + src@.len() <= old(self).frame.buf().size(),
        ensures
            final(self).frame.wf(),
            final(self).handle == old(self).handle,
            final(self).frame.repr_spec() == old(self).frame.repr_spec(),
            final(self).frame.buf().size() == old(self).frame.buf().size(),
            final(self).frame.buf().mem().len() == old(self).frame.buf().mem().len(),
            forall|j: int|
                0 <= j < src@.len() ==> final(self).frame.buf().mem()[14 + j] == src@[j],
            forall|j: int|
                0 <= j < old(self).frame.buf().mem().len() && !(14 <= j < 14 + src@.len())
                    ==> final(self).frame.buf().mem()[j] == old(self).frame.buf().mem()[j],
    {
        self.frame.fill_payload(src);
    }

    /// Hand the buffer back to the device.
    pub fn into_parts(self) -> (r: NicPacket)
        ensures
            r.handle == self.handle.nic_view(),
            r.payload == self.frame.buf(),
    {
        NicPacket { handle: self.handle.into_nic(), payload: self.frame.into_inner() }
    }
}

/// A handler above the link layer for received frames.
pub trait Recv: Sized {
    /// The packets the handler accepts.
    spec fn recv_req(&self, packet: InPacket) -> bool;

    /// What holds between the packet handed in, the buffer handed back and
    /// the handler's successor state.
    spec fn recv_post(&self, packet: InPacket, r: NicPacket, next: Self) -> bool;

    /// Process one validated incoming frame and hand its buffer back.
    fn receive(&mut self, packet: InPacket) -> (r: NicPacket)
        requires
            old(self).recv_req(packet),
        ensures
            old(self).recv_post(packet, r, *final(self)),
    ;
}

/// A handler above the link layer asked to produce an outgoing frame.
pub trait Transmit: Sized {
    /// The packets the handler accepts.
    spec fn send_req(&self, packet: RawPacket) -> bool;

    /// What holds between the packet handed in, the buffer handed back and
    /// the handler's successor state.
    spec fn send_post(&self, packet: RawPacket, r: NicPacket, next: Self) -> bool;

    /// Fill (or decline to fill) one raw frame and hand its buffer back.
    fn send(&mut self, packet: RawPacket) -> (r: NicPacket)
        requires
            old(self).send_req(packet),
        ensures
            old(self).send_post(packet, r, *final(self)),
    ;
}

impl<F: Fn(InPacket) -> NicPacket> Recv for FnHandler<F> {
    open spec fn recv_req(&self, packet: InPacket) -> bool {
        call_requires(self.0, (packet,))
    }

    open spec fn recv_post(&self, packet: InPacket, r: NicPacket, next: Self) -> bool {
        call_ensures(self.0, (packet,), r) && next == *self
    }

    fn receive(&mut self, packet: InPacket) -> (r: NicPacket) {
        (self.0)(packet)
    }
}

impl<F: Fn(RawPacket) -> NicPacket> Transmit for FnHandler<F> {
    open spec fn send_req(&self, packet: RawPacket) -> bool {
        call_requires(self.0, (packet,))
    }

    open spec fn send_post(&self, packet: RawPacket, r: NicPacket, next: Self) -> bool {
        call_ensures(self.0, (packet,), r) && next == *self
    }

    fn send(&mut self, packet: RawPacket) -> (r: NicPacket) {
        (self.0)(packet)
    }
}

/// The persistent state of the link layer: its own address.
///
/// Packets with a different, non-broadcast destination are ignored.
pub struct Endpoint {
    addr: EthernetAddress,
}

/// An exclusively borrowed view of an endpoint, as handed to a receiver or
/// sender for the duration of one poll.
pub struct EthEndpoint {
    addr: EthernetAddress,
}

impl EthEndpoint {
    /// The link address of the endpoint.
    pub closed spec fn spec_addr(self) -> EthernetAddress {
        self.addr
    }

    fn src_addr(&mut self) -> (r: EthernetAddress)
        ensures
            r == old(self).spec_addr(),
            *final(self) == *old(self),
    {
        self.addr
    }
}

/// An endpoint borrowed for receiving, dispatching to an upper handler.
pub struct Receiver<H> {
    endpoint: EthEndpoint,
    /// The upper protocol receiver.
    handler: H,
}

/// An endpoint borrowed for sending, dispatching to an upper handler.
pub struct Sender<H> {
    endpoint: EthEndpoint,
    /// The upper protocol sender.
    handler: H,
}

/// Whether a receiver accepts a frame with the given destination: it must
/// be the receiver's own address or broadcast.
pub open spec fn spec_accepts(own: EthernetAddress, dst: EthernetAddress) -> bool {
    own@ == dst@ || dst.spec_is_broadcast()
}

impl Endpoint {
    /// The endpoint's own link address.
    pub closed spec fn spec_addr(self) -> EthernetAddress {
        self.addr
    }

    /// A new endpoint owning the given link address.
    pub fn new(addr: EthernetAddress) -> (r: Endpoint)
        ensures
            r.spec_addr() == addr,
    {
        Endpoint { addr }
    }

    /// Borrow the endpoint for receiving with the given upper handler.
    pub fn recv<H>(&mut self, handler: H) -> (r: Receiver<H>)
        ensures
            *final(self) == *old(self),
            r.spec_addr() == old(self).spec_addr(),
            r.spec_handler() == handler,
    {
        Receiver { endpoint: self.eth(), handler }
    }

    /// Borrow the endpoint for receiving with a plain function handler.
    pub fn recv_with<H>(&mut self, handler: H) -> (r: Receiver<FnHandler<H>>)
        ensures
            *final(self) == *old(self),
            r.spec_addr() == old(self).spec_addr(),
            r.spec_handler() == FnHandler(handler),
    {
        self.recv(FnHandler(handler))
    }

    /// Borrow the endpoint for sending with the given upper handler.
    pub fn send<H>(&mut self, handler: H) -> (r: Sender<H>)
        ensures
            *final(self) == *old(self),
            r.spec_addr() == old(self).spec_addr(),
            r.spec_handler() == handler,
    {
        Sender { endpoint: self.eth(), handler }
    }

    /// Borrow the endpoint for sending with a plain function handler.
    pub fn send_with<H>(&mut self, handler: H) -> (r: Sender<FnHandler<H>>)
        ensures
            *final(self) == *old(self),
            r.spec_addr() == old(self).spec_addr(),
            r.spec_handler() == FnHandler(handler),
    {
        self.send(FnHandler(handler))
    }

    fn eth(&mut self) -> (r: EthEndpoint)
        ensures
            *final(self) == *old(self),
            r.spec_addr() == old(self).spec_addr(),
    {
        EthEndpoint { addr: self.addr }
    }

    /// Whether a frame with the given destination is meant for this
    /// endpoint: its own address, or broadcast.
    pub fn accepts(&self, dst_addr: EthernetAddress) -> (r: bool)
        ensures
            r == spec_accepts(self.spec_addr(), dst_addr),
    {
        self.addr.same_as(&dst_addr) || dst_addr.is_broadcast()
    }
}

impl<H> Receiver<H> {
    /// The link address the receiver validates against.
    pub closed spec fn spec_addr(self) -> EthernetAddress {
        self.endpoint.addr
    }

    /// The upper handler the receiver dispatches to.
    pub closed spec fn spec_handler(self) -> H {
        self.handler
    }
}

impl<H> Sender<H> {
    /// The link address the sender writes as source.
    pub closed spec fn spec_addr(self) -> EthernetAddress {
        self.endpoint.addr
    }

    /// The upper handler the sender dispatches to.
    pub closed spec fn spec_handler(self) -> H {
        self.handler
    }
}

/// Whether `inp` is the link-layer packet that dispatching `packet`
/// through a receiver or sender with address `own` builds: the same
/// buffer and device handle, wrapped with the endpoint's identity.
pub open spec fn spec_wrapped_in(own: EthernetAddress, packet: NicPacket, inp: InPacket) -> bool {
    &&& inp.handle.nic_view() == packet.handle
    &&& inp.handle.src_view() == own
    &&& inp.frame.buf() == packet.payload
    &&& Some(inp.frame.repr_spec()) == spec_frame_repr(packet.payload)
}

/// Whether `raw` is the link-layer raw packet that dispatching `packet`
/// through a sender with address `own` builds.
pub open spec fn spec_wrapped_raw(own: EthernetAddress, packet: NicPacket, raw: RawPacket) -> bool {
    &&& raw.handle.nic_view() == packet.handle
    &&& raw.handle.src_view() == own
    &&& raw.payload == packet.payload
}

impl<H: Recv> nic::Recv for Receiver<H> {
    open spec fn recv_req(&self, packet: NicPacket) -> bool {
        forall|inp: InPacket|
            {
                (#[trigger] spec_wrapped_in(self.spec_addr(), packet, inp))
                    && spec_accepts(self.spec_addr(), inp.frame.repr_spec().dst_addr)
                    ==> self.spec_handler().recv_req(inp)
            }
    }

    open spec fn recv_post(&self, packet: NicPacket, r: NicPacket, next: Self) -> bool {
        &&& next.spec_addr() == self.spec_addr()
        &&& match spec_frame_repr(packet.payload) {
            None => r == packet && next.spec_handler() == self.spec_handler(),
            Some(repr) => {
                if spec_accepts(self.spec_addr(), repr.dst_addr) {
                    exists|inp: InPacket|
                        (#[trigger] spec_wrapped_in(self.spec_addr(), packet, inp))
                            && self.spec_handler().recv_post(inp, r, next.spec_handler())
                } else {
                    r == packet && next.spec_handler() == self.spec_handler()
                }
            },
        }
    }

    fn receive(&mut self, packet: NicPacket) -> (r: NicPacket) {
        let NicPacket { handle, payload } = packet;
        match Frame::new_checked(payload) {
            Err(payload) => NicPacket { handle, payload },
            Ok(frame) => {
                let repr = frame.repr();
                if !self.endpoint.accepts(repr.dst_addr) {
                    return NicPacket { handle, payload: frame.into_inner() };
                }
                let eth_handle = Handle::new(handle, self.endpoint.src_addr());
                let inp = InPacket { handle: eth_handle, frame };
                proof {
                    assert(spec_wrapped_in(self.spec_addr(), packet, inp));
                }
                self.handler.receive(inp)
            },
        }
    }
}

impl<H: Transmit> nic::Transmit for Sender<H> {
    open spec fn send_req(&self, packet: NicPacket) -> bool {
        forall|raw: RawPacket|
            (#[trigger] spec_wrapped_raw(self.spec_addr(), packet, raw))
                ==> self.spec_handler().send_req(raw)
    }

    open spec fn send_post(&self, packet: NicPacket, r: NicPacket, next: Self) -> bool {
        &&& next.spec_addr() == self.spec_addr()
        &&& exists|raw: RawPacket|
            (#[trigger] spec_wrapped_raw(self.spec_addr(), packet, raw))
                && self.spec_handler().send_post(raw, r, next.spec_handler())
    }

    fn send(&mut self, packet: NicPacket) -> (r: NicPacket) {
        let NicPacket { handle, payload } = packet;
        let eth_handle = Handle::new(handle, self.endpoint.src_addr());
        let raw = RawPacket { handle: eth_handle, payload };
        proof {
            assert(spec_wrapped_raw(self.spec_addr(), packet, raw));
        }
        self.handler.send(raw)
    }
}

impl EthEndpoint {
    /// Whether a frame with the given destination is meant for this
    /// endpoint.
    fn accepts(&self, dst_addr: EthernetAddress) -> (r: bool)
        ensures
            r == spec_accepts(self.spec_addr(), dst_addr),
    {
        self.addr.same_as(&dst_addr) || dst_addr.is_broadcast()
    }
}

/// Address acceptance, drop side: a receiver for a link address silently
/// drops a frame that does not parse or is addressed to a different,
/// non-broadcast address — the buffer comes back unchanged and the upper
/// handler is never invoked.
pub proof fn lemma_receiver_drops_foreign<H: Recv>(
    rcv: Receiver<H>,
    packet: NicPacket,
    r: NicPacket,
    next: Receiver<H>,
)
    requires
        nic::Recv::recv_post(&rcv, packet, r, next),
        match spec_frame_repr(packet.payload) {
            None => true,
            Some(repr) => !spec_accepts(rcv.spec_addr(), repr.dst_addr),
        },
    ensures
        r == packet,
        next.spec_addr() == rcv.spec_addr(),
        next.spec_handler() == rcv.spec_handler(),
{
}

/// Address acceptance, dispatch side: a receiver for a link address hands
/// a frame addressed to it (or to broadcast) to the upper handler, wrapped
/// with the endpoint's identity.
pub proof fn lemma_receiver_dispatches_accepted<H: Recv>(
    rcv: Receiver<H>,
    packet: NicPacket,
    r: NicPacket,
    next: Receiver<H>,
)
    requires
        nic::Recv::recv_post(&rcv, packet, r, next),
        spec_frame_repr(packet.payload) is Some,
        spec_accepts(rcv.spec_addr(), (spec_frame_repr(packet.payload)->Some_0).dst_addr),
    ensures
        next.spec_addr() == rcv.spec_addr(),
        exists|inp: InPacket|
            (#[trigger] spec_wrapped_in(rcv.spec_addr(), packet, inp))
                && rcv.spec_handler().recv_post(inp, r, next.spec_handler()),
{
}

} // verus!
