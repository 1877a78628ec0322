//! The device interface: bounded transmit/receive over a collection of
//! packet buffers, flow-control signalling, and capability negotiation.

use vstd::prelude::*;

use crate::Error;
use crate::payload::Buffer;

verus! {

/// Whether a layer should compute a checksum in software or leave it alone.
#[derive(Clone, Copy, Debug, PartialEq, Eq, Hash)]
pub enum Checksum {
    /// The stack fills the checksum itself.
    Manual,
    /// The checksum field is left untouched, e.g. for hardware offload.
    Ignored,
}

/// The static capabilities of a device, queried once.
#[derive(Clone, Copy, Debug, PartialEq, Eq, Hash)]
pub struct Personality {
    /// How transport checksums are handled on transmit.
    pub udp_tx_checksum: Checksum,
}

/// The capability set of a device with no offloads: every checksum is
/// computed by the stack.
pub open spec fn spec_baseline() -> Personality {
    Personality { udp_tx_checksum: Checksum::Manual }
}

impl Personality {
    /// A capability set with no offloads.
    pub fn baseline() -> (r: Personality)
        ensures
            r == spec_baseline(),
    {
        Personality { udp_tx_checksum: Checksum::Manual }
    }
}

/// Per-packet hardware information reachable from any layer.
#[derive(Clone, Copy, Debug, PartialEq, Eq, Hash)]
pub struct Info {
    /// The device's static capabilities.
    pub personality: Personality,
}

/// The flow-control state of one device operation.
///
/// `NotPossible` while receiving: queuing is illegal.  `SetTrue(b)` while
/// sending: starts at `false` and becomes `true` exactly when a handler
/// requests transmission.
#[derive(Clone, Copy, Debug, PartialEq, Eq, Hash)]
pub enum EnqueueFlag {
    NotPossible,
    SetTrue(bool),
}

/// The per-packet capability a device hands to a handler: the flow-control
/// flag plus the device information.
///
/// One handle exists per transmit or receive attempt; the device inspects
/// its final state once the handler returns.
#[derive(Clone, Copy, Debug)]
pub struct Handle {
    flag: EnqueueFlag,
    info: Info,
}

impl Handle {
    /// The flow-control state of the handle.
    pub closed spec fn flag_view(self) -> EnqueueFlag {
        self.flag
    }

    /// The device information carried by the handle.
    pub closed spec fn info_view(self) -> Info {
        self.info
    }

    /// Whether queuing is possible at all, i.e. the device is sending.
    pub open spec fn can_queue(self) -> bool {
        self.flag_view() is SetTrue
    }

    /// Whether a handler has requested transmission of this packet.
    pub open spec fn queued(self) -> bool {
        self.flag_view() == EnqueueFlag::SetTrue(true)
    }

    /// A fresh handle for one transmit attempt: not yet queued.
    pub(crate) fn new_send(info: Info) -> (r: Handle)
        ensures
            r.flag_view() == EnqueueFlag::SetTrue(false),
            r.info_view() == info,
    {
        Handle { flag: EnqueueFlag::SetTrue(false), info }
    }

    /// A fresh handle for one receive attempt: queuing is illegal.
    pub(crate) fn new_recv(info: Info) -> (r: Handle)
        ensures
            r.flag_view() == EnqueueFlag::NotPossible,
            r.info_view() == info,
    {
        Handle { flag: EnqueueFlag::NotPossible, info }
    }

    /// The device information for this packet.
    pub fn info(&self) -> (r: Info)
        ensures
            r == self.info_view(),
    {
        self.info
    }

    /// Request transmission of the current packet.
    ///
    /// Idempotent while sending.  While receiving the request is a usage
    /// error: it fails with [`Error::Illegal`] and changes nothing.
    pub fn queue(&mut self) -> (r: Result<(), Error>)
        ensures
            final(self).info_view() == old(self).info_view(),
            old(self).can_queue() ==> r == Ok::<(), Error>(()) && final(self).flag_view()
                == EnqueueFlag::SetTrue(true),
            !old(self).can_queue() ==> r == Err::<(), Error>(Error::Illegal) && *final(self)
                == *old(self),
    {
        match self.flag {
            EnqueueFlag::SetTrue(_) => {
                self.flag = EnqueueFlag::SetTrue(true);
                Ok(())
            },
            EnqueueFlag::NotPossible => Err(Error::Illegal),
        }
    }
}

/// One packet as a device hands it to a handler: the per-packet capability
/// and the payload buffer.
pub struct NicPacket {
    pub handle: Handle,
    pub payload: Buffer,
}

/// Whether a packet carries a given flow-control state, device capability
/// set and payload buffer.
pub open spec fn spec_device_packet(
    pk: NicPacket,
    flag: EnqueueFlag,
    personality: Personality,
    payload: Buffer,
) -> bool {
    &&& pk.handle.flag_view() == flag
    &&& pk.handle.info_view() == (Info { personality })
    &&& pk.payload == payload
}

/// A handler for received packets, driven by a device's `rx`.
pub trait Recv: Sized {
    /// The packets the handler accepts.
    spec fn recv_req(&self, packet: NicPacket) -> bool;

    /// What holds between the packet handed in, the packet handed back and
    /// the handler's successor state.
    spec fn recv_post(&self, packet: NicPacket, r: NicPacket, next: Self) -> bool;

    /// Process one received packet and hand its buffer back.
    fn receive(&mut self, packet: NicPacket) -> (r: NicPacket)
        requires
            old(self).recv_req(packet),
        ensures
            old(self).recv_post(packet, r, *final(self)),
    ;
}

/// A handler asked to produce an outgoing packet, driven by a device's
/// `tx`.  The handler marks the flow-control flag exactly when it wants the
/// buffer transmitted.
pub trait Transmit: Sized {
    /// The packets the handler accepts.
    spec fn send_req(&self, packet: NicPacket) -> bool;

    /// What holds between the packet handed in, the packet handed back and
    /// the handler's successor state.
    spec fn send_post(&self, packet: NicPacket, r: NicPacket, next: Self) -> bool;

    /// Fill (or decline to fill) one packet for transmission and hand its
    /// buffer back.
    fn send(&mut self, packet: NicPacket) -> (r: NicPacket)
        requires
            old(self).send_req(packet),
        ensures
            old(self).send_post(packet, r, *final(self)),
    ;
}

/// What one bounded transmit attempt does: at most one buffer is offered,
/// the returned count is in `[0, max]` and counts exactly the packets the
/// handler queued, and the sent counter advances by exactly that count.
pub open spec fn tx_post<S: Transmit>(
    pre: External,
    post: External,
    sender_pre: S,
    sender_post: S,
    max: usize,
    r: Result<usize, Error>,
) -> bool {
    &&& post.recv_count() == pre.recv_count()
    &&& post.split_at() == pre.split_at()
    &&& post.buffers().len() == pre.buffers().len()
    &&& match r {
        Ok(c) => c <= max && c <= 1 && post.sent_count() == pre.sent_count() + c,
        Err(_) => false,
    }
    &&& (max == 0 || pre.spec_to_send() == 0) ==> r == Ok::<usize, Error>(0) && post == pre
        && sender_post == sender_pre
    &&& (max > 0 && pre.spec_to_send() > 0) ==> exists|pk: NicPacket, rp: NicPacket|
        {
            let idx = pre.split_at() + pre.sent_count();
            &&& spec_device_packet(
                pk,
                EnqueueFlag::SetTrue(false),
                spec_baseline(),
                pre.buffers()[idx as int],
            )
            &&& #[trigger] sender_pre.send_post(pk, rp, sender_post)
            &&& post.buffers() == pre.buffers().update(idx as int, rp.payload)
            &&& r == Ok::<usize, Error>(
                if rp.handle.queued() {
                    1
                } else {
                    0
                },
            )
        }
}

/// A device whose packet buffers come from an external source.
///
/// The buffers before `split` are treated as packets to receive; the
/// buffers from `split` on are free for sending.
pub struct External {
    /// Backing packet buffers.
    buffer: Vec<Buffer>,
    /// Number of received packets.
    recv: usize,
    /// Number of sent packets.
    sent: usize,
    /// The index of the split between receive and send buffers.
    split: usize,
}

impl External {
    /// The backing packet buffers.
    pub closed spec fn buffers(self) -> Seq<Buffer> {
        self.buffer@
    }

    /// How many packets were received so far.
    pub closed spec fn recv_count(self) -> nat {
        self.recv as nat
    }

    /// How many packets were sent so far.
    pub closed spec fn sent_count(self) -> nat {
        self.sent as nat
    }

    /// The index of the first buffer that is free for sending.
    pub closed spec fn split_at(self) -> nat {
        self.split as nat
    }

    /// Remaining number of buffers to receive.
    pub open spec fn spec_to_recv(self) -> int {
        let bound = if self.buffers().len() < self.split_at() {
            self.buffers().len() as int
        } else {
            self.split_at() as int
        };
        if self.recv_count() < bound {
            bound - self.recv_count()
        } else {
            0
        }
    }

    /// Remaining number of buffers to send.
    pub open spec fn spec_to_send(self) -> int {
        if self.split_at() + self.sent_count() < self.buffers().len() {
            self.buffers().len() - self.split_at() - self.sent_count()
        } else {
            0
        }
    }

    /// A new external device, only sending packets.
    pub fn new_send(buffer: Vec<Buffer>) -> (r: External)
        ensures
            r.buffers() == buffer@,
            r.recv_count() == 0,
            r.sent_count() == 0,
            r.split_at() == 0,
    {
        External { buffer, recv: 0, sent: 0, split: 0 }
    }

    /// A new external device, only receiving packets.
    pub fn new_recv(buffer: Vec<Buffer>) -> (r: External)
        ensures
            r.buffers() == buffer@,
            r.recv_count() == 0,
            r.sent_count() == 0,
            r.split_at() == buffer@.len(),
    {
        let len = buffer.len();
        External { buffer, recv: 0, sent: 0, split: len }
    }

    /// Set the index of the first buffer that is no longer to-receive.
    pub fn set_one_past_receive(&mut self, at: usize)
        ensures
            final(self).split_at() == at,
            final(self).buffers() == old(self).buffers(),
            final(self).recv_count() == old(self).recv_count(),
            final(self).sent_count() == old(self).sent_count(),
    {
        self.split = at;
    }

    /// Reset sending, sending into the first free buffer again.
    pub fn reset_send(&mut self)
        ensures
            final(self).sent_count() == 0,
            final(self).buffers() == old(self).buffers(),
            final(self).recv_count() == old(self).recv_count(),
            final(self).split_at() == old(self).split_at(),
    {
        self.sent = 0;
    }

    /// Reset receiving, receiving the first buffer again.
    pub fn reset_receive(&mut self)
        ensures
            final(self).recv_count() == 0,
            final(self).buffers() == old(self).buffers(),
            final(self).sent_count() == old(self).sent_count(),
            final(self).split_at() == old(self).split_at(),
    {
        self.recv = 0;
    }

    /// Remaining number of buffers to receive.
    pub fn to_recv(&self) -> (r: usize)
        ensures
            r == self.spec_to_recv(),
    {
        let bound = if self.buffer.len() < self.split {
            self.buffer.len()
        } else {
            self.split
        };
        if self.recv < bound {
            bound - self.recv
        } else {
            0
        }
    }

    /// Remaining number of buffers to send.
    pub fn to_send(&self) -> (r: usize)
        ensures
            r == self.spec_to_send(),
    {
        if self.split < self.buffer.len() && self.sent < self.buffer.len() - self.split {
            self.buffer.len() - self.split - self.sent
        } else {
            0
        }
    }

    /// The index of the next buffer to receive.
    fn next_recv(&self) -> (r: usize)
        ensures
            r == self.recv_count(),
    {
        self.recv
    }

    /// The index of the next buffer to send.
    fn next_send(&self) -> (r: usize)
        requires
            self.spec_to_send() > 0,
        ensures
            r == self.split_at() + self.sent_count(),
    {
        let n = self.buffer.len();
        proof {
            assert(self.split + self.sent < n);
        }
        self.split + self.sent
    }

    /// The device's static capabilities: no offloads.
    pub fn personality(&self) -> (r: Personality)
        ensures
            r == spec_baseline(),
    {
        Personality::baseline()
    }

    /// Offer at most `max` free buffers to the sender, one per call.
    ///
    /// The returned count reflects how many buffers the handler chose to
    /// queue via its flow-control handle: a handler that declines still
    /// consumes its turn but contributes nothing to the count, and the
    /// same buffer is offered again on the next call.
    pub fn tx<S: Transmit>(&mut self, max: usize, sender: &mut S) -> (r: Result<usize, Error>)
        requires
            forall|pk: NicPacket|
                max > 0 && old(self).spec_to_send() > 0 && spec_device_packet(
                    pk,
                    EnqueueFlag::SetTrue(false),
                    spec_baseline(),
                    old(self).buffers()[(old(self).split_at() + old(self).sent_count()) as int],
                ) ==> #[trigger] old(sender).send_req(pk),
        ensures
            tx_post(*old(self), *final(self), *old(sender), *final(sender), max, r),
    {
        if max == 0 || self.to_send() == 0 {
            return Ok(0);
        }
        let next_id = self.next_send();
        proof {
            assert(next_id < self.buffer@.len());
        }
        let mut payload = Buffer::new(Vec::new());
        core::mem::swap(&mut payload, &mut self.buffer[next_id]);
        let handle = Handle::new_send(Info { personality: self.personality() });
        let packet = NicPacket { handle, payload };
        let ghost pk0 = packet;
        let returned = sender.send(packet);
        let NicPacket { handle: rhandle, payload: rpayload } = returned;
        let ghost rp0 = NicPacket { handle: rhandle, payload: rpayload };
        self.buffer[next_id] = rpayload;
        let queued = match rhandle.flag {
            EnqueueFlag::SetTrue(true) => true,
            _ => false,
        };
        proof {
            let idx = (old(self).split_at() + old(self).sent_count()) as int;
            assert(spec_device_packet(
                pk0,
                EnqueueFlag::SetTrue(false),
                spec_baseline(),
                old(self).buffers()[idx],
            ));
            assert(old(sender).send_post(pk0, rp0, *sender));
            assert(self.buffers() =~= old(self).buffers().update(idx, rp0.payload));
            assert(queued == rp0.handle.queued());
        }
        if queued {
            let n = self.buffer.len();
            proof {
                assert(self.sent < n);
            }
            self.sent = self.sent + 1;
            Ok(1)
        } else {
            Ok(0)
        }
    }

    /// Offer at most `max` received buffers to the receiver, one per call.
    ///
    /// The returned count is the number of buffers handed to the receiver:
    /// receiving cannot be declined.
    pub fn rx<R: Recv>(&mut self, max: usize, receptor: &mut R) -> (r: Result<usize, Error>)
        requires
            forall|pk: NicPacket|
                max > 0 && old(self).spec_to_recv() > 0 && spec_device_packet(
                    pk,
                    EnqueueFlag::NotPossible,
                    spec_baseline(),
                    old(self).buffers()[old(self).recv_count() as int],
                ) ==> #[trigger] old(receptor).recv_req(pk),
        ensures
            final(self).sent_count() == old(self).sent_count(),
            final(self).split_at() == old(self).split_at(),
            final(self).buffers().len() == old(self).buffers().len(),
            match r {
                Ok(c) => c <= max && c <= 1 && final(self).recv_count() == old(self).recv_count()
                    + c,
                Err(_) => false,
            },
            (max == 0 || old(self).spec_to_recv() == 0) ==> r == Ok::<usize, Error>(0)
                && *final(self) == *old(self) && *final(receptor) == *old(receptor),
            (max > 0 && old(self).spec_to_recv() > 0) ==> r == Ok::<usize, Error>(1) && exists|
                pk: NicPacket,
                rp: NicPacket,
            |
                {
                    let idx = old(self).recv_count();
                    &&& spec_device_packet(
                        pk,
                        EnqueueFlag::NotPossible,
                        spec_baseline(),
                        old(self).buffers()[idx as int],
                    )
                    &&& #[trigger] old(receptor).recv_post(pk, rp, *final(receptor))
                    &&& final(self).buffers() == old(self).buffers().update(
                        idx as int,
                        rp.payload,
                    )
                },
    {
        if max == 0 || self.to_recv() == 0 {
            return Ok(0);
        }
        let next_id = self.next_recv();
        proof {
            assert(next_id < self.buffer@.len());
        }
        let mut payload = Buffer::new(Vec::new());
        core::mem::swap(&mut payload, &mut self.buffer[next_id]);
        let handle = Handle::new_recv(Info { personality: self.personality() });
        let packet = NicPacket { handle, payload };
        let returned = receptor.receive(packet);
        let NicPacket { handle: _rhandle, payload: rpayload } = returned;
        self.buffer[next_id] = rpayload;
        self.recv = self.recv + 1;
        Ok(1)
    }
}

/// Flow-control correctness, declined side: a send handler that never
/// touches the flow-control flag makes a processed transmit return a
/// count of zero.
pub proof fn lemma_tx_of_declining_handler<S: Transmit>(
    pre: External,
    post: External,
    sender_pre: S,
    sender_post: S,
    max: usize,
    r: Result<usize, Error>,
)
    requires
        tx_post(pre, post, sender_pre, sender_post, max, r),
        max > 0,
        pre.spec_to_send() > 0,
        forall|q: NicPacket, rp: NicPacket, n: S|
            #[trigger] sender_pre.send_post(q, rp, n) ==> rp.handle.flag_view()
                == q.handle.flag_view(),
    ensures
        r == Ok::<usize, Error>(0),
{
    let (pk, rp): (NicPacket, NicPacket) = choose|pk: NicPacket, rp: NicPacket|
        {
            let idx = pre.split_at() + pre.sent_count();
            &&& spec_device_packet(
                pk,
                EnqueueFlag::SetTrue(false),
                spec_baseline(),
                pre.buffers()[idx as int],
            )
            &&& #[trigger] sender_pre.send_post(pk, rp, sender_post)
            &&& post.buffers() == pre.buffers().update(idx as int, rp.payload)
            &&& r == Ok::<usize, Error>(
                if rp.handle.queued() {
                    1
                } else {
                    0
                },
            )
        };
    assert(rp.handle.flag_view() == pk.handle.flag_view());
}

/// Flow-control correctness, queued side: a send handler that always
/// requests transmission makes a processed transmit return a count of
/// one.
pub proof fn lemma_tx_of_queueing_handler<S: Transmit>(
    pre: External,
    post: External,
    sender_pre: S,
    sender_post: S,
    max: usize,
    r: Result<usize, Error>,
)
    requires
        tx_post(pre, post, sender_pre, sender_post, max, r),
        max > 0,
        pre.spec_to_send() > 0,
        forall|q: NicPacket, rp: NicPacket, n: S|
            #[trigger] sender_pre.send_post(q, rp, n) && q.handle.can_queue()
                ==> rp.handle.queued(),
    ensures
        r == Ok::<usize, Error>(1),
{
    let (pk, rp): (NicPacket, NicPacket) = choose|pk: NicPacket, rp: NicPacket|
        {
            let idx = pre.split_at() + pre.sent_count();
            &&& spec_device_packet(
                pk,
                EnqueueFlag::SetTrue(false),
                spec_baseline(),
                pre.buffers()[idx as int],
            )
            &&& #[trigger] sender_pre.send_post(pk, rp, sender_post)
            &&& post.buffers() == pre.buffers().update(idx as int, rp.payload)
            &&& r == Ok::<usize, Error>(
                if rp.handle.queued() {
                    1
                } else {
                    0
                },
            )
        };
    assert(rp.handle.queued());
}

} // verus!
