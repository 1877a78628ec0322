//! Device interface tests: bounded counts, flow-control correctness and
//! the counters of the external device.

use ethox::eth;
use ethox::nic::{External, NicPacket};
use ethox::payload::Buffer;
use ethox::wire::{EthernetAddress, EthernetProtocol};

fn own_mac() -> EthernetAddress {
    EthernetAddress([2, 4, 6, 8, 10, 12])
}

fn declining(frame: eth::RawPacket) -> NicPacket {
    frame.into_parts()
}

fn queueing(mut frame: eth::RawPacket) -> NicPacket {
    let init = eth::Init {
        src_addr: frame.handle.src_addr(),
        dst_addr: EthernetAddress([0xff; 6]),
        ethertype: EthernetProtocol::Unknown(0xBEEF),
        payload: 0,
    };
    let mut prepared = frame.prepare(init).expect("an empty frame fits the buffer");
    prepared.send().expect("queuing is possible while sending");
    prepared.into_parts()
}

#[test]
fn declined_send_counts_zero_and_keeps_the_buffer() {
    let mut endpoint = eth::Endpoint::new(own_mac());
    let mut nic = External::new_send(vec![Buffer::new(vec![0; 64])]);
    let mut sender = endpoint.send_with(declining);

    assert_eq!(nic.to_send(), 1);
    assert_eq!(nic.tx(1, &mut sender), Ok(0));
    assert_eq!(nic.to_send(), 1, "a declined buffer is offered again");
    assert_eq!(nic.tx(1, &mut sender), Ok(0));
    assert_eq!(nic.to_send(), 1);
}

#[test]
fn queued_send_counts_one() {
    let mut endpoint = eth::Endpoint::new(own_mac());
    let mut nic = External::new_send(vec![Buffer::new(vec![0; 64]), Buffer::new(vec![0; 64])]);
    let mut sender = endpoint.send_with(queueing);

    assert_eq!(nic.to_send(), 2);
    assert_eq!(nic.tx(1, &mut sender), Ok(1));
    assert_eq!(nic.to_send(), 1);
    assert_eq!(nic.tx(1, &mut sender), Ok(1));
    assert_eq!(nic.to_send(), 0);
    assert_eq!(nic.tx(1, &mut sender), Ok(0), "no free buffer is left");

    nic.reset_send();
    assert_eq!(nic.to_send(), 2, "resetting sends into the first buffer again");
}

#[test]
fn zero_max_processes_nothing() {
    let mut endpoint = eth::Endpoint::new(own_mac());
    let mut nic = External::new_send(vec![Buffer::new(vec![0; 64])]);
    let mut sender = endpoint.send_with(queueing);
    assert_eq!(nic.tx(0, &mut sender), Ok(0));
    assert_eq!(nic.to_send(), 1);

    let mut receiver = endpoint.recv_with(|frame: eth::InPacket| -> NicPacket {
        frame.into_parts()
    });
    assert_eq!(nic.rx(0, &mut receiver), Ok(0));
}

fn receive_frame_bytes() -> Buffer {
    let mut bytes = vec![];
    bytes.extend_from_slice(&[2, 4, 6, 8, 10, 12]);
    bytes.extend_from_slice(&[1, 1, 1, 1, 1, 1]);
    bytes.extend_from_slice(&[0xbe, 0xef]);
    bytes.extend_from_slice(&[3; 10]);
    Buffer::new(bytes)
}

fn queue_attempt_on_receive(frame: eth::InPacket) -> NicPacket {
    let mut packet = frame;
    assert_eq!(
        packet.handle.queue(),
        Err(ethox::Error::Illegal),
        "a receive handle can never be queued"
    );
    packet.into_parts()
}

#[test]
fn receive_handle_cannot_be_queued() {
    let mut endpoint = eth::Endpoint::new(own_mac());
    let mut nic = External::new_recv(vec![receive_frame_bytes()]);
    let mut receiver = endpoint.recv_with(queue_attempt_on_receive);

    assert_eq!(nic.to_recv(), 1);
    assert_eq!(nic.rx(1, &mut receiver), Ok(1));
    assert_eq!(nic.to_recv(), 0);

    nic.reset_receive();
    assert_eq!(nic.to_recv(), 1, "resetting receives the first buffer again");
    nic.set_one_past_receive(0);
    assert_eq!(nic.to_recv(), 0, "moving the split hides the receive buffers");
}
