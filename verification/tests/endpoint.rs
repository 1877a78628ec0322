//! Link-layer endpoint tests: the send/receive round trip through an
//! external device, and address acceptance.

use std::cell::Cell;

use ethox::eth;
use ethox::nic::{External, NicPacket};
use ethox::payload::Buffer;
use ethox::wire::{EthernetAddress, EthernetProtocol};

fn mac_addr_1() -> EthernetAddress {
    EthernetAddress([0, 1, 2, 3, 4, 5])
}

fn payload_bytes() -> [u8; 50] {
    let mut bytes = [0u8; 50];
    bytes[0] = 0xaa;
    bytes[49] = 0xff;
    bytes
}

fn simple_send(mut frame: eth::RawPacket) -> NicPacket {
    let src_addr = frame.handle.src_addr();
    let init = eth::Init {
        src_addr,
        dst_addr: mac_addr_1(),
        ethertype: EthernetProtocol::Unknown(0xBEEF),
        payload: payload_bytes().len(),
    };
    let mut prepared = frame
        .prepare(init)
        .expect("Preparing frame mustn't fail in controlled environment");
    prepared.fill_payload(&payload_bytes());
    prepared.send().expect("Sending is possible");
    prepared.into_parts()
}

fn simple_recv(frame: eth::InPacket) -> NicPacket {
    assert_eq!(frame.frame.payload_to_vec(), payload_bytes().to_vec());
    frame.into_parts()
}

#[test]
fn simple() {
    let mut endpoint = eth::Endpoint::new(mac_addr_1());
    let mut nic = External::new_send(vec![Buffer::new(vec![0; 1024])]);

    let mut sender = endpoint.send_with(simple_send);
    let sent = nic.tx(1, &mut sender);
    assert_eq!(sent, Ok(1));

    nic.set_one_past_receive(1);
    let mut receiver = endpoint.recv_with(simple_recv);
    let recv = nic.rx(1, &mut receiver);
    assert_eq!(recv, Ok(1));
}

fn frame_to(dst: [u8; 6]) -> Buffer {
    let mut bytes = vec![];
    bytes.extend_from_slice(&dst);
    bytes.extend_from_slice(&[9, 9, 9, 9, 9, 9]);
    bytes.extend_from_slice(&[0xbe, 0xef]);
    bytes.extend_from_slice(&[7; 20]);
    Buffer::new(bytes)
}

#[test]
fn receiver_accepts_own_and_broadcast_only() {
    let mut endpoint = eth::Endpoint::new(mac_addr_1());
    let mut nic = External::new_recv(vec![
        frame_to([0, 1, 2, 3, 4, 5]),
        frame_to([0xff; 6]),
        frame_to([6, 6, 6, 6, 6, 6]),
        Buffer::new(vec![1, 2, 3]),
    ]);

    let handled = Cell::new(0u32);
    let handler = |frame: eth::InPacket| -> NicPacket {
        handled.set(handled.get() + 1);
        frame.into_parts()
    };
    let mut receiver = endpoint.recv_with(handler);

    assert_eq!(nic.rx(1, &mut receiver), Ok(1));
    assert_eq!(handled.get(), 1, "a frame to the own address is handled");
    assert_eq!(nic.rx(1, &mut receiver), Ok(1));
    assert_eq!(handled.get(), 2, "a broadcast frame is handled");
    assert_eq!(nic.rx(1, &mut receiver), Ok(1));
    assert_eq!(handled.get(), 2, "a foreign unicast frame is dropped silently");
    assert_eq!(nic.rx(1, &mut receiver), Ok(1));
    assert_eq!(handled.get(), 2, "a frame too short to parse is dropped silently");
    assert_eq!(nic.rx(1, &mut receiver), Ok(0), "no buffer is left to receive");
}

#[test]
fn prepare_fails_on_short_buffer() {
    let handler = |mut frame: eth::RawPacket| -> NicPacket {
        let init = eth::Init {
            src_addr: frame.handle.src_addr(),
            dst_addr: mac_addr_1(),
            ethertype: EthernetProtocol::Unknown(0xBEEF),
            payload: 50,
        };
        match frame.prepare(init) {
            Ok(_) => panic!("a ten byte buffer cannot hold the frame"),
            Err((e, raw)) => {
                assert_eq!(e, ethox::Error::BadSize);
                raw.into_parts()
            },
        }
    };
    let mut endpoint = eth::Endpoint::new(mac_addr_1());
    let mut nic = External::new_send(vec![Buffer::new(vec![0; 10])]);
    let mut sender = endpoint.send_with(handler);
    assert_eq!(nic.tx(1, &mut sender), Ok(0), "nothing was queued");
}

#[test]
fn endpoint_accepts_own_address_and_broadcast() {
    let endpoint = eth::Endpoint::new(mac_addr_1());
    assert!(endpoint.accepts(mac_addr_1()));
    assert!(endpoint.accepts(EthernetAddress([0xff; 6])));
    assert!(!endpoint.accepts(EthernetAddress([9, 9, 9, 9, 9, 9])));
}
