//! Transport packet lifecycle tests: prepare, deinit, reinit in place,
//! header round trips, checksum filling and the error taxonomy.

use ethox::eth;
use ethox::ip;
use ethox::ip::Source;
use ethox::nic::{External, NicPacket};
use ethox::payload::Buffer;
use ethox::udp;
use ethox::wire::{EthernetAddress, IpAddress};

fn own_mac() -> EthernetAddress {
    EthernetAddress([2, 4, 6, 8, 10, 12])
}

fn raw_udp(frame: eth::RawPacket) -> udp::RawPacket {
    let eth::RawPacket { handle, payload } = frame;
    let control = udp::Controller::new(ip::Controller::new(handle));
    udp::RawPacket { control, payload }
}

fn v4_init(payload: usize) -> udp::Init {
    udp::Init {
        source: Source::Exact(IpAddress::v4(192, 0, 2, 1)),
        src_port: 4000,
        dst_addr: IpAddress::v4(192, 0, 2, 9),
        dst_port: 53,
        payload,
    }
}

fn run_send_handler(handler: fn(eth::RawPacket) -> NicPacket) -> Result<usize, ethox::Error> {
    let mut endpoint = eth::Endpoint::new(own_mac());
    let mut nic = External::new_send(vec![Buffer::new(vec![0; 256])]);
    let mut sender = endpoint.send_with(handler);
    nic.tx(1, &mut sender)
}

fn answer_in_place(frame: eth::RawPacket) -> NicPacket {
    let raw = raw_udp(frame);
    let mut packet = raw.prepare(v4_init(4)).expect("prepare fits the buffer");
    packet.packet.write_payload_slice(0, &[0xde, 0xad, 0xbe, 0xef]);

    let answer = udp::Init {
        source: Source::Exact(IpAddress::v4(192, 0, 2, 9)),
        src_port: 53,
        dst_addr: IpAddress::v4(192, 0, 2, 1),
        dst_port: 4000,
        payload: 4,
    };
    let mut answered = packet.reinit(answer).expect("the same sizes fit again");
    assert_eq!(
        answered.packet.payload_to_vec(),
        vec![0xde, 0xad, 0xbe, 0xef],
        "reinit with equal header sizes shifts no payload byte"
    );
    let repr = answered.packet.repr();
    assert_eq!(repr.src_port, 53);
    assert_eq!(repr.dst_port, 4000);
    assert_eq!(repr.length, 12);
    answered.send().expect("sending the answer is possible");
    answered.into_parts()
}

#[test]
fn reinit_in_place_keeps_payload_bytes() {
    assert_eq!(run_send_handler(answer_in_place), Ok(1));
}

fn prepare_roundtrip(frame: eth::RawPacket) -> NicPacket {
    let raw = raw_udp(frame);
    let first = raw.prepare(v4_init(4)).expect("prepare fits the buffer");
    let raw1 = first.deinit();
    let len1 = raw1.payload.len();
    let bytes1 = raw1.payload.slice_to_vec(0, len1);

    let second = raw1.prepare(v4_init(4)).expect("prepare fits again");
    let raw2 = second.deinit();
    let len2 = raw2.payload.len();
    let bytes2 = raw2.payload.slice_to_vec(0, len2);

    assert_eq!(bytes1, bytes2, "emitting the same headers twice is idempotent");
    raw2.into_parts()
}

#[test]
fn prepare_deinit_prepare_reproduces_header_bytes() {
    assert_eq!(run_send_handler(prepare_roundtrip), Ok(0));
}

fn checksum_exact(frame: eth::RawPacket) -> NicPacket {
    let raw = raw_udp(frame);
    let init = udp::Init {
        source: Source::Exact(IpAddress::v4(192, 0, 2, 1)),
        src_port: 5,
        dst_addr: IpAddress::v4(192, 0, 2, 9),
        dst_port: 7,
        payload: 3,
    };
    let mut packet = raw.prepare(init).expect("prepare fits the buffer");
    packet.packet.write_payload_slice(0, &[1, 2, 3]);
    packet.send().expect("sending is possible");

    let raw = packet.deinit();
    let len = raw.payload.len();
    assert_eq!(len, 14 + 20 + 8 + 3);
    let bytes = raw.payload.slice_to_vec(0, len);
    assert_eq!(
        &bytes[34..45],
        &[0, 5, 0, 7, 0, 11, 0xff, 0xe2, 1, 2, 3][..],
        "ports, length, the filled checksum, and the payload"
    );
    raw.into_parts()
}

#[test]
fn send_fills_the_exact_checksum() {
    assert_eq!(run_send_handler(checksum_exact), Ok(1));
}

fn v6_prepare(frame: eth::RawPacket) -> NicPacket {
    let raw = raw_udp(frame);
    let init = udp::Init {
        source: Source::Exact(IpAddress::v6(0xfe80, 0, 0, 0, 0, 0, 0, 1)),
        src_port: 4000,
        dst_addr: IpAddress::v6(0xfe80, 0, 0, 0, 0, 0, 0, 2),
        dst_port: 53,
        payload: 2,
    };
    let mut packet = raw.prepare(init).expect("prepare fits the buffer");
    packet.packet.write_payload_slice(0, &[0xab, 0xcd]);
    assert_eq!(packet.packet.payload_to_vec(), vec![0xab, 0xcd]);

    let raw = packet.deinit();
    assert_eq!(raw.payload.len(), 14 + 40 + 8 + 2, "a v6 header is forty bytes");
    raw.into_parts()
}

#[test]
fn v6_headers_reserve_forty_bytes() {
    assert_eq!(run_send_handler(v6_prepare), Ok(0));
}

fn illegal_addressing(frame: eth::RawPacket) -> NicPacket {
    let raw = raw_udp(frame);
    let broadcast = udp::Init {
        source: Source::Exact(IpAddress::v4(192, 0, 2, 1)),
        src_port: 4000,
        dst_addr: IpAddress::v4(255, 255, 255, 255),
        dst_port: 53,
        payload: 0,
    };
    let raw = match raw.prepare(broadcast) {
        Ok(_) => panic!("a broadcast destination is not addressable"),
        Err((e, raw)) => {
            assert_eq!(e, ethox::Error::Illegal);
            raw
        },
    };

    let crossed = udp::Init {
        source: Source::Exact(IpAddress::v6(0xfe80, 0, 0, 0, 0, 0, 0, 1)),
        src_port: 4000,
        dst_addr: IpAddress::v4(192, 0, 2, 9),
        dst_port: 53,
        payload: 0,
    };
    let raw = match raw.prepare(crossed) {
        Ok(_) => panic!("source and destination versions must agree"),
        Err((e, raw)) => {
            assert_eq!(e, ethox::Error::Illegal);
            raw
        },
    };
    raw.into_parts()
}

#[test]
fn unusable_addressing_is_illegal() {
    assert_eq!(run_send_handler(illegal_addressing), Ok(0));
}

fn oversized_payload(frame: eth::RawPacket) -> NicPacket {
    let raw = raw_udp(frame);
    let too_long_for_wire = v4_init(0x10000);
    let raw = match raw.prepare(too_long_for_wire) {
        Ok(_) => panic!("the length field cannot carry this payload"),
        Err((e, raw)) => {
            assert_eq!(e, ethox::Error::BadSize);
            raw
        },
    };
    let too_long_for_buffer = v4_init(1000);
    let raw = match raw.prepare(too_long_for_buffer) {
        Ok(_) => panic!("the buffer cannot carry this payload"),
        Err((e, raw)) => {
            assert_eq!(e, ethox::Error::BadSize);
            raw
        },
    };
    raw.into_parts()
}

#[test]
fn oversized_payloads_are_bad_size() {
    assert_eq!(run_send_handler(oversized_payload), Ok(0));
}

#[test]
fn wire_and_payload_errors_collapse_onto_the_taxonomy() {
    assert_eq!(
        ethox::Error::from(ethox::wire::WireError::Truncated),
        ethox::Error::Illegal
    );
    assert_eq!(
        ethox::Error::from(ethox::payload::PayloadError::BadSize),
        ethox::Error::BadSize
    );
}

fn overflow_precedes_addressing(frame: eth::RawPacket) -> NicPacket {
    let raw = raw_udp(frame);
    let overflowing_broadcast = udp::Init {
        source: Source::Exact(IpAddress::v4(192, 0, 2, 1)),
        src_port: 4000,
        dst_addr: IpAddress::v4(255, 255, 255, 255),
        dst_port: 53,
        payload: usize::MAX - 4,
    };
    match raw.prepare(overflowing_broadcast) {
        Ok(_) => panic!("the length accounting must overflow"),
        Err((e, raw)) => {
            assert_eq!(
                e,
                ethox::Error::BadSize,
                "the overflowing length is rejected before addressing is examined"
            );
            raw.into_parts()
        },
    }
}

#[test]
fn length_overflow_is_rejected_before_addressing() {
    assert_eq!(run_send_handler(overflow_precedes_addressing), Ok(0));
}
