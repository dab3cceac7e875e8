use trezor_api::transport::error::Error;
use trezor_api::transport::udp::{
    is_pong, ping_datagram, probe_found_emulator, read_error, received_chunk, ProbeReply,
    EMULATOR_PORT,
};

#[test]
fn ping_is_pingping() {
    assert_eq!(ping_datagram(), b"PINGPING".to_vec());
}

#[test]
fn pong_must_be_exactly_pongpong() {
    let mut buf = vec![0u8; 16];
    buf[..8].copy_from_slice(b"PONGPONG");
    assert!(is_pong(&buf, 8));
    assert!(!is_pong(&buf, 7));
    assert!(!is_pong(&buf, 9));
    buf[3] = b'X';
    assert!(!is_pong(&buf, 8));
}

#[test]
fn emulator_port() {
    assert_eq!(EMULATOR_PORT, 21326);
}

#[test]
fn chunk_is_prefix_of_buffer() {
    assert_eq!(received_chunk(&[1, 2, 3, 4], 2), vec![1, 2]);
}

#[test]
fn read_errors_map_to_timeouts() {
    let e = std::io::Error::new(std::io::ErrorKind::WouldBlock, "x");
    assert!(matches!(read_error(true, e), Error::DeviceReadTimeout));
    let e = std::io::Error::new(std::io::ErrorKind::Other, "x");
    assert!(matches!(read_error(false, e), Error::Io(_)));
}

#[test]
fn probes_find_only_answering_emulators() {
    let mut buf = vec![0u8; 16];
    buf[..8].copy_from_slice(b"PONGPONG");
    assert!(probe_found_emulator(&buf, ProbeReply::Received(8)));
    assert!(!probe_found_emulator(&buf, ProbeReply::Received(4)));
    assert!(!probe_found_emulator(&buf, ProbeReply::TimedOut));
}

#[test]
fn transport_error_messages() {
    assert_eq!(Error::DeviceBadMagic.message(), "The device sent a chunk with a wrong magic value.");
    assert_eq!(Error::DeviceNotFound.message(), "The device to connect to was not found");
    assert_eq!(Error::InvalidMessageType(9).message(), "Received a non-existing message type from the device.");
    let io = std::io::Error::new(std::io::ErrorKind::Other, "boom");
    assert_eq!(Error::Io(io).message(), "IO error: boom");
}
