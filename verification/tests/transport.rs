//! Byte-transport behaviour, exercised over a connected pair of local
//! stream sockets so the tests run on any machine: the read and write paths
//! under test are the same ones a vsock connection uses.

use nix::fcntl::fcntl;
use nix::fcntl::FcntlArg;
use nix::fcntl::OFlag;
use nix::sys::socket::socketpair;
use nix::sys::socket::AddressFamily;
use nix::sys::socket::SockFlag;
use nix::sys::socket::SockType;
use vsock_helper::error::VsockError;
use vsock_helper::VsockStream;

fn stream_pair() -> (VsockStream, VsockStream) {
    let (a, b) = socketpair(AddressFamily::Unix, SockType::Stream, None, SockFlag::empty())
        .expect("socketpair");
    (VsockStream::from_fd(a), VsockStream::from_fd(b))
}

#[test]
fn round_trip_one_byte() {
    let (tx, rx) = stream_pair();
    assert_eq!(tx.write(&[0xAB]), Ok(1));
    let mut buf = vec![0u8; 16];
    assert_eq!(rx.read(&mut buf), Ok(1));
    assert_eq!(buf[0], 0xAB);
}

#[test]
fn round_trip_empty_buffer() {
    let (tx, rx) = stream_pair();
    assert_eq!(tx.write(&[]), Ok(0));
    // With a byte already queued, a read into a zero-length buffer still
    // moves nothing and leaves the queued byte for the next read.
    assert_eq!(tx.write(&[7]), Ok(1));
    let mut empty: Vec<u8> = Vec::new();
    assert_eq!(rx.read(&mut empty), Ok(0));
    assert_eq!(empty.len(), 0);
    let mut one = vec![0u8; 1];
    assert_eq!(rx.read(&mut one), Ok(1));
    assert_eq!(one[0], 7);
}

#[test]
fn round_trip_4096_bytes_in_order() {
    let (tx, rx) = stream_pair();
    let sent: Vec<u8> = (0..4096u32).map(|i| (i % 251) as u8).collect();
    assert_eq!(tx.write(&sent), Ok(4096));
    let mut got: Vec<u8> = Vec::new();
    while got.len() < 4096 {
        let mut buf = vec![0u8; 1024];
        let n = rx.read(&mut buf).expect("read");
        assert!(n > 0, "peer data must arrive before close");
        got.extend_from_slice(&buf[..n]);
    }
    assert_eq!(got, sent);
}

#[test]
fn oversized_write_is_partial_and_remainder_transfers() {
    let (tx, rx) = stream_pair();
    // A non-blocking sender turns "buffer full" into a partial count instead
    // of blocking the test.
    fcntl(tx.as_raw_fd(), FcntlArg::F_SETFL(OFlag::O_NONBLOCK)).expect("fcntl");
    let big = vec![0x5Au8; 8 * 1024 * 1024];
    let n = tx.write(&big).expect("first write");
    assert!(n > 0);
    assert!(n < big.len(), "a write above the OS send limit must be partial");
    let mut drained = 0usize;
    while drained < n {
        let mut buf = vec![0u8; 64 * 1024];
        let m = rx.read(&mut buf).expect("drain");
        assert!(m > 0);
        assert!(buf[..m].iter().all(|b| *b == 0x5A));
        drained += m;
    }
    assert_eq!(drained, n);
    // With room freed, a write with (part of) the remainder goes through.
    let k = tx.write(&big[n..n + 1024]).expect("second write");
    assert_eq!(k, 1024);
}

#[test]
fn would_block_surfaces_as_io_error_not_interruption() {
    let (tx, _rx) = stream_pair();
    fcntl(tx.as_raw_fd(), FcntlArg::F_SETFL(OFlag::O_NONBLOCK)).expect("fcntl");
    let big = vec![1u8; 1024 * 1024];
    // Fill the send buffer; once it is full the next write must fail with
    // EAGAIN, surfaced as an ordinary transfer error.
    loop {
        match tx.write(&big) {
            Ok(_) => continue,
            Err(e) => {
                assert!(matches!(e, VsockError::Io { errno: 11 }));
                return;
            }
        }
    }
}

#[test]
fn multi_megabyte_payload_round_trips_in_order() {
    let (tx, rx) = stream_pair();
    // Both ends non-blocking, so one thread can pump writes and reads in
    // turn until the whole payload has crossed.
    fcntl(tx.as_raw_fd(), FcntlArg::F_SETFL(OFlag::O_NONBLOCK)).expect("fcntl");
    fcntl(rx.as_raw_fd(), FcntlArg::F_SETFL(OFlag::O_NONBLOCK)).expect("fcntl");
    let payload: Vec<u8> = (0..4 * 1024 * 1024u32).map(|i| (i % 253) as u8).collect();
    let mut written = 0usize;
    let mut got: Vec<u8> = Vec::with_capacity(payload.len());
    let mut rounds = 0u32;
    while got.len() < payload.len() {
        rounds += 1;
        assert!(rounds < 1_000_000, "no progress moving the payload");
        if written < payload.len() {
            match tx.write(&payload[written..]) {
                Ok(n) => written += n,
                Err(VsockError::Io { errno: 11 }) => (),
                Err(e) => panic!("write: {}", e.message()),
            }
        }
        let mut buf = vec![0u8; 64 * 1024];
        match rx.read(&mut buf) {
            Ok(n) => got.extend_from_slice(&buf[..n]),
            Err(VsockError::Io { errno: 11 }) => (),
            Err(e) => panic!("read: {}", e.message()),
        }
    }
    assert_eq!(got, payload);
}

#[test]
fn flush_always_succeeds() {
    let (tx, _rx) = stream_pair();
    assert_eq!(tx.flush(), Ok(()));
}

#[test]
fn dropping_a_stream_releases_its_handle_once() {
    let (a, b) = socketpair(AddressFamily::Unix, SockType::Stream, None, SockFlag::empty())
        .expect("socketpair");
    let tx = VsockStream::from_fd(a);
    assert_eq!(tx.as_raw_fd(), a);
    drop(tx);
    // The handle is gone: a fresh wrapper around the stale descriptor fails
    // with EBADF instead of reaching the (still open) peer.
    let stale = VsockStream::from_fd(a);
    assert_eq!(stale.write(&[1]), Err(VsockError::Io { errno: 9 }));
    drop(VsockStream::from_fd(b));
}
