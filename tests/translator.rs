use std::task::{Context, Poll};

use futures::task::noop_waker;
use tokio::sync::mpsc::channel;
use tun_netstack::addr::{IpAddress, SocketAddress};
use tun_netstack::frame::{parse_datagram, IPV4_MAX_PAYLOAD};
use tun_netstack::udp::{encode_datagram, UdpError, UdpSocket, HOP_LIMIT};

fn v4(a: [u8; 4], port: u16) -> SocketAddress {
    SocketAddress::new(IpAddress::V4(a), port)
}

fn v6(last: u8, port: u16) -> SocketAddress {
    let mut a = [0u8; 16];
    a[0] = 0xfd;
    a[15] = last;
    SocketAddress::new(IpAddress::V6(a), port)
}

fn ping_frame() -> Vec<u8> {
    encode_datagram(b"ping", v4([10, 0, 0, 1], 9000), v4([10, 0, 0, 2], 53))
        .unwrap()
        .unwrap()
}

#[test]
fn ipv4_write_layout_example() {
    let f = ping_frame();
    assert_eq!(f.len(), 20 + 8 + 4);
    assert_eq!(f[0], 0x45);
    assert_eq!(u16::from_be_bytes([f[2], f[3]]), 32);
    assert_eq!(f[8], HOP_LIMIT);
    assert_eq!(f[9], 17);
    assert_eq!(&f[12..16], &[10, 0, 0, 1]);
    assert_eq!(&f[16..20], &[10, 0, 0, 2]);
    assert_eq!(u16::from_be_bytes([f[20], f[21]]), 9000);
    assert_eq!(u16::from_be_bytes([f[22], f[23]]), 53);
    assert_eq!(u16::from_be_bytes([f[24], f[25]]), 12);
    assert_eq!(&f[28..], b"ping");
}

#[test]
fn ipv4_round_trip() {
    let (payload, src, dst) = parse_datagram(&ping_frame()).unwrap();
    assert_eq!(payload, b"ping".to_vec());
    assert_eq!(src, v4([10, 0, 0, 1], 9000));
    assert_eq!(dst, v4([10, 0, 0, 2], 53));
}

#[test]
fn ipv6_round_trip() {
    let f = encode_datagram(b"hello", v6(1, 1234), v6(2, 443)).unwrap().unwrap();
    assert_eq!(f.len(), 40 + 8 + 5);
    assert_eq!(f[0] >> 4, 6);
    assert_eq!(f[0], 0x60);
    assert_eq!(u16::from_be_bytes([f[4], f[5]]), 13);
    assert_eq!(f[6], 17);
    assert_eq!(f[7], HOP_LIMIT);
    assert_eq!(f[8], 0xfd);
    assert_eq!(f[23], 1);
    assert_eq!(f[39], 2);
    assert_eq!(u16::from_be_bytes([f[40], f[41]]), 1234);
    assert_eq!(u16::from_be_bytes([f[42], f[43]]), 443);
    assert_eq!(&f[48..], b"hello");
    let (payload, src, dst) = parse_datagram(&f).unwrap();
    assert_eq!(payload, b"hello".to_vec());
    assert_eq!(src, v6(1, 1234));
    assert_eq!(dst, v6(2, 443));
}

#[test]
fn largest_ipv4_payload_round_trips() {
    let data = vec![7u8; IPV4_MAX_PAYLOAD];
    let f = encode_datagram(&data, v4([1, 2, 3, 4], 1), v4([5, 6, 7, 8], 2)).unwrap().unwrap();
    assert_eq!(f.len(), 65535);
    assert_eq!(parse_datagram(&f).unwrap().0, data);
}

#[test]
fn empty_payload_encodes_nothing() {
    assert_eq!(encode_datagram(b"", v4([1, 1, 1, 1], 1), v4([2, 2, 2, 2], 2)), Ok(None));
}

#[test]
fn mismatched_families_rejected() {
    assert_eq!(
        encode_datagram(b"x", v4([1, 1, 1, 1], 1), v6(2, 2)),
        Err(UdpError::AddressFamilyMismatch)
    );
}

#[test]
fn malformed_frames_rejected() {
    assert!(parse_datagram(&[]).is_none());
    assert!(parse_datagram(&[1, 2, 3]).is_none());
    let mut f = ping_frame();
    f[0] = 0x55;
    assert!(parse_datagram(&f).is_none());
    let mut f = ping_frame();
    f[25] = 40; // UDP length past the end
    assert!(parse_datagram(&f).is_none());
    let f = ping_frame();
    assert!(parse_datagram(&f[..24]).is_none());
}

#[test]
fn trailing_bytes_beyond_total_length_ignored() {
    let mut f = ping_frame();
    f.extend_from_slice(&[9, 9, 9]);
    assert_eq!(parse_datagram(&f).unwrap().0, b"ping".to_vec());
}

#[test]
fn socket_reads_events_in_order() {
    let waker = noop_waker();
    let mut cx = Context::from_waker(&waker);
    let (src_tx, src_rx) = channel(8);
    let (dst_tx, _dst_rx) = channel(8);
    let mut sock = UdpSocket::new(src_rx, dst_tx);
    src_tx.try_send(ping_frame()).unwrap();
    let second = encode_datagram(b"pong", v4([10, 0, 0, 2], 53), v4([10, 0, 0, 1], 9000))
        .unwrap()
        .unwrap();
    src_tx.try_send(second).unwrap();
    match sock.poll_next(&mut cx) {
        Poll::Ready(Some((p, s, d))) => {
            assert_eq!(p, b"ping".to_vec());
            assert_eq!(s, v4([10, 0, 0, 1], 9000));
            assert_eq!(d, v4([10, 0, 0, 2], 53));
        }
        _ => panic!("expected an event"),
    }
    match sock.poll_next(&mut cx) {
        Poll::Ready(Some((p, _, _))) => assert_eq!(p, b"pong".to_vec()),
        _ => panic!("expected an event"),
    }
    assert!(sock.poll_next(&mut cx).is_pending());
}

#[test]
fn malformed_frame_ends_read_half() {
    let waker = noop_waker();
    let mut cx = Context::from_waker(&waker);
    let (src_tx, src_rx) = channel(8);
    let (dst_tx, _dst_rx) = channel(8);
    let mut sock = UdpSocket::new(src_rx, dst_tx);
    src_tx.try_send(vec![0x13, 0x37, 0x42]).unwrap();
    src_tx.try_send(ping_frame()).unwrap();
    assert!(matches!(sock.poll_next(&mut cx), Poll::Ready(None)));
    assert!(matches!(sock.poll_next(&mut cx), Poll::Ready(None)));
}

#[test]
fn closed_source_ends_read_half() {
    let waker = noop_waker();
    let mut cx = Context::from_waker(&waker);
    let (src_tx, src_rx) = channel::<Vec<u8>>(8);
    let (dst_tx, _dst_rx) = channel(8);
    let mut sock = UdpSocket::new(src_rx, dst_tx);
    drop(src_tx);
    assert!(matches!(sock.poll_next(&mut cx), Poll::Ready(None)));
}

#[test]
fn close_ends_read_half_with_frames_queued() {
    let waker = noop_waker();
    let mut cx = Context::from_waker(&waker);
    let (src_tx, src_rx) = channel(8);
    let (dst_tx, _dst_rx) = channel(8);
    let mut sock = UdpSocket::new(src_rx, dst_tx);
    src_tx.try_send(ping_frame()).unwrap();
    assert!(matches!(sock.poll_close(&mut cx), Poll::Ready(Ok(()))));
    assert!(matches!(sock.poll_next(&mut cx), Poll::Ready(None)));
    assert!(src_tx.try_send(ping_frame()).is_err());
}

#[test]
fn write_enqueues_one_frame() {
    let waker = noop_waker();
    let mut cx = Context::from_waker(&waker);
    let (_src_tx, src_rx) = channel::<Vec<u8>>(8);
    let (dst_tx, mut dst_rx) = channel(8);
    let mut sock = UdpSocket::new(src_rx, dst_tx);
    assert!(matches!(sock.poll_ready(&mut cx), Poll::Ready(Ok(()))));
    assert!(sock.is_write_ready());
    let msg = (b"ping".to_vec(), v4([10, 0, 0, 1], 9000), v4([10, 0, 0, 2], 53));
    assert_eq!(sock.start_send(msg), Ok(()));
    assert!(!sock.is_write_ready());
    assert!(matches!(sock.poll_flush(&mut cx), Poll::Ready(Ok(()))));
    let frame = dst_rx.try_recv().unwrap();
    assert_eq!(frame, ping_frame());
    assert!(dst_rx.try_recv().is_err());
}

#[test]
fn empty_write_enqueues_nothing() {
    let waker = noop_waker();
    let mut cx = Context::from_waker(&waker);
    let (_src_tx, src_rx) = channel::<Vec<u8>>(8);
    let (dst_tx, mut dst_rx) = channel(8);
    let mut sock = UdpSocket::new(src_rx, dst_tx);
    assert!(matches!(sock.poll_ready(&mut cx), Poll::Ready(Ok(()))));
    let msg = (Vec::new(), v4([10, 0, 0, 1], 9000), v4([10, 0, 0, 2], 53));
    assert_eq!(sock.start_send(msg), Ok(()));
    assert!(dst_rx.try_recv().is_err());
}

#[test]
fn mismatched_write_enqueues_nothing() {
    let waker = noop_waker();
    let mut cx = Context::from_waker(&waker);
    let (_src_tx, src_rx) = channel::<Vec<u8>>(8);
    let (dst_tx, mut dst_rx) = channel(8);
    let mut sock = UdpSocket::new(src_rx, dst_tx);
    assert!(matches!(sock.poll_ready(&mut cx), Poll::Ready(Ok(()))));
    let msg = (b"x".to_vec(), v4([10, 0, 0, 1], 9000), v6(2, 53));
    assert_eq!(sock.start_send(msg), Err(UdpError::AddressFamilyMismatch));
    assert!(dst_rx.try_recv().is_err());
}

#[test]
fn full_destination_is_not_ready() {
    let waker = noop_waker();
    let mut cx = Context::from_waker(&waker);
    let (_src_tx, src_rx) = channel::<Vec<u8>>(8);
    let (dst_tx, _dst_rx) = channel(1);
    dst_tx.try_send(vec![1]).unwrap();
    let mut sock = UdpSocket::new(src_rx, dst_tx);
    assert!(sock.poll_ready(&mut cx).is_pending());
    assert!(!sock.is_write_ready());
}

#[test]
fn dropped_destination_reports_closed() {
    let waker = noop_waker();
    let mut cx = Context::from_waker(&waker);
    let (_src_tx, src_rx) = channel::<Vec<u8>>(8);
    let (dst_tx, dst_rx) = channel::<Vec<u8>>(8);
    drop(dst_rx);
    let mut sock = UdpSocket::new(src_rx, dst_tx);
    assert!(matches!(sock.poll_ready(&mut cx), Poll::Ready(Err(UdpError::Closed))));
}

#[test]
fn oversized_mismatch_still_reports_family_error() {
    let big = vec![1u8; 70000];
    assert_eq!(
        encode_datagram(&big, v4([1, 1, 1, 1], 1), v6(2, 2)),
        Err(UdpError::AddressFamilyMismatch)
    );
    assert_eq!(
        encode_datagram(&big, v6(1, 1), v4([2, 2, 2, 2], 2)),
        Err(UdpError::AddressFamilyMismatch)
    );
}

#[test]
fn send_after_mismatch_succeeds() {
    let waker = noop_waker();
    let mut cx = Context::from_waker(&waker);
    let (_src_tx, src_rx) = channel::<Vec<u8>>(8);
    let (dst_tx, mut dst_rx) = channel(8);
    let mut sock = UdpSocket::new(src_rx, dst_tx);
    assert!(matches!(sock.poll_ready(&mut cx), Poll::Ready(Ok(()))));
    let bad = (b"x".to_vec(), v6(1, 1), v4([10, 0, 0, 2], 53));
    assert_eq!(sock.start_send(bad), Err(UdpError::AddressFamilyMismatch));
    assert!(sock.is_write_ready());
    let good = (b"ping".to_vec(), v4([10, 0, 0, 1], 9000), v4([10, 0, 0, 2], 53));
    assert_eq!(sock.start_send(good), Ok(()));
    assert_eq!(dst_rx.try_recv().unwrap(), ping_frame());
    assert!(dst_rx.try_recv().is_err());
}

#[test]
fn ipv6_write_enqueues_one_frame() {
    let waker = noop_waker();
    let mut cx = Context::from_waker(&waker);
    let (_src_tx, src_rx) = channel::<Vec<u8>>(8);
    let (dst_tx, mut dst_rx) = channel(8);
    let mut sock = UdpSocket::new(src_rx, dst_tx);
    assert!(matches!(sock.poll_ready(&mut cx), Poll::Ready(Ok(()))));
    assert_eq!(sock.start_send((b"hello".to_vec(), v6(1, 1234), v6(2, 443))), Ok(()));
    let frame = dst_rx.try_recv().unwrap();
    assert_eq!(frame.len(), 48 + 5);
    let (payload, src, dst) = parse_datagram(&frame).unwrap();
    assert_eq!(payload, b"hello".to_vec());
    assert_eq!(src, v6(1, 1234));
    assert_eq!(dst, v6(2, 443));
}

#[test]
fn close_ends_write_half() {
    let waker = noop_waker();
    let mut cx = Context::from_waker(&waker);
    let (_src_tx, src_rx) = channel::<Vec<u8>>(8);
    let (dst_tx, mut dst_rx) = channel(8);
    let mut sock = UdpSocket::new(src_rx, dst_tx);
    assert!(matches!(sock.poll_close(&mut cx), Poll::Ready(Ok(()))));
    assert!(matches!(sock.poll_ready(&mut cx), Poll::Ready(Err(UdpError::Closed))));
    assert!(!sock.is_write_ready());
    assert!(dst_rx.try_recv().is_err());
}

#[test]
fn slot_claimed_before_close_still_commits() {
    let waker = noop_waker();
    let mut cx = Context::from_waker(&waker);
    let (_src_tx, src_rx) = channel::<Vec<u8>>(8);
    let (dst_tx, mut dst_rx) = channel(8);
    let mut sock = UdpSocket::new(src_rx, dst_tx);
    assert!(matches!(sock.poll_ready(&mut cx), Poll::Ready(Ok(()))));
    assert!(matches!(sock.poll_close(&mut cx), Poll::Ready(Ok(()))));
    assert!(sock.is_write_ready());
    let msg = (b"ping".to_vec(), v4([10, 0, 0, 1], 9000), v4([10, 0, 0, 2], 53));
    assert_eq!(sock.start_send(msg), Ok(()));
    assert_eq!(dst_rx.try_recv().unwrap(), ping_frame());
    assert!(matches!(sock.poll_ready(&mut cx), Poll::Ready(Err(UdpError::Closed))));
}
