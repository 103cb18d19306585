use tcpserver::{teardown, Error, SocketAddress, TCPPeer};
use tokio::io::{AsyncReadExt, AsyncWriteExt, DuplexStream, ReadHalf, WriteHalf};

fn runtime() -> tokio::runtime::Runtime {
    tokio::runtime::Builder::new_current_thread()
        .enable_all()
        .build()
        .unwrap()
}

fn remote() -> SocketAddress {
    SocketAddress::V4 {
        ip: 0xc0a8_0001,
        port: 40_000,
    }
}

/// A connected peer and the far end of its stream.
fn connected() -> (TCPPeer<DuplexStream>, ReadHalf<DuplexStream>, DuplexStream) {
    let (near, far) = tokio::io::duplex(1024);
    let (reader, writer): (ReadHalf<DuplexStream>, WriteHalf<DuplexStream>) = tokio::io::split(near);
    (TCPPeer::new(remote(), writer), reader, far)
}

#[test]
fn new_peer_is_connected() {
    let (peer, _reader, _far) = connected();
    assert!(!peer.is_disconnect());
    assert_eq!(peer.addr(), remote());
}

#[test]
fn addr_is_the_address_given_for_both_families() {
    let (near, _far) = tokio::io::duplex(16);
    let (_reader, writer) = tokio::io::split(near);
    let v6 = SocketAddress::V6 {
        ip: 1,
        port: 8998,
        flowinfo: 7,
        scope_id: 3,
    };
    let peer = TCPPeer::new(v6, writer);
    assert_eq!(peer.addr(), v6);
    assert_eq!(peer.addr().port(), 8998);
    assert_eq!(remote().port(), 40_000);
}

#[test]
fn send_hands_out_the_write_half() {
    let (mut peer, _reader, mut far) = connected();
    runtime().block_on(async {
        let sender = peer.send(b"hello").unwrap();
        let written = sender.write(b"hello").await.unwrap();
        assert_eq!(written, 5);
        let mut got = [0u8; 5];
        far.read_exact(&mut got).await.unwrap();
        assert_eq!(&got, b"hello");
    });
    assert!(!peer.is_disconnect());
    assert_eq!(peer.addr(), remote());
}

#[test]
fn send_rejects_an_empty_buffer() {
    let (mut peer, _reader, _far) = connected();
    assert!(matches!(peer.send(b""), Err(Error::EmptyBuffer)));
    assert!(!peer.is_disconnect());
    assert!(peer.send(b"x").is_ok());
}

#[test]
fn send_all_admits_an_empty_buffer() {
    let (mut peer, _reader, _far) = connected();
    assert!(peer.send_all(b"").is_ok());
    assert!(peer.send_all(b"abc").is_ok());
}

#[test]
fn flush_is_admitted_while_connected() {
    let (mut peer, _reader, _far) = connected();
    runtime().block_on(async {
        let sender = peer.flush().unwrap();
        sender.flush().await.unwrap();
    });
    assert!(!peer.is_disconnect());
}

#[test]
fn disconnect_takes_the_write_half_once() {
    let (mut peer, _reader, mut far) = connected();
    let taken = peer.disconnect();
    assert!(taken.is_some());
    assert!(peer.is_disconnect());
    runtime().block_on(async {
        let mut sender = taken.unwrap();
        sender.shutdown().await.unwrap();
        let mut rest = Vec::new();
        let n = far.read_to_end(&mut rest).await.unwrap();
        assert_eq!(n, 0);
    });
    assert!(peer.disconnect().is_none());
    assert!(peer.is_disconnect());
}

#[test]
fn disconnect_is_idempotent() {
    let (mut peer, _reader, _far) = connected();
    let mut handed_out = 0;
    for _ in 0..5 {
        if peer.disconnect().is_some() {
            handed_out += 1;
        }
        assert!(peer.is_disconnect());
        assert_eq!(peer.addr(), remote());
    }
    assert_eq!(handed_out, 1);
}

#[test]
fn writes_after_disconnect_fail_with_connection_reset() {
    let (mut peer, _reader, _far) = connected();
    let _ = peer.disconnect();
    assert!(matches!(peer.send(b"hello"), Err(Error::ConnectionReset)));
    assert!(matches!(peer.send(b""), Err(Error::ConnectionReset)));
    assert!(matches!(peer.send_all(b"hello"), Err(Error::ConnectionReset)));
    assert!(matches!(peer.send_all(b""), Err(Error::ConnectionReset)));
    assert!(matches!(peer.flush(), Err(Error::ConnectionReset)));
    assert!(peer.is_disconnect());
    assert_eq!(peer.addr(), remote());
}

#[test]
fn two_send_all_arrive_one_after_the_other() {
    let (mut peer, _reader, mut far) = connected();
    runtime().block_on(async {
        for chunk in [&b"AAAA"[..], &b"BBBB"[..]] {
            let sender = peer.send_all(chunk).unwrap();
            sender.write_all(chunk).await.unwrap();
            sender.flush().await.unwrap();
        }
        let mut got = [0u8; 8];
        far.read_exact(&mut got).await.unwrap();
        assert_eq!(&got, b"AAAABBBB");
    });
}

#[test]
fn teardown_reports_success_whatever_the_shutdown_gave() {
    let (answer, kept) = teardown(None);
    assert!(answer.is_ok());
    assert!(kept.is_none());

    let (answer, kept) = teardown(Some(Ok(())));
    assert!(answer.is_ok());
    assert!(kept.is_none());

    let failure = std::io::Error::new(std::io::ErrorKind::BrokenPipe, "gone");
    let (answer, kept) = teardown(Some(Err(failure)));
    assert!(answer.is_ok());
    assert_eq!(kept.unwrap().kind(), std::io::ErrorKind::BrokenPipe);
}

#[test]
fn io_and_join_failures_become_errors() {
    let failure = std::io::Error::new(std::io::ErrorKind::ConnectionAborted, "aborted");
    match Error::from(failure) {
        Error::IOError(e) => assert_eq!(e.kind(), std::io::ErrorKind::ConnectionAborted),
        other => panic!("{:?}", other),
    }
    let rt = runtime();
    let joined = rt.block_on(async {
        let handle = tokio::spawn(std::future::pending::<()>());
        handle.abort();
        handle.await
    });
    match Error::from(joined.unwrap_err()) {
        Error::JoinError(e) => assert!(e.is_cancelled()),
        other => panic!("{:?}", other),
    }
}
