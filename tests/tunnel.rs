use quic_tunnel::driver::{is_expected_close, CloseKind, DriverExit, TcpIngress};
use quic_tunnel::frame::{decode_datagram, decode_datagrams, encode_datagram};
use quic_tunnel::pump::{ExitReason, Phase, Pump, PumpAction, ReadOutcome, TcpTunnel, TransferError, Verdict};
use quic_tunnel::session_map::{Route, SessionMap};
use quic_tunnel::udp::{decode_udp_start, encode_udp_start, PeerAddr, UdpIngressStep, UdpTunnel};

fn step(p: &mut Pump, outcome: ReadOutcome, buf: &[u8], sink_ok: bool, before: i32, after: i32) -> Verdict {
    match p.on_read(outcome, buf) {
        PumpAction::Write(_) | PumpAction::HalfClose => {
            p.on_sink(sink_ok).ok();
        }
        PumpAction::Done(_) => {}
    }
    p.conclude(before, after)
}

#[test]
fn frame_has_big_endian_length_prefix() {
    assert_eq!(encode_datagram(b"hello"), vec![0, 5, b'h', b'e', b'l', b'l', b'o']);
    let big = vec![7u8; 300];
    let f = encode_datagram(&big);
    assert_eq!(&f[..2], &[1, 44]);
    assert_eq!(f.len(), 302);
    assert_eq!(encode_datagram(&[]), vec![0, 0]);
}

#[test]
fn frames_keep_datagram_boundaries_and_order() {
    let sizes = [3usize, 0, 1500, 65535, 1];
    let mut wire = Vec::new();
    let mut sent = Vec::new();
    for (i, s) in sizes.iter().enumerate() {
        let d: Vec<u8> = (0..*s).map(|j| (i * 31 + j) as u8).collect();
        wire.extend(encode_datagram(&d));
        sent.push(d);
    }
    let (got, used) = decode_datagrams(&wire);
    assert_eq!(got, sent);
    assert_eq!(used, wire.len());
}

#[test]
fn partial_frame_is_left_for_later() {
    let mut wire = encode_datagram(b"abc");
    wire.extend_from_slice(&[0, 9, 1, 2]);
    let (got, used) = decode_datagrams(&wire);
    assert_eq!(got, vec![b"abc".to_vec()]);
    assert_eq!(used, 5);
    assert_eq!(decode_datagram(&wire, 5), None);
    assert_eq!(decode_datagram(&wire, 0), Some((b"abc".to_vec(), 5)));
    assert_eq!(decode_datagram(&[0], 0), None);
}

#[test]
fn echo_session_counts_five_bytes_each_way() {
    let mut to_tcp = Pump::new();
    let mut to_quic = Pump::new();
    let hello = b"hello";
    assert!(matches!(to_quic.on_read(ReadOutcome::Data(5), hello), PumpAction::Write(5)));
    assert_eq!(to_quic.on_sink(true), Ok(5));
    assert_eq!(to_quic.conclude(0, 0), Verdict::Continue);
    assert!(matches!(to_tcp.on_read(ReadOutcome::Data(5), hello), PumpAction::Write(5)));
    assert_eq!(to_tcp.on_sink(true), Ok(5));
    assert_eq!(to_tcp.conclude(1, 1), Verdict::Continue);
    assert!(matches!(to_quic.on_read(ReadOutcome::Data(0), hello), PumpAction::HalfClose));
    assert_eq!(to_quic.on_sink(true), Ok(0));
    assert_eq!(to_quic.conclude(2, 2), Verdict::Exit(ExitReason::EndOfStream));
    assert!(matches!(to_tcp.on_read(ReadOutcome::EndOfStream, hello), PumpAction::HalfClose));
    assert_eq!(to_tcp.on_sink(true), Ok(0));
    assert_eq!(to_tcp.conclude(3, 3), Verdict::Exit(ExitReason::EndOfStream));
    assert_eq!(to_quic.transferred(), 5);
    assert_eq!(to_tcp.transferred(), 5);
}

#[test]
fn large_transfer_counts_one_gib() {
    let buf = vec![0xabu8; 8192];
    let mut p = Pump::new();
    let mut epoch: i32 = 0;
    for _ in 0..(1u64 << 30) / 8192 {
        let v = step(&mut p, ReadOutcome::Data(8192), &buf, true, epoch, epoch);
        epoch = epoch.wrapping_add(1);
        assert_eq!(v, Verdict::Continue);
    }
    assert_eq!(p.transferred(), 1u64 << 30);
}

#[test]
fn failed_write_is_fatal_and_not_counted() {
    let mut p = Pump::new();
    assert_eq!(step(&mut p, ReadOutcome::Data(4), b"abcd", true, 0, 0), Verdict::Continue);
    assert!(matches!(p.on_read(ReadOutcome::Data(3), b"xyz"), PumpAction::Write(3)));
    assert_eq!(p.on_sink(false), Err(TransferError::InternalError));
    assert_eq!(p.conclude(1, 1), Verdict::Exit(ExitReason::Fatal));
    assert_eq!(p.transferred(), 4);
    assert!(matches!(p.phase(), Phase::Exited(ExitReason::Fatal)));
}

#[test]
fn failed_read_and_failed_half_close_are_fatal() {
    let mut p = Pump::new();
    assert!(matches!(p.on_read(ReadOutcome::Failed, b""), PumpAction::Done(Err(TransferError::InternalError))));
    assert_eq!(p.conclude(0, 5), Verdict::Exit(ExitReason::Fatal));
    let mut q = Pump::new();
    assert!(matches!(q.on_read(ReadOutcome::EndOfStream, b""), PumpAction::HalfClose));
    assert_eq!(q.on_sink(false), Err(TransferError::InternalError));
    assert_eq!(q.conclude(0, 5), Verdict::Exit(ExitReason::Fatal));
}

#[test]
fn idle_keep_alive_survives_while_sibling_sends() {
    // the idle side times out ten times; each time the busy side had moved the epoch
    let mut idle = Pump::new();
    let mut busy = Pump::new();
    let mut epoch: i32 = 0;
    for _ in 0..10 {
        let before = epoch;
        for _ in 0..4 {
            let b = epoch;
            epoch = epoch.wrapping_add(1);
            assert_eq!(step(&mut busy, ReadOutcome::Data(1), b"x", true, b, b), Verdict::Continue);
        }
        let after = epoch;
        epoch = epoch.wrapping_add(1);
        assert_eq!(step(&mut idle, ReadOutcome::TimedOut, b"", true, before, after), Verdict::Continue);
    }
    assert!(matches!(idle.phase(), Phase::Reading));
    assert_eq!(busy.transferred(), 40);
}

#[test]
fn stuck_tunnel_ends_each_direction_once() {
    let mut a = Pump::new();
    let mut b = Pump::new();
    assert_eq!(step(&mut a, ReadOutcome::TimedOut, b"", true, 7, 7), Verdict::Exit(ExitReason::Stuck));
    assert_eq!(step(&mut b, ReadOutcome::TimedOut, b"", true, 8, 8), Verdict::Exit(ExitReason::Stuck));
    assert!(matches!(a.phase(), Phase::Exited(ExitReason::Stuck)));
    assert!(matches!(b.phase(), Phase::Exited(ExitReason::Stuck)));
}

#[test]
fn epoch_wraps_without_false_stuck() {
    assert_eq!(
        TcpTunnel::arbitrate(Err(TransferError::TimeoutError), i32::MAX, i32::MIN),
        Verdict::Continue
    );
    assert_eq!(TcpTunnel::arbitrate(Ok(0), 1, 2), Verdict::Exit(ExitReason::EndOfStream));
    assert_eq!(TcpTunnel::arbitrate(Ok(9), 1, 1), Verdict::Continue);
    assert_eq!(TcpTunnel::arbitrate(Err(TransferError::InternalError), 1, 2), Verdict::Exit(ExitReason::Fatal));
}

#[test]
fn reconnect_keeps_pending_connection() {
    let mut d: TcpIngress<u32> = TcpIngress::new(None);
    assert!(!d.take_pending());
    assert!(d.accept(Some(41)));
    assert_eq!(d.opened(true), Some(41));
    assert!(!d.take_pending());
    assert!(d.accept(Some(42)));
    assert_eq!(d.opened(false), None);
    assert_eq!(d.exit(), Some(DriverExit::Reconnect));
    let slot = d.into_pending();
    assert_eq!(slot, Some(42));

    let mut d2 = TcpIngress::new(slot);
    assert!(d2.take_pending());
    assert_eq!(d2.opened(true), Some(42));
    assert!(!d2.take_pending());
    assert!(!d2.accept(None));
    assert_eq!(d2.exit(), Some(DriverExit::QueueClosed));
    assert_eq!(d2.into_pending(), None);
}

#[test]
fn connection_close_kinds() {
    assert!(is_expected_close(CloseKind::TimedOut));
    assert!(is_expected_close(CloseKind::ApplicationClosed));
    assert!(!is_expected_close(CloseKind::Other));
}

#[test]
fn udp_multi_peer_gets_two_sessions() {
    let first = PeerAddr { family: 4, ip: 0x7f00_0001, port: 5000 };
    let second = PeerAddr { family: 4, ip: 0x7f00_0001, port: 5001 };
    let mut m = SessionMap::new();
    assert_eq!(m.len(), 0);
    assert_eq!(m.route(first), Route::OpenNew);
    assert!(m.register(first, 0));
    assert_eq!(m.route(second), Route::OpenNew);
    assert!(m.register(second, 4));
    assert_eq!(m.len(), 2);
    assert_eq!(m.route(first), Route::Existing(0));
    assert_eq!(m.route(second), Route::Existing(4));
    assert!(!m.register(first, 8));
    assert_eq!(m.route(first), Route::Existing(0));
    assert_eq!(decode_udp_start(&encode_udp_start(first)), Some(first));
    assert_eq!(decode_udp_start(&encode_udp_start(second)), Some(second));
    assert_eq!(decode_datagrams(&encode_datagram(b"d1")).0, vec![b"d1".to_vec()]);
}

#[test]
fn udp_session_removed_only_by_its_own_task() {
    let p = PeerAddr { family: 6, ip: 1, port: 53 };
    let mut m = SessionMap::new();
    assert!(m.register(p, 12));
    assert!(!m.on_recv_exit(p, 99));
    assert_eq!(m.len(), 1);
    assert!(m.on_recv_exit(p, 12));
    assert_eq!(m.len(), 0);
    assert_eq!(m.route(p), Route::OpenNew);
    assert!(!m.on_recv_exit(p, 12));
}

#[test]
fn udp_start_message_layout() {
    let p = PeerAddr { family: 4, ip: 0x0102_0304, port: 0x1f90 };
    let b = encode_udp_start(p);
    assert_eq!(b.len(), 20);
    assert_eq!(&b[..6], &[1, 4, 4, 3, 2, 1]);
    assert_eq!(&b[18..], &[0x90, 0x1f]);
    let v6 = PeerAddr { family: 6, ip: u128::MAX, port: 1 };
    assert_eq!(decode_udp_start(&encode_udp_start(v6)), Some(v6));
}

#[test]
fn udp_start_rejects_other_messages() {
    assert_eq!(decode_udp_start(&[]), None);
    let mut b = encode_udp_start(PeerAddr { family: 4, ip: 1, port: 2 });
    b[0] = 2;
    assert_eq!(decode_udp_start(&b), None);
    b[0] = 1;
    b[1] = 5;
    assert_eq!(decode_udp_start(&b), None);
    b[1] = 4;
    b[10] = 1;
    assert_eq!(decode_udp_start(&b), None);
}

#[test]
fn udp_open_failure_steps() {
    assert_eq!(UdpTunnel::on_open_failure(false, true), UdpIngressStep::Continue);
    assert_eq!(UdpTunnel::on_open_failure(true, true), UdpIngressStep::Quit { notify_tcp: true });
    assert_eq!(UdpTunnel::on_open_failure(true, false), UdpIngressStep::Quit { notify_tcp: false });
}
