use wasmer::poll::{
    is_err_closed, iterate_poll_events, net_error_into_io_err, poll_event, poll_guard_mode, poll_interest, poll_outcome,
    socket_readiness, EpollType, EventResult, EventResultType, EventType, GuardLabel, InodeKind,
    InodeValFilePollGuard, InodeValFilePollGuardJoin, IoError, IoErrorKind, NetworkError, PollEvent, PollGuardMode,
    PollInterest, PollOutcome, Readiness, SocketKind, SocketNotifications, Subscription,
};

fn read_sub() -> Subscription {
    Subscription { userdata: 42, type_: EventType::FdRead }
}

#[test]
fn closing_kinds() {
    assert!(is_err_closed(IoErrorKind::ConnectionReset));
    assert!(is_err_closed(IoErrorKind::UnexpectedEof));
    assert!(is_err_closed(IoErrorKind::BrokenPipe));
    assert!(!is_err_closed(IoErrorKind::WouldBlock));
    assert!(!is_err_closed(IoErrorKind::TimedOut));
}

#[test]
fn network_errors_into_io_errors() {
    assert_eq!(net_error_into_io_err(NetworkError::InvalidFd), IoError::Kind(IoErrorKind::BrokenPipe));
    assert_eq!(net_error_into_io_err(NetworkError::AddressInUse), IoError::Kind(IoErrorKind::AddrInUse));
    assert_eq!(net_error_into_io_err(NetworkError::InsufficientMemory), IoError::Kind(IoErrorKind::OutOfMemory));
    assert_eq!(net_error_into_io_err(NetworkError::TooManyOpenFiles), IoError::TooManyOpenFiles);
    assert_eq!(net_error_into_io_err(NetworkError::WouldBlock), IoError::Kind(IoErrorKind::WouldBlock));
}

#[test]
fn interest_of_events() {
    let i = poll_interest(&[PollEvent::PollIn, PollEvent::PollError]);
    assert_eq!(i, PollInterest { has_read: true, has_write: false, has_close: true, has_hangup: false });
    let i = poll_interest(&[PollEvent::PollHangUp, PollEvent::PollOut]);
    assert_eq!(i, PollInterest { has_read: false, has_write: true, has_close: true, has_hangup: true });
    let i = poll_interest(&[]);
    assert_eq!(i, PollInterest { has_read: false, has_write: false, has_close: false, has_hangup: false });
}

#[test]
fn events_for_each_readiness() {
    assert_eq!(poll_event(Readiness::Pending, true, true, read_sub(), EpollType::EpollIn), None);
    assert_eq!(
        poll_event(Readiness::Ready(5), false, false, read_sub(), EpollType::EpollIn),
        Some((EventResult { userdata: 42, error: 0, type_: EventType::FdRead, inner: EventResultType::Fd { nbytes: 5, hangup: false } }, EpollType::EpollIn))
    );
    assert_eq!(
        poll_event(Readiness::Ready(0), false, false, read_sub(), EpollType::EpollOut),
        Some((EventResult { userdata: 42, error: 0, type_: EventType::FdRead, inner: EventResultType::Fd { nbytes: 0, hangup: true } }, EpollType::EpollOut))
    );
    let closed = Readiness::Failed { kind: IoErrorKind::ConnectionReset, errno: 9 };
    assert_eq!(
        poll_event(closed, true, false, read_sub(), EpollType::EpollIn),
        Some((EventResult { userdata: 42, error: 0, type_: EventType::FdRead, inner: EventResultType::Fd { nbytes: 0, hangup: false } }, EpollType::EpollHup))
    );
    assert_eq!(
        poll_event(closed, false, false, read_sub(), EpollType::EpollIn),
        Some((EventResult { userdata: 42, error: 9, type_: EventType::FdRead, inner: EventResultType::Fd { nbytes: 0, hangup: true } }, EpollType::EpollErr))
    );
    let clock = Subscription { userdata: 1, type_: EventType::Clock };
    assert_eq!(
        poll_event(Readiness::Ready(3), false, false, clock, EpollType::EpollIn),
        Some((EventResult { userdata: 1, error: 0, type_: EventType::Clock, inner: EventResultType::Clock(0) }, EpollType::EpollIn))
    );
}

#[test]
fn sockets_report_errors_once() {
    let mut n = SocketNotifications { closed: false, failed: false };
    assert_eq!(socket_readiness(None, &mut n), Readiness::Ready(1));
    assert_eq!(socket_readiness(Some(Ok(())), &mut n), Readiness::Pending);
    // An invalid descriptor stands for a broken pipe: the connection is closed.
    assert_eq!(socket_readiness(Some(Err(NetworkError::InvalidFd)), &mut n), Readiness::Ready(0));
    assert!(n.closed);
    assert!(!n.failed);
    assert_eq!(socket_readiness(Some(Err(NetworkError::ConnectionReset)), &mut n), Readiness::Pending);
    assert_eq!(socket_readiness(Some(Err(NetworkError::TimedOut)), &mut n), Readiness::Ready(0));
    assert!(n.failed);
    assert_eq!(socket_readiness(Some(Err(NetworkError::TimedOut)), &mut n), Readiness::Pending);
    // Too many open files is not a closed connection.
    let mut m = SocketNotifications { closed: false, failed: false };
    assert_eq!(socket_readiness(Some(Err(NetworkError::TooManyOpenFiles)), &mut m), Readiness::Ready(0));
    assert_eq!(m, SocketNotifications { closed: false, failed: true });
}

#[test]
fn outcomes_of_a_poll() {
    let both = poll_interest(&[PollEvent::PollIn, PollEvent::PollOut]);
    match poll_outcome(both, Readiness::Ready(2), Readiness::Ready(7), read_sub()) {
        PollOutcome::Ready(v) => {
            assert_eq!(v.len(), 2);
            assert_eq!(v[0].1, EpollType::EpollIn);
            assert_eq!(v[1].1, EpollType::EpollOut);
            assert_eq!(v[1].0.inner, EventResultType::Fd { nbytes: 7, hangup: false });
        },
        PollOutcome::Pending => panic!("expected events"),
    }
    assert!(matches!(poll_outcome(both, Readiness::Pending, Readiness::Pending, read_sub()), PollOutcome::Pending));
    let write_only = poll_interest(&[PollEvent::PollOut]);
    // Reading is not asked for, so its readiness is not reported.
    assert!(matches!(poll_outcome(write_only, Readiness::Ready(4), Readiness::Pending, read_sub()), PollOutcome::Pending));
}

#[test]
fn guard_modes() {
    assert_eq!(poll_guard_mode(InodeKind::File { has_handle: true }), Some(PollGuardMode::File));
    assert_eq!(poll_guard_mode(InodeKind::File { has_handle: false }), None);
    assert_eq!(poll_guard_mode(InodeKind::Socket), Some(PollGuardMode::Socket));
    assert_eq!(poll_guard_mode(InodeKind::Pipe), Some(PollGuardMode::Pipe));
    assert_eq!(poll_guard_mode(InodeKind::EventNotifications), Some(PollGuardMode::EventNotifications));
    assert_eq!(poll_guard_mode(InodeKind::Other), None);
}

#[test]
fn events_of_a_set() {
    assert_eq!(iterate_poll_events(0), vec![]);
    assert_eq!(iterate_poll_events(1), vec![PollEvent::PollIn]);
    assert_eq!(
        iterate_poll_events(1 | 2 | 8),
        vec![PollEvent::PollIn, PollEvent::PollOut, PollEvent::PollHangUp]
    );
    assert_eq!(iterate_poll_events(4 | 16 | 32), vec![PollEvent::PollError, PollEvent::PollInvalid]);
}

#[test]
fn guards_for_inodes() {
    let sub = read_sub();
    assert_eq!(
        InodeValFilePollGuard::new(3, 1, sub, InodeKind::Socket),
        Some(InodeValFilePollGuard { fd: 3, peb: 1, subscription: sub, mode: PollGuardMode::Socket })
    );
    assert_eq!(InodeValFilePollGuard::new(3, 1, sub, InodeKind::File { has_handle: false }), None);
    let g = InodeValFilePollGuard::new(4, 2, sub, InodeKind::File { has_handle: true }).unwrap();
    assert_eq!(g.label(SocketKind::UdpSocket), GuardLabel::File);
    let s = InodeValFilePollGuard::new(5, 2, sub, InodeKind::Socket).unwrap();
    assert_eq!(s.label(SocketKind::TcpStream { closed: true }), GuardLabel::TcpStreamClosed);
    assert_eq!(s.label(SocketKind::TcpStream { closed: false }), GuardLabel::TcpStream);
    assert_eq!(s.label(SocketKind::TcpListener), GuardLabel::TcpListener);
    assert_eq!(s.label(SocketKind::Raw), GuardLabel::RawSocket);
    assert_eq!(s.label(SocketKind::Other), GuardLabel::Socket);
    let p = InodeValFilePollGuard::new(6, 2, sub, InodeKind::Pipe).unwrap();
    assert_eq!(p.label(SocketKind::Other), GuardLabel::Pipe);
}

#[test]
fn polling_a_joined_guard() {
    let sub = read_sub();
    // Reading and hang-ups.
    let g = InodeValFilePollGuard::new(7, 1 | 8, sub, InodeKind::Pipe).unwrap();
    let j = InodeValFilePollGuardJoin::new(g);
    assert_eq!(j.fd(), 7);
    assert_eq!(j.peb(), 9);
    assert_eq!(j.mode(), PollGuardMode::Pipe);
    assert_eq!(j.interest(), PollInterest { has_read: true, has_write: false, has_close: true, has_hangup: true });
    let closed = Readiness::Failed { kind: IoErrorKind::BrokenPipe, errno: 64 };
    match j.poll(closed, Readiness::Ready(1)) {
        PollOutcome::Ready(v) => {
            assert_eq!(v.len(), 1);
            assert_eq!(
                v[0],
                (EventResult { userdata: 42, error: 0, type_: EventType::FdRead, inner: EventResultType::Fd { nbytes: 0, hangup: true } }, EpollType::EpollHup)
            );
        },
        PollOutcome::Pending => panic!("expected a hang-up"),
    }
    assert!(matches!(j.poll(Readiness::Pending, Readiness::Ready(1)), PollOutcome::Pending));
    // Neither reading nor writing: never anything to report.
    let e = InodeValFilePollGuardJoin::new(InodeValFilePollGuard::new(8, 4 | 8, sub, InodeKind::Socket).unwrap());
    assert!(matches!(e.poll(Readiness::Ready(3), Readiness::Ready(3)), PollOutcome::Pending));
    // A socket with no token is decided by registering its waker.
    let mut n = SocketNotifications { closed: false, failed: false };
    assert_eq!(e.socket_readiness(Ok(()), &mut n), Readiness::Pending);
    assert_eq!(e.socket_readiness(Err(NetworkError::ConnectionAborted), &mut n), Readiness::Ready(0));
    assert_eq!(e.socket_readiness(Err(NetworkError::ConnectionAborted), &mut n), Readiness::Pending);
}
