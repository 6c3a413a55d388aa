use vstd::prelude::*;

verus! {

/// The kinds of I/O error that the poll guards produce or inspect.
#[derive(Debug, Clone, Copy, PartialEq, Eq, Structural)]
pub enum IoErrorKind {
    AddrInUse,
    AddrNotAvailable,
    AlreadyExists,
    BrokenPipe,
    ConnectionAborted,
    ConnectionRefused,
    ConnectionReset,
    Interrupted,
    InvalidData,
    InvalidInput,
    NotConnected,
    OutOfMemory,
    PermissionDenied,
    TimedOut,
    UnexpectedEof,
    Unsupported,
    WouldBlock,
    WriteZero,
    Other,
}

/// An I/O error made from a network error: either an error of a given kind,
/// or the operating system's "too many open files" error (`EMFILE`).
#[derive(Debug, Clone, Copy, PartialEq, Eq, Structural)]
pub enum IoError {
    Kind(IoErrorKind),
    TooManyOpenFiles,
}

/// The errors of the virtual network layer.
#[derive(Debug, Clone, Copy, PartialEq, Eq, Structural)]
pub enum NetworkError {
    InvalidFd,
    AlreadyExists,
    Lock,
    IOError,
    AddressInUse,
    AddressNotAvailable,
    BrokenPipe,
    ConnectionAborted,
    ConnectionRefused,
    ConnectionReset,
    Interrupted,
    InvalidData,
    InvalidInput,
    NotConnected,
    NoDevice,
    PermissionDenied,
    TimedOut,
    UnexpectedEof,
    WouldBlock,
    WriteZero,
    Unsupported,
    UnknownError,
    InsufficientMemory,
    TooManyOpenFiles,
}

/// The error kinds that mean the other end is gone.
pub open spec fn spec_is_closed_kind(kind: IoErrorKind) -> bool {
    kind == IoErrorKind::ConnectionAborted || kind == IoErrorKind::ConnectionRefused
        || kind == IoErrorKind::ConnectionReset || kind == IoErrorKind::BrokenPipe
        || kind == IoErrorKind::NotConnected || kind == IoErrorKind::UnexpectedEof
}

/// Whether an error of this kind means that the connection is closed.
pub fn is_err_closed(kind: IoErrorKind) -> (r: bool)
    ensures
        r == spec_is_closed_kind(kind),
{
    kind == IoErrorKind::ConnectionAborted || kind == IoErrorKind::ConnectionRefused
        || kind == IoErrorKind::ConnectionReset || kind == IoErrorKind::BrokenPipe
        || kind == IoErrorKind::NotConnected || kind == IoErrorKind::UnexpectedEof
}

/// The I/O error that stands for a network error. Errors with a kind of
/// the same name keep it; the invalid descriptor, lock, I/O, missing device
/// and unknown errors become a broken pipe; insufficient memory becomes
/// out of memory; too many open files stays the operating system's error.
pub open spec fn spec_net_error_into_io_err(e: NetworkError) -> IoError {
    match e {
        NetworkError::InvalidFd => IoError::Kind(IoErrorKind::BrokenPipe),
        NetworkError::AlreadyExists => IoError::Kind(IoErrorKind::AlreadyExists),
        NetworkError::Lock => IoError::Kind(IoErrorKind::BrokenPipe),
        NetworkError::IOError => IoError::Kind(IoErrorKind::BrokenPipe),
        NetworkError::AddressInUse => IoError::Kind(IoErrorKind::AddrInUse),
        NetworkError::AddressNotAvailable => IoError::Kind(IoErrorKind::AddrNotAvailable),
        NetworkError::BrokenPipe => IoError::Kind(IoErrorKind::BrokenPipe),
        NetworkError::ConnectionAborted => IoError::Kind(IoErrorKind::ConnectionAborted),
        NetworkError::ConnectionRefused => IoError::Kind(IoErrorKind::ConnectionRefused),
        NetworkError::ConnectionReset => IoError::Kind(IoErrorKind::ConnectionReset),
        NetworkError::Interrupted => IoError::Kind(IoErrorKind::Interrupted),
        NetworkError::InvalidData => IoError::Kind(IoErrorKind::InvalidData),
        NetworkError::InvalidInput => IoError::Kind(IoErrorKind::InvalidInput),
        NetworkError::NotConnected => IoError::Kind(IoErrorKind::NotConnected),
        NetworkError::NoDevice => IoError::Kind(IoErrorKind::BrokenPipe),
        NetworkError::PermissionDenied => IoError::Kind(IoErrorKind::PermissionDenied),
        NetworkError::TimedOut => IoError::Kind(IoErrorKind::TimedOut),
        NetworkError::UnexpectedEof => IoError::Kind(IoErrorKind::UnexpectedEof),
        NetworkError::WouldBlock => IoError::Kind(IoErrorKind::WouldBlock),
        NetworkError::WriteZero => IoError::Kind(IoErrorKind::WriteZero),
        NetworkError::Unsupported => IoError::Kind(IoErrorKind::Unsupported),
        NetworkError::UnknownError => IoError::Kind(IoErrorKind::BrokenPipe),
        NetworkError::InsufficientMemory => IoError::Kind(IoErrorKind::OutOfMemory),
        NetworkError::TooManyOpenFiles => IoError::TooManyOpenFiles,
    }
}

/// Converts a network error into the I/O error that stands for it.
pub fn net_error_into_io_err(net_error: NetworkError) -> (r: IoError)
    ensures
        r == spec_net_error_into_io_err(net_error),
{
    match net_error {
        NetworkError::InvalidFd => IoError::Kind(IoErrorKind::BrokenPipe),
        NetworkError::AlreadyExists => IoError::Kind(IoErrorKind::AlreadyExists),
        NetworkError::Lock => IoError::Kind(IoErrorKind::BrokenPipe),
        NetworkError::IOError => IoError::Kind(IoErrorKind::BrokenPipe),
        NetworkError::AddressInUse => IoError::Kind(IoErrorKind::AddrInUse),
        NetworkError::AddressNotAvailable => IoError::Kind(IoErrorKind::AddrNotAvailable),
        NetworkError::BrokenPipe => IoError::Kind(IoErrorKind::BrokenPipe),
        NetworkError::ConnectionAborted => IoError::Kind(IoErrorKind::ConnectionAborted),
        NetworkError::ConnectionRefused => IoError::Kind(IoErrorKind::ConnectionRefused),
        NetworkError::ConnectionReset => IoError::Kind(IoErrorKind::ConnectionReset),
        NetworkError::Interrupted => IoError::Kind(IoErrorKind::Interrupted),
        NetworkError::InvalidData => IoError::Kind(IoErrorKind::InvalidData),
        NetworkError::InvalidInput => IoError::Kind(IoErrorKind::InvalidInput),
        NetworkError::NotConnected => IoError::Kind(IoErrorKind::NotConnected),
        NetworkError::NoDevice => IoError::Kind(IoErrorKind::BrokenPipe),
        NetworkError::PermissionDenied => IoError::Kind(IoErrorKind::PermissionDenied),
        NetworkError::TimedOut => IoError::Kind(IoErrorKind::TimedOut),
        NetworkError::UnexpectedEof => IoError::Kind(IoErrorKind::UnexpectedEof),
        NetworkError::WouldBlock => IoError::Kind(IoErrorKind::WouldBlock),
        NetworkError::WriteZero => IoError::Kind(IoErrorKind::WriteZero),
        NetworkError::Unsupported => IoError::Kind(IoErrorKind::Unsupported),
        NetworkError::UnknownError => IoError::Kind(IoErrorKind::BrokenPipe),
        NetworkError::InsufficientMemory => IoError::Kind(IoErrorKind::OutOfMemory),
        NetworkError::TooManyOpenFiles => IoError::TooManyOpenFiles,
    }
}

} // verus!

verus! {

/// The events that a poll subscription asks for.
#[derive(Debug, Clone, Copy, PartialEq, Eq, Structural)]
pub enum PollEvent {
    PollIn,
    PollOut,
    PollError,
    PollHangUp,
    PollInvalid,
}

/// What a poll subscription is interested in.
#[derive(Debug, Clone, Copy, PartialEq, Eq, Structural)]
pub struct PollInterest {
    pub has_read: bool,
    pub has_write: bool,
    pub has_close: bool,
    pub has_hangup: bool,
}

pub open spec fn has_event(events: Seq<PollEvent>, e: PollEvent) -> bool {
    exists|i: int| 0 <= i < events.len() && events[i] == e
}

/// Reading and writing are asked for by their events; a hang-up by its
/// event; closing by a hang-up, an error or an invalid event.
pub open spec fn spec_poll_interest(events: Seq<PollEvent>) -> PollInterest {
    PollInterest {
        has_read: has_event(events, PollEvent::PollIn),
        has_write: has_event(events, PollEvent::PollOut),
        has_close: has_event(events, PollEvent::PollHangUp) || has_event(events, PollEvent::PollError)
            || has_event(events, PollEvent::PollInvalid),
        has_hangup: has_event(events, PollEvent::PollHangUp),
    }
}

/// Sorts the events of a subscription into what it is interested in.
pub fn poll_interest(events: &[PollEvent]) -> (r: PollInterest)
    ensures
        r == spec_poll_interest(events@),
{
    let mut has_read = false;
    let mut has_write = false;
    let mut has_close = false;
    let mut has_hangup = false;
    let mut i: usize = 0;
    while i < events.len()
        invariant
            i <= events@.len(),
            has_read == has_event(events@.take(i as int), PollEvent::PollIn),
            has_write == has_event(events@.take(i as int), PollEvent::PollOut),
            has_hangup == has_event(events@.take(i as int), PollEvent::PollHangUp),
            has_close == (has_event(events@.take(i as int), PollEvent::PollHangUp)
                || has_event(events@.take(i as int), PollEvent::PollError)
                || has_event(events@.take(i as int), PollEvent::PollInvalid)),
        decreases events@.len() - i,
    {
        let ghost prev = events@.take(i as int);
        let ghost next = events@.take(i + 1);
        assert(next =~= prev.push(events@[i as int]));
        assert forall|e: PollEvent| has_event(next, e) == (has_event(prev, e) || events@[i as int] == e) by {
            if has_event(next, e) && events@[i as int] != e {
                let j = choose|j: int| 0 <= j < next.len() && next[j] == e;
                assert(prev[j] == e);
            }
            if has_event(prev, e) {
                let j = choose|j: int| 0 <= j < prev.len() && prev[j] == e;
                assert(next[j] == e);
            }
            if events@[i as int] == e {
                assert(next[i as int] == e);
            }
        }
        match events[i] {
            PollEvent::PollIn => {
                has_read = true;
            },
            PollEvent::PollOut => {
                has_write = true;
            },
            PollEvent::PollHangUp => {
                has_hangup = true;
                has_close = true;
            },
            PollEvent::PollError | PollEvent::PollInvalid => {
                if !has_hangup {
                    has_close = true;
                }
            },
        }
        i = i + 1;
    }
    proof {
        assert(events@.take(i as int) =~= events@);
    }
    PollInterest { has_read, has_write, has_close, has_hangup }
}

/// The WASI event types.
#[derive(Debug, Clone, Copy, PartialEq, Eq, Structural)]
pub enum EventType {
    Clock,
    FdRead,
    FdWrite,
}

/// The part of a WASI subscription that its event result repeats.
#[derive(Debug, Clone, Copy, PartialEq, Eq, Structural)]
pub struct Subscription {
    pub userdata: u64,
    pub type_: EventType,
}

/// The payload of an event result: bytes available and the hang-up flag
/// for descriptor events, or a clock event.
#[derive(Debug, Clone, Copy, PartialEq, Eq, Structural)]
pub enum EventResultType {
    Fd { nbytes: u64, hangup: bool },
    Clock(u64),
}

/// The result of one subscription; `error` is a WASI errno (0 is success).
#[derive(Debug, Clone, Copy, PartialEq, Eq, Structural)]
pub struct EventResult {
    pub userdata: u64,
    pub error: u16,
    pub type_: EventType,
    pub inner: EventResultType,
}

/// The epoll event that an event result reports.
#[derive(Debug, Clone, Copy, PartialEq, Eq, Structural)]
pub enum EpollType {
    EpollIn,
    EpollOut,
    EpollErr,
    EpollHup,
}

/// How ready a file, pipe or socket is: not yet, ready with a number of
/// bytes, or failed with an I/O error of `kind` that WASI reports as `errno`.
#[derive(Debug, Clone, Copy, PartialEq, Eq, Structural)]
pub enum Readiness {
    Pending,
    Ready(usize),
    Failed { kind: IoErrorKind, errno: u16 },
}

/// The payload for a subscription: descriptor events carry the byte count
/// and hang-up flag, clock events carry zero.
pub open spec fn spec_result_inner(sub: Subscription, nbytes: u64, hangup: bool) -> EventResultType {
    match sub.type_ {
        EventType::FdRead | EventType::FdWrite => EventResultType::Fd { nbytes, hangup },
        EventType::Clock => EventResultType::Clock(0),
    }
}

fn result_inner(sub: Subscription, nbytes: u64, hangup: bool) -> (r: EventResultType)
    ensures
        r == spec_result_inner(sub, nbytes, hangup),
{
    match sub.type_ {
        EventType::FdRead | EventType::FdWrite => EventResultType::Fd { nbytes, hangup },
        EventType::Clock => EventResultType::Clock(0),
    }
}

/// The event that one direction of a poll reports, given its readiness and
/// `ready_type` (`EpollIn` for reading, `EpollOut` for writing):
/// - nothing while pending;
/// - a hang-up when the subscription watches for closing and the error
///   means the connection is closed;
/// - otherwise the bytes available (a hang-up when there are none), with the
///   error's errno and `EpollErr` when the errno is not success.
pub open spec fn spec_poll_event(
    ready: Readiness,
    has_close: bool,
    has_hangup: bool,
    sub: Subscription,
    ready_type: EpollType,
) -> Option<(EventResult, EpollType)> {
    match ready {
        Readiness::Pending => None,
        Readiness::Failed { kind, errno } => if has_close && spec_is_closed_kind(kind) {
            Some((EventResult { userdata: sub.userdata, error: 0, type_: sub.type_, inner: spec_result_inner(sub, 0, has_hangup) }, EpollType::EpollHup))
        } else {
            Some((
                EventResult { userdata: sub.userdata, error: errno, type_: sub.type_, inner: spec_result_inner(sub, 0, true) },
                if errno == 0 { ready_type } else { EpollType::EpollErr },
            ))
        },
        Readiness::Ready(n) => Some((
            EventResult { userdata: sub.userdata, error: 0, type_: sub.type_, inner: spec_result_inner(sub, n as u64, n == 0) },
            ready_type,
        )),
    }
}

/// Computes the event that one direction of a poll reports.
pub fn poll_event(
    ready: Readiness,
    has_close: bool,
    has_hangup: bool,
    sub: Subscription,
    ready_type: EpollType,
) -> (r: Option<(EventResult, EpollType)>)
    ensures
        r == spec_poll_event(ready, has_close, has_hangup, sub, ready_type),
{
    match ready {
        Readiness::Pending => None,
        Readiness::Failed { kind, errno } => {
            if has_close && is_err_closed(kind) {
                Some((EventResult { userdata: sub.userdata, error: 0, type_: sub.type_, inner: result_inner(sub, 0, has_hangup) }, EpollType::EpollHup))
            } else {
                Some((
                    EventResult { userdata: sub.userdata, error: errno, type_: sub.type_, inner: result_inner(sub, 0, true) },
                    if errno == 0 { ready_type } else { EpollType::EpollErr },
                ))
            }
        },
        Readiness::Ready(n) => Some((
            EventResult { userdata: sub.userdata, error: 0, type_: sub.type_, inner: result_inner(sub, n as u64, n == 0) },
            ready_type,
        )),
    }
}

/// Whether a socket has already reported that it closed or failed.
#[derive(Debug, Clone, Copy, PartialEq, Eq, Structural)]
pub struct SocketNotifications {
    pub closed: bool,
    pub failed: bool,
}

/// Whether an I/O error means that the connection is closed: an error of a
/// closing kind; the operating system's "too many open files" is not one.
pub open spec fn spec_io_error_closed(e: IoError) -> bool {
    match e {
        IoError::Kind(k) => spec_is_closed_kind(k),
        IoError::TooManyOpenFiles => false,
    }
}

fn io_error_closed(e: IoError) -> (r: bool)
    ensures
        r == spec_io_error_closed(e),
{
    match e {
        IoError::Kind(k) => is_err_closed(k),
        IoError::TooManyOpenFiles => false,
    }
}

/// The readiness of a socket. `handler` is `None` when an interest token is
/// already held (the socket is ready with one byte), otherwise the outcome
/// of registering the waker with the socket: success leaves it pending; an
/// error, taken as the I/O error that stands for it, is reported (as ready
/// with no bytes) once if it means the connection is closed, and once more
/// for the first error of any other kind.
pub open spec fn spec_socket_readiness(handler: Option<Result<(), NetworkError>>, n: SocketNotifications) -> (Readiness, SocketNotifications) {
    match handler {
        None => (Readiness::Ready(1), n),
        Some(Ok(())) => (Readiness::Pending, n),
        Some(Err(e)) => if spec_io_error_closed(spec_net_error_into_io_err(e)) {
            (if n.closed { Readiness::Pending } else { Readiness::Ready(0) }, SocketNotifications { closed: true, ..n })
        } else {
            (if n.failed { Readiness::Pending } else { Readiness::Ready(0) }, SocketNotifications { failed: true, ..n })
        },
    }
}

/// Decides the readiness of a socket and records what it has reported.
pub fn socket_readiness(handler: Option<Result<(), NetworkError>>, notifications: &mut SocketNotifications) -> (r: Readiness)
    ensures
        (r, *final(notifications)) == spec_socket_readiness(handler, *old(notifications)),
{
    match handler {
        None => Readiness::Ready(1),
        Some(Ok(())) => Readiness::Pending,
        Some(Err(e)) => {
            if io_error_closed(net_error_into_io_err(e)) {
                let was_closed = notifications.closed;
                notifications.closed = true;
                if was_closed { Readiness::Pending } else { Readiness::Ready(0) }
            } else {
                let was_failed = notifications.failed;
                notifications.failed = true;
                if was_failed { Readiness::Pending } else { Readiness::Ready(0) }
            }
        },
    }
}

#[verifier::external_type_specification]
#[verifier::external_body]
#[verifier::reject_recursive_types(T)]
pub struct ExHeaplessVec<T, const N: usize>(heapless::Vec<T, N>);

/// The events held in a bounded vector of poll results (capacity 4).
pub uninterp spec fn poll_events(v: heapless::Vec<(EventResult, EpollType), 4>) -> Seq<(EventResult, EpollType)>;

/// `heapless::Vec::new`: an empty vector.
#[verifier::external_body]
fn events_new() -> (r: heapless::Vec<(EventResult, EpollType), 4>)
    ensures
        poll_events(r) == Seq::<(EventResult, EpollType)>::empty(),
{
    heapless::Vec::new()
}

/// `heapless::Vec::push`: appends the item when fewer than 4 are held,
/// otherwise hands it back and leaves the vector as it was.
#[verifier::external_body]
fn events_push(v: &mut heapless::Vec<(EventResult, EpollType), 4>, x: (EventResult, EpollType)) -> (r: Result<(), (EventResult, EpollType)>)
    ensures
        r is Ok <==> poll_events(*old(v)).len() < 4,
        r is Ok ==> poll_events(*final(v)) == poll_events(*old(v)).push(x),
        r matches Err(y) ==> y == x && poll_events(*final(v)) == poll_events(*old(v)),
{
    v.push(x)
}

/// `heapless::Vec::is_empty`: whether no item is held.
#[verifier::external_body]
fn events_is_empty(v: &heapless::Vec<(EventResult, EpollType), 4>) -> (r: bool)
    ensures
        r == (poll_events(*v).len() == 0),
{
    v.is_empty()
}

/// What a poll of a guard yields: the events to report, or nothing yet.
pub enum PollOutcome {
    Ready(heapless::Vec<(EventResult, EpollType), 4>),
    Pending,
}

/// The event of a direction as a sequence of zero or one events.
pub open spec fn event_seq(e: Option<(EventResult, EpollType)>) -> Seq<(EventResult, EpollType)> {
    match e {
        Some(x) => seq![x],
        None => Seq::empty(),
    }
}

/// The events a poll reports: the read event when reading is asked for,
/// then the write event when writing is asked for.
pub open spec fn spec_poll_events(interest: PollInterest, read: Readiness, write: Readiness, sub: Subscription) -> Seq<(EventResult, EpollType)> {
    (if interest.has_read {
        event_seq(spec_poll_event(read, interest.has_close, interest.has_hangup, sub, EpollType::EpollIn))
    } else {
        Seq::empty()
    }) + (if interest.has_write {
        event_seq(spec_poll_event(write, interest.has_close, interest.has_hangup, sub, EpollType::EpollOut))
    } else {
        Seq::empty()
    })
}

/// Decides the outcome of polling a guard, from what it is interested in
/// and the readiness of reading and writing (each looked at only when asked
/// for): ready with the events when there is at least one, else pending.
pub fn poll_outcome(interest: PollInterest, read: Readiness, write: Readiness, sub: Subscription) -> (r: PollOutcome)
    ensures
        match r {
            PollOutcome::Ready(v) => poll_events(v) == spec_poll_events(interest, read, write, sub)
                && poll_events(v).len() > 0,
            PollOutcome::Pending => spec_poll_events(interest, read, write, sub).len() == 0,
        },
{
    let mut ret = events_new();
    if interest.has_read {
        if let Some(ev) = poll_event(read, interest.has_close, interest.has_hangup, sub, EpollType::EpollIn) {
            let _ = events_push(&mut ret, ev);
        }
    }
    assert(poll_events(ret) =~= if interest.has_read {
        event_seq(spec_poll_event(read, interest.has_close, interest.has_hangup, sub, EpollType::EpollIn))
    } else {
        Seq::empty()
    });
    if interest.has_write {
        if let Some(ev) = poll_event(write, interest.has_close, interest.has_hangup, sub, EpollType::EpollOut) {
            let _ = events_push(&mut ret, ev);
        }
    }
    assert(poll_events(ret) =~= spec_poll_events(interest, read, write, sub));
    if !events_is_empty(&ret) {
        return PollOutcome::Ready(ret);
    }
    PollOutcome::Pending
}

} // verus!

verus! {

/// What kind of inode a poll guard is made for.
#[derive(Debug, Clone, Copy, PartialEq, Eq, Structural)]
pub enum InodeKind {
    File { has_handle: bool },
    Socket,
    Pipe,
    EventNotifications,
    Other,
}

/// How a poll guard waits for readiness.
#[derive(Debug, Clone, Copy, PartialEq, Eq, Structural)]
pub enum PollGuardMode {
    File,
    EventNotifications,
    Socket,
    Pipe,
}

/// Event notifications, sockets and pipes are polled as such, and a file
/// only when it has an open handle; nothing else can be polled.
pub open spec fn spec_poll_guard_mode(kind: InodeKind) -> Option<PollGuardMode> {
    match kind {
        InodeKind::EventNotifications => Some(PollGuardMode::EventNotifications),
        InodeKind::Socket => Some(PollGuardMode::Socket),
        InodeKind::File { has_handle } => if has_handle { Some(PollGuardMode::File) } else { None },
        InodeKind::Pipe => Some(PollGuardMode::Pipe),
        InodeKind::Other => None,
    }
}

/// Chooses how a poll guard for an inode of this kind waits, if it can.
pub fn poll_guard_mode(kind: InodeKind) -> (r: Option<PollGuardMode>)
    ensures
        r == spec_poll_guard_mode(kind),
{
    match kind {
        InodeKind::EventNotifications => Some(PollGuardMode::EventNotifications),
        InodeKind::Socket => Some(PollGuardMode::Socket),
        InodeKind::File { has_handle: true } => Some(PollGuardMode::File),
        InodeKind::Pipe => Some(PollGuardMode::Pipe),
        _ => None,
    }
}

} // verus!

verus! {

/// The events of a set of poll events, a `u32` with one bit per event
/// (`PollIn` 1, `PollOut` 2, `PollError` 4, `PollHangUp` 8,
/// `PollInvalid` 16; other bits stand for no event), in the order of their bits.
pub open spec fn spec_iterate_poll_events(peb: u32) -> Seq<PollEvent> {
    (if peb & 1u32 != 0 { seq![PollEvent::PollIn] } else { Seq::empty() })
        + (if peb & 2u32 != 0 { seq![PollEvent::PollOut] } else { Seq::empty() })
        + (if peb & 4u32 != 0 { seq![PollEvent::PollError] } else { Seq::empty() })
        + (if peb & 8u32 != 0 { seq![PollEvent::PollHangUp] } else { Seq::empty() })
        + (if peb & 16u32 != 0 { seq![PollEvent::PollInvalid] } else { Seq::empty() })
}

/// Lists the events of a set of poll events.
pub fn iterate_poll_events(peb: u32) -> (r: Vec<PollEvent>)
    ensures
        r@ == spec_iterate_poll_events(peb),
{
    let mut r: Vec<PollEvent> = Vec::new();
    if peb & 1 != 0 {
        r.push(PollEvent::PollIn);
    }
    if peb & 2 != 0 {
        r.push(PollEvent::PollOut);
    }
    if peb & 4 != 0 {
        r.push(PollEvent::PollError);
    }
    if peb & 8 != 0 {
        r.push(PollEvent::PollHangUp);
    }
    if peb & 16 != 0 {
        r.push(PollEvent::PollInvalid);
    }
    assert(r@ =~= spec_iterate_poll_events(peb));
    r
}

/// What a socket is, as far as describing its poll guard goes.
#[derive(Debug, Clone, Copy, PartialEq, Eq, Structural)]
pub enum SocketKind {
    TcpListener,
    TcpStream { closed: bool },
    UdpSocket,
    Raw,
    Other,
}

/// How a poll guard names itself when it is described.
#[derive(Debug, Clone, Copy, PartialEq, Eq, Structural)]
pub enum GuardLabel {
    File,
    Notifications,
    TcpListener,
    TcpStream,
    TcpStreamClosed,
    UdpSocket,
    RawSocket,
    Socket,
    Pipe,
}

/// A guard is named after its mode, and a socket's guard after the kind of
/// the socket (a TCP stream also by whether it is closed).
pub open spec fn spec_guard_label(mode: PollGuardMode, socket: SocketKind) -> GuardLabel {
    match mode {
        PollGuardMode::File => GuardLabel::File,
        PollGuardMode::EventNotifications => GuardLabel::Notifications,
        PollGuardMode::Pipe => GuardLabel::Pipe,
        PollGuardMode::Socket => match socket {
            SocketKind::TcpListener => GuardLabel::TcpListener,
            SocketKind::TcpStream { closed } => if closed { GuardLabel::TcpStreamClosed } else { GuardLabel::TcpStream },
            SocketKind::UdpSocket => GuardLabel::UdpSocket,
            SocketKind::Raw => GuardLabel::RawSocket,
            SocketKind::Other => GuardLabel::Socket,
        },
    }
}

/// A request to poll a descriptor: the descriptor, the set of events asked
/// for, the subscription the results answer, and how to wait.
#[derive(Debug, Clone, Copy, PartialEq, Eq, Structural)]
pub struct InodeValFilePollGuard {
    pub fd: u32,
    pub peb: u32,
    pub subscription: Subscription,
    pub mode: PollGuardMode,
}

impl InodeValFilePollGuard {
    /// Makes a poll guard for an inode of kind `kind`, when it can be polled.
    pub fn new(fd: u32, peb: u32, subscription: Subscription, kind: InodeKind) -> (r: Option<InodeValFilePollGuard>)
        ensures
            match spec_poll_guard_mode(kind) {
                Some(mode) => r == Some(InodeValFilePollGuard { fd, peb, subscription, mode }),
                None => r is None,
            },
    {
        match poll_guard_mode(kind) {
            Some(mode) => Some(InodeValFilePollGuard { fd, peb, subscription, mode }),
            None => None,
        }
    }

    /// The name under which the guard describes itself; `socket` is the
    /// kind of its socket, looked at only for a socket's guard.
    pub fn label(&self, socket: SocketKind) -> (r: GuardLabel)
        ensures
            r == spec_guard_label(self.mode, socket),
    {
        match self.mode {
            PollGuardMode::File => GuardLabel::File,
            PollGuardMode::EventNotifications => GuardLabel::Notifications,
            PollGuardMode::Pipe => GuardLabel::Pipe,
            PollGuardMode::Socket => match socket {
                SocketKind::TcpListener => GuardLabel::TcpListener,
                SocketKind::TcpStream { closed } => if closed { GuardLabel::TcpStreamClosed } else { GuardLabel::TcpStream },
                SocketKind::UdpSocket => GuardLabel::UdpSocket,
                SocketKind::Raw => GuardLabel::RawSocket,
                SocketKind::Other => GuardLabel::Socket,
            },
        }
    }
}

/// A poll guard being waited on, as a mathematical value.
pub struct PollGuardJoinView {
    pub mode: PollGuardMode,
    pub fd: u32,
    pub peb: u32,
    pub subscription: Subscription,
    pub has_token: bool,
}

/// A poll guard being waited on; `has_token` tells whether an interest
/// token of the socket is already held.
pub struct InodeValFilePollGuardJoin {
    mode: PollGuardMode,
    fd: u32,
    peb: u32,
    subscription: Subscription,
    has_token: bool,
}

impl View for InodeValFilePollGuardJoin {
    type V = PollGuardJoinView;

    closed spec fn view(&self) -> PollGuardJoinView {
        PollGuardJoinView {
            mode: self.mode,
            fd: self.fd,
            peb: self.peb,
            subscription: self.subscription,
            has_token: self.has_token,
        }
    }
}

impl InodeValFilePollGuardJoin {
    /// Starts waiting on a guard, with no token held.
    pub fn new(guard: InodeValFilePollGuard) -> (r: InodeValFilePollGuardJoin)
        ensures
            r@ == (PollGuardJoinView {
                mode: guard.mode,
                fd: guard.fd,
                peb: guard.peb,
                subscription: guard.subscription,
                has_token: false,
            }),
    {
        InodeValFilePollGuardJoin {
            mode: guard.mode,
            fd: guard.fd,
            peb: guard.peb,
            subscription: guard.subscription,
            has_token: false,
        }
    }

    /// The descriptor polled.
    pub fn fd(&self) -> (r: u32)
        ensures
            r == self@.fd,
    {
        self.fd
    }

    /// The set of events asked for.
    pub fn peb(&self) -> (r: u32)
        ensures
            r == self@.peb,
    {
        self.peb
    }

    /// How the guard waits.
    pub fn mode(&self) -> (r: PollGuardMode)
        ensures
            r == self@.mode,
    {
        self.mode
    }

    /// What the guard is interested in, from its set of events.
    pub fn interest(&self) -> (r: PollInterest)
        ensures
            r == spec_poll_interest(spec_iterate_poll_events(self@.peb)),
    {
        let events = iterate_poll_events(self.peb);
        poll_interest(events.as_slice())
    }

    /// The readiness of the guard's socket: ready with one byte while a
    /// token is held, else decided from the outcome of registering the
    /// waker, `handler`.
    pub fn socket_readiness(&self, handler: Result<(), NetworkError>, notifications: &mut SocketNotifications) -> (r: Readiness)
        ensures
            (r, *final(notifications)) == spec_socket_readiness(
                if self@.has_token { None } else { Some(handler) },
                *old(notifications),
            ),
    {
        if self.has_token {
            socket_readiness(None, notifications)
        } else {
            socket_readiness(Some(handler), notifications)
        }
    }

    /// Polls the guard, given the readiness of reading and of writing
    /// (each looked at only when the guard asks for it): ready with the
    /// events to report when there is at least one, else pending.
    pub fn poll(&self, read: Readiness, write: Readiness) -> (r: PollOutcome)
        ensures
            match r {
                PollOutcome::Ready(v) => poll_events(v) == spec_poll_events(
                    spec_poll_interest(spec_iterate_poll_events(self@.peb)), read, write, self@.subscription,
                ) && poll_events(v).len() > 0,
                PollOutcome::Pending => spec_poll_events(
                    spec_poll_interest(spec_iterate_poll_events(self@.peb)), read, write, self@.subscription,
                ).len() == 0,
            },
    {
        let interest = self.interest();
        poll_outcome(interest, read, write, self.subscription)
    }
}

} // verus!

verus! {

/// A poll reports at most one event for reading and one for writing, so
/// its result never needs more than the four places it has.
pub proof fn law_poll_events_fit(interest: PollInterest, read: Readiness, write: Readiness, sub: Subscription)
    ensures
        spec_poll_events(interest, read, write, sub).len() <= 2,
{
}

/// Every event a poll reports answers its subscription: it carries the
/// subscription's user data and event type.
pub proof fn law_events_answer_subscription(interest: PollInterest, read: Readiness, write: Readiness, sub: Subscription)
    ensures
        forall|i: int| 0 <= i < spec_poll_events(interest, read, write, sub).len() ==> {
            let ev = #[trigger] spec_poll_events(interest, read, write, sub)[i];
            ev.0.userdata == sub.userdata && ev.0.type_ == sub.type_
        },
{
}

/// A hang-up is reported only to a subscription that watches for closing.
pub proof fn law_hangup_only_when_watched(interest: PollInterest, read: Readiness, write: Readiness, sub: Subscription)
    ensures
        forall|i: int| 0 <= i < spec_poll_events(interest, read, write, sub).len()
            && (#[trigger] spec_poll_events(interest, read, write, sub)[i]).1 == EpollType::EpollHup ==> interest.has_close,
{
}

/// A guard whose set of events asks neither to read nor to write never
/// reports anything, whatever the readiness.
pub proof fn law_no_direction_no_events(peb: u32, read: Readiness, write: Readiness, sub: Subscription)
    requires
        peb & 1u32 == 0,
        peb & 2u32 == 0,
    ensures
        spec_poll_events(spec_poll_interest(spec_iterate_poll_events(peb)), read, write, sub).len() == 0,
{
    let evs = spec_iterate_poll_events(peb);
    assert forall|i: int| 0 <= i < evs.len() implies evs[i] != PollEvent::PollIn && evs[i] != PollEvent::PollOut by {
        let a: Seq<PollEvent> = if peb & 4u32 != 0 { seq![PollEvent::PollError] } else { Seq::empty() };
        let b: Seq<PollEvent> = if peb & 8u32 != 0 { seq![PollEvent::PollHangUp] } else { Seq::empty() };
        let c: Seq<PollEvent> = if peb & 16u32 != 0 { seq![PollEvent::PollInvalid] } else { Seq::empty() };
        assert(evs =~= a + b + c);
    }
}

/// Asking for hang-ups means asking to hear of closing.
pub proof fn law_hangup_closes(events: Seq<PollEvent>)
    ensures
        spec_poll_interest(events).has_hangup ==> spec_poll_interest(events).has_close,
{
}

/// A socket reports an error once: asked again after reporting it, with
/// the same error, it stays pending.
pub proof fn law_socket_reports_once(e: NetworkError, n0: SocketNotifications)
    ensures
        spec_socket_readiness(Some(Err(e)), spec_socket_readiness(Some(Err(e)), n0).1).0 == Readiness::Pending,
{
}

/// The network errors that a poll treats as a closed connection are
/// exactly those that mean the other end is gone or the socket unusable.
pub proof fn law_closed_network_errors(e: NetworkError)
    ensures
        spec_io_error_closed(spec_net_error_into_io_err(e)) <==> (
            e == NetworkError::InvalidFd || e == NetworkError::Lock || e == NetworkError::IOError
            || e == NetworkError::BrokenPipe || e == NetworkError::ConnectionAborted
            || e == NetworkError::ConnectionRefused || e == NetworkError::ConnectionReset
            || e == NetworkError::NotConnected || e == NetworkError::NoDevice
            || e == NetworkError::UnexpectedEof || e == NetworkError::UnknownError
        ),
{
}

} // verus!

verus! {

/// The network errors that mean the other end of a socket is gone.
pub open spec fn closes_socket(e: NetworkError) -> bool {
    e == NetworkError::InvalidFd || e == NetworkError::Lock || e == NetworkError::IOError
        || e == NetworkError::BrokenPipe || e == NetworkError::ConnectionAborted
        || e == NetworkError::ConnectionRefused || e == NetworkError::ConnectionReset
        || e == NetworkError::NotConnected || e == NetworkError::NoDevice
        || e == NetworkError::UnexpectedEof || e == NetworkError::UnknownError
}

/// Registering a socket's waker: with a token held the socket is ready
/// with one byte; success leaves it pending; a closing error is reported
/// (ready with no bytes) exactly when no close was reported before, whatever
/// failures were, and records the close; any other error is reported
/// exactly when no failure was reported before, whatever closes were, and
/// records the failure. Nothing else is recorded.
pub proof fn law_socket_readiness(e: NetworkError, n: SocketNotifications)
    ensures
        spec_socket_readiness(None, n) == (Readiness::Ready(1), n),
        spec_socket_readiness(Some(Ok(())), n) == (Readiness::Pending, n),
        closes_socket(e) ==> {
            let (r, n2) = spec_socket_readiness(Some(Err(e)), n);
            &&& (r == Readiness::Ready(0) <==> !n.closed)
            &&& (r == Readiness::Pending <==> n.closed)
            &&& n2.closed
            &&& n2.failed == n.failed
        },
        !closes_socket(e) ==> {
            let (r, n2) = spec_socket_readiness(Some(Err(e)), n);
            &&& (r == Readiness::Ready(0) <==> !n.failed)
            &&& (r == Readiness::Pending <==> n.failed)
            &&& n2.failed
            &&& n2.closed == n.closed
        },
{
}

/// How each network error becomes an I/O error: those with an I/O error
/// kind of the same name keep it; an address in use or not available
/// becomes the matching `Addr` kind; insufficient memory becomes out of
/// memory; an invalid descriptor, a lock, I/O, missing-device or unknown
/// error becomes a broken pipe; too many open files stays that error.
pub proof fn law_net_error_kinds(e: NetworkError)
    ensures
        e == NetworkError::AlreadyExists ==> spec_net_error_into_io_err(e) == IoError::Kind(IoErrorKind::AlreadyExists),
        e == NetworkError::BrokenPipe ==> spec_net_error_into_io_err(e) == IoError::Kind(IoErrorKind::BrokenPipe),
        e == NetworkError::ConnectionAborted ==> spec_net_error_into_io_err(e) == IoError::Kind(IoErrorKind::ConnectionAborted),
        e == NetworkError::ConnectionRefused ==> spec_net_error_into_io_err(e) == IoError::Kind(IoErrorKind::ConnectionRefused),
        e == NetworkError::ConnectionReset ==> spec_net_error_into_io_err(e) == IoError::Kind(IoErrorKind::ConnectionReset),
        e == NetworkError::Interrupted ==> spec_net_error_into_io_err(e) == IoError::Kind(IoErrorKind::Interrupted),
        e == NetworkError::InvalidData ==> spec_net_error_into_io_err(e) == IoError::Kind(IoErrorKind::InvalidData),
        e == NetworkError::InvalidInput ==> spec_net_error_into_io_err(e) == IoError::Kind(IoErrorKind::InvalidInput),
        e == NetworkError::NotConnected ==> spec_net_error_into_io_err(e) == IoError::Kind(IoErrorKind::NotConnected),
        e == NetworkError::PermissionDenied ==> spec_net_error_into_io_err(e) == IoError::Kind(IoErrorKind::PermissionDenied),
        e == NetworkError::TimedOut ==> spec_net_error_into_io_err(e) == IoError::Kind(IoErrorKind::TimedOut),
        e == NetworkError::UnexpectedEof ==> spec_net_error_into_io_err(e) == IoError::Kind(IoErrorKind::UnexpectedEof),
        e == NetworkError::WouldBlock ==> spec_net_error_into_io_err(e) == IoError::Kind(IoErrorKind::WouldBlock),
        e == NetworkError::WriteZero ==> spec_net_error_into_io_err(e) == IoError::Kind(IoErrorKind::WriteZero),
        e == NetworkError::Unsupported ==> spec_net_error_into_io_err(e) == IoError::Kind(IoErrorKind::Unsupported),
        e == NetworkError::AddressInUse ==> spec_net_error_into_io_err(e) == IoError::Kind(IoErrorKind::AddrInUse),
        e == NetworkError::AddressNotAvailable ==> spec_net_error_into_io_err(e) == IoError::Kind(IoErrorKind::AddrNotAvailable),
        e == NetworkError::InsufficientMemory ==> spec_net_error_into_io_err(e) == IoError::Kind(IoErrorKind::OutOfMemory),
        (e == NetworkError::InvalidFd || e == NetworkError::Lock || e == NetworkError::IOError
            || e == NetworkError::NoDevice || e == NetworkError::UnknownError)
            ==> spec_net_error_into_io_err(e) == IoError::Kind(IoErrorKind::BrokenPipe),
        e == NetworkError::TooManyOpenFiles ==> spec_net_error_into_io_err(e) == IoError::TooManyOpenFiles,
{
}

} // verus!
