use vstd::prelude::*;

verus! {

/// The token the one socket of a client or server is registered under.
pub const SOCKET_TOKEN: usize = 0;

/// One readiness event of the event loop.
#[derive(Clone, Copy, Debug, PartialEq, Eq, Structural)]
pub struct PollEvent {
    pub token: usize,
    pub readable: bool,
    pub writable: bool,
}

/// Why a round of the event loop cannot go on.
#[derive(Clone, Copy, Debug, PartialEq, Eq, Structural)]
pub enum ReadinessError {
    /// No event came before the connection's timeout.
    TimedOut,
    /// The event at this position is not for the socket.
    UnexpectedEvent(usize),
}

/// The readable and writable flags after the first `i` events, or the
/// position of the first event not for the socket. The last socket event
/// counts; with `writable_if_readable`, a readable socket counts as
/// writable too.
pub open spec fn readiness_upto(events: Seq<PollEvent>, i: nat, writable_if_readable: bool) -> Result<
    (bool, bool),
    nat,
>
    decreases i,
{
    if i == 0 || i > events.len() {
        Ok((false, false))
    } else {
        match readiness_upto(events, (i - 1) as nat, writable_if_readable) {
            Err(k) => Err(k),
            Ok(flags) => {
                let e = events[i - 1];
                if e.token != SOCKET_TOKEN {
                    Err((i - 1) as nat)
                } else {
                    Ok((e.readable, e.writable || (writable_if_readable && e.readable)))
                }
            },
        }
    }
}

proof fn lemma_readiness_error_stays(events: Seq<PollEvent>, j: nat, i: nat, w: bool)
    requires
        j <= i <= events.len(),
        readiness_upto(events, j, w) is Err,
    ensures
        readiness_upto(events, i, w) == readiness_upto(events, j, w),
    decreases i - j,
{
    if i > j {
        lemma_readiness_error_stays(events, j, (i - 1) as nat, w);
    }
}

/// When every event so far is for the socket, the flags are those of the
/// last event: its readable flag, and its writable flag, or, with
/// `writable_if_readable`, its writable or readable flag.
proof fn lemma_readiness_follows_last_event(events: Seq<PollEvent>, i: nat, w: bool)
    requires
        0 < i <= events.len(),
        forall|k: int| 0 <= k < i ==> (#[trigger] events[k]).token == SOCKET_TOKEN,
    ensures
        readiness_upto(events, i, w) == Ok::<(bool, bool), nat>(
            (events[i - 1].readable, events[i - 1].writable || (w && events[i - 1].readable)),
        ),
    decreases i,
{
    assert(events[i - 1].token == SOCKET_TOKEN);
    if i > 1 {
        lemma_readiness_follows_last_event(events, (i - 1) as nat, w);
    } else {
        assert(readiness_upto(events, 0, w) == Ok::<(bool, bool), nat>((false, false)));
    }
}

/// A client acts on the last socket event: the socket counts as readable
/// exactly when that event is readable, and as writable when that event is
/// writable or readable. A server acts on the last event's two flags as they
/// are.
pub proof fn lemma_flags_of_last_socket_event(events: Seq<PollEvent>)
    requires
        events.len() > 0,
        forall|k: int| 0 <= k < events.len() ==> (#[trigger] events[k]).token == SOCKET_TOKEN,
    ensures
        readiness_upto(events, events.len(), true) == Ok::<(bool, bool), nat>(
            (events.last().readable, events.last().writable || events.last().readable),
        ),
        readiness_upto(events, events.len(), false) == Ok::<(bool, bool), nat>(
            (events.last().readable, events.last().writable),
        ),
{
    lemma_readiness_follows_last_event(events, events.len(), true);
    lemma_readiness_follows_last_event(events, events.len(), false);
}

/// The first event that is not for the socket is the one reported.
pub proof fn lemma_first_foreign_event_reported(events: Seq<PollEvent>, k: nat, w: bool)
    requires
        k < events.len(),
        events[k as int].token != SOCKET_TOKEN,
        forall|j: int| 0 <= j < k ==> (#[trigger] events[j]).token == SOCKET_TOKEN,
    ensures
        readiness_upto(events, events.len(), w) == Err::<(bool, bool), nat>(k),
{
    if k > 0 {
        lemma_readiness_follows_last_event(events, k, w);
    } else {
        assert(readiness_upto(events, 0, w) == Ok::<(bool, bool), nat>((false, false)));
    }
    assert(readiness_upto(events, k + 1, w) == Err::<(bool, bool), nat>(k));
    lemma_readiness_error_stays(events, k + 1, events.len(), w);
}

fn readiness(events: &[PollEvent], writable_if_readable: bool) -> (r: Result<(bool, bool), usize>)
    ensures
        match r {
            Ok(flags) => readiness_upto(events@, events@.len(), writable_if_readable) == Ok::<
                (bool, bool),
                nat,
            >(flags),
            Err(k) => readiness_upto(events@, events@.len(), writable_if_readable) == Err::<
                (bool, bool),
                nat,
            >(k as nat),
        },
{
    let mut readable = false;
    let mut writable = false;
    let mut i: usize = 0;
    while i < events.len()
        invariant
            i <= events@.len(),
            readiness_upto(events@, i as nat, writable_if_readable) == Ok::<(bool, bool), nat>(
                (readable, writable),
            ),
        decreases events@.len() - i,
    {
        let e = events[i];
        if e.token != SOCKET_TOKEN {
            proof {
                lemma_readiness_error_stays(events@, (i + 1) as nat, events@.len(), writable_if_readable);
            }
            return Err(i);
        }
        readable = e.readable;
        writable = e.writable || (writable_if_readable && e.readable);
        i = i + 1;
    }
    Ok((readable, writable))
}

/// The flags a client's event loop acts on: none at all means the
/// connection timed out; an event for anything but the socket is an error;
/// otherwise the last socket event counts, and a readable socket is also
/// treated as writable.
pub fn client_readiness(events: &[PollEvent]) -> (r: Result<(bool, bool), ReadinessError>)
    ensures
        events@.len() == 0 ==> r == Err::<(bool, bool), ReadinessError>(ReadinessError::TimedOut),
        events@.len() > 0 ==> match r {
            Ok(flags) => readiness_upto(events@, events@.len(), true) == Ok::<(bool, bool), nat>(
                flags,
            ),
            Err(ReadinessError::UnexpectedEvent(k)) => readiness_upto(events@, events@.len(), true)
                == Err::<(bool, bool), nat>(k as nat),
            Err(ReadinessError::TimedOut) => false,
        },
{
    if events.len() == 0 {
        return Err(ReadinessError::TimedOut);
    }
    match readiness(events, true) {
        Ok(flags) => Ok(flags),
        Err(k) => Err(ReadinessError::UnexpectedEvent(k)),
    }
}

/// The flags a server's event loop acts on: an event for anything but the
/// socket is an error; otherwise the last socket event counts.
pub fn server_readiness(events: &[PollEvent]) -> (r: Result<(bool, bool), ReadinessError>)
    ensures
        match r {
            Ok(flags) => readiness_upto(events@, events@.len(), false) == Ok::<(bool, bool), nat>(
                flags,
            ),
            Err(ReadinessError::UnexpectedEvent(k)) => readiness_upto(events@, events@.len(), false)
                == Err::<(bool, bool), nat>(k as nat),
            Err(ReadinessError::TimedOut) => false,
        },
{
    match readiness(events, false) {
        Ok(flags) => Ok(flags),
        Err(k) => Err(ReadinessError::UnexpectedEvent(k)),
    }
}

/// Whether a client starts HTTP/3 on its connection now: once the QUIC
/// connection is established and no HTTP/3 connection exists yet.
pub fn should_start_http3(has_http3: bool, established: bool) -> (r: bool)
    ensures
        r == (!has_http3 && established),
{
    !has_http3 && established
}

/// The events an HTTP/3 connection reports when polled.
#[derive(Clone, Copy, Debug, PartialEq, Eq, Structural)]
pub enum Http3Event {
    Headers,
    Data,
    Finished,
    Reset,
    Datagram,
    GoAway,
    /// Nothing more to report for now.
    Done,
    /// Polling failed.
    Failed,
}

/// What a client does about an HTTP/3 event.
#[derive(Clone, Copy, Debug, PartialEq, Eq, Structural)]
pub enum ClientEventAction {
    /// Log the event and go on.
    Note,
    /// Read the body that arrived and print it.
    ReadBody,
    /// The response is over or was reset: close the connection.
    Close,
}

/// What a client does about an HTTP/3 event: print arriving data, close
/// once the response is finished or reset, and otherwise only note it.
pub fn client_event_action(e: Http3Event) -> (r: ClientEventAction)
    ensures
        r == (match e {
            Http3Event::Data => ClientEventAction::ReadBody,
            Http3Event::Finished | Http3Event::Reset => ClientEventAction::Close,
            _ => ClientEventAction::Note,
        }),
{
    match e {
        Http3Event::Data => ClientEventAction::ReadBody,
        Http3Event::Finished | Http3Event::Reset => ClientEventAction::Close,
        _ => ClientEventAction::Note,
    }
}

/// What a server does about an HTTP/3 event of one client.
#[derive(Clone, Copy, Debug, PartialEq, Eq, Structural)]
pub enum ServerEventAction {
    /// Answer the request whose headers arrived.
    HandleRequest,
    /// Nothing to do for this event.
    Ignore,
    /// No more events: the client is shut down and polling stops.
    Stop,
    /// Polling failed: report an error.
    Fail,
}

/// What a server does about an HTTP/3 event: answer requests, stop when
/// the connection has nothing more, fail on an error, ignore the rest.
pub fn server_event_action(e: Http3Event) -> (r: ServerEventAction)
    ensures
        r == (match e {
            Http3Event::Headers => ServerEventAction::HandleRequest,
            Http3Event::Done => ServerEventAction::Stop,
            Http3Event::Failed => ServerEventAction::Fail,
            _ => ServerEventAction::Ignore,
        }),
{
    match e {
        Http3Event::Headers => ServerEventAction::HandleRequest,
        Http3Event::Done => ServerEventAction::Stop,
        Http3Event::Failed => ServerEventAction::Fail,
        _ => ServerEventAction::Ignore,
    }
}

/// The stages of a server's connection with one client.
#[derive(Clone, Copy, Debug, PartialEq, Eq, Structural)]
pub enum ClientState {
    Initial,
    VersionNegotiate,
    ValidateToken,
    HttpInitiate,
    Data,
    Error,
    Shutdown,
}

/// What happened to a client's connection.
#[derive(Clone, Copy, Debug, PartialEq, Eq, Structural)]
pub enum ClientStep {
    /// The connection was accepted.
    Accepted,
    /// The HTTP/3 connection on top of QUIC was made.
    Http3Started,
    /// Data came before the QUIC handshake allowed HTTP/3.
    Http3Refused,
    /// The HTTP/3 connection has no more events.
    EventsDone,
}

impl ClientState {
    /// The stage a client's connection reaches after `step`.
    pub fn after(step: ClientStep) -> (r: ClientState)
        ensures
            r == (match step {
                ClientStep::Accepted => ClientState::HttpInitiate,
                ClientStep::Http3Started => ClientState::Data,
                ClientStep::Http3Refused => ClientState::Error,
                ClientStep::EventsDone => ClientState::Shutdown,
            }),
    {
        match step {
            ClientStep::Accepted => ClientState::HttpInitiate,
            ClientStep::Http3Started => ClientState::Data,
            ClientStep::Http3Refused => ClientState::Error,
            ClientStep::EventsDone => ClientState::Shutdown,
        }
    }
}

/// Whether HTTP/3 can start on a connection: once it is in early data or
/// established.
pub fn http3_can_start(in_early_data: bool, established: bool) -> (r: bool)
    ensures
        r == (in_early_data || established),
{
    in_early_data || established
}

} // verus!
