//! The life of one control session, and the request handle that is derived from it.
//!
//! A session is built, becomes active when its handle is taken, begins to shut down when
//! the handle is released, and is closed when every activity on it has ended. It never
//! goes back: a closed session serves no further command.

use vstd::prelude::*;
use vstd::string::StringExecFns;
use crate::network_manager::errors::{session_setup_failed, WifiError};
use crate::network_manager::request::{session_not_active, Request, RequestFailed, RequestView};

verus! {

/// Where a session stands in its life.
#[derive(Debug, Clone, Copy, PartialEq, Eq, Structural)]
pub enum SessionState {
    /// Connected to the daemon; nothing runs on it yet.
    Built,
    /// The driver loop and the event listener run; commands may be in flight.
    Active,
    /// The handle was released; the driver loop drains.
    ShuttingDown,
    /// Every activity has ended. Terminal.
    Closed,
}

impl SessionState {
    /// The state's place in the order of a session's life.
    pub open spec fn rank(self) -> nat {
        match self {
            SessionState::Built => 0,
            SessionState::Active => 1,
            SessionState::ShuttingDown => 2,
            SessionState::Closed => 3,
        }
    }

    /// The state after the request handle is taken.
    pub open spec fn launched(self) -> SessionState {
        match self {
            SessionState::Built => SessionState::Active,
            other => other,
        }
    }

    /// The state after the request handle is released.
    pub open spec fn released(self) -> SessionState {
        match self {
            SessionState::Active => SessionState::ShuttingDown,
            other => other,
        }
    }

    /// The state after every activity on the session has ended.
    pub open spec fn joined(self) -> SessionState {
        SessionState::Closed
    }
}

/// A session as plain values.
pub struct SessionView {
    pub state: SessionState,
    pub socket_path: Seq<char>,
}

/// The directory in which the daemon keeps one control socket per interface.
pub open spec fn runtime_dir() -> Seq<char> {
    "/var/run/wpa_supplicant/"@
}

/// The control socket of an interface: `<runtime-dir>/<interface>`.
pub open spec fn socket_path_of(interface: Seq<char>) -> Seq<char> {
    runtime_dir() + interface
}

/// One live connection to the daemon for one interface.
#[derive(Debug)]
pub struct Session {
    state: SessionState,
    socket_path: String,
}

impl View for Session {
    type V = SessionView;

    closed spec fn view(&self) -> SessionView {
        SessionView { state: self.state, socket_path: self.socket_path@ }
    }
}

impl Session {
    /// Builds the session for `interface` from the outcome of opening the daemon's control
    /// socket. All or nothing: a socket that could not be opened gives the setup failure
    /// with its cause, and no session.
    pub fn build(interface: &str, opened: Result<(), String>) -> (built: Result<Session, WifiError>)
        ensures
            match opened {
                Ok(()) => built is Ok && built->Ok_0@ == (SessionView {
                    state: SessionState::Built,
                    socket_path: socket_path_of(interface@),
                }),
                Err(cause) => built is Err && built->Err_0@ == session_setup_failed(cause@),
            },
    {
        match opened {
            Ok(()) => Ok(
                Session {
                    state: SessionState::Built,
                    socket_path: String::from_str("/var/run/wpa_supplicant/").concat(interface),
                },
            ),
            Err(cause) => Err(WifiError::session_setup_failed(cause.as_str())),
        }
    }

    pub fn state(&self) -> (state: SessionState)
        ensures
            state == self@.state,
    {
        self.state
    }

    /// The path of the daemon's control socket.
    pub fn socket_path(&self) -> (path: &str)
        ensures
            path@ == self@.socket_path,
    {
        self.socket_path.as_str()
    }

    /// Takes the request handle. A built session becomes active; any other session stays
    /// as it is, so that a session that was used once is never used again.
    pub fn launch(self) -> (handle: RequestHandle)
        ensures
            handle@.state == self@.state.launched(),
            handle@.socket_path == self@.socket_path,
    {
        let state = match self.state {
            SessionState::Built => SessionState::Active,
            other => other,
        };
        RequestHandle { session: Session { state, socket_path: self.socket_path } }
    }
}

/// The capability to send commands on a session. It must be released once, after its
/// last use: the driver loop runs until then.
#[derive(Debug)]
pub struct RequestHandle {
    session: Session,
}

impl View for RequestHandle {
    type V = SessionView;

    closed spec fn view(&self) -> SessionView {
        self.session@
    }
}

/// What asking `request` of a session in `state` gives: the command to send while the
/// session is active, the failure otherwise.
pub open spec fn admitted(state: SessionState, request: RequestView) -> Result<
    RequestView,
    Seq<char>,
> {
    if state == SessionState::Active {
        Ok(request)
    } else {
        Err(session_not_active())
    }
}

impl RequestHandle {
    pub fn state(&self) -> (state: SessionState)
        ensures
            state == self@.state,
    {
        self.session.state
    }

    /// Whether commands are admitted.
    pub fn is_active(&self) -> (active: bool)
        ensures
            active == (self@.state == SessionState::Active),
    {
        match self.session.state {
            SessionState::Active => true,
            _ => false,
        }
    }

    /// Admits `request` while the session is active.
    pub fn issue(&self, request: Request) -> (outcome: Result<Request, RequestFailed>)
        ensures
            match outcome {
                Ok(command) => admitted(self@.state, request@) == Ok::<_, Seq<char>>(command@)
                    && command == request,
                Err(failed) => admitted(self@.state, request@) == Err::<RequestView, _>(
                    failed.cause@,
                ),
            },
    {
        if self.is_active() {
            Ok(request)
        } else {
            Err(RequestFailed { cause: String::from_str("session is not active") })
        }
    }

    /// Asks for the networks in range.
    pub fn scan(&self) -> (outcome: Result<Request, RequestFailed>)
        ensures
            match outcome {
                Ok(command) => admitted(self@.state, RequestView::Scan) == Ok::<_, Seq<char>>(
                    command@,
                ),
                Err(failed) => admitted(self@.state, RequestView::Scan) == Err::<RequestView, _>(
                    failed.cause@,
                ),
            },
    {
        self.issue(Request::Scan)
    }

    /// Asks for the remembered networks.
    pub fn list_known_networks(&self) -> (outcome: Result<Request, RequestFailed>)
        ensures
            match outcome {
                Ok(command) => admitted(self@.state, RequestView::ListNetworks) == Ok::<
                    _,
                    Seq<char>,
                >(command@),
                Err(failed) => admitted(self@.state, RequestView::ListNetworks) == Err::<
                    RequestView,
                    _,
                >(failed.cause@),
            },
    {
        self.issue(Request::ListNetworks)
    }

    /// Asks for a new, empty remembered network.
    pub fn add_network(&self) -> (outcome: Result<Request, RequestFailed>)
        ensures
            match outcome {
                Ok(command) => admitted(self@.state, RequestView::AddNetwork) == Ok::<
                    _,
                    Seq<char>,
                >(command@),
                Err(failed) => admitted(self@.state, RequestView::AddNetwork) == Err::<
                    RequestView,
                    _,
                >(failed.cause@),
            },
    {
        self.issue(Request::AddNetwork)
    }

    /// Asks to set the ssid of a remembered network. The value is passed on as it is.
    pub fn set_ssid(&self, network_id: usize, ssid: &str) -> (outcome: Result<
        Request,
        RequestFailed,
    >)
        ensures
            match outcome {
                Ok(command) => admitted(
                    self@.state,
                    RequestView::SetSsid { network_id, ssid: ssid@ },
                ) == Ok::<_, Seq<char>>(command@),
                Err(failed) => admitted(
                    self@.state,
                    RequestView::SetSsid { network_id, ssid: ssid@ },
                ) == Err::<RequestView, _>(failed.cause@),
            },
    {
        self.issue(Request::SetSsid { network_id, ssid: String::from_str(ssid) })
    }

    /// Asks to set the pre-shared key of a remembered network. The value is passed on as
    /// it is.
    pub fn set_psk(&self, network_id: usize, psk: &str) -> (outcome: Result<Request, RequestFailed>)
        ensures
            match outcome {
                Ok(command) => admitted(
                    self@.state,
                    RequestView::SetPsk { network_id, psk: psk@ },
                ) == Ok::<_, Seq<char>>(command@),
                Err(failed) => admitted(
                    self@.state,
                    RequestView::SetPsk { network_id, psk: psk@ },
                ) == Err::<RequestView, _>(failed.cause@),
            },
    {
        self.issue(Request::SetPsk { network_id, psk: String::from_str(psk) })
    }

    /// Asks the daemon to associate with a remembered network.
    pub fn select_network(&self, network_id: usize) -> (outcome: Result<Request, RequestFailed>)
        ensures
            match outcome {
                Ok(command) => admitted(
                    self@.state,
                    RequestView::SelectNetwork { network_id },
                ) == Ok::<_, Seq<char>>(command@),
                Err(failed) => admitted(
                    self@.state,
                    RequestView::SelectNetwork { network_id },
                ) == Err::<RequestView, _>(failed.cause@),
            },
    {
        self.issue(Request::SelectNetwork { network_id })
    }

    /// Asks the daemon to forget a remembered network.
    pub fn remove_network(&self, network_id: usize) -> (outcome: Result<Request, RequestFailed>)
        ensures
            match outcome {
                Ok(command) => admitted(
                    self@.state,
                    RequestView::RemoveNetwork { network_id },
                ) == Ok::<_, Seq<char>>(command@),
                Err(failed) => admitted(
                    self@.state,
                    RequestView::RemoveNetwork { network_id },
                ) == Err::<RequestView, _>(failed.cause@),
            },
    {
        self.issue(Request::RemoveNetwork { network_id })
    }

    /// Releases the handle. The first release of an active handle gives the command that
    /// tells the driver loop to end; any other release gives nothing and changes nothing.
    /// It never fails.
    pub fn shutdown(&mut self) -> (command: Option<Request>)
        ensures
            final(self)@.state == old(self)@.state.released(),
            final(self)@.socket_path == old(self)@.socket_path,
            match command {
                Some(request) => old(self)@.state == SessionState::Active && request
                    == Request::Shutdown,
                None => old(self)@.state != SessionState::Active,
            },
    {
        match self.session.state {
            SessionState::Active => {
                self.session.state = SessionState::ShuttingDown;
                Some(Request::Shutdown)
            },
            _ => None,
        }
    }

    /// Gives the session back once the driver loop, the commands and the event listener
    /// have all ended. The session is closed.
    pub fn close(self) -> (session: Session)
        ensures
            session@.state == self@.state.joined(),
            session@.socket_path == self@.socket_path,
    {
        Session { state: SessionState::Closed, socket_path: self.session.socket_path }
    }
}

/// A session never goes back: whatever is done to it, its state keeps its place in the
/// order built, active, shutting down, closed, or moves on in it.
pub proof fn lemma_session_never_goes_back(state: SessionState)
    ensures
        state.rank() <= state.launched().rank(),
        state.rank() <= state.released().rank(),
        state.rank() <= state.joined().rank(),
{
}

/// Closed is terminal: nothing moves a closed session.
pub proof fn lemma_closed_is_terminal()
    ensures
        SessionState::Closed.launched() == SessionState::Closed,
        SessionState::Closed.released() == SessionState::Closed,
        SessionState::Closed.joined() == SessionState::Closed,
{
}

/// Releasing a handle twice is releasing it once: the second release changes nothing and
/// sends nothing.
pub proof fn lemma_shutdown_idempotent(state: SessionState)
    ensures
        state.released().released() == state.released(),
        state.released() != SessionState::Active,
{
}

/// No command is admitted once the handle was released.
pub proof fn lemma_no_command_after_shutdown(state: SessionState, request: RequestView)
    ensures
        admitted(state.released(), request) == Err::<RequestView, _>(session_not_active()),
{
}

} // verus!
