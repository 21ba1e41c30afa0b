//! The wireless operations: scan, list the remembered networks, connect by ssid, remove by
//! id, and resolve the network that is currently connected.
//!
//! Each operation builds one session for the wireless interface, runs the driver loop,
//! its sequence of commands and the event listener side by side, and waits for all
//! three. What the operation returns is what its commands came to.

use vstd::prelude::*;
use vstd::string::StringExecFns;
use crate::network_manager::errors::{
    connect_failed,
    current_network_unresolved,
    remove_request_failed,
    status_request_failed,
    WifiError,
    WifiErrorView,
};
use crate::network_manager::listener::EventListener;
use crate::network_manager::network::{
    current_ssid,
    find_current,
    find_in_range,
    first_current,
    has_current,
    in_range,
    lemma_current_ssid,
    lemma_seen_as,
    seen_as,
    NetworkResult,
    NetworkResultView,
    ScanResult,
    ScanResultView,
};
use crate::network_manager::request::{Reply, ReplyView};
use crate::network_manager::sequence::{start, Action, RequestSequence, Task, TaskView};
use crate::network_manager::session::{socket_path_of, Session, SessionState, SessionView};
use crate::text::{contains, occurs_in};

verus! {

/// The wireless interface that every operation works on.
pub open spec fn interface() -> Seq<char> {
    "wlan0"@
}

/// What the three activities of an operation came to, once all have ended.
#[derive(Debug)]
pub struct Joined {
    /// What the commands came to. This alone decides the operation's result.
    pub outcome: Reply,
    /// Why the driver loop failed, if it did. It is there to be logged and changes no
    /// result.
    pub diagnostic: Option<String>,
    /// How many status events the listener observed. They change no result either.
    pub events: usize,
}

/// What a scan returns for what its commands came to.
pub open spec fn scan_result(outcome: ReplyView) -> Result<Seq<ScanResultView>, WifiErrorView> {
    match outcome.as_scan() {
        Ok(found) => Ok(found),
        Err(cause) => Err(status_request_failed(cause)),
    }
}

/// What a listing of the remembered networks returns for what its commands came to.
pub open spec fn known_result(outcome: ReplyView) -> Result<
    Seq<NetworkResultView>,
    WifiErrorView,
> {
    match outcome.as_networks() {
        Ok(known) => Ok(known),
        Err(cause) => Err(status_request_failed(cause)),
    }
}

/// What a connect returns for what its commands came to.
pub open spec fn connect_result(outcome: ReplyView) -> Result<(), WifiErrorView> {
    match outcome.as_done() {
        Ok(_) => Ok(()),
        Err(cause) => Err(connect_failed(cause)),
    }
}

/// What a removal returns for what its commands came to.
pub open spec fn remove_result(outcome: ReplyView) -> Result<(), WifiErrorView> {
    match outcome.as_done() {
        Ok(_) => Ok(()),
        Err(cause) => Err(remove_request_failed(cause)),
    }
}

/// The network that is currently connected, from the remembered networks and a fresh
/// scan: none when no remembered network is marked current; else the first scan entry
/// that is named as the first such network; and a failure when there is no such entry,
/// since the daemon then claims an association that the scan does not corroborate.
pub open spec fn resolve_current(
    known: Seq<NetworkResultView>,
    scan: Seq<ScanResultView>,
) -> Result<Option<ScanResultView>, WifiErrorView> {
    match current_ssid(known) {
        None => Ok(None),
        Some(ssid) => match seen_as(scan, ssid) {
            Some(entry) => Ok(Some(entry)),
            None => Err(current_network_unresolved()),
        },
    }
}

/// What the fetch of the remembered networks came to, as plain values.
pub open spec fn known_view(known: Result<Vec<NetworkResult>, WifiError>) -> Result<
    Seq<NetworkResultView>,
    WifiErrorView,
> {
    match known {
        Ok(known) => Ok(known.deep_view()),
        Err(error) => Err(error@),
    }
}

/// What the fetch of a scan came to, as plain values.
pub open spec fn scan_view(scan: Result<Vec<ScanResult>, WifiError>) -> Result<
    Seq<ScanResultView>,
    WifiErrorView,
> {
    match scan {
        Ok(scan) => Ok(scan.deep_view()),
        Err(error) => Err(error@),
    }
}

/// Whether a scan is called for once the remembered networks were fetched: it is when
/// the fetch succeeded and one of them is marked current.
pub open spec fn scan_called_for(known: Result<Seq<NetworkResultView>, WifiErrorView>) -> bool {
    match known {
        Ok(known) => current_ssid(known) is Some,
        Err(_) => false,
    }
}

/// The network that is currently connected, from what the two fetches came to. A failed
/// fetch of the remembered networks is the result. Where no remembered network is marked
/// current there is no current network, whatever became of the scan. Else a failed scan
/// is the result, and a scan that succeeded is looked through.
pub open spec fn resolve_fetched(
    known: Result<Seq<NetworkResultView>, WifiErrorView>,
    scan: Result<Seq<ScanResultView>, WifiErrorView>,
) -> Result<Option<ScanResultView>, WifiErrorView> {
    match known {
        Err(error) => Err(error),
        Ok(known) => match current_ssid(known) {
            None => Ok(None),
            Some(_) => match scan {
                Err(error) => Err(error),
                Ok(scan) => resolve_current(known, scan),
            },
        },
    }
}

/// Where the remembered networks were fetched and none is marked current, there is no
/// current network, whether the scan succeeded, failed or was never made.
pub proof fn lemma_no_current_network_fetched(
    known: Seq<NetworkResultView>,
    scan: Result<Seq<ScanResultView>, WifiErrorView>,
)
    requires
        !has_current(known),
    ensures
        resolve_fetched(Ok(known), scan) == Ok::<Option<ScanResultView>, WifiErrorView>(None),
        !scan_called_for(Ok(known)),
{
}

/// Where no remembered network is marked current, there is no current network, whatever
/// the scan holds; and that is no failure.
pub proof fn lemma_no_current_network(known: Seq<NetworkResultView>, scan: Seq<ScanResultView>)
    requires
        !has_current(known),
    ensures
        resolve_current(known, scan) == Ok::<Option<ScanResultView>, WifiErrorView>(None),
{
}

/// Where a remembered network is marked current and no scan entry has its ssid, the
/// current network is unresolved, which is a failure of its own and not the absence of
/// a current network.
pub proof fn lemma_current_network_unresolved(
    known: Seq<NetworkResultView>,
    scan: Seq<ScanResultView>,
    i: int,
)
    requires
        first_current(known, i),
        !in_range(scan, known[i].ssid),
    ensures
        resolve_current(known, scan) == Err::<Option<ScanResultView>, WifiErrorView>(
            current_network_unresolved(),
        ),
        resolve_current(known, scan) != Ok::<Option<ScanResultView>, WifiErrorView>(None),
{
    lemma_current_ssid(known, i);
}

/// The wireless operations of the device.
#[derive(Debug)]
pub struct WifiModule;

impl WifiModule {
    pub fn new() -> (module: Self) {
        WifiModule
    }

    /// Whether a wireless adapter exists, from the listing of the network interfaces: it
    /// does when the listing names the wireless interface.
    pub fn wifi_status(interfaces: &str) -> (present: bool)
        ensures
            present == occurs_in(interfaces@, interface()),
    {
        contains(interfaces, "wlan0")
    }

    /// Builds the session of one operation from the outcome of opening the daemon's
    /// control socket for the wireless interface.
    pub fn session(opened: Result<(), String>) -> (built: Result<Session, WifiError>)
        ensures
            match opened {
                Ok(()) => built is Ok && built->Ok_0@ == (SessionView {
                    state: SessionState::Built,
                    socket_path: socket_path_of(interface()),
                }),
                Err(cause) => built is Err && built->Err_0@
                    == crate::network_manager::errors::session_setup_failed(cause@),
            },
    {
        Session::build("wlan0", opened)
    }

    /// Starts the commands of a scan: the scan, then the release.
    pub fn wifi_list(session: Session) -> (begun: (RequestSequence, Action))
        ensures
            (begun.0@, begun.1@) == start(session@, TaskView::Scan),
    {
        RequestSequence::start(session, Task::Scan)
    }

    /// Starts the commands of a listing: the listing, then the release.
    pub fn known_wifi(session: Session) -> (begun: (RequestSequence, Action))
        ensures
            (begun.0@, begun.1@) == start(session@, TaskView::ListKnown),
    {
        RequestSequence::start(session, Task::ListKnown)
    }

    /// Starts the commands of a connect to `ssid`: the listing, then the selection of the
    /// remembered entry with that ssid, or else the creation of an entry, its ssid, its
    /// pre-shared key and its selection; then the release. The selection only asks the
    /// daemon to associate: whether it did is for a later look at the current network.
    pub fn connect_wifi(session: Session, ssid: &str, psk: &str) -> (begun: (
        RequestSequence,
        Action,
    ))
        ensures
            (begun.0@, begun.1@) == start(
                session@,
                TaskView::Connect { ssid: ssid@, psk: psk@ },
            ),
    {
        RequestSequence::start(
            session,
            Task::Connect { ssid: String::from_str(ssid), psk: String::from_str(psk) },
        )
    }

    /// Starts the commands of a removal: the removal, then the release. Whether the id
    /// exists is for the daemon to say.
    pub fn remove_wifi(session: Session, network_id: usize) -> (begun: (RequestSequence, Action))
        ensures
            (begun.0@, begun.1@) == start(session@, TaskView::Remove { network_id }),
    {
        RequestSequence::start(session, Task::Remove { network_id })
    }

    /// The listener that drains the session's status events.
    pub fn broadcast_listener() -> (listener: EventListener)
        ensures
            listener@.observed == 0,
            !listener@.closed,
    {
        EventListener::new()
    }

    /// Joins the three activities of an operation once all have ended. The commands'
    /// outcome is the operation's; a failure of the driver loop is kept for the log and
    /// overrides nothing; the listener ends without a result.
    pub fn join(driver: Result<(), String>, outcome: Reply, listener: EventListener) -> (joined:
        Joined)
        ensures
            joined.outcome == outcome,
            match driver {
                Ok(()) => joined.diagnostic is None,
                Err(cause) => joined.diagnostic == Some(cause),
            },
            joined.events == listener@.observed,
    {
        let diagnostic = match driver {
            Ok(()) => None,
            Err(cause) => Some(cause),
        };
        Joined { outcome, diagnostic, events: listener.observed() }
    }

    /// The result of a scan: the entries in the daemon's order, or the failure with its
    /// cause.
    pub fn scan_wireless_network(&self, wifi_list: Reply) -> (outcome: Result<
        Vec<ScanResult>,
        WifiError,
    >)
        ensures
            match outcome {
                Ok(found) => scan_result(wifi_list@) == Ok::<_, WifiErrorView>(found.deep_view()),
                Err(error) => scan_result(wifi_list@) == Err::<Seq<ScanResultView>, _>(error@),
            },
    {
        match wifi_list.into_scan() {
            Ok(found) => Ok(found),
            Err(failed) => Err(WifiError::status_request_failed(failed.cause.as_str())),
        }
    }

    /// The result of a listing: the remembered networks, or the failure with its cause.
    pub fn get_known_wifi_list(known_wifi: Reply) -> (outcome: Result<
        Vec<NetworkResult>,
        WifiError,
    >)
        ensures
            match outcome {
                Ok(known) => known_result(known_wifi@) == Ok::<_, WifiErrorView>(
                    known.deep_view(),
                ),
                Err(error) => known_result(known_wifi@) == Err::<Seq<NetworkResultView>, _>(
                    error@,
                ),
            },
    {
        match known_wifi.into_networks() {
            Ok(known) => Ok(known),
            Err(failed) => Err(WifiError::status_request_failed(failed.cause.as_str())),
        }
    }

    /// The ssid that a fresh scan is to corroborate: that of the first remembered network
    /// that is marked current. Where there is none, there is no current network and no
    /// scan is called for.
    pub fn current_known_ssid(&self, known_wifi_list: &Vec<NetworkResult>) -> (ssid: Option<String>)
        ensures
            match ssid {
                Some(ssid) => current_ssid(known_wifi_list.deep_view()) == Some(ssid@),
                None => current_ssid(known_wifi_list.deep_view()) is None,
            },
    {
        match find_current(known_wifi_list) {
            None => None,
            Some(i) => {
                proof {
                    lemma_current_ssid(known_wifi_list.deep_view(), i as int);
                }
                Some(known_wifi_list[i].ssid.clone())
            },
        }
    }

    /// Whether a scan is called for once the remembered networks were fetched.
    pub fn scan_needed(&self, known_wifi_list: &Result<Vec<NetworkResult>, WifiError>) -> (needed:
        bool)
        ensures
            needed == scan_called_for(known_view(*known_wifi_list)),
    {
        match known_wifi_list {
            Ok(known) => {
                let found = find_current(known);
                proof {
                    if let Some(i) = found {
                        lemma_current_ssid(known.deep_view(), i as int);
                    }
                }
                found.is_some()
            },
            Err(_) => false,
        }
    }

    /// The network that is currently connected, from what the fetch of the remembered
    /// networks and the fetch of a scan came to. Where no scan was called for, any outcome
    /// stands for it.
    pub fn current_wifi_network_fetched(
        &self,
        known_wifi_list: Result<Vec<NetworkResult>, WifiError>,
        scan_wifi_list: Result<Vec<ScanResult>, WifiError>,
    ) -> (outcome: Result<Option<ScanResult>, WifiError>)
        ensures
            match outcome {
                Ok(Some(entry)) => resolve_fetched(
                    known_view(known_wifi_list),
                    scan_view(scan_wifi_list),
                ) == Ok::<_, WifiErrorView>(Some(entry@)),
                Ok(None) => resolve_fetched(
                    known_view(known_wifi_list),
                    scan_view(scan_wifi_list),
                ) == Ok::<Option<ScanResultView>, WifiErrorView>(None),
                Err(error) => resolve_fetched(
                    known_view(known_wifi_list),
                    scan_view(scan_wifi_list),
                ) == Err::<Option<ScanResultView>, _>(error@),
            },
    {
        match known_wifi_list {
            Err(error) => Err(error),
            Ok(known) => match find_current(&known) {
                None => Ok(None),
                Some(i) => {
                    proof {
                        lemma_current_ssid(known.deep_view(), i as int);
                    }
                    match scan_wifi_list {
                        Err(error) => Err(error),
                        Ok(scan) => self.current_wifi_network(&known, &scan),
                    }
                },
            },
        }
    }

    /// The network that is currently connected, from the remembered networks and a fresh
    /// scan.
    pub fn current_wifi_network(
        &self,
        known_wifi_list: &Vec<NetworkResult>,
        scan_wifi_list: &Vec<ScanResult>,
    ) -> (outcome: Result<Option<ScanResult>, WifiError>)
        ensures
            match outcome {
                Ok(Some(entry)) => resolve_current(
                    known_wifi_list.deep_view(),
                    scan_wifi_list.deep_view(),
                ) == Ok::<_, WifiErrorView>(Some(entry@)),
                Ok(None) => resolve_current(
                    known_wifi_list.deep_view(),
                    scan_wifi_list.deep_view(),
                ) == Ok::<Option<ScanResultView>, WifiErrorView>(None),
                Err(error) => resolve_current(
                    known_wifi_list.deep_view(),
                    scan_wifi_list.deep_view(),
                ) == Err::<Option<ScanResultView>, _>(error@),
            },
    {
        match find_current(known_wifi_list) {
            None => Ok(None),
            Some(i) => {
                proof {
                    lemma_current_ssid(known_wifi_list.deep_view(), i as int);
                }
                match find_in_range(scan_wifi_list, known_wifi_list[i].ssid.as_str()) {
                    Some(j) => {
                        proof {
                            lemma_seen_as(
                                scan_wifi_list.deep_view(),
                                known_wifi_list[i as int].ssid@,
                                j as int,
                            );
                        }
                        Ok(Some(scan_wifi_list[j].clone()))
                    },
                    None => Err(WifiError::current_network_unresolved()),
                }
            },
        }
    }

    /// The result of a connect: success when every command succeeded, else the failure
    /// that wraps the cause of the first command that failed. What the daemon holds of a
    /// half-made entry stays as it is.
    pub fn connect_wireless_network(connect_wifi: Reply) -> (outcome: Result<(), WifiError>)
        ensures
            match outcome {
                Ok(()) => connect_result(connect_wifi@) == Ok::<(), WifiErrorView>(()),
                Err(error) => connect_result(connect_wifi@) == Err::<(), _>(error@),
            },
    {
        match connect_wifi.into_done() {
            Ok(()) => Ok(()),
            Err(failed) => Err(WifiError::connect_failed(failed.cause.as_str())),
        }
    }

    /// The result of a removal: success, or the failure with its cause.
    pub fn remove_wireless_network(remove_wifi: Reply) -> (outcome: Result<(), WifiError>)
        ensures
            match outcome {
                Ok(()) => remove_result(remove_wifi@) == Ok::<(), WifiErrorView>(()),
                Err(error) => remove_result(remove_wifi@) == Err::<(), _>(error@),
            },
    {
        match remove_wifi.into_done() {
            Ok(()) => Ok(()),
            Err(failed) => Err(WifiError::remove_request_failed(failed.cause.as_str())),
        }
    }
}

} // verus!
