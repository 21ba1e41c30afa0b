use mecha_sdk::network_manager::errors::{WifiError, WifiErrorCodes};
use mecha_sdk::network_manager::listener::{Broadcast, EventListener};
use mecha_sdk::network_manager::network::{find_current, find_in_range, find_known, NetworkResult, ScanResult};
use mecha_sdk::network_manager::request::{Reply, Request, RequestFailed};
use mecha_sdk::network_manager::sequence::{Action, Progress, RequestSequence, Task};
use mecha_sdk::network_manager::session::{Session, SessionState};
use mecha_sdk::network_manager::wifi::WifiModule;

fn network(network_id: usize, ssid: &str, flags: &str) -> NetworkResult {
    NetworkResult { network_id, ssid: ssid.to_string(), flags: flags.to_string() }
}

fn seen(name: &str, signal: isize) -> ScanResult {
    ScanResult {
        mac: "00:5f:67:90:da:64".to_string(),
        frequency: "2417".to_string(),
        signal,
        flags: "[WPA2-PSK-CCMP][ESS]".to_string(),
        name: name.to_string(),
    }
}

fn fresh_session() -> Session {
    WifiModule::session(Ok(())).unwrap()
}

/// A daemon that answers from what it holds and keeps count of what it was asked.
struct FakeDaemon {
    known: Vec<NetworkResult>,
    scan: Vec<ScanResult>,
    next_id: usize,
    asked: Vec<Request>,
    rejects: Option<usize>,
}

impl FakeDaemon {
    fn new(known: Vec<NetworkResult>, scan: Vec<ScanResult>) -> Self {
        FakeDaemon { known, scan, next_id: 7, asked: Vec::new(), rejects: None }
    }

    fn rejecting(mut self, position: usize) -> Self {
        self.rejects = Some(position);
        self
    }

    fn count(&self, wanted: fn(&Request) -> bool) -> usize {
        self.asked.iter().filter(|request| wanted(request)).count()
    }

    fn answer(&mut self, request: Request) -> Reply {
        let position = self.asked.len();
        let reply = if self.rejects == Some(position) {
            Reply::Failed("FAIL".to_string())
        } else {
            match &request {
                Request::Scan => Reply::Scan(self.scan.clone()),
                Request::ListNetworks => Reply::Networks(self.known.clone()),
                Request::AddNetwork => {
                    let network_id = self.next_id;
                    self.known.push(network(network_id, "", ""));
                    Reply::NetworkId(network_id)
                }
                Request::SetSsid { network_id, ssid } => {
                    match self.known.iter_mut().find(|entry| entry.network_id == *network_id) {
                        Some(entry) => {
                            entry.ssid = ssid.clone();
                            Reply::Done
                        }
                        None => Reply::Failed("FAIL".to_string()),
                    }
                }
                Request::SetPsk { network_id, .. } | Request::SelectNetwork { network_id } => {
                    if self.known.iter().any(|entry| entry.network_id == *network_id) {
                        Reply::Done
                    } else {
                        Reply::Failed("FAIL".to_string())
                    }
                }
                Request::RemoveNetwork { network_id } => {
                    let before = self.known.len();
                    self.known.retain(|entry| entry.network_id != *network_id);
                    if self.known.len() < before {
                        Reply::Done
                    } else {
                        Reply::Failed("FAIL".to_string())
                    }
                }
                Request::Shutdown => Reply::Done,
            }
        };
        self.asked.push(request);
        reply
    }
}

fn run(daemon: &mut FakeDaemon, begun: (RequestSequence, Action)) -> (RequestSequence, Reply) {
    let (mut sequence, mut action) = begun;
    loop {
        match action {
            Action::Send(request) => {
                let reply = daemon.answer(request);
                action = sequence.advance(reply);
            }
            Action::Finish(outcome) => return (sequence, outcome),
        }
    }
}

fn is_add(request: &Request) -> bool {
    matches!(request, Request::AddNetwork)
}

fn is_shutdown(request: &Request) -> bool {
    matches!(request, Request::Shutdown)
}

#[test]
fn scenario_connect_reuses_known_network() {
    let mut daemon = FakeDaemon::new(vec![network(1, "Home", "")], vec![seen("Home", -40)]);
    let (sequence, outcome) = run(&mut daemon, WifiModule::connect_wifi(fresh_session(), "Home", "x"));
    assert_eq!(
        daemon.asked,
        vec![Request::ListNetworks, Request::SelectNetwork { network_id: 1 }, Request::Shutdown]
    );
    assert_eq!(daemon.count(is_add), 0);
    assert_eq!(outcome, Reply::Done);
    assert_eq!(sequence.progress(), Progress::Finished);
    assert!(WifiModule::connect_wireless_network(outcome).is_ok());
}

#[test]
fn scenario_connect_creates_unknown_network() {
    let mut daemon = FakeDaemon::new(vec![], vec![]);
    let (_, outcome) = run(&mut daemon, WifiModule::connect_wifi(fresh_session(), "Office", "pw"));
    assert_eq!(
        daemon.asked,
        vec![
            Request::ListNetworks,
            Request::AddNetwork,
            Request::SetSsid { network_id: 7, ssid: "Office".to_string() },
            Request::SetPsk { network_id: 7, psk: "pw".to_string() },
            Request::SelectNetwork { network_id: 7 },
            Request::Shutdown,
        ]
    );
    assert_eq!(outcome, Reply::Done);
    assert!(WifiModule::connect_wireless_network(outcome).is_ok());
    assert_eq!(daemon.known, vec![network(7, "Office", "")]);
}

#[test]
fn scenario_current_network_is_the_scan_entry() {
    let module = WifiModule::new();
    let known = vec![network(2, "Home", "[CURRENT]")];
    let scan = vec![seen("Home", -55)];
    let current = module.current_wifi_network(&known, &scan).unwrap();
    assert_eq!(current, Some(seen("Home", -55)));
}

#[test]
fn scenario_current_network_unresolved_without_scan_entry() {
    let module = WifiModule::new();
    let known = vec![network(2, "Home", "[CURRENT]")];
    let error = module.current_wifi_network(&known, &vec![]).unwrap_err();
    assert_eq!(error.code, WifiErrorCodes::UnableToGetWifiDeviceStatus);
    assert_eq!(error.message, "unable to get current wifi network");
}

#[test]
fn connect_to_known_ssid_never_adds_even_when_commands_fail() {
    for position in 0..4 {
        let known = vec![network(3, "Cafe", "[DISABLED]"), network(4, "Home", ""), network(5, "Home", "")];
        let mut daemon = FakeDaemon::new(known, vec![]).rejecting(position);
        let (_, outcome) = run(&mut daemon, WifiModule::connect_wifi(fresh_session(), "Home", "x"));
        assert_eq!(daemon.count(is_add), 0);
        assert_eq!(daemon.count(is_shutdown), 1);
        if position == 1 {
            assert_eq!(outcome, Reply::Failed("FAIL".to_string()));
        }
        if position >= 1 {
            assert_eq!(daemon.asked[1], Request::SelectNetwork { network_id: 4 });
        }
    }
}

#[test]
fn connect_to_unknown_ssid_stops_at_the_first_failure_and_releases() {
    let plan = vec![
        Request::ListNetworks,
        Request::AddNetwork,
        Request::SetSsid { network_id: 7, ssid: "Office".to_string() },
        Request::SetPsk { network_id: 7, psk: "pw".to_string() },
        Request::SelectNetwork { network_id: 7 },
    ];
    for position in 0..5 {
        let mut daemon = FakeDaemon::new(vec![network(1, "Home", "")], vec![]).rejecting(position);
        let (_, outcome) = run(&mut daemon, WifiModule::connect_wifi(fresh_session(), "Office", "pw"));
        let mut expected: Vec<Request> = plan[..=position].to_vec();
        expected.push(Request::Shutdown);
        assert_eq!(daemon.asked, expected);
        let error = WifiModule::connect_wireless_network(outcome).unwrap_err();
        assert_eq!(error.code, WifiErrorCodes::UnableToConnectToWifiDevice);
        let wrapped = position == 0 || position == 1 || position == 4;
        let cause = if wrapped {
            "(code: UnableToConnectToWifiDevice, message: unable to connect to wifi network FAIL)"
        } else {
            "FAIL"
        };
        assert_eq!(error.message, format!("unable to connect to wifi network {}", cause));
    }
}

#[test]
fn no_current_network_whatever_the_scan_holds() {
    let module = WifiModule::new();
    let known = vec![network(1, "Home", ""), network(2, "Cafe", "[DISABLED]"), network(3, "Lab", "[CURREN][T]")];
    assert_eq!(module.current_wifi_network(&known, &vec![]).unwrap(), None);
    assert_eq!(module.current_wifi_network(&known, &vec![seen("Home", -40), seen("Lab", -50)]).unwrap(), None);
    assert_eq!(module.current_wifi_network(&vec![], &vec![seen("Home", -40)]).unwrap(), None);
}

#[test]
fn current_network_takes_first_current_and_first_scan_entry() {
    let module = WifiModule::new();
    let known = vec![network(1, "Home", ""), network(2, "Cafe", "[CURRENT]"), network(3, "Lab", "[CURRENT]")];
    let scan = vec![seen("Lab", -30), seen("Cafe", -60), seen("Cafe", -20)];
    assert_eq!(module.current_wifi_network(&known, &scan).unwrap(), Some(seen("Cafe", -60)));
    let error = module.current_wifi_network(&known, &vec![seen("Lab", -30)]).unwrap_err();
    assert_eq!(error.to_string(), "(code: UnableToGetWifiDeviceStatus, message: unable to get current wifi network)");
}

#[test]
fn current_marker_counts_beside_other_flags() {
    let module = WifiModule::new();
    let known = vec![network(2, "Home", "[CURRENT][TEMP-DISABLED]")];
    assert_eq!(
        module.current_wifi_network(&known, &vec![seen("Home", -55)]).unwrap(),
        Some(seen("Home", -55))
    );
    let error = module.current_wifi_network(&known, &vec![]).unwrap_err();
    assert_eq!(error.message, "unable to get current wifi network");
    let error = module.current_wifi_network(&known, &vec![seen("Cafe", -55)]).unwrap_err();
    assert_eq!(error.code, WifiErrorCodes::UnableToGetWifiDeviceStatus);
    assert_eq!(module.current_known_ssid(&known), Some("Home".to_string()));
}

#[test]
fn failed_fetches_are_handed_on_where_they_count() {
    let module = WifiModule::new();
    let down = || WifiError::status_request_failed("down");
    let current = || vec![network(2, "Home", "[CURRENT]")];
    let idle = || vec![network(2, "Home", "[DISABLED]")];

    assert!(module.scan_needed(&Ok(current())));
    assert!(!module.scan_needed(&Ok(idle())));
    assert!(!module.scan_needed(&Ok(vec![])));
    assert!(!module.scan_needed(&Err(down())));

    let error = module.current_wifi_network_fetched(Err(down()), Ok(vec![seen("Home", -40)])).unwrap_err();
    assert_eq!(error.message, "unable to get wifi device status: down");
    let error = module.current_wifi_network_fetched(Ok(current()), Err(down())).unwrap_err();
    assert_eq!(error.message, "unable to get wifi device status: down");
    assert_eq!(module.current_wifi_network_fetched(Ok(idle()), Err(down())).unwrap(), None);
    assert_eq!(module.current_wifi_network_fetched(Ok(idle()), Ok(vec![seen("Home", -40)])).unwrap(), None);
    assert_eq!(
        module.current_wifi_network_fetched(Ok(current()), Ok(vec![seen("Home", -40)])).unwrap(),
        Some(seen("Home", -40))
    );
    let error = module.current_wifi_network_fetched(Ok(current()), Ok(vec![])).unwrap_err();
    assert_eq!(error.message, "unable to get current wifi network");
}

#[test]
fn scan_is_called_for_only_by_a_current_network() {
    let module = WifiModule::new();
    let known = vec![network(1, "Home", ""), network(2, "Cafe", "[CURRENT]"), network(3, "Lab", "[CURRENT]")];
    assert_eq!(module.current_known_ssid(&known), Some("Cafe".to_string()));
    assert_eq!(module.current_known_ssid(&vec![network(1, "Home", "")]), None);
    assert_eq!(module.current_known_ssid(&vec![]), None);
}

#[test]
fn searches_find_the_first_match() {
    let known = vec![network(1, "Home", ""), network(2, "Cafe", "[CURRENT]"), network(3, "Cafe", "[CURRENT]")];
    assert_eq!(find_known(&known, "Cafe"), Some(1));
    assert_eq!(find_known(&known, "cafe"), None);
    assert_eq!(find_known(&vec![], "Cafe"), None);
    assert_eq!(find_current(&known), Some(1));
    assert_eq!(find_current(&vec![network(1, "Home", "[current]")]), None);
    assert_eq!(find_current(&vec![network(1, "Home", ""), network(2, "Lab", "[DISABLED][CURRENT]")]), Some(1));
    assert!(network(1, "Home", "[CURRENT]").is_current());
    assert!(network(1, "Home", "[CURRENT][TEMP-DISABLED]").is_current());
    assert!(network(1, "Home", "[DISABLED][CURRENT]").is_current());
    assert!(!network(1, "Home", "[CURRENT").is_current());
    assert!(!network(1, "Home", "[DISABLED]").is_current());
    assert!(!network(1, "Home", "").is_current());
    let scan = vec![seen("Home", -40), seen("Cafe", -50), seen("Cafe", -60)];
    assert_eq!(find_in_range(&scan, "Cafe"), Some(1));
    assert_eq!(find_in_range(&scan, ""), None);
}

#[test]
fn scan_sequence_returns_entries_in_daemon_order() {
    let scan = vec![seen("Zeta", -70), seen("Alpha", -20), seen("Mid", -50)];
    let mut daemon = FakeDaemon::new(vec![], scan.clone());
    let (_, outcome) = run(&mut daemon, WifiModule::wifi_list(fresh_session()));
    assert_eq!(daemon.asked, vec![Request::Scan, Request::Shutdown]);
    let module = WifiModule::new();
    assert_eq!(module.scan_wireless_network(outcome).unwrap(), scan);
}

#[test]
fn failed_scan_is_released_and_reported() {
    let mut daemon = FakeDaemon::new(vec![], vec![]).rejecting(0);
    let (_, outcome) = run(&mut daemon, WifiModule::wifi_list(fresh_session()));
    assert_eq!(daemon.asked, vec![Request::Scan, Request::Shutdown]);
    let error = WifiModule::new().scan_wireless_network(outcome).unwrap_err();
    assert_eq!(error.code, WifiErrorCodes::UnableToGetWifiDeviceStatus);
    assert_eq!(error.message, "unable to get wifi device status: FAIL");
}

#[test]
fn listing_sequence_returns_known_networks() {
    let known = vec![network(1, "Home", "[CURRENT]"), network(2, "Cafe", "")];
    let mut daemon = FakeDaemon::new(known.clone(), vec![]);
    let (_, outcome) = run(&mut daemon, WifiModule::known_wifi(fresh_session()));
    assert_eq!(daemon.asked, vec![Request::ListNetworks, Request::Shutdown]);
    assert_eq!(WifiModule::get_known_wifi_list(outcome).unwrap(), known);
    let error = WifiModule::get_known_wifi_list(Reply::Failed("down".to_string())).unwrap_err();
    assert_eq!(error.message, "unable to get wifi device status: down");
    let error = WifiModule::get_known_wifi_list(Reply::Done).unwrap_err();
    assert_eq!(error.message, "unable to get wifi device status: unexpected reply");
}

#[test]
fn removal_sequence_removes_and_releases() {
    let mut daemon = FakeDaemon::new(vec![network(1, "Home", ""), network(2, "Cafe", "")], vec![]);
    let (_, outcome) = run(&mut daemon, WifiModule::remove_wifi(fresh_session(), 2));
    assert_eq!(daemon.asked, vec![Request::RemoveNetwork { network_id: 2 }, Request::Shutdown]);
    assert!(WifiModule::remove_wireless_network(outcome).is_ok());
    assert_eq!(daemon.known, vec![network(1, "Home", "")]);

    let (_, outcome) = run(&mut daemon, WifiModule::remove_wifi(fresh_session(), 9));
    let error = WifiModule::remove_wireless_network(outcome).unwrap_err();
    assert_eq!(error.code, WifiErrorCodes::UnableToRemoveWifiDevice);
    assert_eq!(error.message, "unable to remove wifi network FAIL");
}

#[test]
fn session_setup_is_all_or_nothing() {
    let session = WifiModule::session(Ok(())).unwrap();
    assert_eq!(session.state(), SessionState::Built);
    assert_eq!(session.socket_path(), "/var/run/wpa_supplicant/wlan0");
    let session = Session::build("wlan1", Ok(())).unwrap();
    assert_eq!(session.socket_path(), "/var/run/wpa_supplicant/wlan1");
    let error = WifiModule::session(Err("No such file or directory".to_string())).unwrap_err();
    assert_eq!(error.code, WifiErrorCodes::UnableToGetWifiDeviceStatus);
    assert_eq!(error.message, "unable to get wifi device status: No such file or directory");
}

#[test]
fn session_moves_forward_only() {
    let mut handle = fresh_session().launch();
    assert_eq!(handle.state(), SessionState::Active);
    assert!(handle.is_active());
    assert_eq!(handle.scan(), Ok(Request::Scan));
    assert_eq!(handle.shutdown(), Some(Request::Shutdown));
    assert_eq!(handle.state(), SessionState::ShuttingDown);
    let closed = handle.close();
    assert_eq!(closed.state(), SessionState::Closed);
    let mut reused = closed.launch();
    assert_eq!(reused.state(), SessionState::Closed);
    assert_eq!(reused.shutdown(), None);
    assert_eq!(reused.close().state(), SessionState::Closed);
}

#[test]
fn shutdown_twice_is_harmless() {
    let mut handle = fresh_session().launch();
    assert_eq!(handle.shutdown(), Some(Request::Shutdown));
    assert_eq!(handle.shutdown(), None);
    assert_eq!(handle.shutdown(), None);
    assert_eq!(handle.state(), SessionState::ShuttingDown);
}

#[test]
fn no_command_after_shutdown() {
    let mut handle = fresh_session().launch();
    handle.shutdown();
    let failed = RequestFailed { cause: "session is not active".to_string() };
    assert_eq!(handle.scan(), Err(RequestFailed { cause: "session is not active".to_string() }));
    assert_eq!(handle.list_known_networks().unwrap_err(), failed);
    assert_eq!(handle.add_network().unwrap_err(), failed);
    assert_eq!(handle.set_ssid(1, "Home").unwrap_err(), failed);
    assert_eq!(handle.set_psk(1, "pw").unwrap_err(), failed);
    assert_eq!(handle.select_network(1).unwrap_err(), failed);
    assert_eq!(handle.remove_network(1).unwrap_err(), failed);
}

#[test]
fn handle_builds_each_command() {
    let handle = fresh_session().launch();
    assert_eq!(handle.list_known_networks(), Ok(Request::ListNetworks));
    assert_eq!(handle.add_network(), Ok(Request::AddNetwork));
    assert_eq!(handle.set_ssid(4, "Home"), Ok(Request::SetSsid { network_id: 4, ssid: "Home".to_string() }));
    assert_eq!(handle.set_psk(4, "secret"), Ok(Request::SetPsk { network_id: 4, psk: "secret".to_string() }));
    assert_eq!(handle.select_network(4), Ok(Request::SelectNetwork { network_id: 4 }));
    assert_eq!(handle.remove_network(4), Ok(Request::RemoveNetwork { network_id: 4 }));
    assert_eq!(handle.issue(Request::Scan), Ok(Request::Scan));
}

#[test]
fn used_session_serves_no_operation() {
    let closed = fresh_session().launch().close();
    let (sequence, action) = WifiModule::connect_wifi(closed, "Home", "x");
    assert_eq!(action, Action::Finish(Reply::Failed("session is not active".to_string())));
    assert_eq!(sequence.progress(), Progress::Finished);
    assert_eq!(sequence.state(), SessionState::Closed);
}

#[test]
fn finished_sequence_stays_finished() {
    let (mut sequence, action) = RequestSequence::start(fresh_session(), Task::Scan);
    assert_eq!(action, Action::Send(Request::Scan));
    assert_eq!(sequence.state(), SessionState::Active);
    assert_eq!(sequence.advance(Reply::Scan(vec![])), Action::Send(Request::Shutdown));
    assert_eq!(sequence.state(), SessionState::ShuttingDown);
    assert_eq!(sequence.progress(), Progress::AwaitShutdown);
    assert_eq!(sequence.advance(Reply::Failed("gone".to_string())), Action::Finish(Reply::Scan(vec![])));
    assert_eq!(
        sequence.advance(Reply::Done),
        Action::Finish(Reply::Failed("session is not active".to_string()))
    );
    assert_eq!(sequence.close().state(), SessionState::Closed);
}

#[test]
fn unexpected_reply_fails_the_step() {
    let (mut sequence, _) = WifiModule::connect_wifi(fresh_session(), "Home", "x");
    assert_eq!(sequence.advance(Reply::Done), Action::Send(Request::Shutdown));
    let outcome = match sequence.advance(Reply::Done) {
        Action::Finish(outcome) => outcome,
        Action::Send(_) => panic!("the sequence should be over"),
    };
    let error = WifiModule::connect_wireless_network(outcome).unwrap_err();
    assert_eq!(
        error.message,
        "unable to connect to wifi network (code: UnableToConnectToWifiDevice, message: unable to connect to wifi network unexpected reply)"
    );
}

#[test]
fn replies_are_read_by_kind() {
    assert_eq!(Reply::Scan(vec![seen("A", -1)]).into_scan(), Ok(vec![seen("A", -1)]));
    assert_eq!(Reply::Networks(vec![]).into_scan(), Err(RequestFailed { cause: "unexpected reply".to_string() }));
    assert_eq!(Reply::NetworkId(3).into_network_id(), Ok(3));
    assert_eq!(Reply::Failed("no".to_string()).into_network_id(), Err(RequestFailed { cause: "no".to_string() }));
    assert_eq!(Reply::Done.into_done(), Ok(()));
    assert_eq!(Reply::NetworkId(1).into_done(), Err(RequestFailed { cause: "unexpected reply".to_string() }));
    assert_eq!(Reply::Networks(vec![network(1, "a", "")]).into_networks(), Ok(vec![network(1, "a", "")]));
}

#[test]
fn driver_failure_does_not_override_the_commands() {
    let mut listener = WifiModule::broadcast_listener();
    listener.observe(Some(Broadcast::Ready));
    listener.observe(None);
    let joined = WifiModule::join(Err("socket closed".to_string()), Reply::Done, listener);
    assert_eq!(joined.outcome, Reply::Done);
    assert_eq!(joined.events, 1);
    assert_eq!(joined.diagnostic, Some("socket closed".to_string()));
    assert!(WifiModule::connect_wireless_network(joined.outcome).is_ok());
    let joined = WifiModule::join(Ok(()), Reply::Failed("no".to_string()), EventListener::new());
    assert_eq!(joined.diagnostic, None);
    assert!(WifiModule::remove_wireless_network(joined.outcome).is_err());
}

#[test]
fn listener_drains_until_the_channel_closes() {
    let mut listener = WifiModule::broadcast_listener();
    assert!(listener.observe(Some(Broadcast::Ready)));
    assert!(listener.observe(Some(Broadcast::Connected)));
    assert!(listener.observe(Some(Broadcast::Unknown("CTRL-EVENT".to_string()))));
    assert_eq!(listener.observed(), 3);
    assert!(!listener.is_closed());
    assert!(!listener.observe(None));
    assert!(listener.is_closed());
    assert!(!listener.observe(Some(Broadcast::Disconnected)));
    assert_eq!(listener.observed(), 3);
    let mut cancelled = EventListener::new();
    cancelled.cancel();
    assert!(cancelled.is_closed());
    assert!(!cancelled.observe(Some(Broadcast::WrongPsk)));
    assert_eq!(cancelled.observed(), 0);
}

#[test]
fn wifi_status_looks_for_the_interface() {
    assert!(WifiModule::wifi_status("lo: flags=73<UP>\n\nwlan0: flags=4163<UP,BROADCAST>\n"));
    assert!(!WifiModule::wifi_status("lo: flags=73<UP>\n\neth0: flags=4163<UP>\n"));
    assert!(!WifiModule::wifi_status(""));
    assert!(!WifiModule::wifi_status("wlan"));
}

#[test]
fn wifi_error_text() {
    let error = WifiError::new(WifiErrorCodes::Unknown, String::from("boom"));
    assert_eq!(error.to_string(), "(code: Unknown, message: boom)");
    assert_eq!(WifiErrorCodes::default(), WifiErrorCodes::NoWifiDeviceFound);
    assert_eq!(WifiErrorCodes::UnableToTurnOnWifi.to_string(), "UnableToTurnOnWifi");
    assert_eq!(WifiErrorCodes::UnableToTurnOffWifi.to_string(), "UnableToTurnOffWifi");
    assert_eq!(WifiErrorCodes::UnableToDisconnectFromWifiDevice.to_string(), "UnableToDisconnectFromWifiDevice");
    assert_eq!(WifiErrorCodes::UnableToRemoveWifiDevice.to_string(), "UnableToRemoveWifiDevice");
    assert_eq!(WifiError::session_setup_failed("x").message, "unable to get wifi device status: x");
    assert_eq!(WifiError::status_request_failed("x").code, WifiErrorCodes::UnableToGetWifiDeviceStatus);
    assert_eq!(WifiError::remove_request_failed("x").message, "unable to remove wifi network x");
    assert_eq!(WifiError::connect_failed("x").message, "unable to connect to wifi network x");
    assert_eq!(WifiError::current_network_unresolved().message, "unable to get current wifi network");
}
