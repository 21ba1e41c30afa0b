//! The commands that a request handle sends to the daemon, and the daemon's replies.
//!
//! One command is outstanding at a time: the next one is chosen only when the reply to
//! the last has come.

use vstd::prelude::*;
use vstd::string::StringExecFns;
use crate::network_manager::network::{NetworkResult, NetworkResultView, ScanResult, ScanResultView};

verus! {

/// A command for the daemon.
#[derive(Debug, Clone, PartialEq, Eq)]
pub enum Request {
    /// Look for networks in range.
    Scan,
    /// List the remembered networks.
    ListNetworks,
    /// Create an empty remembered network; the daemon assigns its id.
    AddNetwork,
    /// Set the ssid of a remembered network. The daemon checks the value, not this layer.
    SetSsid { network_id: usize, ssid: String },
    /// Set the pre-shared key of a remembered network. The daemon checks the value.
    SetPsk { network_id: usize, psk: String },
    /// Ask the daemon to associate with a remembered network. The attempt goes on after
    /// the reply; only events tell how it ends.
    SelectNetwork { network_id: usize },
    /// Forget a remembered network.
    RemoveNetwork { network_id: usize },
    /// Release the handle, which lets the driver loop end.
    Shutdown,
}

/// A command as plain values.
pub enum RequestView {
    Scan,
    ListNetworks,
    AddNetwork,
    SetSsid { network_id: usize, ssid: Seq<char> },
    SetPsk { network_id: usize, psk: Seq<char> },
    SelectNetwork { network_id: usize },
    RemoveNetwork { network_id: usize },
    Shutdown,
}

impl View for Request {
    type V = RequestView;

    open spec fn view(&self) -> RequestView {
        match *self {
            Request::Scan => RequestView::Scan,
            Request::ListNetworks => RequestView::ListNetworks,
            Request::AddNetwork => RequestView::AddNetwork,
            Request::SetSsid { network_id, ssid } => RequestView::SetSsid { network_id, ssid: ssid@ },
            Request::SetPsk { network_id, psk } => RequestView::SetPsk { network_id, psk: psk@ },
            Request::SelectNetwork { network_id } => RequestView::SelectNetwork { network_id },
            Request::RemoveNetwork { network_id } => RequestView::RemoveNetwork { network_id },
            Request::Shutdown => RequestView::Shutdown,
        }
    }
}

/// The daemon's answer to a command.
#[derive(Debug, Clone, PartialEq, Eq)]
pub enum Reply {
    /// The networks in range, in the order in which the daemon reported them.
    Scan(Vec<ScanResult>),
    /// The remembered networks.
    Networks(Vec<NetworkResult>),
    /// The id of the network that was created.
    NetworkId(usize),
    /// The command was carried out.
    Done,
    /// The command was rejected or its channel failed, with the cause.
    Failed(String),
}

/// A reply as plain values.
pub enum ReplyView {
    Scan(Seq<ScanResultView>),
    Networks(Seq<NetworkResultView>),
    NetworkId(usize),
    Done,
    Failed(Seq<char>),
}

impl View for Reply {
    type V = ReplyView;

    open spec fn view(&self) -> ReplyView {
        match *self {
            Reply::Scan(found) => ReplyView::Scan(found.deep_view()),
            Reply::Networks(known) => ReplyView::Networks(known.deep_view()),
            Reply::NetworkId(network_id) => ReplyView::NetworkId(network_id),
            Reply::Done => ReplyView::Done,
            Reply::Failed(cause) => ReplyView::Failed(cause@),
        }
    }
}

/// A command that was rejected, or whose channel failed, with the cause.
#[derive(Debug, Clone, PartialEq, Eq)]
pub struct RequestFailed {
    pub cause: String,
}

/// The cause given when a reply is not of the kind that the outstanding command calls for.
pub open spec fn unexpected_reply() -> Seq<char> {
    "unexpected reply"@
}

/// The cause given when a command is asked of a session that is not active.
pub open spec fn session_not_active() -> Seq<char> {
    "session is not active"@
}

impl ReplyView {
    /// What a reply means to one who asked for a scan.
    pub open spec fn as_scan(self) -> Result<Seq<ScanResultView>, Seq<char>> {
        match self {
            ReplyView::Scan(found) => Ok(found),
            ReplyView::Failed(cause) => Err(cause),
            _ => Err(unexpected_reply()),
        }
    }

    /// What a reply means to one who asked for the remembered networks.
    pub open spec fn as_networks(self) -> Result<Seq<NetworkResultView>, Seq<char>> {
        match self {
            ReplyView::Networks(known) => Ok(known),
            ReplyView::Failed(cause) => Err(cause),
            _ => Err(unexpected_reply()),
        }
    }

    /// What a reply means to one who asked for a new network.
    pub open spec fn as_network_id(self) -> Result<usize, Seq<char>> {
        match self {
            ReplyView::NetworkId(network_id) => Ok(network_id),
            ReplyView::Failed(cause) => Err(cause),
            _ => Err(unexpected_reply()),
        }
    }

    /// What a reply means to one who asked for something that has no result but success.
    pub open spec fn as_done(self) -> Result<(), Seq<char>> {
        match self {
            ReplyView::Done => Ok(()),
            ReplyView::Failed(cause) => Err(cause),
            _ => Err(unexpected_reply()),
        }
    }
}

impl Reply {
    /// Reads the reply to a scan: the entries, untouched and in the daemon's order.
    pub fn into_scan(self) -> (outcome: Result<Vec<ScanResult>, RequestFailed>)
        ensures
            match outcome {
                Ok(found) => self@.as_scan() == Ok::<_, Seq<char>>(found.deep_view()),
                Err(failed) => self@.as_scan() == Err::<Seq<ScanResultView>, _>(failed.cause@),
            },
    {
        match self {
            Reply::Scan(found) => Ok(found),
            Reply::Failed(cause) => Err(RequestFailed { cause }),
            _ => Err(RequestFailed { cause: String::from_str("unexpected reply") }),
        }
    }

    /// Reads the reply to a listing of the remembered networks.
    pub fn into_networks(self) -> (outcome: Result<Vec<NetworkResult>, RequestFailed>)
        ensures
            match outcome {
                Ok(known) => self@.as_networks() == Ok::<_, Seq<char>>(known.deep_view()),
                Err(failed) => self@.as_networks() == Err::<Seq<NetworkResultView>, _>(
                    failed.cause@,
                ),
            },
    {
        match self {
            Reply::Networks(known) => Ok(known),
            Reply::Failed(cause) => Err(RequestFailed { cause }),
            _ => Err(RequestFailed { cause: String::from_str("unexpected reply") }),
        }
    }

    /// Reads the reply to the creation of a network.
    pub fn into_network_id(self) -> (outcome: Result<usize, RequestFailed>)
        ensures
            match outcome {
                Ok(network_id) => self@.as_network_id() == Ok::<_, Seq<char>>(network_id),
                Err(failed) => self@.as_network_id() == Err::<usize, _>(failed.cause@),
            },
    {
        match self {
            Reply::NetworkId(network_id) => Ok(network_id),
            Reply::Failed(cause) => Err(RequestFailed { cause }),
            _ => Err(RequestFailed { cause: String::from_str("unexpected reply") }),
        }
    }

    /// Reads the reply to a command that has no result but success.
    pub fn into_done(self) -> (outcome: Result<(), RequestFailed>)
        ensures
            match outcome {
                Ok(()) => self@.as_done() == Ok::<(), Seq<char>>(()),
                Err(failed) => self@.as_done() == Err::<(), _>(failed.cause@),
            },
    {
        match self {
            Reply::Done => Ok(()),
            Reply::Failed(cause) => Err(RequestFailed { cause }),
            _ => Err(RequestFailed { cause: String::from_str("unexpected reply") }),
        }
    }
}

} // verus!
