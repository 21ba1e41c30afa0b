//! The commands that one operation sends, one at a time, ending in the release of its
//! request handle.
//!
//! A sequence is a state machine. It is started on a session and gives the first thing
//! to do; each reply of the daemon then gives the next. Whoever owns the socket sends
//! what the sequence says and hands back what came. A sequence always releases its
//! handle: after the last command when all went well, at once when a command fails, in
//! which case the commands that would have followed are not sent.

use vstd::prelude::*;
use vstd::string::StringExecFns;
use crate::network_manager::errors::{connect_failed, error_text, WifiError, WifiErrorCodes};
use crate::network_manager::network::{
    find_known,
    known_id,
    knows_ssid,
    lemma_known_id,
    NetworkResultView,
};
use crate::network_manager::request::{
    session_not_active,
    Reply,
    ReplyView,
    Request,
    RequestView,
};
use crate::network_manager::session::{RequestHandle, Session, SessionState, SessionView};

verus! {

/// What an operation asks of the daemon.
#[derive(Debug, Clone, PartialEq, Eq)]
pub enum Task {
    /// Look for the networks in range.
    Scan,
    /// List the remembered networks.
    ListKnown,
    /// Associate with the network named `ssid`: through its remembered entry if there is
    /// one, else through a new entry with this ssid and pre-shared key.
    Connect { ssid: String, psk: String },
    /// Forget the remembered network with this id.
    Remove { network_id: usize },
}

/// A task as plain values.
pub enum TaskView {
    Scan,
    ListKnown,
    Connect { ssid: Seq<char>, psk: Seq<char> },
    Remove { network_id: usize },
}

impl View for Task {
    type V = TaskView;

    open spec fn view(&self) -> TaskView {
        match *self {
            Task::Scan => TaskView::Scan,
            Task::ListKnown => TaskView::ListKnown,
            Task::Connect { ssid, psk } => TaskView::Connect { ssid: ssid@, psk: psk@ },
            Task::Remove { network_id } => TaskView::Remove { network_id },
        }
    }
}

impl TaskView {
    /// The command that opens the task.
    pub open spec fn first_request(self) -> RequestView {
        match self {
            TaskView::Scan => RequestView::Scan,
            TaskView::ListKnown => RequestView::ListNetworks,
            TaskView::Connect { .. } => RequestView::ListNetworks,
            TaskView::Remove { network_id } => RequestView::RemoveNetwork { network_id },
        }
    }

    /// What the task waits for after its first command.
    pub open spec fn first_progress(self) -> Progress {
        match self {
            TaskView::Connect { .. } => Progress::AwaitNetworks,
            _ => Progress::AwaitReply,
        }
    }

    /// The ssid to connect to; empty for the other tasks.
    pub open spec fn ssid(self) -> Seq<char> {
        match self {
            TaskView::Connect { ssid, .. } => ssid,
            _ => Seq::empty(),
        }
    }

    /// The pre-shared key to connect with; empty for the other tasks.
    pub open spec fn psk(self) -> Seq<char> {
        match self {
            TaskView::Connect { psk, .. } => psk,
            _ => Seq::empty(),
        }
    }
}

/// Which reply a sequence waits for.
#[derive(Debug, Clone, Copy, PartialEq, Eq, Structural)]
pub enum Progress {
    /// The reply to the one command of a scan, a listing or a removal.
    AwaitReply,
    /// Connect: the remembered networks.
    AwaitNetworks,
    /// Connect: the selection of the remembered entry.
    AwaitSelectKnown,
    /// Connect: the id of the new entry.
    AwaitAdd,
    /// Connect: the setting of the new entry's ssid.
    AwaitSetSsid { network_id: usize },
    /// Connect: the setting of the new entry's pre-shared key.
    AwaitSetPsk { network_id: usize },
    /// Connect: the selection of the new entry.
    AwaitSelectNew { network_id: usize },
    /// The release of the handle.
    AwaitShutdown,
    /// Nothing: the sequence is over.
    Finished,
}

/// What to do next.
#[derive(Debug, Clone, PartialEq, Eq)]
pub enum Action {
    /// Send this command and hand back the daemon's reply.
    Send(Request),
    /// The sequence is over, and this is what it came to.
    Finish(Reply),
}

/// An action as plain values.
pub enum ActionView {
    Send(RequestView),
    Finish(ReplyView),
}

impl View for Action {
    type V = ActionView;

    open spec fn view(&self) -> ActionView {
        match *self {
            Action::Send(request) => ActionView::Send(request@),
            Action::Finish(reply) => ActionView::Finish(reply@),
        }
    }
}

/// The cause that a connect gives when the listing, the creation of the entry or the
/// selection of the new entry fails: the failure of the connect, written out, around the
/// daemon's cause.
pub open spec fn connect_step_failed(cause: Seq<char>) -> Seq<char> {
    error_text(WifiErrorCodes::UnableToConnectToWifiDevice, connect_failed(cause).message)
}

/// A sequence as plain values.
pub struct SequenceView {
    pub session: SessionView,
    pub ssid: Seq<char>,
    pub psk: Seq<char>,
    pub progress: Progress,
    pub outcome: Option<ReplyView>,
}

impl SequenceView {
    /// Sends `request` and waits as `next` says, while the session is active; else the
    /// sequence is over.
    pub open spec fn send(self, request: RequestView, next: Progress) -> (SequenceView, ActionView) {
        if self.session.state == SessionState::Active {
            (SequenceView { progress: next, ..self }, ActionView::Send(request))
        } else {
            self.conclude(ReplyView::Failed(session_not_active()))
        }
    }

    /// Settles what the sequence came to and releases the handle: the release is sent
    /// while the session is active, and the sequence is over at once otherwise.
    pub open spec fn conclude(self, outcome: ReplyView) -> (SequenceView, ActionView) {
        if self.session.state == SessionState::Active {
            (
                SequenceView {
                    session: SessionView { state: SessionState::ShuttingDown, ..self.session },
                    progress: Progress::AwaitShutdown,
                    outcome: Some(outcome),
                    ..self
                },
                ActionView::Send(RequestView::Shutdown),
            )
        } else {
            (
                SequenceView { progress: Progress::Finished, outcome: None, ..self },
                ActionView::Finish(outcome),
            )
        }
    }

    /// The sequence after `reply`, and the next thing to do.
    pub open spec fn advance(self, reply: ReplyView) -> (SequenceView, ActionView) {
        match self.progress {
            Progress::AwaitReply => self.conclude(reply),
            Progress::AwaitNetworks => match reply.as_networks() {
                Ok(known) => match known_id(known, self.ssid) {
                    Some(network_id) => self.send(
                        RequestView::SelectNetwork { network_id },
                        Progress::AwaitSelectKnown,
                    ),
                    None => self.send(RequestView::AddNetwork, Progress::AwaitAdd),
                },
                Err(cause) => self.conclude(ReplyView::Failed(connect_step_failed(cause))),
            },
            Progress::AwaitSelectKnown => match reply.as_done() {
                Ok(_) => self.conclude(ReplyView::Done),
                Err(cause) => self.conclude(ReplyView::Failed(cause)),
            },
            Progress::AwaitAdd => match reply.as_network_id() {
                Ok(network_id) => self.send(
                    RequestView::SetSsid { network_id, ssid: self.ssid },
                    Progress::AwaitSetSsid { network_id },
                ),
                Err(cause) => self.conclude(ReplyView::Failed(connect_step_failed(cause))),
            },
            Progress::AwaitSetSsid { network_id } => match reply.as_done() {
                Ok(_) => self.send(
                    RequestView::SetPsk { network_id, psk: self.psk },
                    Progress::AwaitSetPsk { network_id },
                ),
                Err(cause) => self.conclude(ReplyView::Failed(cause)),
            },
            Progress::AwaitSetPsk { network_id } => match reply.as_done() {
                Ok(_) => self.send(
                    RequestView::SelectNetwork { network_id },
                    Progress::AwaitSelectNew { network_id },
                ),
                Err(cause) => self.conclude(ReplyView::Failed(cause)),
            },
            Progress::AwaitSelectNew { network_id } => match reply.as_done() {
                Ok(_) => self.conclude(ReplyView::Done),
                Err(cause) => self.conclude(ReplyView::Failed(connect_step_failed(cause))),
            },
            Progress::AwaitShutdown => (
                SequenceView { progress: Progress::Finished, outcome: None, ..self },
                ActionView::Finish(
                    match self.outcome {
                        Some(outcome) => outcome,
                        None => ReplyView::Failed(session_not_active()),
                    },
                ),
            ),
            Progress::Finished => (self, ActionView::Finish(ReplyView::Failed(session_not_active()))),
        }
    }

    /// The commands that the sequence sends in answer to `replies`, taken in turn until it
    /// is over.
    pub open spec fn requests_after(self, replies: Seq<ReplyView>) -> Seq<RequestView>
        decreases replies.len(),
    {
        if replies.len() == 0 {
            Seq::empty()
        } else {
            let (next, action) = self.advance(replies[0]);
            match action {
                ActionView::Send(request) => seq![request] + next.requests_after(
                    replies.drop_first(),
                ),
                ActionView::Finish(_) => Seq::empty(),
            }
        }
    }

    /// What the sequence comes to on `replies`, if they suffice to end it.
    pub open spec fn outcome_after(self, replies: Seq<ReplyView>) -> Option<ReplyView>
        decreases replies.len(),
    {
        if replies.len() == 0 {
            None
        } else {
            let (next, action) = self.advance(replies[0]);
            match action {
                ActionView::Send(_) => next.outcome_after(replies.drop_first()),
                ActionView::Finish(outcome) => Some(outcome),
            }
        }
    }
}

/// A task started on `session`: the sequence, and the first thing to do.
pub open spec fn start(session: SessionView, task: TaskView) -> (SequenceView, ActionView) {
    (SequenceView {
        session: SessionView { state: session.state.launched(), ..session },
        ssid: task.ssid(),
        psk: task.psk(),
        progress: Progress::Finished,
        outcome: None,
    }).send(task.first_request(), task.first_progress())
}

/// Every command that `task` sends when it is started on `session` and the daemon answers
/// with `replies`, in the order in which they are sent.
pub open spec fn requests(session: SessionView, task: TaskView, replies: Seq<ReplyView>) -> Seq<
    RequestView,
> {
    let (sequence, action) = start(session, task);
    match action {
        ActionView::Send(request) => seq![request] + sequence.requests_after(replies),
        ActionView::Finish(_) => Seq::empty(),
    }
}

/// What `task` comes to when it is started on `session` and the daemon answers with
/// `replies`, if they suffice to end it.
pub open spec fn outcome(session: SessionView, task: TaskView, replies: Seq<ReplyView>) -> Option<
    ReplyView,
> {
    let (sequence, action) = start(session, task);
    match action {
        ActionView::Send(_) => sequence.outcome_after(replies),
        ActionView::Finish(outcome) => Some(outcome),
    }
}

/// The commands of a connect that goes through a new entry, when none of them fails: the
/// listing, the creation, the ssid, the pre-shared key, the selection, the release.
pub open spec fn connect_new_requests(ssid: Seq<char>, psk: Seq<char>, network_id: usize) -> Seq<
    RequestView,
> {
    seq![
        RequestView::ListNetworks,
        RequestView::AddNetwork,
        RequestView::SetSsid { network_id, ssid },
        RequestView::SetPsk { network_id, psk },
        RequestView::SelectNetwork { network_id },
        RequestView::Shutdown,
    ]
}

/// The commands of a connect that goes through the remembered entry: the listing, the
/// selection, the release.
pub open spec fn connect_known_requests(network_id: usize) -> Seq<RequestView> {
    seq![
        RequestView::ListNetworks,
        RequestView::SelectNetwork { network_id },
        RequestView::Shutdown,
    ]
}

/// The commands of a connect through the remembered entry, for as many answers as the
/// daemon has given: the selection follows the listing, and the release follows the
/// answer to the selection, whatever that answer is.
pub open spec fn connect_known_trace(network_id: usize, replies: Seq<ReplyView>) -> Seq<
    RequestView,
> {
    if replies.len() >= 2 {
        connect_known_requests(network_id)
    } else {
        connect_known_requests(network_id).take(2)
    }
}

/// A connect to an ssid that the daemon remembers never creates a network, whatever the
/// daemon answers afterwards: it lists the networks, selects the first remembered entry
/// with that ssid, releases the handle once the selection is answered, and sends nothing
/// else.
pub proof fn lemma_connect_reuses_known(
    session: SessionView,
    ssid: Seq<char>,
    psk: Seq<char>,
    known: Seq<NetworkResultView>,
    replies: Seq<ReplyView>,
)
    requires
        replies.len() > 0,
        replies[0] == ReplyView::Networks(known),
        knows_ssid(known, ssid),
    ensures
        !requests(session, TaskView::Connect { ssid, psk }, replies).contains(
            RequestView::AddNetwork,
        ),
        session.state.launched() == SessionState::Active ==> requests(
            session,
            TaskView::Connect { ssid, psk },
            replies,
        ) == connect_known_trace(known_id(known, ssid)->Some_0, replies),
{
    reveal_with_fuel(SequenceView::requests_after, 4);
    let task = TaskView::Connect { ssid, psk };
    let sent = requests(session, task, replies);
    let network_id = known_id(known, ssid)->Some_0;
    if session.state.launched() == SessionState::Active {
        if replies.len() >= 2 {
            assert(sent =~= connect_known_requests(network_id));
        } else {
            assert(sent =~= seq![
                RequestView::ListNetworks,
                RequestView::SelectNetwork { network_id },
            ]);
            assert(sent =~= connect_known_requests(network_id).take(2));
        }
    } else {
        assert(sent =~= Seq::empty());
    }
}

/// A connect to an ssid that the daemon does not remember, when no command fails,
/// creates the entry, sets its ssid, sets its pre-shared key and selects it, in that
/// order and once each, between the listing and the release; and it succeeds.
pub proof fn lemma_connect_creates_unknown(
    session: SessionView,
    ssid: Seq<char>,
    psk: Seq<char>,
    known: Seq<NetworkResultView>,
    network_id: usize,
    released: ReplyView,
)
    requires
        session.state.launched() == SessionState::Active,
        !knows_ssid(known, ssid),
    ensures
        requests(
            session,
            TaskView::Connect { ssid, psk },
            seq![
                ReplyView::Networks(known),
                ReplyView::NetworkId(network_id),
                ReplyView::Done,
                ReplyView::Done,
                ReplyView::Done,
                released,
            ],
        ) == connect_new_requests(ssid, psk, network_id),
        outcome(
            session,
            TaskView::Connect { ssid, psk },
            seq![
                ReplyView::Networks(known),
                ReplyView::NetworkId(network_id),
                ReplyView::Done,
                ReplyView::Done,
                ReplyView::Done,
                released,
            ],
        ) == Some(ReplyView::Done),
{
    reveal_with_fuel(SequenceView::requests_after, 7);
    reveal_with_fuel(SequenceView::outcome_after, 7);
    let task = TaskView::Connect { ssid, psk };
    let replies = seq![
        ReplyView::Networks(known),
        ReplyView::NetworkId(network_id),
        ReplyView::Done,
        ReplyView::Done,
        ReplyView::Done,
        released,
    ];
    let r1 = replies.drop_first();
    let r2 = r1.drop_first();
    let r3 = r2.drop_first();
    let r4 = r3.drop_first();
    let r5 = r4.drop_first();
    let r6 = r5.drop_first();
    assert(r1[0] == ReplyView::NetworkId(network_id));
    assert(r2[0] == ReplyView::Done);
    assert(r3[0] == ReplyView::Done);
    assert(r4[0] == ReplyView::Done);
    assert(r5[0] == released);
    assert(r6.len() == 0);
    assert(requests(session, task, replies) =~= connect_new_requests(ssid, psk, network_id));
}

/// How many of the creation, the ssid and the pre-shared key the daemon has answered
/// with success, counted from the first and up to the first that it has not.
pub open spec fn connect_new_passed(replies: Seq<ReplyView>) -> int {
    if replies.len() >= 2 && replies[1].as_network_id() is Ok {
        if replies.len() >= 3 && replies[2].as_done() is Ok {
            if replies.len() >= 4 && replies[3].as_done() is Ok {
                3
            } else {
                2
            }
        } else {
            1
        }
    } else {
        0
    }
}

/// The commands of a connect through a new entry, for what the daemon has answered after
/// the listing. Each command follows the success of the one before it. A command that
/// fails is followed by the release alone; the selection is followed by the release
/// whatever its answer is.
pub open spec fn connect_new_trace(ssid: Seq<char>, psk: Seq<char>, replies: Seq<ReplyView>) -> Seq<
    RequestView,
> {
    let network_id = if replies.len() >= 2 {
        replies[1].as_network_id()->Ok_0
    } else {
        0
    };
    let plan = connect_new_requests(ssid, psk, network_id);
    let passed = connect_new_passed(replies);
    if passed == 3 {
        if replies.len() >= 5 {
            plan
        } else {
            plan.take(5)
        }
    } else if replies.len() >= passed + 2 {
        plan.take(passed + 2).push(RequestView::Shutdown)
    } else {
        plan.take(passed + 2)
    }
}

/// A connect to an ssid that the daemon does not remember sends, whatever the daemon
/// answers, exactly this: the listing, the creation, the ssid, the pre-shared key and the
/// selection, in that order and once each, as far as each command before succeeded; then
/// the release, at once after the first command that failed, else after the selection.
pub proof fn lemma_connect_creates_in_order(
    session: SessionView,
    ssid: Seq<char>,
    psk: Seq<char>,
    known: Seq<NetworkResultView>,
    replies: Seq<ReplyView>,
)
    requires
        session.state.launched() == SessionState::Active,
        replies.len() > 0,
        replies[0] == ReplyView::Networks(known),
        !knows_ssid(known, ssid),
    ensures
        requests(session, TaskView::Connect { ssid, psk }, replies) == connect_new_trace(
            ssid,
            psk,
            replies,
        ),
{
    reveal_with_fuel(SequenceView::requests_after, 8);
    let task = TaskView::Connect { ssid, psk };
    let sent = requests(session, task, replies);
    let r1 = replies.drop_first();
    let r2 = r1.drop_first();
    let r3 = r2.drop_first();
    let r4 = r3.drop_first();
    let r5 = r4.drop_first();
    let r6 = r5.drop_first();
    let (m0, a0) = start(session, task);
    let (m1, a1) = m0.advance(replies[0]);
    assert(a1 == ActionView::Send(RequestView::AddNetwork));
    if r1.len() > 0 {
        assert(r1[0] == replies[1]);
        let (m2, a2) = m1.advance(r1[0]);
        if r1[0].as_network_id() is Ok {
            let network_id = r1[0].as_network_id()->Ok_0;
            if r2.len() > 0 {
                let (m3, a3) = m2.advance(r2[0]);
                if r2[0].as_done() is Ok {
                    if r3.len() > 0 {
                        let (m4, a4) = m3.advance(r3[0]);
                        if r3[0].as_done() is Ok {
                            if r4.len() > 0 {
                                let (m5, a5) = m4.advance(r4[0]);
                                assert(a5 == ActionView::Send(RequestView::Shutdown));
                                assert(m5.requests_after(r5) =~= Seq::empty());
                                assert(sent =~= connect_new_requests(ssid, psk, network_id));
                            } else {
                                assert(sent =~= connect_new_requests(
                                    ssid,
                                    psk,
                                    network_id,
                                ).take(5));
                            }
                        } else {
                            assert(a4 == ActionView::Send(RequestView::Shutdown));
                            assert(m4.requests_after(r4) =~= Seq::empty());
                            assert(sent =~= connect_new_requests(ssid, psk, network_id).take(
                                4,
                            ).push(RequestView::Shutdown));
                        }
                    } else {
                        assert(sent =~= connect_new_requests(ssid, psk, network_id).take(4));
                    }
                } else {
                    assert(a3 == ActionView::Send(RequestView::Shutdown));
                    assert(m3.requests_after(r3) =~= Seq::empty());
                    assert(sent =~= connect_new_requests(ssid, psk, network_id).take(3).push(
                        RequestView::Shutdown,
                    ));
                }
            } else {
                assert(sent =~= connect_new_requests(ssid, psk, network_id).take(3));
            }
        } else {
            assert(a2 == ActionView::Send(RequestView::Shutdown));
            assert(m2.requests_after(r2) =~= Seq::empty());
            assert(sent =~= seq![
                RequestView::ListNetworks,
                RequestView::AddNetwork,
                RequestView::Shutdown,
            ]);
        }
    } else {
        assert(sent =~= seq![RequestView::ListNetworks, RequestView::AddNetwork]);
    }
}

/// A scan, a listing and a removal each send their one command and then the release,
/// whatever the daemon answers, and come to the daemon's answer to that command.
pub proof fn lemma_single_command(session: SessionView, task: TaskView, replies: Seq<ReplyView>)
    requires
        session.state.launched() == SessionState::Active,
        !(task is Connect),
        replies.len() >= 2,
    ensures
        requests(session, task, replies) == seq![task.first_request(), RequestView::Shutdown],
        outcome(session, task, replies) == Some(replies[0]),
{
    reveal_with_fuel(SequenceView::requests_after, 3);
    reveal_with_fuel(SequenceView::outcome_after, 3);
    assert(replies.drop_first()[0] == replies[1]);
    assert(requests(session, task, replies) =~= seq![
        task.first_request(),
        RequestView::Shutdown,
    ]);
}

/// A connect whose listing fails sends nothing but the release after it, and comes to
/// the failure of the listing.
pub proof fn lemma_connect_listing_failed(
    session: SessionView,
    ssid: Seq<char>,
    psk: Seq<char>,
    replies: Seq<ReplyView>,
)
    requires
        session.state.launched() == SessionState::Active,
        replies.len() >= 2,
        replies[0].as_networks() is Err,
    ensures
        requests(session, TaskView::Connect { ssid, psk }, replies) == seq![
            RequestView::ListNetworks,
            RequestView::Shutdown,
        ],
        outcome(session, TaskView::Connect { ssid, psk }, replies) == Some(
            ReplyView::Failed(connect_step_failed(replies[0].as_networks()->Err_0)),
        ),
{
    reveal_with_fuel(SequenceView::requests_after, 3);
    reveal_with_fuel(SequenceView::outcome_after, 3);
    assert(replies.drop_first()[0] == replies[1]);
    assert(requests(session, TaskView::Connect { ssid, psk }, replies) =~= seq![
        RequestView::ListNetworks,
        RequestView::Shutdown,
    ]);
}

/// A connect through the remembered entry comes to success when the selection succeeds,
/// and to the cause of the selection's failure otherwise.
pub proof fn lemma_connect_known_outcome(
    session: SessionView,
    ssid: Seq<char>,
    psk: Seq<char>,
    known: Seq<NetworkResultView>,
    replies: Seq<ReplyView>,
)
    requires
        session.state.launched() == SessionState::Active,
        replies.len() >= 3,
        replies[0] == ReplyView::Networks(known),
        knows_ssid(known, ssid),
    ensures
        outcome(session, TaskView::Connect { ssid, psk }, replies) == Some(
            match replies[1].as_done() {
                Ok(_) => ReplyView::Done,
                Err(cause) => ReplyView::Failed(cause),
            },
        ),
{
    reveal_with_fuel(SequenceView::outcome_after, 4);
    let r1 = replies.drop_first();
    let r2 = r1.drop_first();
    assert(r1[0] == replies[1]);
    assert(r2[0] == replies[2]);
}

/// A connect through a new entry comes to the failure of the first command that fails:
/// the cause as the daemon gave it for the ssid and the pre-shared key, and the failure
/// of the connect written out around it for the creation and the selection.
pub proof fn lemma_connect_reports_first_failure(
    session: SessionView,
    ssid: Seq<char>,
    psk: Seq<char>,
    known: Seq<NetworkResultView>,
    replies: Seq<ReplyView>,
)
    requires
        session.state.launched() == SessionState::Active,
        replies.len() > 0,
        replies[0] == ReplyView::Networks(known),
        !knows_ssid(known, ssid),
    ensures
        replies.len() >= 3 && replies[1].as_network_id() is Err ==> outcome(
            session,
            TaskView::Connect { ssid, psk },
            replies,
        ) == Some(ReplyView::Failed(connect_step_failed(replies[1].as_network_id()->Err_0))),
        replies.len() >= 4 && replies[1].as_network_id() is Ok && replies[2].as_done() is Err
            ==> outcome(session, TaskView::Connect { ssid, psk }, replies) == Some(
            ReplyView::Failed(replies[2].as_done()->Err_0),
        ),
        replies.len() >= 5 && replies[1].as_network_id() is Ok && replies[2].as_done() is Ok
            && replies[3].as_done() is Err ==> outcome(
            session,
            TaskView::Connect { ssid, psk },
            replies,
        ) == Some(ReplyView::Failed(replies[3].as_done()->Err_0)),
        replies.len() >= 6 && replies[1].as_network_id() is Ok && replies[2].as_done() is Ok
            && replies[3].as_done() is Ok && replies[4].as_done() is Err ==> outcome(
            session,
            TaskView::Connect { ssid, psk },
            replies,
        ) == Some(ReplyView::Failed(connect_step_failed(replies[4].as_done()->Err_0))),
        replies.len() >= 6 && replies[1].as_network_id() is Ok && replies[2].as_done() is Ok
            && replies[3].as_done() is Ok && replies[4].as_done() is Ok ==> outcome(
            session,
            TaskView::Connect { ssid, psk },
            replies,
        ) == Some(ReplyView::Done),
{
    reveal_with_fuel(SequenceView::outcome_after, 8);
    let r1 = replies.drop_first();
    let r2 = r1.drop_first();
    let r3 = r2.drop_first();
    let r4 = r3.drop_first();
    let r5 = r4.drop_first();
    if replies.len() >= 2 {
        assert(r1[0] == replies[1]);
    }
    if replies.len() >= 3 {
        assert(r2[0] == replies[2]);
    }
    if replies.len() >= 4 {
        assert(r3[0] == replies[3]);
    }
    if replies.len() >= 5 {
        assert(r4[0] == replies[4]);
    }
    if replies.len() >= 6 {
        assert(r5[0] == replies[5]);
    }
}

impl SequenceView {
    /// The sequence holds an active session and waits for the reply to a command other
    /// than the release.
    pub open spec fn in_flight(self) -> bool {
        &&& self.session.state == SessionState::Active
        &&& self.progress != Progress::AwaitShutdown
        &&& self.progress != Progress::Finished
    }
}

/// From a command in flight on, the release is sent at most once and nothing is sent
/// after it; and a sequence that is over has sent it.
pub proof fn lemma_releases_once_after(sequence: SequenceView, replies: Seq<ReplyView>)
    requires
        sequence.in_flight(),
    ensures
        forall|i: int|
            0 <= i < sequence.requests_after(replies).len() - 1 ==> sequence.requests_after(
                replies,
            )[i] != RequestView::Shutdown,
        sequence.outcome_after(replies) is Some ==> sequence.requests_after(replies).len() > 0
            && sequence.requests_after(replies).last() == RequestView::Shutdown,
    decreases replies.len(),
{
    reveal_with_fuel(SequenceView::requests_after, 3);
    reveal_with_fuel(SequenceView::outcome_after, 3);
    if replies.len() > 0 {
        let (next, action) = sequence.advance(replies[0]);
        let rest = replies.drop_first();
        assert(action is Send);
        let first = action->Send_0;
        let sent = sequence.requests_after(replies);
        let tail = next.requests_after(rest);
        assert(sent == seq![first] + tail);
        if first == RequestView::Shutdown {
            assert(next.progress == Progress::AwaitShutdown);
            assert(tail =~= Seq::empty());
            assert(sent =~= seq![RequestView::Shutdown]);
        } else {
            assert(next.in_flight());
            lemma_releases_once_after(next, rest);
            assert forall|i: int| 0 <= i < sent.len() - 1 implies sent[i]
                != RequestView::Shutdown by {
                if i > 0 {
                    assert(sent[i] == tail[i - 1]);
                }
            }
            if sequence.outcome_after(replies) is Some {
                assert(next.outcome_after(rest) is Some);
                assert(sent.last() == tail.last());
            }
        }
    }
}

/// Every operation releases its handle exactly once, after its last command: whatever
/// the task and whatever the daemon answers, the release is the last command of a
/// sequence that is over, and it is sent nowhere else.
pub proof fn lemma_releases_once(session: SessionView, task: TaskView, replies: Seq<ReplyView>)
    requires
        session.state.launched() == SessionState::Active,
    ensures
        forall|i: int|
            0 <= i < requests(session, task, replies).len() - 1 ==> requests(
                session,
                task,
                replies,
            )[i] != RequestView::Shutdown,
        outcome(session, task, replies) is Some ==> requests(session, task, replies).len() > 1
            && requests(session, task, replies).last() == RequestView::Shutdown,
{
    let (sequence, action) = start(session, task);
    assert(action == ActionView::Send(task.first_request()));
    assert(sequence.in_flight());
    lemma_releases_once_after(sequence, replies);
    let sent = requests(session, task, replies);
    let tail = sequence.requests_after(replies);
    assert(sent == seq![task.first_request()] + tail);
    assert forall|i: int| 0 <= i < sent.len() - 1 implies sent[i] != RequestView::Shutdown by {
        if i > 0 {
            assert(sent[i] == tail[i - 1]);
        }
    }
    if outcome(session, task, replies) is Some {
        assert(sent.last() == tail.last());
    }
}

/// A session that is not fresh serves no operation: started on anything but a built
/// session, a task sends nothing and fails at once.
pub proof fn lemma_used_session_serves_nothing(
    session: SessionView,
    task: TaskView,
    replies: Seq<ReplyView>,
)
    requires
        session.state == SessionState::ShuttingDown || session.state == SessionState::Closed,
    ensures
        requests(session, task, replies) == Seq::<RequestView>::empty(),
        outcome(session, task, replies) == Some(ReplyView::Failed(session_not_active())),
{
}

/// The commands of one operation, in progress.
#[derive(Debug)]
pub struct RequestSequence {
    handle: RequestHandle,
    ssid: String,
    psk: String,
    progress: Progress,
    outcome: Option<Reply>,
}

impl View for RequestSequence {
    type V = SequenceView;

    closed spec fn view(&self) -> SequenceView {
        SequenceView {
            session: self.handle@,
            ssid: self.ssid@,
            psk: self.psk@,
            progress: self.progress,
            outcome: match self.outcome {
                Some(reply) => Some(reply@),
                None => None,
            },
        }
    }
}

impl RequestSequence {
    /// Starts `task` on `session`. A session that was just built becomes active and takes
    /// the task's first command; a session that was used before takes none.
    pub fn start(session: Session, task: Task) -> (begun: (RequestSequence, Action))
        ensures
            (begun.0@, begun.1@) == start(session@, task@),
    {
        let handle = session.launch();
        match task {
            Task::Scan => {
                let mut sequence = RequestSequence {
                    handle,
                    ssid: String::new(),
                    psk: String::new(),
                    progress: Progress::Finished,
                    outcome: None,
                };
                let action = sequence.send(Request::Scan, Progress::AwaitReply);
                (sequence, action)
            },
            Task::ListKnown => {
                let mut sequence = RequestSequence {
                    handle,
                    ssid: String::new(),
                    psk: String::new(),
                    progress: Progress::Finished,
                    outcome: None,
                };
                let action = sequence.send(Request::ListNetworks, Progress::AwaitReply);
                (sequence, action)
            },
            Task::Connect { ssid, psk } => {
                let mut sequence = RequestSequence {
                    handle,
                    ssid,
                    psk,
                    progress: Progress::Finished,
                    outcome: None,
                };
                let action = sequence.send(Request::ListNetworks, Progress::AwaitNetworks);
                (sequence, action)
            },
            Task::Remove { network_id } => {
                let mut sequence = RequestSequence {
                    handle,
                    ssid: String::new(),
                    psk: String::new(),
                    progress: Progress::Finished,
                    outcome: None,
                };
                let action = sequence.send(
                    Request::RemoveNetwork { network_id },
                    Progress::AwaitReply,
                );
                (sequence, action)
            },
        }
    }

    /// Which reply the sequence waits for.
    pub fn progress(&self) -> (progress: Progress)
        ensures
            progress == self@.progress,
    {
        self.progress
    }

    /// Where the session stands.
    pub fn state(&self) -> (state: SessionState)
        ensures
            state == self@.session.state,
    {
        self.handle.state()
    }

    /// Gives the session back once the driver loop, the commands and the event listener
    /// have all ended. The session is closed.
    pub fn close(self) -> (session: Session)
        ensures
            session@.state == SessionState::Closed,
            session@.socket_path == self@.session.socket_path,
    {
        self.handle.close()
    }

    fn send(&mut self, request: Request, next: Progress) -> (action: Action)
        ensures
            (final(self)@, action@) == old(self)@.send(request@, next),
    {
        match self.handle.issue(request) {
            Ok(command) => {
                self.progress = next;
                Action::Send(command)
            },
            Err(failed) => self.conclude(Reply::Failed(failed.cause)),
        }
    }

    fn conclude(&mut self, outcome: Reply) -> (action: Action)
        ensures
            (final(self)@, action@) == old(self)@.conclude(outcome@),
    {
        match self.handle.shutdown() {
            Some(command) => {
                self.progress = Progress::AwaitShutdown;
                self.outcome = Some(outcome);
                Action::Send(command)
            },
            None => {
                self.progress = Progress::Finished;
                self.outcome = None;
                Action::Finish(outcome)
            },
        }
    }

    /// Takes the daemon's reply to the command that was sent last, and gives the next
    /// thing to do.
    pub fn advance(&mut self, reply: Reply) -> (action: Action)
        ensures
            (final(self)@, action@) == old(self)@.advance(reply@),
    {
        match self.progress {
            Progress::AwaitReply => self.conclude(reply),
            Progress::AwaitNetworks => match reply.into_networks() {
                Ok(known) => match find_known(&known, self.ssid.as_str()) {
                    Some(i) => {
                        proof {
                            lemma_known_id(known.deep_view(), self.ssid@, i as int);
                        }
                        let network_id = known[i].network_id;
                        self.send(Request::SelectNetwork { network_id }, Progress::AwaitSelectKnown)
                    },
                    None => self.send(Request::AddNetwork, Progress::AwaitAdd),
                },
                Err(failed) => {
                    let cause = WifiError::connect_failed(failed.cause.as_str()).to_string();
                    self.conclude(Reply::Failed(cause))
                },
            },
            Progress::AwaitSelectKnown => match reply.into_done() {
                Ok(()) => self.conclude(Reply::Done),
                Err(failed) => self.conclude(Reply::Failed(failed.cause)),
            },
            Progress::AwaitAdd => match reply.into_network_id() {
                Ok(network_id) => {
                    let ssid = self.ssid.clone();
                    self.send(
                        Request::SetSsid { network_id, ssid },
                        Progress::AwaitSetSsid { network_id },
                    )
                },
                Err(failed) => {
                    let cause = WifiError::connect_failed(failed.cause.as_str()).to_string();
                    self.conclude(Reply::Failed(cause))
                },
            },
            Progress::AwaitSetSsid { network_id } => match reply.into_done() {
                Ok(()) => {
                    let psk = self.psk.clone();
                    self.send(
                        Request::SetPsk { network_id, psk },
                        Progress::AwaitSetPsk { network_id },
                    )
                },
                Err(failed) => self.conclude(Reply::Failed(failed.cause)),
            },
            Progress::AwaitSetPsk { network_id } => match reply.into_done() {
                Ok(()) => self.send(
                    Request::SelectNetwork { network_id },
                    Progress::AwaitSelectNew { network_id },
                ),
                Err(failed) => self.conclude(Reply::Failed(failed.cause)),
            },
            Progress::AwaitSelectNew { network_id } => match reply.into_done() {
                Ok(()) => self.conclude(Reply::Done),
                Err(failed) => {
                    let cause = WifiError::connect_failed(failed.cause.as_str()).to_string();
                    self.conclude(Reply::Failed(cause))
                },
            },
            Progress::AwaitShutdown => {
                let settled = self.outcome.take();
                self.progress = Progress::Finished;
                match settled {
                    Some(outcome) => Action::Finish(outcome),
                    None => Action::Finish(Reply::Failed(String::from_str("session is not active"))),
                }
            },
            Progress::Finished => Action::Finish(
                Reply::Failed(String::from_str("session is not active")),
            ),
        }
    }
}

} // verus!
