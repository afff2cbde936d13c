//! The way from a configuration to a running tunnel, one step after the other: connect to
//! the relay, send the join message, wait until the session is joined, bind the UDP socket,
//! bind the TCP socket.

use vstd::prelude::*;

use crate::json;
use crate::message;
use crate::session;
use crate::session::{join_sent, join_step, plan, JoinEvent, JoinStep, ProxyPlan, RelayConnect};
use crate::state;
use crate::state::{AppState, LogEntry, UiEvent};

verus! {

/// How far the setup has come.
#[derive(Debug, Clone, Copy, PartialEq, Eq, Structural)]
pub enum Stage {
    /// The relay is being connected to.
    Connecting,
    /// The join message is being sent.
    Joining,
    /// The answer to the join message is awaited.
    Waiting,
    /// The UDP socket is being bound.
    BindingUdp,
    /// The TCP socket is being bound.
    BindingTcp,
    /// The tunnel runs.
    Serving,
    /// The setup failed.
    Failed,
}

/// A setup under way.
#[derive(Debug)]
pub struct Setup {
    pub plan: ProxyPlan,
    pub stage: Stage,
}

/// What came of the last action.
#[derive(Debug)]
pub enum SetupEvent {
    Relay(RelayConnect),
    JoinSent(Result<(), String>),
    Join(JoinEvent),
    UdpBound(Result<(), String>),
    TcpBound(Result<(), String>),
}

/// What is to be done next.
#[derive(Debug)]
pub enum SetupAction {
    /// Connect to the relay at this address.
    ConnectRelay(String),
    /// Send this text to the relay.
    SendJoin(String),
    /// Wait for the next message of the relay.
    AwaitMessage,
    /// Bind the UDP socket to this address.
    BindUdp(String),
    /// Bind the TCP socket to this address.
    BindTcp(String),
    /// Serve clients.
    Serve,
    /// Give up, for this reason.
    Fail(String),
    /// Nothing: the event was not the one that is awaited.
    Ignore,
}

/// An action by its characters.
pub ghost enum SetupActionView {
    ConnectRelay(Seq<char>),
    SendJoin(Seq<char>),
    AwaitMessage,
    BindUdp(Seq<char>),
    BindTcp(Seq<char>),
    Serve,
    Fail(Seq<char>),
    Ignore,
}

impl View for SetupAction {
    type V = SetupActionView;

    open spec fn view(&self) -> SetupActionView {
        match self {
            SetupAction::ConnectRelay(url) => SetupActionView::ConnectRelay(url@),
            SetupAction::SendJoin(text) => SetupActionView::SendJoin(text@),
            SetupAction::AwaitMessage => SetupActionView::AwaitMessage,
            SetupAction::BindUdp(addr) => SetupActionView::BindUdp(addr@),
            SetupAction::BindTcp(addr) => SetupActionView::BindTcp(addr@),
            SetupAction::Serve => SetupActionView::Serve,
            SetupAction::Fail(reason) => SetupActionView::Fail(reason@),
            SetupAction::Ignore => SetupActionView::Ignore,
        }
    }
}

/// A change of the application state that the user interface is told of.
pub ghost enum Change {
    /// Nothing changes.
    Nothing,
    /// A line is logged.
    Logged(state::LogLine),
    /// The session is joined, and the VIN known or not.
    Joined(Option<Seq<char>>),
}

/// The next stage, the next action and the change of the application state after an event.
/// An event that the stage does not wait for is ignored.
pub open spec fn setup_step(plan: ProxyPlan, stage: Stage, event: SetupEvent) -> (
    Stage,
    SetupActionView,
    Change,
) {
    match (stage, event) {
        (Stage::Connecting, SetupEvent::Relay(outcome)) => match outcome {
            RelayConnect::Connected => (
                Stage::Joining,
                SetupActionView::SendJoin(
                    json::json_object_text(message::join_members(plan.session_id@, plan.device_id@)),
                ),
                Change::Nothing,
            ),
            RelayConnect::TimedOut => failed("Timeout connessione relay "@ + plan.relay_url@),
            RelayConnect::Failed(error) => failed("WebSocket relay fallito: "@ + error@),
        },
        (Stage::Joining, SetupEvent::JoinSent(outcome)) => match outcome {
            Ok(()) => (Stage::Waiting, SetupActionView::AwaitMessage, Change::Nothing),
            Err(error) => failed("Invio join fallito: "@ + error@),
        },
        (Stage::Waiting, SetupEvent::Join(event)) => match session::join_event_step(event) {
            session::JoinStepView::Wait => (
                Stage::Waiting,
                SetupActionView::AwaitMessage,
                Change::Nothing,
            ),
            session::JoinStepView::Joined(vin) => (
                Stage::BindingUdp,
                SetupActionView::BindUdp(plan.udp_addr@),
                Change::Joined(vin),
            ),
            session::JoinStepView::Failed(reason) => failed(reason),
        },
        (Stage::BindingUdp, SetupEvent::UdpBound(outcome)) => match outcome {
            Ok(()) => (
                Stage::BindingTcp,
                SetupActionView::BindTcp(plan.tcp_addr@),
                Change::Logged(
                    state::info_line("UDP discovery in ascolto su "@ + plan.udp_addr@),
                ),
            ),
            Err(error) => failed("UDP bind "@ + plan.udp_addr@ + ": "@ + error@),
        },
        (Stage::BindingTcp, SetupEvent::TcpBound(outcome)) => match outcome {
            Ok(()) => (
                Stage::Serving,
                SetupActionView::Serve,
                Change::Logged(
                    state::info_line(
                        "TCP in ascolto su "@ + plan.tcp_addr@ + " — in attesa di ISTA"@,
                    ),
                ),
            ),
            Err(error) => failed("TCP bind "@ + plan.tcp_addr@ + ": "@ + error@),
        },
        _ => (stage, SetupActionView::Ignore, Change::Nothing),
    }
}

/// The end of a setup that failed.
pub open spec fn failed(reason: Seq<char>) -> (Stage, SetupActionView, Change) {
    (Stage::Failed, SetupActionView::Fail(reason), Change::Nothing)
}

/// The application state changed from `before` to `after` as said, and the user interface
/// is told so by `events`.
pub open spec fn is_changed<C>(
    before: AppState<C>,
    after: AppState<C>,
    events: Seq<UiEvent>,
    session_id: Seq<char>,
    change: Change,
) -> bool {
    match change {
        Change::Nothing => after == before && events.len() == 0,
        Change::Logged(line) => {
            &&& after.config == before.config
            &&& after.status == before.status
            &&& after.cmd_tx == before.cmd_tx
            &&& events.len() == 1
            &&& is_logged(before, after, events[0], line)
        },
        Change::Joined(vin) => {
            let shown: int = if vin is Some {
                1
            } else {
                0
            };
            &&& after.config == before.config
            &&& after.status@ == "Connected"@
            &&& after.cmd_tx == before.cmd_tx
            &&& events.len() == shown + 2
            &&& vin matches Some(v) ==> {
                &&& events[0] matches UiEvent::VinDetected(told)
                &&& told@ == v
            }
            &&& is_logged(
                before,
                after,
                events[shown],
                state::info_line("Sessione relay attiva ["@ + session_id + "]"@),
            )
            &&& events[shown + 1].is_status("Connected"@)
        },
    }
}

/// The line was logged and the event tells of it.
pub open spec fn is_logged<C>(
    before: AppState<C>,
    after: AppState<C>,
    event: UiEvent,
    line: state::LogLine,
) -> bool {
    &&& event matches UiEvent::LogEntry(entry)
    &&& entry.is_stamped()
    &&& entry.line() == line
    &&& after.logs@ == state::logged(before.logs@, entry)
}

impl Setup {
    /// Starts the setup with the configuration of the application, or says why it cannot
    /// start. `unix_millis` is the number of milliseconds since 1970.
    pub fn begin<C>(app: &mut AppState<C>, unix_millis: u128) -> (res: Result<
        (Setup, Vec<UiEvent>, SetupAction),
        String,
    >)
        ensures
            old(app).is_consistent() ==> final(app).is_consistent(),
            match res {
                Err(reason) => {
                    &&& session::plan_refusal(old(app).config) == Some(reason@)
                    &&& *final(app) == *old(app)
                },
                Ok((setup, events, action)) => {
                    &&& session::is_plan(old(app).config, unix_millis as nat, setup.plan)
                    &&& setup.stage == Stage::Connecting
                    &&& action@ == SetupActionView::ConnectRelay(setup.plan.relay_url@)
                    &&& is_changed(
                        *old(app),
                        *final(app),
                        events@,
                        setup.plan.session_id@,
                        Change::Logged(
                            state::info_line("Connessione al relay: "@ + setup.plan.relay_url@),
                        ),
                    )
                },
            },
    {
        let plan = match plan(&app.config, unix_millis) {
            Ok(plan) => plan,
            Err(reason) => return Err(reason),
        };
        let mut events: Vec<UiEvent> = Vec::new();
        events.push(app.log(plan.connecting()));
        let action = SetupAction::ConnectRelay(plan.relay_url.clone());
        Ok((Setup { plan, stage: Stage::Connecting }, events, action))
    }

    /// Gives up.
    fn fail(&mut self, reason: String) -> (res: (Vec<UiEvent>, SetupAction))
        ensures
            final(self).plan == old(self).plan,
            final(self).stage == Stage::Failed,
            res.0@.len() == 0,
            res.1@ == SetupActionView::Fail(reason@),
    {
        self.stage = Stage::Failed;
        (Vec::new(), SetupAction::Fail(reason))
    }

    /// Takes the setup one step further. The join message, when it is to be sent, can be
    /// read back as what it says.
    pub fn step<C>(&mut self, app: &mut AppState<C>, event: SetupEvent) -> (res: (
        Vec<UiEvent>,
        SetupAction,
    ))
        ensures
            final(self).plan == old(self).plan,
            old(app).is_consistent() && old(app).cmd_tx is Some ==> final(app).is_consistent(),
            ({
                let (stage, action, change) = setup_step(
                    old(self).plan,
                    old(self).stage,
                    event,
                );
                &&& final(self).stage == stage
                &&& res.1@ == action
                &&& is_changed(
                    *old(app),
                    *final(app),
                    res.0@,
                    old(self).plan.session_id@,
                    change,
                )
            }),
            res.1 matches SetupAction::SendJoin(text) ==> json::json_string_members(text@) == Some(
                json::members_map(
                    message::join_members(old(self).plan.session_id@, old(self).plan.device_id@),
                ),
            ),
            res.1 matches SetupAction::SendJoin(text) ==> json::json_string_members(text@) == Some(
                map![
                    "type"@ => "join"@,
                    "platform"@ => "windows"@,
                    "session_id"@ => old(self).plan.session_id@,
                    "device_id"@ => old(self).plan.device_id@,
                ],
            ),
    {
        match (self.stage, event) {
            (Stage::Connecting, SetupEvent::Relay(outcome)) => match self.plan.relay_connected(
                outcome,
            ) {
                Ok(join) => {
                    self.stage = Stage::Joining;
                    (Vec::new(), SetupAction::SendJoin(join))
                },
                Err(reason) => self.fail(reason),
            },
            (Stage::Joining, SetupEvent::JoinSent(outcome)) => match join_sent(outcome) {
                Ok(()) => {
                    self.stage = Stage::Waiting;
                    (Vec::new(), SetupAction::AwaitMessage)
                },
                Err(reason) => self.fail(reason),
            },
            (Stage::Waiting, SetupEvent::Join(event)) => match join_step(event) {
                JoinStep::Wait => (Vec::new(), SetupAction::AwaitMessage),
                JoinStep::Joined(vin) => {
                    self.stage = Stage::BindingUdp;
                    let events = app.session_joined(self.plan.session_id.as_str(), vin);
                    (events, SetupAction::BindUdp(self.plan.udp_addr.clone()))
                },
                JoinStep::Failed(reason) => self.fail(reason),
            },
            (Stage::BindingUdp, SetupEvent::UdpBound(outcome)) => match self.plan.udp_bound(
                outcome,
            ) {
                Ok(entry) => {
                    self.stage = Stage::BindingTcp;
                    let mut events: Vec<UiEvent> = Vec::new();
                    events.push(app.log(entry));
                    (events, SetupAction::BindTcp(self.plan.tcp_addr.clone()))
                },
                Err(reason) => self.fail(reason),
            },
            (Stage::BindingTcp, SetupEvent::TcpBound(outcome)) => match self.plan.tcp_bound(
                outcome,
            ) {
                Ok(entry) => {
                    self.stage = Stage::Serving;
                    let mut events: Vec<UiEvent> = Vec::new();
                    events.push(app.log(entry));
                    (events, SetupAction::Serve)
                },
                Err(reason) => self.fail(reason),
            },
            _ => (Vec::new(), SetupAction::Ignore),
        }
    }
}

} // verus!
