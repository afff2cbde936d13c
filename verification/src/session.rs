//! How a session with the relay is set up: what to connect to and listen on, the join
//! handshake, and what each step of the way reports.

use vstd::prelude::*;
use vstd::string::*;
use vstd::utf8::*;

use crate::json;
use crate::message;
use crate::message::{join_text, read_message, RelayMessage};
use crate::state;
use crate::state::{AppConfig, AppState, LogEntry, UiEvent};
use crate::text;
use crate::text::{digits_text, same_text};

verus! {

/// How long the connection to the relay may take, in seconds.
pub const CONNECT_TIMEOUT_SECS: u64 = 10;

/// How long the answer to the join message may take, in seconds.
pub const JOIN_TIMEOUT_SECS: u64 = 15;

/// How often a heartbeat is sent to the relay, in seconds.
pub const HEARTBEAT_SECS: u64 = 2;

/// What a session needs to know, fixed before it starts.
#[derive(Debug)]
pub struct ProxyPlan {
    pub relay_url: String,
    pub session_id: String,
    pub device_id: String,
    pub tcp_addr: String,
    pub udp_addr: String,
}

/// Why a session cannot start with a configuration, if it cannot.
pub open spec fn plan_refusal(config: AppConfig) -> Option<Seq<char>> {
    if text::is_blank(config.local_bind_ip@) {
        Some("Seleziona un adattatore di rete"@)
    } else if text::is_blank(config.session_id@) {
        Some("Inserisci il codice sessione mostrato da AutoBridge Mac"@)
    } else {
        None
    }
}

/// The name under which this machine joins, from the milliseconds since 1970.
pub open spec fn device_name(unix_millis: nat) -> Seq<char> {
    "win-"@ + text::digits(unix_millis, 16)
}

/// The plan for a configuration: the texts without the white space around them, the session
/// code in upper case, the device named after the time, the TCP address on the chosen
/// adapter, the UDP address on every adapter.
pub open spec fn is_plan(config: AppConfig, unix_millis: nat, plan: ProxyPlan) -> bool {
    let session_id = text::trimmed(config.session_id@);
    &&& plan_refusal(config) is None
    &&& plan.relay_url@ == text::trimmed(config.relay_url@)
    &&& plan.session_id@ == text::unicode_uppercase(session_id)
    &&& is_ascii_chars(session_id) ==> plan.session_id@ == session_id.map_values(
        |c: char| text::ascii_uppercase(c),
    )
    &&& plan.device_id@ == device_name(unix_millis)
    &&& plan.tcp_addr@ == text::trimmed(config.local_bind_ip@) + ":"@ + text::decimal(
        config.tcp_port as nat,
    )
    &&& plan.udp_addr@ == "0.0.0.0:"@ + text::decimal(config.udp_port as nat)
}

/// Works out what the session needs. The UDP socket listens on every adapter, because a
/// socket bound to one address does not receive broadcasts on Windows.
pub fn plan(config: &AppConfig, unix_millis: u128) -> (res: Result<ProxyPlan, String>)
    ensures
        match res {
            Err(reason) => plan_refusal(*config) == Some(reason@),
            Ok(plan) => is_plan(*config, unix_millis as nat, plan),
        },
{
    proof {
        text::lemma_trimmed_is_empty_iff_blank(config.session_id@);
        text::lemma_trimmed_is_empty_iff_blank(config.local_bind_ip@);
    }
    let bind_ip = config.local_bind_ip.as_str().trim();
    if bind_ip.is_empty() {
        return Err("Seleziona un adattatore di rete".to_string());
    }
    let session_id = config.session_id.as_str().trim();
    if session_id.is_empty() {
        return Err("Inserisci il codice sessione mostrato da AutoBridge Mac".to_string());
    }
    Ok(
        ProxyPlan {
            relay_url: config.relay_url.as_str().trim().to_string(),
            session_id: session_id.to_uppercase(),
            device_id: "win-".to_string().concat(digits_text(unix_millis, 16).as_str()),
            tcp_addr: bind_ip.to_string().concat(":").concat(
                digits_text(config.tcp_port as u128, 10).as_str(),
            ),
            udp_addr: "0.0.0.0:".to_string().concat(
                digits_text(config.udp_port as u128, 10).as_str(),
            ),
        },
    )
}

/// How the attempt to connect to the relay ended.
#[derive(Debug)]
pub enum RelayConnect {
    Connected,
    TimedOut,
    Failed(String),
}

/// What arrives while the answer to the join message is awaited.
#[derive(Debug)]
pub enum JoinEvent {
    /// A text message.
    Text(String),
    /// Any other message, or one that could not be received.
    Other,
    /// The relay closed the connection.
    Ended,
    /// The time allowed is over.
    TimedOut,
}

/// What to do after such an event.
#[derive(Debug)]
pub enum JoinStep {
    /// Go on waiting.
    Wait,
    /// The session is joined. The VIN is there if the relay knows it.
    Joined(Option<String>),
    /// The session cannot be joined.
    Failed(String),
}

/// A step by its characters.
pub ghost enum JoinStepView {
    Wait,
    Joined(Option<Seq<char>>),
    Failed(Seq<char>),
}

impl View for JoinStep {
    type V = JoinStepView;

    open spec fn view(&self) -> JoinStepView {
        match self {
            JoinStep::Wait => JoinStepView::Wait,
            JoinStep::Joined(vin) => JoinStepView::Joined(message::text_view(*vin)),
            JoinStep::Failed(reason) => JoinStepView::Failed(reason@),
        }
    }
}

/// A VIN that says something.
pub open spec fn known_vin(vin: Option<Seq<char>>) -> Option<Seq<char>> {
    match vin {
        Some(v) if v.len() > 0 => Some(v),
        _ => None,
    }
}

/// What a message means to one who waits to join.
pub open spec fn join_reply_step(message: message::MessageView) -> JoinStepView {
    match message.kind {
        Some(kind) => if kind == "session_joined"@ {
            JoinStepView::Joined(known_vin(message.vin))
        } else if kind == "error"@ {
            JoinStepView::Failed(
                "Relay: "@ + match message.reason {
                    Some(reason) => reason,
                    None => "sconosciuto"@,
                },
            )
        } else {
            JoinStepView::Wait
        },
        None => JoinStepView::Wait,
    }
}

/// What an event means to one who waits to join.
pub open spec fn join_event_step(event: JoinEvent) -> JoinStepView {
    match event {
        JoinEvent::Text(t) => match message::message_in(t@) {
            Some(message) => join_reply_step(message),
            None => JoinStepView::Wait,
        },
        JoinEvent::Other => JoinStepView::Wait,
        JoinEvent::Ended => JoinStepView::Failed("Relay chiuso prima di session_joined"@),
        JoinEvent::TimedOut => JoinStepView::Failed("Timeout attesa sessione relay (15s)"@),
    }
}

/// Decides on a message received while waiting to join.
pub fn join_reply(message: RelayMessage) -> (res: JoinStep)
    ensures
        res@ == join_reply_step(message@),
{
    let kind = match message.kind {
        Some(kind) => kind,
        None => return JoinStep::Wait,
    };
    if same_text(kind.as_str(), "session_joined") {
        match message.vin {
            Some(vin) => if vin.as_str().is_empty() {
                JoinStep::Joined(None)
            } else {
                JoinStep::Joined(Some(vin))
            },
            None => JoinStep::Joined(None),
        }
    } else if same_text(kind.as_str(), "error") {
        let reason = match message.reason {
            Some(reason) => reason,
            None => "sconosciuto".to_string(),
        };
        JoinStep::Failed("Relay: ".to_string().concat(reason.as_str()))
    } else {
        JoinStep::Wait
    }
}

/// Decides on an event that occurs while waiting to join.
pub fn join_step(event: JoinEvent) -> (res: JoinStep)
    ensures
        res@ == join_event_step(event),
{
    match event {
        JoinEvent::Text(t) => match read_message(t.as_str()) {
            Some(message) => join_reply(message),
            None => JoinStep::Wait,
        },
        JoinEvent::Other => JoinStep::Wait,
        JoinEvent::Ended => JoinStep::Failed("Relay chiuso prima di session_joined".to_string()),
        JoinEvent::TimedOut => JoinStep::Failed("Timeout attesa sessione relay (15s)".to_string()),
    }
}

impl ProxyPlan {
    /// Reported before the relay is connected to.
    pub fn connecting(&self) -> (res: LogEntry)
        ensures
            res.is_stamped(),
            res.line() == state::info_line("Connessione al relay: "@ + self.relay_url@),
    {
        LogEntry::info("Connessione al relay: ".to_string().concat(self.relay_url.as_str()))
    }

    /// The join message to send once the relay is connected.
    pub fn relay_connected(&self, outcome: RelayConnect) -> (res: Result<String, String>)
        ensures
            match outcome {
                RelayConnect::Connected => {
                    &&& res matches Ok(join)
                    &&& join@ == json::json_object_text(
                        message::join_members(self.session_id@, self.device_id@),
                    )
                    &&& json::json_string_members(join@) == Some(
                        json::members_map(message::join_members(self.session_id@, self.device_id@)),
                    )
                    &&& json::json_string_members(join@) == Some(
                        map![
                            "type"@ => "join"@,
                            "platform"@ => "windows"@,
                            "session_id"@ => self.session_id@,
                            "device_id"@ => self.device_id@,
                        ],
                    )
                },
                RelayConnect::TimedOut => res matches Err(reason) && reason@
                    == "Timeout connessione relay "@ + self.relay_url@,
                RelayConnect::Failed(error) => res matches Err(reason) && reason@
                    == "WebSocket relay fallito: "@ + error@,
            },
    {
        match outcome {
            RelayConnect::Connected => Ok(
                join_text(self.session_id.as_str(), self.device_id.as_str()),
            ),
            RelayConnect::TimedOut => Err(
                "Timeout connessione relay ".to_string().concat(self.relay_url.as_str()),
            ),
            RelayConnect::Failed(error) => Err(
                "WebSocket relay fallito: ".to_string().concat(error.as_str()),
            ),
        }
    }

    /// Reported once the UDP socket is bound, or the reason why it is not.
    pub fn udp_bound(&self, outcome: Result<(), String>) -> (res: Result<LogEntry, String>)
        ensures
            match outcome {
                Ok(()) => {
                    &&& res matches Ok(entry)
                    &&& entry.is_stamped()
                    &&& entry.line() == state::info_line(
                        "UDP discovery in ascolto su "@ + self.udp_addr@,
                    )
                },
                Err(error) => res matches Err(reason) && reason@ == "UDP bind "@ + self.udp_addr@
                    + ": "@ + error@,
            },
    {
        match outcome {
            Ok(()) => Ok(
                LogEntry::info(
                    "UDP discovery in ascolto su ".to_string().concat(self.udp_addr.as_str()),
                ),
            ),
            Err(error) => Err(
                "UDP bind ".to_string().concat(self.udp_addr.as_str()).concat(": ").concat(
                    error.as_str(),
                ),
            ),
        }
    }

    /// Reported once the TCP socket listens, or the reason why it does not.
    pub fn tcp_bound(&self, outcome: Result<(), String>) -> (res: Result<LogEntry, String>)
        ensures
            match outcome {
                Ok(()) => {
                    &&& res matches Ok(entry)
                    &&& entry.is_stamped()
                    &&& entry.line() == state::info_line(
                        "TCP in ascolto su "@ + self.tcp_addr@ + " — in attesa di ISTA"@,
                    )
                },
                Err(error) => res matches Err(reason) && reason@ == "TCP bind "@ + self.tcp_addr@
                    + ": "@ + error@,
            },
    {
        match outcome {
            Ok(()) => Ok(
                LogEntry::info(
                    "TCP in ascolto su ".to_string().concat(self.tcp_addr.as_str()).concat(
                        " — in attesa di ISTA",
                    ),
                ),
            ),
            Err(error) => Err(
                "TCP bind ".to_string().concat(self.tcp_addr.as_str()).concat(": ").concat(
                    error.as_str(),
                ),
            ),
        }
    }
}

/// The error of a join message that could not be sent.
pub fn join_sent(outcome: Result<(), String>) -> (res: Result<(), String>)
    ensures
        match outcome {
            Ok(()) => res is Ok,
            Err(error) => res matches Err(reason) && reason@ == "Invio join fallito: "@ + error@,
        },
{
    match outcome {
        Ok(()) => Ok(()),
        Err(error) => Err("Invio join fallito: ".to_string().concat(error.as_str())),
    }
}

impl<C> AppState<C> {
    /// Records that the session is joined: the VIN is shown if the relay told it, the
    /// session is logged, and the status becomes `Connected`.
    pub fn session_joined(&mut self, session_id: &str, vin: Option<String>) -> (events: Vec<
        UiEvent,
    >)
        ensures
            final(self).config == old(self).config,
            final(self).cmd_tx == old(self).cmd_tx,
            final(self).status@ == "Connected"@,
            old(self).cmd_tx is Some ==> final(self).is_consistent(),
            ({
                let shown: int = if vin is Some {
                    1
                } else {
                    0
                };
                &&& events@.len() == shown + 2
                &&& vin matches Some(v) ==> events@[0] == UiEvent::VinDetected(v)
                &&& events@[shown] matches UiEvent::LogEntry(e)
                &&& e.is_stamped()
                &&& e.line() == state::info_line("Sessione relay attiva ["@ + session_id@ + "]"@)
                &&& final(self).logs@ == state::logged(old(self).logs@, e)
                &&& events@[shown + 1].is_status("Connected"@)
            }),
    {
        let mut events: Vec<UiEvent> = Vec::new();
        match vin {
            Some(v) => events.push(UiEvent::VinDetected(v)),
            None => {},
        }
        let message = "Sessione relay attiva [".to_string().concat(session_id).concat("]");
        events.push(self.log(LogEntry::info(message)));
        events.push(self.set_status("Connected"));
        events
    }
}

} // verus!
