//! The application state: configuration, connection status, log and command channel.

use vstd::prelude::*;
use vstd::string::*;

use crate::text;
use crate::text::same_text;

verus! {

/// A command sent from the user interface to the proxy.
#[derive(Debug, Clone, Copy, PartialEq, Eq, Structural)]
pub enum ProxyCommand {
    Disconnect,
}

/// Decimal digit.
pub open spec fn is_digit(c: char) -> bool {
    '0' <= c <= '9'
}

/// The value of the two digits at `i` and `i + 1`.
pub open spec fn two_digits(s: Seq<char>, i: int) -> int {
    10 * (s[i] as int - '0' as int) + (s[i + 1] as int - '0' as int)
}

/// A time of day as `HH:MM:SS.mmm`. The seconds reach 60 in a leap second.
pub open spec fn is_clock_time(s: Seq<char>) -> bool {
    &&& s.len() == 12
    &&& s[2] == ':' && s[5] == ':' && s[8] == '.'
    &&& forall|i: int|
        0 <= i < 12 && i != 2 && i != 5 && i != 8 ==> is_digit(#[trigger] s[i])
    &&& two_digits(s, 0) <= 23
    &&& two_digits(s, 3) <= 59
    &&& two_digits(s, 6) <= 60
}

/// `chrono::Local::now`, written by `format` as `%H:%M:%S%.3f`: hours, minutes and seconds
/// in two digits each, then a point and three digits for the milliseconds. Which time it is
/// depends on the clock and the time zone. The system clock is taken to stand after 1970:
/// before that `chrono` panics.
#[verifier::external_body]
fn local_clock_time() -> (res: String)
    ensures
        is_clock_time(res@),
{
    chrono::Local::now().format("%H:%M:%S%.3f").to_string()
}

/// `String::from(&str)` is a string of the same characters.
pub assume_specification<'a>[ <String as From<&'a str>>::from ](s: &str) -> (res: String)
    ensures
        res@ == s@,
;

/// The conversion of a type into itself returns its argument.
pub assume_specification<T>[ <T as From<T>>::from ](t: T) -> (res: T)
    ensures
        res == t,
;

/// One line of the log.
#[derive(Debug)]
pub struct LogEntry {
    pub timestamp: String,
    pub level: String,
    pub message: String,
}

/// What a log entry says, without its time.
pub ghost struct LogLine {
    pub level: Seq<char>,
    pub message: Seq<char>,
}

/// `text` is what `m` is converted into.
pub open spec fn converts_to<M: Into<String>>(m: M, text: String) -> bool {
    call_ensures(Into::<String>::into, (m,), text)
}

impl Clone for LogEntry {
    fn clone(&self) -> (res: Self)
        ensures
            res == *self,
    {
        LogEntry {
            timestamp: self.timestamp.clone(),
            level: self.level.clone(),
            message: self.message.clone(),
        }
    }
}

impl LogEntry {
    /// What the entry says.
    pub open spec fn line(self) -> LogLine {
        LogLine { level: self.level@, message: self.message@ }
    }

    /// The entry carries a time of day.
    pub open spec fn is_stamped(self) -> bool {
        is_clock_time(self.timestamp@)
    }

    /// The entry of a given time and level that `m` makes.
    pub open spec fn is_entry<M: Into<String>>(
        self,
        timestamp: Seq<char>,
        level: Seq<char>,
        m: M,
    ) -> bool {
        &&& self.timestamp@ == timestamp
        &&& self.level@ == level
        &&& converts_to(m, self.message)
    }

    /// An entry of a given time.
    pub fn at(timestamp: String, level: &str, msg: impl Into<String>) -> (res: Self)
        ensures
            res.is_entry(timestamp@, level@, msg),
    {
        LogEntry { timestamp, level: level.to_string(), message: msg.into() }
    }

    /// An entry of this moment.
    fn new(level: &str, msg: impl Into<String>) -> (res: Self)
        ensures
            res.is_stamped(),
            res.is_entry(res.timestamp@, level@, msg),
    {
        LogEntry::at(local_clock_time(), level, msg)
    }

    pub fn info(m: impl Into<String>) -> (res: Self)
        ensures
            res.is_stamped(),
            res.is_entry(res.timestamp@, "INFO"@, m),
    {
        Self::new("INFO", m)
    }

    pub fn warn(m: impl Into<String>) -> (res: Self)
        ensures
            res.is_stamped(),
            res.is_entry(res.timestamp@, "WARN"@, m),
    {
        Self::new("WARN", m)
    }

    pub fn error(m: impl Into<String>) -> (res: Self)
        ensures
            res.is_stamped(),
            res.is_entry(res.timestamp@, "ERROR"@, m),
    {
        Self::new("ERROR", m)
    }

    pub fn doip(m: impl Into<String>) -> (res: Self)
        ensures
            res.is_stamped(),
            res.is_entry(res.timestamp@, "DOIP"@, m),
    {
        Self::new("DOIP", m)
    }

    pub fn debug(m: impl Into<String>) -> (res: Self)
        ensures
            res.is_stamped(),
            res.is_entry(res.timestamp@, "DEBUG"@, m),
    {
        Self::new("DEBUG", m)
    }
}

/// A line of the given level.
pub open spec fn info_line(message: Seq<char>) -> LogLine {
    LogLine { level: "INFO"@, message }
}

pub open spec fn warn_line(message: Seq<char>) -> LogLine {
    LogLine { level: "WARN"@, message }
}

pub open spec fn error_line(message: Seq<char>) -> LogLine {
    LogLine { level: "ERROR"@, message }
}

/// A network interface and its IPv4 addresses.
#[derive(Debug, Clone)]
pub struct InterfaceInfo {
    pub name: String,
    pub ip_addresses: Vec<String>,
}

/// What the user configures.
#[derive(Debug)]
pub struct AppConfig {
    /// Address of the machine that runs AutoBridge Mac.
    pub mac_ip: String,
    /// WebSocket port of AutoBridge Mac.
    pub mac_ws_port: u16,
    /// Local network adapter on which the diagnostic client expects the gateway.
    pub local_bind_ip: String,
    /// VIN of the vehicle, 17 characters.
    pub vin: String,
    /// Label of the session, optional.
    pub session_label: String,
    /// WebSocket address of the relay.
    pub relay_url: String,
    /// Session code that AutoBridge Mac shows.
    pub session_id: String,
    /// Port on which the diagnostic client opens its TCP stream.
    pub tcp_port: u16,
    /// Port on which the diagnostic client sends its discovery datagrams.
    pub udp_port: u16,
}

impl AppConfig {
    /// The configuration before the user changed anything: no text, port 8765 for
    /// AutoBridge Mac, and no local port chosen.
    pub open spec fn is_default(self) -> bool {
        &&& self.mac_ip@ == Seq::<char>::empty()
        &&& self.mac_ws_port == 8765
        &&& self.local_bind_ip@ == Seq::<char>::empty()
        &&& self.vin@ == Seq::<char>::empty()
        &&& self.session_label@ == Seq::<char>::empty()
        &&& self.relay_url@ == Seq::<char>::empty()
        &&& self.session_id@ == Seq::<char>::empty()
        &&& self.tcp_port == 0
        &&& self.udp_port == 0
    }
}

impl Default for AppConfig {
    fn default() -> (res: Self)
        ensures
            res.is_default(),
    {
        AppConfig {
            mac_ip: String::new(),
            mac_ws_port: 8765,
            local_bind_ip: String::new(),
            vin: String::new(),
            session_label: String::new(),
            relay_url: String::new(),
            session_id: String::new(),
            tcp_port: 0,
            udp_port: 0,
        }
    }
}

impl Clone for AppConfig {
    fn clone(&self) -> (res: Self)
        ensures
            res == *self,
    {
        AppConfig {
            mac_ip: self.mac_ip.clone(),
            mac_ws_port: self.mac_ws_port,
            local_bind_ip: self.local_bind_ip.clone(),
            vin: self.vin.clone(),
            session_label: self.session_label.clone(),
            relay_url: self.relay_url.clone(),
            session_id: self.session_id.clone(),
            tcp_port: self.tcp_port,
            udp_port: self.udp_port,
        }
    }
}

/// Something that the user interface is told.
#[derive(Debug)]
pub enum UiEvent {
    LogEntry(LogEntry),
    ConnectionStatus(String),
    VinDetected(String),
}

impl UiEvent {
    /// The name under which the user interface listens for the event.
    pub fn name(&self) -> (res: &'static str)
        ensures
            res@ == match self {
                UiEvent::LogEntry(_) => "log_entry"@,
                UiEvent::ConnectionStatus(_) => "connection_status"@,
                UiEvent::VinDetected(_) => "vin_detected"@,
            },
    {
        match self {
            UiEvent::LogEntry(_) => "log_entry",
            UiEvent::ConnectionStatus(_) => "connection_status",
            UiEvent::VinDetected(_) => "vin_detected",
        }
    }

    /// The event announces a connection status.
    pub open spec fn is_status(self, status: Seq<char>) -> bool {
        self matches UiEvent::ConnectionStatus(s) && s@ == status
    }
}

/// Number of entries at which the log is shortened.
pub const LOG_LIMIT: usize = 1000;

/// Number of entries, the oldest, that are then dropped.
pub const LOG_DROP: usize = 100;

/// The log after one more entry.
pub open spec fn logged(logs: Seq<LogEntry>, entry: LogEntry) -> Seq<LogEntry> {
    if logs.len() >= LOG_LIMIT {
        logs.skip(LOG_DROP as int).push(entry)
    } else {
        logs.push(entry)
    }
}

/// The state of the application. `C` is the sending end of the proxy's command channel.
pub struct AppState<C> {
    pub config: AppConfig,
    pub status: String,
    pub logs: Vec<LogEntry>,
    pub cmd_tx: Option<C>,
}

/// Why a connection is refused, if it is.
pub open spec fn connect_refusal(
    status: Seq<char>,
    session_id: Seq<char>,
    local_bind_ip: Seq<char>,
) -> Option<Seq<char>> {
    if status == "Connected"@ || status == "Connecting"@ {
        Some("Già "@ + status)
    } else if text::is_blank(session_id) {
        Some("Inserisci il codice sessione di AutoBridge Mac"@)
    } else if text::is_blank(local_bind_ip) {
        Some("Seleziona un adattatore di rete"@)
    } else {
        None
    }
}

/// What is logged when a connection starts.
pub open spec fn start_message(config: AppConfig) -> Seq<char> {
    "Avvio proxy — Relay: "@ + config.relay_url@ + "  Sessione: "@ + config.session_id@
        + "  Adattatore: "@ + config.local_bind_ip@
}

impl<C> AppState<C> {
    /// There is a command channel exactly while a connection is starting or up.
    pub open spec fn is_consistent(self) -> bool {
        if self.cmd_tx is Some {
            self.status@ == "Connecting"@ || self.status@ == "Connected"@
        } else {
            self.status@ == "Disconnected"@
        }
    }

    /// The state at the start.
    pub fn new() -> (res: Self)
        ensures
            res.is_consistent(),
            res.config.is_default(),
            res.status@ == "Disconnected"@,
            res.logs@ == Seq::<LogEntry>::empty(),
            res.cmd_tx is None,
    {
        AppState {
            config: AppConfig::default(),
            status: "Disconnected".to_string(),
            logs: Vec::new(),
            cmd_tx: None,
        }
    }

    /// Adds an entry to the log, from which the oldest entries are dropped first where it
    /// is full.
    pub fn log(&mut self, entry: LogEntry) -> (event: UiEvent)
        ensures
            final(self).logs@ == logged(old(self).logs@, entry),
            final(self).config == old(self).config,
            final(self).status == old(self).status,
            final(self).cmd_tx == old(self).cmd_tx,
            event == UiEvent::LogEntry(entry),
            old(self).is_consistent() ==> final(self).is_consistent(),
    {
        if self.logs.len() >= LOG_LIMIT {
            self.logs = self.logs.split_off(LOG_DROP);
            assert(self.logs@ =~= old(self).logs@.skip(LOG_DROP as int));
        }
        self.logs.push(entry.clone());
        UiEvent::LogEntry(entry)
    }

    /// Changes the connection status.
    pub fn set_status(&mut self, status: &str) -> (event: UiEvent)
        ensures
            final(self).status@ == status@,
            final(self).config == old(self).config,
            final(self).logs == old(self).logs,
            final(self).cmd_tx == old(self).cmd_tx,
            event.is_status(status@),
    {
        self.status = status.to_string();
        UiEvent::ConnectionStatus(status.to_string())
    }

    /// Starts a connection that is controlled through `cmd_tx`, unless one is up or the
    /// configuration lacks the session code or the adapter.
    pub fn connect(&mut self, cmd_tx: C) -> (res: Result<(UiEvent, UiEvent), String>)
        ensures
            old(self).is_consistent() ==> final(self).is_consistent(),
            match res {
                Err(reason) => {
                    &&& connect_refusal(
                        old(self).status@,
                        old(self).config.session_id@,
                        old(self).config.local_bind_ip@,
                    ) == Some(reason@)
                    &&& *final(self) == *old(self)
                },
                Ok((status, entry)) => {
                    &&& connect_refusal(
                        old(self).status@,
                        old(self).config.session_id@,
                        old(self).config.local_bind_ip@,
                    ) is None
                    &&& final(self).config == old(self).config
                    &&& final(self).cmd_tx == Some(cmd_tx)
                    &&& final(self).status@ == "Connecting"@
                    &&& status.is_status("Connecting"@)
                    &&& entry matches UiEvent::LogEntry(e)
                    &&& e.is_stamped()
                    &&& e.line() == info_line(start_message(old(self).config))
                    &&& final(self).logs@ == logged(old(self).logs@, e)
                },
            },
    {
        if same_text(self.status.as_str(), "Connected") || same_text(
            self.status.as_str(),
            "Connecting",
        ) {
            return Err("Già ".to_string().concat(self.status.as_str()));
        }
        proof {
            text::lemma_trimmed_is_empty_iff_blank(self.config.session_id@);
            text::lemma_trimmed_is_empty_iff_blank(self.config.local_bind_ip@);
        }
        if self.config.session_id.as_str().trim().is_empty() {
            return Err("Inserisci il codice sessione di AutoBridge Mac".to_string());
        }
        if self.config.local_bind_ip.as_str().trim().is_empty() {
            return Err("Seleziona un adattatore di rete".to_string());
        }
        self.cmd_tx = Some(cmd_tx);
        let status = self.set_status("Connecting");
        let message = "Avvio proxy — Relay: ".to_string().concat(
            self.config.relay_url.as_str(),
        ).concat("  Sessione: ").concat(self.config.session_id.as_str()).concat(
            "  Adattatore: ",
        ).concat(self.config.local_bind_ip.as_str());
        let entry = self.log(LogEntry::info(message));
        Ok((status, entry))
    }

    /// Records the end of the proxy, and the error that ended it if there was one.
    pub fn proxy_ended(&mut self, outcome: Result<(), String>) -> (events: Vec<UiEvent>)
        ensures
            final(self).config == old(self).config,
            final(self).status@ == "Disconnected"@,
            final(self).cmd_tx is None,
            final(self).is_consistent(),
            match outcome {
                Ok(()) => {
                    &&& final(self).logs@ == old(self).logs@
                    &&& events@.len() == 1
                    &&& events[0].is_status("Disconnected"@)
                },
                Err(error) => {
                    &&& events@.len() == 2
                    &&& events[0] matches UiEvent::LogEntry(e)
                    &&& e.is_stamped()
                    &&& e.line() == error_line("Proxy error: "@ + error@)
                    &&& final(self).logs@ == logged(old(self).logs@, e)
                    &&& events[1].is_status("Disconnected"@)
                },
            },
    {
        let mut events: Vec<UiEvent> = Vec::new();
        match outcome {
            Ok(()) => {},
            Err(error) => {
                let message = "Proxy error: ".to_string().concat(error.as_str());
                events.push(self.log(LogEntry::error(message)));
            },
        }
        events.push(self.set_status("Disconnected"));
        self.cmd_tx = None;
        events
    }

    /// The channel over which a disconnection is asked for, if the proxy runs.
    pub fn disconnect(&self) -> (res: Result<&C, String>)
        ensures
            match res {
                Ok(cmd_tx) => self.cmd_tx == Some(*cmd_tx),
                Err(reason) => self.cmd_tx is None && reason@ == "Non connesso"@,
            },
    {
        match &self.cmd_tx {
            Some(cmd_tx) => Ok(cmd_tx),
            None => Err("Non connesso".to_string()),
        }
    }

    /// Replaces the configuration.
    pub fn update_config(&mut self, config: AppConfig)
        ensures
            final(self).config == config,
            old(self).is_consistent() ==> final(self).is_consistent(),
            final(self).status == old(self).status,
            final(self).logs == old(self).logs,
            final(self).cmd_tx == old(self).cmd_tx,
    {
        self.config = config;
    }

    /// The connection status.
    pub fn get_status(&self) -> (res: String)
        ensures
            res == self.status,
    {
        self.status.clone()
    }

    /// The log, oldest entry first.
    pub fn get_logs(&self) -> (res: Vec<LogEntry>)
        ensures
            res@ == self.logs@,
    {
        let res = self.logs.clone();
        assert(res@ =~= self.logs@);
        res
    }
}

/// What a request to disconnect returns once the command was sent or not.
pub fn disconnect_result(sent: bool) -> (res: Result<(), String>)
    ensures
        match res {
            Ok(()) => sent,
            Err(reason) => !sent && reason@ == "Canale già chiuso"@,
        },
{
    if sent {
        Ok(())
    } else {
        Err("Canale già chiuso".to_string())
    }
}

} // verus!
