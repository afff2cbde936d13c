//! The running tunnel. Each of its tasks hands what happened to a step function here and
//! performs the action that comes back. Whether it goes on is decided here too: the UDP
//! receiver and a client handler ask for their turn before they wait, the latter once more
//! after each action, and the listener asks for the outcome after each action.
//!
//! ```text
//!   relay reader      relay  -> clients (TCP), last peer (UDP)
//!   relay writer      queue  -> relay, with a heartbeat
//!   UDP receiver      peer   -> queue
//!   client handler    client -> queue, and clients' bytes from the relay -> client
//!   listener          new clients, commands of the user
//! ```
//!
//! No protocol ends here: the bytes pass through as they are.

use vstd::prelude::*;
use vstd::string::*;

use crate::frame;
use crate::frame::{decode_base64, Channel};
use crate::json;
use crate::message;
use crate::message::{heartbeat_text, read_message, RelayMessage};
use crate::state;
use crate::state::{LogEntry, ProxyCommand};
use crate::text::same_text;

verus! {

/// Size of the buffer into which the UDP receiver and a client handler read, in bytes.
pub const READ_SIZE: usize = 65536;

/// What the tasks of the tunnel share. `P` is the address of a UDP peer.
#[derive(Debug)]
pub struct Tunnel<P> {
    /// The tunnel is being shut down.
    pub stopped: bool,
    /// The peer that sent the last datagram.
    pub last_udp: Option<P>,
}

/// What the relay reader received.
#[derive(Debug)]
pub enum RelayEvent {
    /// A binary message.
    Binary(Vec<u8>),
    /// A text message.
    Text(String),
    /// The relay closed the connection, or receiving failed.
    Closed,
    /// Any other message.
    Other,
    /// There is nothing more to receive.
    Ended,
}

/// What the relay reader does next.
#[derive(Debug)]
pub enum RelayAction<P> {
    /// Nothing.
    Ignore,
    /// Hand the bytes to every TCP client.
    ToClients(Vec<u8>),
    /// Send the bytes to the UDP peer.
    ToPeer(P, Vec<u8>),
    /// Show the VIN and log the entry.
    ShowVin(String, LogEntry),
    /// Stop reading.
    Finish,
    /// Log the entry and stop reading.
    FinishWith(LogEntry),
}

/// An event by its bytes or characters.
pub ghost enum RelayEventView {
    Binary(Seq<u8>),
    Text(Seq<char>),
    Closed,
    Other,
    Ended,
}

/// An action by its bytes or characters, a log entry by what it says without its time.
pub ghost enum RelayActionView<P> {
    Ignore,
    ToClients(Seq<u8>),
    ToPeer(P, Seq<u8>),
    ShowVin(Seq<char>, state::LogLine),
    Finish,
    FinishWith(state::LogLine),
}

impl View for RelayEvent {
    type V = RelayEventView;

    open spec fn view(&self) -> RelayEventView {
        match self {
            RelayEvent::Binary(bytes) => RelayEventView::Binary(bytes@),
            RelayEvent::Text(text) => RelayEventView::Text(text@),
            RelayEvent::Closed => RelayEventView::Closed,
            RelayEvent::Other => RelayEventView::Other,
            RelayEvent::Ended => RelayEventView::Ended,
        }
    }
}

impl<P> View for RelayAction<P> {
    type V = RelayActionView<P>;

    open spec fn view(&self) -> RelayActionView<P> {
        match self {
            RelayAction::Ignore => RelayActionView::Ignore,
            RelayAction::ToClients(bytes) => RelayActionView::ToClients(bytes@),
            RelayAction::ToPeer(peer, bytes) => RelayActionView::ToPeer(*peer, bytes@),
            RelayAction::ShowVin(vin, entry) => RelayActionView::ShowVin(vin@, entry.line()),
            RelayAction::Finish => RelayActionView::Finish,
            RelayAction::FinishWith(entry) => RelayActionView::FinishWith(entry.line()),
        }
    }
}

impl<P> RelayAction<P> {
    /// An entry to be logged carries its time.
    pub open spec fn is_stamped(self) -> bool {
        match self {
            RelayAction::ShowVin(_, entry) => entry.is_stamped(),
            RelayAction::FinishWith(entry) => entry.is_stamped(),
            _ => true,
        }
    }
}

/// A shut-down tunnel that remembers the same peer.
pub open spec fn stop<P>(tunnel: Tunnel<P>) -> Tunnel<P> {
    Tunnel { stopped: true, last_udp: tunnel.last_udp }
}

/// Where a frame from the relay goes. UDP data is dropped while no peer is known.
pub open spec fn delivery<P>(tunnel: Tunnel<P>, frame: Seq<u8>) -> RelayActionView<P> {
    match frame::unframed(frame) {
        Some((Channel::Tcp, data)) => RelayActionView::ToClients(data),
        Some((Channel::Udp, data)) => match tunnel.last_udp {
            Some(peer) => RelayActionView::ToPeer(peer, data),
            None => RelayActionView::Ignore,
        },
        None => RelayActionView::Ignore,
    }
}

/// What becomes of a base64 payload, whatever it decoded to.
pub open spec fn payload_delivery<P>(
    tunnel: Tunnel<P>,
    decoded: Option<Seq<u8>>,
) -> RelayActionView<P> {
    match decoded {
        Some(frame) => delivery(tunnel, frame),
        None => RelayActionView::Ignore,
    }
}

/// The tunnel and the action after a text message.
pub open spec fn message_step<P>(tunnel: Tunnel<P>, message: message::MessageView) -> (
    Tunnel<P>,
    RelayActionView<P>,
) {
    match message.kind {
        Some(kind) => if kind == "data"@ {
            match message.payload {
                Some(payload) => (
                    tunnel,
                    payload_delivery(tunnel, frame::base64_decoded(payload)),
                ),
                None => (tunnel, RelayActionView::Ignore),
            }
        } else if kind == "vin"@ {
            match message.vin {
                Some(vin) if vin.len() > 0 => (
                    tunnel,
                    RelayActionView::ShowVin(vin, state::info_line("VIN dal Mac: "@ + vin)),
                ),
                _ => (tunnel, RelayActionView::Ignore),
            }
        } else if kind == "peer_disconnected"@ {
            (
                stop(tunnel),
                RelayActionView::FinishWith(
                    state::warn_line("AutoBridge Mac disconnesso dal relay"@),
                ),
            )
        } else {
            (tunnel, RelayActionView::Ignore)
        },
        None => (tunnel, RelayActionView::Ignore),
    }
}

/// The tunnel and the action after an event of the relay reader.
pub open spec fn relay_step<P>(tunnel: Tunnel<P>, event: RelayEventView) -> (
    Tunnel<P>,
    RelayActionView<P>,
) {
    if tunnel.stopped || event is Ended {
        (tunnel, RelayActionView::Finish)
    } else {
        match event {
            RelayEventView::Binary(bytes) => (tunnel, delivery(tunnel, bytes)),
            RelayEventView::Text(text) => match message::message_in(text) {
                Some(message) => message_step(tunnel, message),
                None => (tunnel, RelayActionView::Ignore),
            },
            RelayEventView::Closed => (
                stop(tunnel),
                RelayActionView::FinishWith(state::warn_line("Connessione relay chiusa"@)),
            ),
            _ => (tunnel, RelayActionView::Ignore),
        }
    }
}

/// What the relay writer is to deal with.
#[derive(Debug)]
pub enum WriterEvent {
    /// A frame from the queue.
    Frame(Vec<u8>),
    /// The queue is closed.
    QueueClosed,
    /// It is time for a heartbeat.
    HeartbeatDue,
    /// Sending to the relay failed.
    SendFailed,
}

/// What the relay writer does next.
#[derive(Debug)]
pub enum WriterAction {
    SendBinary(Vec<u8>),
    SendText(String),
    Finish,
}

/// An event of the relay writer by its bytes.
pub ghost enum WriterEventView {
    Frame(Seq<u8>),
    QueueClosed,
    HeartbeatDue,
    SendFailed,
}

/// An action of the relay writer by its bytes or characters.
pub ghost enum WriterActionView {
    SendBinary(Seq<u8>),
    SendText(Seq<char>),
    Finish,
}

impl View for WriterEvent {
    type V = WriterEventView;

    open spec fn view(&self) -> WriterEventView {
        match self {
            WriterEvent::Frame(bytes) => WriterEventView::Frame(bytes@),
            WriterEvent::QueueClosed => WriterEventView::QueueClosed,
            WriterEvent::HeartbeatDue => WriterEventView::HeartbeatDue,
            WriterEvent::SendFailed => WriterEventView::SendFailed,
        }
    }
}

impl View for WriterAction {
    type V = WriterActionView;

    open spec fn view(&self) -> WriterActionView {
        match self {
            WriterAction::SendBinary(bytes) => WriterActionView::SendBinary(bytes@),
            WriterAction::SendText(text) => WriterActionView::SendText(text@),
            WriterAction::Finish => WriterActionView::Finish,
        }
    }
}

/// The tunnel and the action after an event of the relay writer. Frames are sent as long as
/// they come; the heartbeat ends with the tunnel.
pub open spec fn writer_step<P>(
    tunnel: Tunnel<P>,
    session_id: Seq<char>,
    event: WriterEventView,
) -> (Tunnel<P>, WriterActionView) {
    match event {
        WriterEventView::Frame(bytes) => (tunnel, WriterActionView::SendBinary(bytes)),
        WriterEventView::QueueClosed => (tunnel, WriterActionView::Finish),
        WriterEventView::HeartbeatDue => if tunnel.stopped {
            (tunnel, WriterActionView::Finish)
        } else {
            (
                tunnel,
                WriterActionView::SendText(
                    json::json_object_text(message::heartbeat_members(session_id)),
                ),
            )
        },
        WriterEventView::SendFailed => (stop(tunnel), WriterActionView::Finish),
    }
}

/// What the UDP receiver is to deal with.
#[derive(Debug)]
pub enum UdpEvent<'a, P> {
    /// A datagram of a peer.
    Datagram(P, &'a [u8]),
    /// Receiving failed.
    Failed,
    /// The queue to the relay is closed.
    QueueClosed,
}

/// What the UDP receiver does next.
#[derive(Debug)]
pub enum UdpAction {
    Ignore,
    /// Put the frame into the queue to the relay.
    Forward(Vec<u8>),
    Finish,
}

/// An event of the UDP receiver by its bytes.
pub ghost enum UdpEventView<P> {
    Datagram(P, Seq<u8>),
    Failed,
    QueueClosed,
}

/// An action of the UDP receiver by its bytes.
pub ghost enum UdpActionView {
    Ignore,
    Forward(Seq<u8>),
    Finish,
}

impl<'a, P> View for UdpEvent<'a, P> {
    type V = UdpEventView<P>;

    open spec fn view(&self) -> UdpEventView<P> {
        match self {
            UdpEvent::Datagram(from, data) => UdpEventView::Datagram(*from, data@),
            UdpEvent::Failed => UdpEventView::Failed,
            UdpEvent::QueueClosed => UdpEventView::QueueClosed,
        }
    }
}

impl View for UdpAction {
    type V = UdpActionView;

    open spec fn view(&self) -> UdpActionView {
        match self {
            UdpAction::Ignore => UdpActionView::Ignore,
            UdpAction::Forward(frame) => UdpActionView::Forward(frame@),
            UdpAction::Finish => UdpActionView::Finish,
        }
    }
}

/// The tunnel and the action after an event of the UDP receiver. The sender of a datagram
/// becomes the peer that answers are sent to. An empty datagram changes nothing.
pub open spec fn udp_step<P>(tunnel: Tunnel<P>, event: UdpEventView<P>) -> (
    Tunnel<P>,
    UdpActionView,
) {
    match event {
        UdpEventView::Datagram(from, data) => if data.len() == 0 {
            (tunnel, UdpActionView::Ignore)
        } else {
            (
                Tunnel { stopped: tunnel.stopped, last_udp: Some(from) },
                UdpActionView::Forward(frame::framed(Channel::Udp, data)),
            )
        },
        UdpEventView::Failed => (tunnel, UdpActionView::Finish),
        UdpEventView::QueueClosed => (tunnel, UdpActionView::Finish),
    }
}

/// What the UDP receiver does before it waits for the next datagram.
#[derive(Debug, Clone, Copy, PartialEq, Eq, Structural)]
pub enum UdpTurn {
    Wait,
    /// End the task.
    Leave,
}

/// The UDP receiver ends with the tunnel.
pub open spec fn udp_turn_of<P>(tunnel: Tunnel<P>) -> UdpTurn {
    if tunnel.stopped {
        UdpTurn::Leave
    } else {
        UdpTurn::Wait
    }
}

/// What a client handler is to deal with.
#[derive(Debug)]
pub enum ClientEvent<'a> {
    /// Bytes of the client. None at all means that it closed its stream.
    Read(&'a [u8]),
    /// Reading failed.
    ReadFailed,
    /// The queue to the relay is closed.
    QueueClosed,
    /// Bytes from the relay.
    FromRelay(Vec<u8>),
    /// Some bytes from the relay were missed.
    Lagged,
    /// No more bytes will come from the relay.
    RelayClosed,
    /// Writing to the client failed.
    WriteFailed,
}

/// What a client handler does next.
#[derive(Debug)]
pub enum ClientAction {
    Ignore,
    /// Put the frame into the queue to the relay.
    Forward(Vec<u8>),
    /// Write the bytes to the client.
    Write(Vec<u8>),
    Finish,
}

/// An event of a client handler by its bytes.
pub ghost enum ClientEventView {
    Read(Seq<u8>),
    ReadFailed,
    QueueClosed,
    FromRelay(Seq<u8>),
    Lagged,
    RelayClosed,
    WriteFailed,
}

/// An action of a client handler by its bytes.
pub ghost enum ClientActionView {
    Ignore,
    Forward(Seq<u8>),
    Write(Seq<u8>),
    Finish,
}

impl<'a> View for ClientEvent<'a> {
    type V = ClientEventView;

    open spec fn view(&self) -> ClientEventView {
        match self {
            ClientEvent::Read(data) => ClientEventView::Read(data@),
            ClientEvent::ReadFailed => ClientEventView::ReadFailed,
            ClientEvent::QueueClosed => ClientEventView::QueueClosed,
            ClientEvent::FromRelay(bytes) => ClientEventView::FromRelay(bytes@),
            ClientEvent::Lagged => ClientEventView::Lagged,
            ClientEvent::RelayClosed => ClientEventView::RelayClosed,
            ClientEvent::WriteFailed => ClientEventView::WriteFailed,
        }
    }
}

impl View for ClientAction {
    type V = ClientActionView;

    open spec fn view(&self) -> ClientActionView {
        match self {
            ClientAction::Ignore => ClientActionView::Ignore,
            ClientAction::Forward(frame) => ClientActionView::Forward(frame@),
            ClientAction::Write(bytes) => ClientActionView::Write(bytes@),
            ClientAction::Finish => ClientActionView::Finish,
        }
    }
}

/// The action after an event of a client handler. Missed bytes are not made up for; every
/// failure, and the end of either stream, ends the handler.
pub open spec fn client_step(event: ClientEventView) -> ClientActionView {
    match event {
        ClientEventView::Read(data) => if data.len() == 0 {
            ClientActionView::Finish
        } else {
            ClientActionView::Forward(frame::framed(Channel::Tcp, data))
        },
        ClientEventView::FromRelay(bytes) => ClientActionView::Write(bytes),
        ClientEventView::Lagged => ClientActionView::Ignore,
        _ => ClientActionView::Finish,
    }
}

/// What is logged when a client is gone.
pub open spec fn gone_line(peer: Seq<char>) -> state::LogLine {
    state::info_line("ISTA disconnesso: "@ + peer)
}

/// Whether a client handler waits for the next event.
#[derive(Debug)]
pub enum ClientTurn {
    Wait,
    /// Log the entry and end the task.
    Leave(LogEntry),
}

/// A turn of a client handler by what it logs, without the time.
pub ghost enum ClientTurnView {
    Wait,
    Leave(state::LogLine),
}

impl View for ClientTurn {
    type V = ClientTurnView;

    open spec fn view(&self) -> ClientTurnView {
        match self {
            ClientTurn::Wait => ClientTurnView::Wait,
            ClientTurn::Leave(entry) => ClientTurnView::Leave(entry.line()),
        }
    }
}

impl ClientTurn {
    /// The entry to be logged carries its time.
    pub open spec fn is_stamped(self) -> bool {
        self matches ClientTurn::Leave(entry) ==> entry.is_stamped()
    }
}

/// A client handler ends with the tunnel, and then reports that its client is gone.
pub open spec fn client_turn_of<P>(tunnel: Tunnel<P>, peer: Seq<char>) -> ClientTurnView {
    if tunnel.stopped {
        ClientTurnView::Leave(gone_line(peer))
    } else {
        ClientTurnView::Wait
    }
}

/// Whatever else ends a client handler, it reports that its client is gone.
pub open spec fn client_turn_after(action: ClientActionView, peer: Seq<char>) -> ClientTurnView {
    if action is Finish {
        ClientTurnView::Leave(gone_line(peer))
    } else {
        ClientTurnView::Wait
    }
}

/// What the listener is to deal with.
#[derive(Debug)]
pub enum ListenerEvent {
    /// A client connected from the given address.
    Accepted(String),
    /// Accepting a client failed.
    AcceptFailed(String),
    /// A command came, or the command channel was closed.
    Command(Option<ProxyCommand>),
}

/// What the listener does next.
#[derive(Debug)]
pub enum ListenerAction {
    /// Log the entry and serve the client.
    Serve(LogEntry),
    /// Log the entry.
    Report(LogEntry),
    /// Log the entry and stop listening.
    FinishWith(LogEntry),
}

/// An event of the listener by its characters.
pub ghost enum ListenerEventView {
    Accepted(Seq<char>),
    AcceptFailed(Seq<char>),
    Command(Option<ProxyCommand>),
}

/// An action of the listener by what it logs, without the time.
pub ghost enum ListenerActionView {
    Serve(state::LogLine),
    Report(state::LogLine),
    FinishWith(state::LogLine),
}

impl View for ListenerEvent {
    type V = ListenerEventView;

    open spec fn view(&self) -> ListenerEventView {
        match self {
            ListenerEvent::Accepted(peer) => ListenerEventView::Accepted(peer@),
            ListenerEvent::AcceptFailed(error) => ListenerEventView::AcceptFailed(error@),
            ListenerEvent::Command(command) => ListenerEventView::Command(*command),
        }
    }
}

impl View for ListenerAction {
    type V = ListenerActionView;

    open spec fn view(&self) -> ListenerActionView {
        match self {
            ListenerAction::Serve(entry) => ListenerActionView::Serve(entry.line()),
            ListenerAction::Report(entry) => ListenerActionView::Report(entry.line()),
            ListenerAction::FinishWith(entry) => ListenerActionView::FinishWith(entry.line()),
        }
    }
}

impl ListenerAction {
    /// The entry to be logged carries its time.
    pub open spec fn is_stamped(self) -> bool {
        match self {
            ListenerAction::Serve(entry) => entry.is_stamped(),
            ListenerAction::Report(entry) => entry.is_stamped(),
            ListenerAction::FinishWith(entry) => entry.is_stamped(),
        }
    }
}

/// The tunnel and the action after an event of the listener. A command, of which there is
/// only the one to disconnect, or the end of the command channel shuts the tunnel down.
pub open spec fn listener_step<P>(tunnel: Tunnel<P>, event: ListenerEventView) -> (
    Tunnel<P>,
    ListenerActionView,
) {
    match event {
        ListenerEventView::Accepted(peer) => (
            tunnel,
            ListenerActionView::Serve(state::info_line("ISTA connesso da "@ + peer)),
        ),
        ListenerEventView::AcceptFailed(error) => (
            tunnel,
            ListenerActionView::Report(state::warn_line("TCP accept: "@ + error)),
        ),
        ListenerEventView::Command(_) => (
            stop(tunnel),
            ListenerActionView::FinishWith(state::info_line("Disconnessione richiesta"@)),
        ),
    }
}

/// The listener goes on after an action: it was not told to stop, and the tunnel, as it
/// stands after the action, is not being shut down.
pub open spec fn keeps_listening<P>(tunnel: Tunnel<P>, action: ListenerActionView) -> bool {
    !tunnel.stopped && !(action is FinishWith)
}

/// How the proxy ends after an action of the listener, if it does: without an error.
pub open spec fn proxy_outcome<P>(
    tunnel: Tunnel<P>,
    action: ListenerActionView,
) -> Option<Result<(), String>> {
    if keeps_listening(tunnel, action) {
        None
    } else {
        Some(Ok(()))
    }
}

impl<P: Copy> Tunnel<P> {
    /// A tunnel that runs and has not heard of any peer.
    pub fn new() -> (res: Self)
        ensures
            !res.stopped,
            res.last_udp is None,
    {
        Tunnel { stopped: false, last_udp: None }
    }

    /// Finds out where a frame from the relay goes.
    pub fn deliver(&self, frame: &[u8]) -> (action: RelayAction<P>)
        ensures
            action@ == delivery(*self, frame@),
            action.is_stamped(),
    {
        match frame::unframe(frame) {
            Some((Channel::Tcp, data)) => RelayAction::ToClients(data),
            Some((Channel::Udp, data)) => match self.last_udp {
                Some(peer) => RelayAction::ToPeer(peer, data),
                None => RelayAction::Ignore,
            },
            None => RelayAction::Ignore,
        }
    }

    /// Finds out where the frame in a payload goes, if the payload could be decoded.
    pub fn deliver_payload(&self, decoded: Option<Vec<u8>>) -> (action: RelayAction<P>)
        ensures
            action@ == payload_delivery(
                *self,
                match decoded {
                    Some(frame) => Some(frame@),
                    None => None,
                },
            ),
            action.is_stamped(),
    {
        match decoded {
            Some(frame) => self.deliver(frame.as_slice()),
            None => RelayAction::Ignore,
        }
    }

    /// Deals with a text message of the relay.
    pub fn on_message(&mut self, message: RelayMessage) -> (action: RelayAction<P>)
        ensures
            (*final(self), action@) == message_step(*old(self), message@),
            action.is_stamped(),
    {
        let kind = match message.kind {
            Some(kind) => kind,
            None => return RelayAction::Ignore,
        };
        if same_text(kind.as_str(), "data") {
            match message.payload {
                Some(payload) => self.deliver_payload(decode_base64(payload.as_str())),
                None => RelayAction::Ignore,
            }
        } else if same_text(kind.as_str(), "vin") {
            match message.vin {
                Some(vin) => if vin.as_str().is_empty() {
                    RelayAction::Ignore
                } else {
                    let line = "VIN dal Mac: ".to_string().concat(vin.as_str());
                    RelayAction::ShowVin(vin, LogEntry::info(line))
                },
                None => RelayAction::Ignore,
            }
        } else if same_text(kind.as_str(), "peer_disconnected") {
            self.stopped = true;
            RelayAction::FinishWith(LogEntry::warn("AutoBridge Mac disconnesso dal relay"))
        } else {
            RelayAction::Ignore
        }
    }

    /// Step of the relay reader.
    pub fn on_relay(&mut self, event: RelayEvent) -> (action: RelayAction<P>)
        ensures
            (*final(self), action@) == relay_step(*old(self), event@),
            action.is_stamped(),
    {
        if self.stopped {
            return RelayAction::Finish;
        }
        match event {
            RelayEvent::Binary(bytes) => self.deliver(bytes.as_slice()),
            RelayEvent::Text(text) => match read_message(text.as_str()) {
                Some(message) => self.on_message(message),
                None => RelayAction::Ignore,
            },
            RelayEvent::Closed => {
                self.stopped = true;
                RelayAction::FinishWith(LogEntry::warn("Connessione relay chiusa"))
            },
            RelayEvent::Other => RelayAction::Ignore,
            RelayEvent::Ended => RelayAction::Finish,
        }
    }

    /// Step of the relay writer. The heartbeat can be read back as what it says.
    pub fn on_writer(&mut self, session_id: &str, event: WriterEvent) -> (action: WriterAction)
        ensures
            (*final(self), action@) == writer_step(*old(self), session_id@, event@),
            action matches WriterAction::SendText(text) ==> json::json_string_members(text@)
                == Some(json::members_map(message::heartbeat_members(session_id@))),
            action matches WriterAction::SendText(text) ==> json::json_string_members(text@)
                == Some(map!["type"@ => "heartbeat"@, "session_id"@ => session_id@]),
            action is SendText <==> event is HeartbeatDue && !old(self).stopped,
            action is SendBinary <==> event is Frame,
    {
        match event {
            WriterEvent::Frame(bytes) => WriterAction::SendBinary(bytes),
            WriterEvent::QueueClosed => WriterAction::Finish,
            WriterEvent::HeartbeatDue => if self.stopped {
                WriterAction::Finish
            } else {
                WriterAction::SendText(heartbeat_text(session_id))
            },
            WriterEvent::SendFailed => {
                self.stopped = true;
                WriterAction::Finish
            },
        }
    }

    /// Step of the UDP receiver.
    pub fn on_udp(&mut self, event: UdpEvent<P>) -> (action: UdpAction)
        ensures
            (*final(self), action@) == udp_step(*old(self), event@),
    {
        match event {
            UdpEvent::Datagram(from, data) => if data.len() == 0 {
                UdpAction::Ignore
            } else {
                self.last_udp = Some(from);
                UdpAction::Forward(frame::frame(Channel::Udp, data))
            },
            UdpEvent::Failed => UdpAction::Finish,
            UdpEvent::QueueClosed => UdpAction::Finish,
        }
    }

    /// What the UDP receiver does before it waits for the next datagram.
    pub fn udp_turn(&self) -> (turn: UdpTurn)
        ensures
            turn == udp_turn_of(*self),
    {
        if self.stopped {
            UdpTurn::Leave
        } else {
            UdpTurn::Wait
        }
    }

    /// What the handler of the client at `peer` does before it waits for the next event.
    pub fn client_turn(&self, peer: &str) -> (turn: ClientTurn)
        ensures
            turn@ == client_turn_of(*self, peer@),
            turn.is_stamped(),
    {
        if self.stopped {
            ClientTurn::Leave(client_gone(peer))
        } else {
            ClientTurn::Wait
        }
    }

    /// Step of the listener.
    pub fn on_listener(&mut self, event: ListenerEvent) -> (action: ListenerAction)
        ensures
            (*final(self), action@) == listener_step(*old(self), event@),
            action.is_stamped(),
            action is Serve <==> event is Accepted,
            action is Report <==> event is AcceptFailed,
    {
        match event {
            ListenerEvent::Accepted(peer) => ListenerAction::Serve(
                LogEntry::info("ISTA connesso da ".to_string().concat(peer.as_str())),
            ),
            ListenerEvent::AcceptFailed(error) => ListenerAction::Report(
                LogEntry::warn("TCP accept: ".to_string().concat(error.as_str())),
            ),
            ListenerEvent::Command(Some(ProxyCommand::Disconnect))
            | ListenerEvent::Command(None) => {
                self.stopped = true;
                ListenerAction::FinishWith(LogEntry::info("Disconnessione richiesta"))
            },
        }
    }

    /// Whether the listener goes on once it has performed the action.
    pub fn listens_on(&self, action: &ListenerAction) -> (res: bool)
        ensures
            res == (!self.stopped && !(action is FinishWith)),
            res == keeps_listening(*self, action@),
    {
        !self.stopped && !matches!(action, ListenerAction::FinishWith(_))
    }

    /// How the proxy ends once the listener has performed the action, if it does.
    pub fn outcome_after(&self, action: &ListenerAction) -> (res: Option<Result<(), String>>)
        ensures
            res == proxy_outcome(*self, action@),
    {
        if self.listens_on(action) {
            None
        } else {
            Some(Ok(()))
        }
    }
}

/// Step of a client handler.
pub fn on_client(event: ClientEvent) -> (action: ClientAction)
    ensures
        action@ == client_step(event@),
{
    match event {
        ClientEvent::Read(data) => if data.len() == 0 {
            ClientAction::Finish
        } else {
            ClientAction::Forward(frame::frame(Channel::Tcp, data))
        },
        ClientEvent::FromRelay(bytes) => ClientAction::Write(bytes),
        ClientEvent::Lagged => ClientAction::Ignore,
        ClientEvent::ReadFailed => ClientAction::Finish,
        ClientEvent::QueueClosed => ClientAction::Finish,
        ClientEvent::RelayClosed => ClientAction::Finish,
        ClientEvent::WriteFailed => ClientAction::Finish,
    }
}

/// What the handler of the client at `peer` does after an action.
pub fn after_client(action: &ClientAction, peer: &str) -> (turn: ClientTurn)
    ensures
        turn@ == client_turn_after(action@, peer@),
        turn.is_stamped(),
{
    match action {
        ClientAction::Finish => ClientTurn::Leave(client_gone(peer)),
        _ => ClientTurn::Wait,
    }
}

/// Reported when a client is gone.
fn client_gone(peer: &str) -> (res: LogEntry)
    ensures
        res.is_stamped(),
        res.line() == gone_line(peer@),
{
    LogEntry::info("ISTA disconnesso: ".to_string().concat(peer))
}

} // verus!
