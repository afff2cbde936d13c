//! What each task of the tunnel does, said of the bytes and texts that come in and go out.

use vstd::prelude::*;

use crate::frame;
use crate::frame::Channel;
use crate::json;
use crate::laws;
use crate::message;
use crate::state;
use crate::tunnel;
use crate::tunnel::Tunnel;

verus! {

/// `rest` is `bytes` without its first byte.
pub open spec fn is_rest(bytes: Seq<u8>, rest: Seq<u8>) -> bool {
    &&& bytes.len() == rest.len() + 1
    &&& forall|i: int| 0 <= i < rest.len() ==> #[trigger] rest[i] == bytes[i + 1]
}

// The frame.

/// A frame is the byte 0 for TCP or 1 for UDP and then every byte of the data, in its place.
pub proof fn law_frame_is_channel_byte_and_data(channel: Channel, data: Seq<u8>)
    ensures
        ({
            let f = frame::framed(channel, data);
            &&& f[0] == if channel == Channel::Tcp {
                0u8
            } else {
                1u8
            }
            &&& is_rest(f, data)
        }),
{
}

/// A frame is taken apart at its first byte: 0 means TCP, 1 means UDP, anything else nothing,
/// and the data are the other bytes, in their place.
pub proof fn law_frame_is_read_at_its_first_byte(f: Seq<u8>)
    ensures
        frame::unframed(f) is Some <==> f.len() > 0 && f[0] <= 1,
        frame::unframed(f) matches Some((channel, data)) ==> {
            &&& channel == Channel::Tcp <==> f[0] == 0
            &&& channel == Channel::Udp <==> f[0] == 1
            &&& is_rest(f, data)
        },
        frame::CH_TCP == 0,
        frame::CH_UDP == 1,
{
}

// From the relay.

/// A binary message on a running tunnel: after a byte 0 its other bytes go to the clients,
/// after a byte 1 to the peer that was heard last, if any; anything else goes nowhere. The
/// tunnel stays as it is.
pub proof fn law_binary_message_goes_where_its_first_byte_says<P>(t: Tunnel<P>, bytes: Seq<u8>)
    requires
        !t.stopped,
    ensures
        ({
            let (next, action) = tunnel::relay_step(t, tunnel::RelayEventView::Binary(bytes));
            &&& next == t
            &&& bytes.len() > 0 && bytes[0] == 0 ==> {
                &&& action matches tunnel::RelayActionView::ToClients(data)
                &&& is_rest(bytes, data)
            }
            &&& bytes.len() > 0 && bytes[0] == 1 && t.last_udp is Some ==> {
                &&& action matches tunnel::RelayActionView::ToPeer(peer, data)
                &&& t.last_udp == Some(peer)
                &&& is_rest(bytes, data)
            }
            &&& bytes.len() > 0 && bytes[0] == 1 && t.last_udp is None ==> action is Ignore
            &&& bytes.len() == 0 || bytes[0] > 1 ==> action is Ignore
        }),
{
}

/// A single frame is delivered in the same way, whether it came in binary or was decoded from
/// a payload; a payload that could not be decoded goes nowhere.
pub proof fn law_frame_is_delivered_whole<P>(t: Tunnel<P>, bytes: Seq<u8>)
    ensures
        ({
            let action = tunnel::delivery(t, bytes);
            &&& action is ToClients <==> bytes.len() > 0 && bytes[0] == 0
            &&& action is ToPeer <==> bytes.len() > 0 && bytes[0] == 1 && t.last_udp is Some
            &&& action is ToClients || action is ToPeer || action is Ignore
            &&& action matches tunnel::RelayActionView::ToClients(data) ==> is_rest(bytes, data)
            &&& action matches tunnel::RelayActionView::ToPeer(peer, data) ==> t.last_udp == Some(
                peer,
            ) && is_rest(bytes, data)
            &&& tunnel::payload_delivery(t, Some(bytes)) == action
        }),
        tunnel::payload_delivery(t, None) is Ignore,
{
}

/// A text that is an object holds exactly its string members: each of those that are read is
/// there, whole, if and only if the object has it.
pub proof fn law_message_holds_the_members_of_the_text(
    text: Seq<char>,
    members: Map<Seq<char>, Seq<char>>,
)
    requires
        json::json_string_members(text) == Some(members),
    ensures
        message::message_in(text) matches Some(m) && {
            &&& m.kind is Some <==> members.contains_key("type"@)
            &&& m.vin is Some <==> members.contains_key("vin"@)
            &&& m.reason is Some <==> members.contains_key("reason"@)
            &&& m.payload is Some <==> members.contains_key("payload"@)
            &&& m.kind is Some ==> m.kind->Some_0 == members["type"@]
            &&& m.vin is Some ==> m.vin->Some_0 == members["vin"@]
            &&& m.reason is Some ==> m.reason->Some_0 == members["reason"@]
            &&& m.payload is Some ==> m.payload->Some_0 == members["payload"@]
        },
{
}

/// There is a message in a text if and only if the text is JSON.
pub proof fn law_message_is_in_json_alone(text: Seq<char>)
    ensures
        message::message_in(text) is Some <==> json::json_string_members(text) is Some,
{
}

/// A text of type `data` whose payload decodes to some bytes is dealt with as the binary
/// message of these bytes, whatever the payload and on every tunnel.
pub proof fn law_data_text_acts_as_its_bytes<P>(
    t: Tunnel<P>,
    text: Seq<char>,
    members: Map<Seq<char>, Seq<char>>,
    bytes: Seq<u8>,
)
    requires
        json::json_string_members(text) == Some(members),
        members.contains_key("type"@),
        members["type"@] == "data"@,
        members.contains_key("payload"@),
        frame::base64_decoded(members["payload"@]) == Some(bytes),
    ensures
        tunnel::relay_step(t, tunnel::RelayEventView::Text(text)) == tunnel::relay_step(
            t,
            tunnel::RelayEventView::Binary(bytes),
        ),
{
}

/// So the bytes of such a payload reach the clients or the peer, one by one.
pub proof fn law_data_text_reaches_the_clients_or_the_peer<P>(
    t: Tunnel<P>,
    text: Seq<char>,
    members: Map<Seq<char>, Seq<char>>,
    bytes: Seq<u8>,
)
    requires
        !t.stopped,
        json::json_string_members(text) == Some(members),
        members.contains_key("type"@),
        members["type"@] == "data"@,
        members.contains_key("payload"@),
        frame::base64_decoded(members["payload"@]) == Some(bytes),
    ensures
        ({
            let (next, action) = tunnel::relay_step(t, tunnel::RelayEventView::Text(text));
            &&& next == t
            &&& bytes.len() > 0 && bytes[0] == 0 ==> {
                &&& action matches tunnel::RelayActionView::ToClients(data)
                &&& is_rest(bytes, data)
            }
            &&& bytes.len() > 0 && bytes[0] == 1 && t.last_udp is Some ==> {
                &&& action matches tunnel::RelayActionView::ToPeer(peer, data)
                &&& t.last_udp == Some(peer)
                &&& is_rest(bytes, data)
            }
        }),
{
}

/// What a text on a running tunnel does when it carries no data: a `vin` with a VIN shows and
/// logs it, `peer_disconnected` is logged and stops the tunnel, and nothing else does anything.
pub proof fn law_other_texts_show_the_vin_or_stop_the_tunnel<P>(
    t: Tunnel<P>,
    text: Seq<char>,
    members: Map<Seq<char>, Seq<char>>,
)
    requires
        !t.stopped,
        json::json_string_members(text) == Some(members),
    ensures
        ({
            let typed = members.contains_key("type"@);
            let kind = members["type"@];
            let vin = members["vin"@];
            let shows = typed && kind == "vin"@ && members.contains_key("vin"@) && vin.len() > 0;
            let stops = typed && kind == "peer_disconnected"@;
            let carries = typed && kind == "data"@ && members.contains_key("payload"@)
                && frame::base64_decoded(members["payload"@]) is Some;
            let (next, action) = tunnel::relay_step(t, tunnel::RelayEventView::Text(text));
            &&& shows ==> action == tunnel::RelayActionView::<P>::ShowVin(
                vin,
                (state::LogLine { level: "INFO"@, message: "VIN dal Mac: "@ + vin }),
            )
            &&& stops ==> action == tunnel::RelayActionView::<P>::FinishWith(
                (state::LogLine {
                    level: "WARN"@,
                    message: "AutoBridge Mac disconnesso dal relay"@,
                }),
            )
            &&& !shows && !stops && !carries ==> action is Ignore
            &&& next.stopped == stops
            &&& next.last_udp == t.last_udp
        }),
{
    laws::lemma_message_types_differ();
}

/// The other events of the relay: a closed connection is logged and stops the tunnel, the end
/// of the stream ends the reader, and a text that is not JSON or any other message does
/// nothing. On a stopped tunnel every event ends the reader and nothing else happens.
pub proof fn law_relay_events_without_a_message<P>(t: Tunnel<P>, event: tunnel::RelayEventView)
    ensures
        ({
            let (next, action) = tunnel::relay_step(t, event);
            &&& next.last_udp == t.last_udp
            &&& t.stopped ==> next.stopped && action is Finish
            &&& !t.stopped ==> match event {
                tunnel::RelayEventView::Closed => {
                    &&& next.stopped
                    &&& action == tunnel::RelayActionView::<P>::FinishWith(
                        (state::LogLine {
                            level: "WARN"@,
                            message: "Connessione relay chiusa"@,
                        }),
                    )
                },
                tunnel::RelayEventView::Ended => !next.stopped && action is Finish,
                tunnel::RelayEventView::Other => !next.stopped && action is Ignore,
                tunnel::RelayEventView::Text(text) => json::json_string_members(text) is None
                    ==> !next.stopped && action is Ignore,
                tunnel::RelayEventView::Binary(_) => !next.stopped,
            }
        }),
{
}

/// A message that was read has the same effect as the members that it holds.
pub proof fn law_message_is_acted_on_by_its_type<P>(t: Tunnel<P>, m: message::MessageView)
    ensures
        ({
            let (next, action) = tunnel::message_step(t, m);
            let shows = m.kind == Some("vin"@) && m.vin is Some && m.vin->Some_0.len() > 0;
            let stops = m.kind == Some("peer_disconnected"@);
            let carries = m.kind == Some("data"@) && m.payload is Some && frame::base64_decoded(
                m.payload->Some_0,
            ) is Some;
            &&& shows ==> action == tunnel::RelayActionView::<P>::ShowVin(
                m.vin->Some_0,
                (state::LogLine {
                    level: "INFO"@,
                    message: "VIN dal Mac: "@ + m.vin->Some_0,
                }),
            )
            &&& stops ==> action == tunnel::RelayActionView::<P>::FinishWith(
                (state::LogLine {
                    level: "WARN"@,
                    message: "AutoBridge Mac disconnesso dal relay"@,
                }),
            )
            &&& carries ==> {
                let bytes = frame::base64_decoded(m.payload->Some_0)->Some_0;
                &&& bytes.len() > 0 && bytes[0] == 0 ==> {
                    &&& action matches tunnel::RelayActionView::ToClients(data)
                    &&& is_rest(bytes, data)
                }
                &&& bytes.len() > 0 && bytes[0] == 1 && t.last_udp is Some ==> {
                    &&& action matches tunnel::RelayActionView::ToPeer(peer, data)
                    &&& t.last_udp == Some(peer)
                    &&& is_rest(bytes, data)
                }
                &&& bytes.len() == 0 || bytes[0] > 1 || (bytes[0] == 1 && t.last_udp is None)
                    ==> action is Ignore
            }
            &&& !shows && !stops && !carries ==> action is Ignore
            &&& next.stopped == (t.stopped || stops)
            &&& next.last_udp == t.last_udp
        }),
{
    laws::lemma_message_types_differ();
}

// To the relay.

/// The writer sends every frame as it is, and a heartbeat whenever one is due on a running
/// tunnel, whatever peer was heard. It ends if and only if the queue is closed, sending
/// failed, or a heartbeat is due on a stopped tunnel; only failed sending stops the tunnel.
pub proof fn law_writer_sends_until_it_must_end<P>(
    t: Tunnel<P>,
    session_id: Seq<char>,
    event: tunnel::WriterEventView,
)
    ensures
        ({
            let (next, action) = tunnel::writer_step(t, session_id, event);
            &&& action is Finish <==> event is QueueClosed || event is SendFailed || (
            event is HeartbeatDue && t.stopped)
            &&& event is HeartbeatDue && !t.stopped ==> action
                == tunnel::WriterActionView::SendText(
                json::json_object_text(
                    seq![("type"@, "heartbeat"@), ("session_id"@, session_id)],
                ),
            )
            &&& event matches tunnel::WriterEventView::Frame(bytes) ==> action
                == tunnel::WriterActionView::SendBinary(bytes)
            &&& next.stopped == (t.stopped || event is SendFailed)
            &&& next.last_udp == t.last_udp
        }),
{
}

/// A datagram that is not empty goes to the relay as the byte 1 and then each of its bytes,
/// and its sender becomes the peer that is answered; an empty one does nothing; a failure or a
/// closed queue ends the receiver.
pub proof fn law_datagram_goes_out_byte_by_byte<P>(t: Tunnel<P>, event: tunnel::UdpEventView<P>)
    ensures
        ({
            let (next, action) = tunnel::udp_step(t, event);
            &&& next.stopped == t.stopped
            &&& match event {
                tunnel::UdpEventView::Datagram(from, data) => if data.len() > 0 {
                    &&& next.last_udp == Some(from)
                    &&& action matches tunnel::UdpActionView::Forward(f)
                    &&& f.len() == data.len() + 1
                    &&& f[0] == 1
                    &&& forall|i: int| 0 <= i < data.len() ==> f[i + 1] == #[trigger] data[i]
                } else {
                    next.last_udp == t.last_udp && action is Ignore
                },
                _ => next.last_udp == t.last_udp && action is Finish,
            }
        }),
{
}

/// What a client sends goes to the relay as the byte 0 and then each of its bytes; what the
/// relay sends is written to the client as it is; missed bytes end nothing, and every other
/// event ends the handler.
pub proof fn law_client_bytes_go_out_and_come_in_one_by_one(event: tunnel::ClientEventView)
    ensures
        ({
            let action = tunnel::client_step(event);
            match event {
                tunnel::ClientEventView::Read(data) => if data.len() > 0 {
                    &&& action matches tunnel::ClientActionView::Forward(f)
                    &&& f.len() == data.len() + 1
                    &&& f[0] == 0
                    &&& forall|i: int| 0 <= i < data.len() ==> f[i + 1] == #[trigger] data[i]
                } else {
                    action is Finish
                },
                tunnel::ClientEventView::FromRelay(bytes) => action
                    == tunnel::ClientActionView::Write(bytes),
                tunnel::ClientEventView::Lagged => action is Ignore,
                _ => action is Finish,
            }
        }),
{
}

// Who goes on.

/// A client that connects is served, whatever peer was heard and whether the tunnel is being
/// shut down or not, and nothing else is; a failure to accept is only reported; a command or
/// the end of the commands, and nothing else, ends the listening and stops the tunnel.
pub proof fn law_every_client_is_served<P>(t: Tunnel<P>, event: tunnel::ListenerEventView)
    ensures
        ({
            let (next, action) = tunnel::listener_step(t, event);
            &&& action is Serve <==> event is Accepted
            &&& action is Report <==> event is AcceptFailed
            &&& action is FinishWith <==> event is Command
            &&& event matches tunnel::ListenerEventView::Accepted(peer) ==> action
                == tunnel::ListenerActionView::Serve(
                (state::LogLine { level: "INFO"@, message: "ISTA connesso da "@ + peer }),
            )
            &&& event matches tunnel::ListenerEventView::AcceptFailed(error) ==> action
                == tunnel::ListenerActionView::Report(
                (state::LogLine { level: "WARN"@, message: "TCP accept: "@ + error }),
            )
            &&& event is Command ==> action == tunnel::ListenerActionView::FinishWith(
                (state::LogLine { level: "INFO"@, message: "Disconnessione richiesta"@ }),
            )
            &&& next.stopped == (t.stopped || event is Command)
            &&& next.last_udp == t.last_udp
        }),
{
}

/// Each task goes on while the tunnel runs, whatever peer was heard, and ends with it. A
/// client handler ends also with a finishing action, and says in the log that its client is
/// gone, either way. The proxy ends, without an error, when the listening does.
pub proof fn law_tasks_go_on_while_the_tunnel_runs<P>(
    t: Tunnel<P>,
    peer: Seq<char>,
    client: tunnel::ClientActionView,
    listener: tunnel::ListenerActionView,
)
    ensures
        tunnel::udp_turn_of(t) == tunnel::UdpTurn::Wait <==> !t.stopped,
        tunnel::client_turn_of(t, peer) is Wait <==> !t.stopped,
        tunnel::client_turn_of(t, peer) matches tunnel::ClientTurnView::Leave(line) ==> line == (
        state::LogLine { level: "INFO"@, message: "ISTA disconnesso: "@ + peer }),
        tunnel::client_turn_after(client, peer) is Wait <==> !(client is Finish),
        tunnel::client_turn_after(client, peer) matches tunnel::ClientTurnView::Leave(line)
            ==> line == (state::LogLine {
            level: "INFO"@,
            message: "ISTA disconnesso: "@ + peer,
        }),
        tunnel::keeps_listening(t, listener) <==> !t.stopped && !(listener is FinishWith),
        tunnel::proxy_outcome(t, listener) == if !t.stopped && !(listener is FinishWith) {
            None
        } else {
            Some(Ok::<(), String>(()))
        },
{
}

// Events and actions are seen as they are.

/// The contracts speak of an event by what it holds, all of it.
pub proof fn law_events_are_seen_whole<P>(
    relay: tunnel::RelayEvent,
    writer: tunnel::WriterEvent,
    udp: tunnel::UdpEvent<P>,
    client: tunnel::ClientEvent,
    listener: tunnel::ListenerEvent,
    m: message::RelayMessage,
)
    ensures
        relay@ == match relay {
            tunnel::RelayEvent::Binary(bytes) => tunnel::RelayEventView::Binary(bytes@),
            tunnel::RelayEvent::Text(text) => tunnel::RelayEventView::Text(text@),
            tunnel::RelayEvent::Closed => tunnel::RelayEventView::Closed,
            tunnel::RelayEvent::Other => tunnel::RelayEventView::Other,
            tunnel::RelayEvent::Ended => tunnel::RelayEventView::Ended,
        },
        writer@ == match writer {
            tunnel::WriterEvent::Frame(bytes) => tunnel::WriterEventView::Frame(bytes@),
            tunnel::WriterEvent::QueueClosed => tunnel::WriterEventView::QueueClosed,
            tunnel::WriterEvent::HeartbeatDue => tunnel::WriterEventView::HeartbeatDue,
            tunnel::WriterEvent::SendFailed => tunnel::WriterEventView::SendFailed,
        },
        udp@ == match udp {
            tunnel::UdpEvent::Datagram(from, data) => tunnel::UdpEventView::Datagram(from, data@),
            tunnel::UdpEvent::Failed => tunnel::UdpEventView::Failed,
            tunnel::UdpEvent::QueueClosed => tunnel::UdpEventView::QueueClosed,
        },
        client@ == match client {
            tunnel::ClientEvent::Read(data) => tunnel::ClientEventView::Read(data@),
            tunnel::ClientEvent::ReadFailed => tunnel::ClientEventView::ReadFailed,
            tunnel::ClientEvent::QueueClosed => tunnel::ClientEventView::QueueClosed,
            tunnel::ClientEvent::FromRelay(bytes) => tunnel::ClientEventView::FromRelay(bytes@),
            tunnel::ClientEvent::Lagged => tunnel::ClientEventView::Lagged,
            tunnel::ClientEvent::RelayClosed => tunnel::ClientEventView::RelayClosed,
            tunnel::ClientEvent::WriteFailed => tunnel::ClientEventView::WriteFailed,
        },
        listener@ == match listener {
            tunnel::ListenerEvent::Accepted(peer) => tunnel::ListenerEventView::Accepted(peer@),
            tunnel::ListenerEvent::AcceptFailed(e) => tunnel::ListenerEventView::AcceptFailed(e@),
            tunnel::ListenerEvent::Command(c) => tunnel::ListenerEventView::Command(c),
        },
        m.kind is Some <==> m@.kind is Some,
        m.vin is Some <==> m@.vin is Some,
        m.reason is Some <==> m@.reason is Some,
        m.payload is Some <==> m@.payload is Some,
        m.kind is Some ==> m@.kind->Some_0 == m.kind->Some_0@,
        m.vin is Some ==> m@.vin->Some_0 == m.vin->Some_0@,
        m.reason is Some ==> m@.reason->Some_0 == m.reason->Some_0@,
        m.payload is Some ==> m@.payload->Some_0 == m.payload->Some_0@,
{
}

/// The contracts speak of an action by what it holds, a log entry by its level and message;
/// every entry carries the time of day.
pub proof fn law_actions_are_seen_whole<P>(
    relay: tunnel::RelayAction<P>,
    writer: tunnel::WriterAction,
    udp: tunnel::UdpAction,
    client: tunnel::ClientAction,
    turn: tunnel::ClientTurn,
    listener: tunnel::ListenerAction,
)
    ensures
        match relay {
            tunnel::RelayAction::Ignore => relay@ is Ignore,
            tunnel::RelayAction::ToClients(b) => relay@ == tunnel::RelayActionView::<P>::ToClients(
                b@,
            ),
            tunnel::RelayAction::ToPeer(p, b) => relay@ == tunnel::RelayActionView::ToPeer(p, b@),
            tunnel::RelayAction::ShowVin(vin, e) => {
                &&& relay@ == tunnel::RelayActionView::<P>::ShowVin(
                    vin@,
                    (state::LogLine { level: e.level@, message: e.message@ }),
                )
                &&& relay.is_stamped() ==> state::is_clock_time(e.timestamp@)
            },
            tunnel::RelayAction::Finish => relay@ is Finish,
            tunnel::RelayAction::FinishWith(e) => {
                &&& relay@ == tunnel::RelayActionView::<P>::FinishWith(
                    (state::LogLine { level: e.level@, message: e.message@ }),
                )
                &&& relay.is_stamped() ==> state::is_clock_time(e.timestamp@)
            },
        },
        writer@ == match writer {
            tunnel::WriterAction::SendBinary(bytes) => tunnel::WriterActionView::SendBinary(bytes@),
            tunnel::WriterAction::SendText(text) => tunnel::WriterActionView::SendText(text@),
            tunnel::WriterAction::Finish => tunnel::WriterActionView::Finish,
        },
        udp@ == match udp {
            tunnel::UdpAction::Ignore => tunnel::UdpActionView::Ignore,
            tunnel::UdpAction::Forward(f) => tunnel::UdpActionView::Forward(f@),
            tunnel::UdpAction::Finish => tunnel::UdpActionView::Finish,
        },
        client@ == match client {
            tunnel::ClientAction::Ignore => tunnel::ClientActionView::Ignore,
            tunnel::ClientAction::Forward(f) => tunnel::ClientActionView::Forward(f@),
            tunnel::ClientAction::Write(bytes) => tunnel::ClientActionView::Write(bytes@),
            tunnel::ClientAction::Finish => tunnel::ClientActionView::Finish,
        },
        match turn {
            tunnel::ClientTurn::Wait => turn@ is Wait,
            tunnel::ClientTurn::Leave(e) => {
                &&& turn@ == tunnel::ClientTurnView::Leave(
                    (state::LogLine { level: e.level@, message: e.message@ }),
                )
                &&& turn.is_stamped() ==> state::is_clock_time(e.timestamp@)
            },
        },
        match listener {
            tunnel::ListenerAction::Serve(e) => {
                &&& listener@ == tunnel::ListenerActionView::Serve(
                    (state::LogLine { level: e.level@, message: e.message@ }),
                )
                &&& listener.is_stamped() ==> state::is_clock_time(e.timestamp@)
            },
            tunnel::ListenerAction::Report(e) => {
                &&& listener@ == tunnel::ListenerActionView::Report(
                    (state::LogLine { level: e.level@, message: e.message@ }),
                )
                &&& listener.is_stamped() ==> state::is_clock_time(e.timestamp@)
            },
            tunnel::ListenerAction::FinishWith(e) => {
                &&& listener@ == tunnel::ListenerActionView::FinishWith(
                    (state::LogLine { level: e.level@, message: e.message@ }),
                )
                &&& listener.is_stamped() ==> state::is_clock_time(e.timestamp@)
            },
        },
{
}

} // verus!
