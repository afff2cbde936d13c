//! What holds of the library as a whole.

pub mod addresses;
pub mod joining;
pub mod records;
pub mod tasks;

use vstd::prelude::*;
use vstd::utf8::*;

use crate::frame;
use crate::frame::Channel;
use crate::interfaces;
use crate::interfaces::RawInterface;
use crate::json;
use crate::message;
use crate::relay_test;
use crate::session;
use crate::session::{JoinEvent, ProxyPlan};
use crate::setup;
use crate::setup::{SetupEvent, Stage};
use crate::state;
use crate::state::{AppConfig, AppState, LogEntry};
use crate::text;
use crate::tunnel;
use crate::tunnel::Tunnel;

verus! {

// The tunnel is transparent.

/// The bytes that a client sends over TCP travel as one frame, which is sent to the relay as
/// it is and from which the reading end hands out the same bytes, to be written as they are.
pub proof fn law_tcp_bytes_pass_unchanged<P>(
    sender: Tunnel<P>,
    receiver: Tunnel<P>,
    session_id: Seq<char>,
    data: Seq<u8>,
)
    requires
        data.len() > 0,
        !receiver.stopped,
    ensures
        tunnel::client_step(tunnel::ClientEventView::Read(data)) matches
            tunnel::ClientActionView::Forward(f) && {
            &&& tunnel::writer_step(sender, session_id, tunnel::WriterEventView::Frame(f)) == (
                sender,
                tunnel::WriterActionView::SendBinary(f),
            )
            &&& tunnel::relay_step(receiver, tunnel::RelayEventView::Binary(f)) == (
                receiver,
                tunnel::RelayActionView::<P>::ToClients(data),
            )
            &&& tunnel::client_step(tunnel::ClientEventView::FromRelay(data))
                == tunnel::ClientActionView::Write(data)
        },
{
    frame::law_unframe_gives_back_what_was_framed(Channel::Tcp, data);
}

/// A datagram travels in the same way, and reaches the peer that the reading end heard last.
pub proof fn law_udp_datagrams_pass_unchanged<P>(
    sender: Tunnel<P>,
    receiver: Tunnel<P>,
    session_id: Seq<char>,
    from: P,
    peer: P,
    data: Seq<u8>,
)
    requires
        data.len() > 0,
        !receiver.stopped,
        receiver.last_udp == Some(peer),
    ensures
        tunnel::udp_step(sender, tunnel::UdpEventView::Datagram(from, data)).1 matches
            tunnel::UdpActionView::Forward(f) && {
            &&& tunnel::writer_step(sender, session_id, tunnel::WriterEventView::Frame(f)).1
                == tunnel::WriterActionView::SendBinary(f)
            &&& tunnel::relay_step(receiver, tunnel::RelayEventView::Binary(f)) == (
                receiver,
                tunnel::RelayActionView::ToPeer(peer, data),
            )
        },
{
    frame::law_unframe_gives_back_what_was_framed(Channel::Udp, data);
}

/// UDP data from the relay goes to the peer that sent the last datagram.
pub proof fn law_answers_go_to_the_last_peer<P>(
    t: Tunnel<P>,
    from: P,
    data: Seq<u8>,
    answer: Seq<u8>,
)
    requires
        data.len() > 0,
        !t.stopped,
    ensures
        tunnel::relay_step(
            tunnel::udp_step(t, tunnel::UdpEventView::Datagram(from, data)).0,
            tunnel::RelayEventView::Binary(frame::framed(Channel::Udp, answer)),
        ).1 == tunnel::RelayActionView::ToPeer(from, answer),
{
    frame::law_unframe_gives_back_what_was_framed(Channel::Udp, answer);
}

/// Until a peer was heard, UDP data from the relay is dropped.
pub proof fn law_no_answer_without_a_peer<P>(t: Tunnel<P>, answer: Seq<u8>)
    requires
        t.last_udp is None,
        !t.stopped,
    ensures
        tunnel::relay_step(
            t,
            tunnel::RelayEventView::Binary(frame::framed(Channel::Udp, answer)),
        ) == (t, tunnel::RelayActionView::<P>::Ignore),
{
    frame::law_unframe_gives_back_what_was_framed(Channel::Udp, answer);
}

/// Only the UDP receiver changes the peer that answers go to.
pub proof fn law_only_datagrams_change_the_peer<P>(
    t: Tunnel<P>,
    session_id: Seq<char>,
    relay: tunnel::RelayEventView,
    writer: tunnel::WriterEventView,
    listener: tunnel::ListenerEventView,
)
    ensures
        tunnel::relay_step(t, relay).0.last_udp == t.last_udp,
        tunnel::writer_step(t, session_id, writer).0.last_udp == t.last_udp,
        tunnel::listener_step(t, listener).0.last_udp == t.last_udp,
{
}

/// A text message of type `data` is dealt with as the binary message that its payload
/// decodes to.
pub proof fn law_text_data_is_binary_data<P>(
    t: Tunnel<P>,
    text: Seq<char>,
    payload: Seq<char>,
    bytes: Seq<u8>,
)
    requires
        message::message_in(text) matches Some(m) && m.kind == Some("data"@) && m.payload == Some(
            payload,
        ),
        frame::base64_decoded(payload) == Some(bytes),
    ensures
        tunnel::relay_step(t, tunnel::RelayEventView::Text(text)) == tunnel::relay_step(
            t,
            tunnel::RelayEventView::Binary(bytes),
        ),
{
}

/// What the relay reader does over a run of turns, up to its end. Each turn is the tunnel as
/// the reader finds it, which the other tasks may have changed since the last, and the event
/// that came.
pub open spec fn reader_actions<P>(
    turns: Seq<(Tunnel<P>, tunnel::RelayEventView)>,
) -> Seq<tunnel::RelayActionView<P>>
    decreases turns.len(),
{
    if turns.len() == 0 {
        Seq::empty()
    } else {
        match tunnel::relay_step(turns.first().0, turns.first().1).1 {
            tunnel::RelayActionView::Finish => Seq::empty(),
            tunnel::RelayActionView::FinishWith(line) => seq![
                tunnel::RelayActionView::FinishWith(line),
            ],
            action => seq![action] + reader_actions(turns.drop_first()),
        }
    }
}

/// What is handed to the TCP clients, in order.
pub open spec fn handed_to_clients<P>(actions: Seq<tunnel::RelayActionView<P>>) -> Seq<Seq<u8>>
    decreases actions.len(),
{
    if actions.len() == 0 {
        Seq::empty()
    } else {
        let rest = handed_to_clients(actions.drop_first());
        match actions.first() {
            tunnel::RelayActionView::ToClients(data) => seq![data] + rest,
            _ => rest,
        }
    }
}

/// What is sent to UDP peers, in order.
pub open spec fn sent_to_peers<P>(actions: Seq<tunnel::RelayActionView<P>>) -> Seq<(P, Seq<u8>)>
    decreases actions.len(),
{
    if actions.len() == 0 {
        Seq::empty()
    } else {
        let rest = sent_to_peers(actions.drop_first());
        match actions.first() {
            tunnel::RelayActionView::ToPeer(peer, data) => seq![(peer, data)] + rest,
            _ => rest,
        }
    }
}

/// The message says that the other end is gone.
pub open spec fn is_departure(event: tunnel::RelayEventView) -> bool {
    event matches tunnel::RelayEventView::Text(text) && message::message_in(text) matches Some(m)
        && m.kind == Some("peer_disconnected"@)
}

/// The connection to the relay goes on after the event.
pub open spec fn keeps_reading(event: tunnel::RelayEventView) -> bool {
    !(event is Closed) && !(event is Ended) && !is_departure(event)
}

/// The channel and the data that a message carries: a binary message as it is, a text of type
/// `data` in its payload.
pub open spec fn carried(event: tunnel::RelayEventView) -> Option<(Channel, Seq<u8>)> {
    match event {
        tunnel::RelayEventView::Binary(bytes) => frame::unframed(bytes),
        tunnel::RelayEventView::Text(text) => match message::message_in(text) {
            Some(m) => if m.kind == Some("data"@) && m.payload is Some {
                match frame::base64_decoded(m.payload->Some_0) {
                    Some(bytes) => frame::unframed(bytes),
                    None => None,
                }
            } else {
                None
            },
            None => None,
        },
        _ => None,
    }
}

/// The pieces of the TCP stream that the messages carry, in order.
pub open spec fn stream_carried<P>(
    turns: Seq<(Tunnel<P>, tunnel::RelayEventView)>,
) -> Seq<Seq<u8>>
    decreases turns.len(),
{
    if turns.len() == 0 {
        Seq::empty()
    } else {
        let rest = stream_carried(turns.drop_first());
        match carried(turns.first().1) {
            Some((Channel::Tcp, data)) => seq![data] + rest,
            _ => rest,
        }
    }
}

/// The datagrams that the messages carry, in order, each with the peer that was heard last when
/// it came. One that came before any peer was heard is left out.
pub open spec fn datagrams_carried<P>(
    turns: Seq<(Tunnel<P>, tunnel::RelayEventView)>,
) -> Seq<(P, Seq<u8>)>
    decreases turns.len(),
{
    if turns.len() == 0 {
        Seq::empty()
    } else {
        let rest = datagrams_carried(turns.drop_first());
        match (carried(turns.first().1), turns.first().0.last_udp) {
            (Some((Channel::Udp, data)), Some(peer)) => seq![(peer, data)] + rest,
            _ => rest,
        }
    }
}

/// While the tunnel runs and the relay stays connected, exactly the TCP stream is handed to
/// the clients and exactly the datagrams go to the peer heard last: all of it, once, in order
/// and unchanged, whether it came in binary messages or in texts, whatever other messages
/// stand in between and whatever the other tasks do meanwhile.
pub proof fn law_messages_reach_the_clients_and_the_peer<P>(
    turns: Seq<(Tunnel<P>, tunnel::RelayEventView)>,
)
    requires
        forall|i: int|
            0 <= i < turns.len() ==> !(#[trigger] turns[i]).0.stopped && keeps_reading(turns[i].1),
    ensures
        handed_to_clients(reader_actions(turns)) == stream_carried(turns),
        sent_to_peers(reader_actions(turns)) == datagrams_carried(turns),
    decreases turns.len(),
{
    if turns.len() > 0 {
        let rest = turns.drop_first();
        assert forall|i: int| 0 <= i < rest.len() implies !(#[trigger] rest[i]).0.stopped
            && keeps_reading(rest[i].1) by {
            assert(rest[i] == turns[i + 1]);
        }
        law_messages_reach_the_clients_and_the_peer(rest);
        lemma_message_types_differ();
        let t = turns[0].0;
        let action = tunnel::relay_step(t, turns[0].1).1;
        assert(match carried(turns[0].1) {
            Some((Channel::Tcp, data)) => action == tunnel::RelayActionView::<P>::ToClients(data),
            Some((Channel::Udp, data)) => match t.last_udp {
                Some(peer) => action == tunnel::RelayActionView::ToPeer(peer, data),
                None => action is Ignore,
            },
            None => action is Ignore || action is ShowVin,
        });
        assert(reader_actions(turns) == seq![action] + reader_actions(rest));
        assert((seq![action] + reader_actions(rest)).drop_first() =~= reader_actions(rest));
    }
}

/// The pieces of a TCP stream come out of the tunnel as they went in: all of them, once, and
/// in order, each in a binary message or in a text.
pub proof fn law_stream_is_kept_in_order<P>(
    turns: Seq<(Tunnel<P>, tunnel::RelayEventView)>,
    pieces: Seq<Seq<u8>>,
)
    requires
        turns.len() == pieces.len(),
        forall|i: int|
            0 <= i < turns.len() ==> !(#[trigger] turns[i]).0.stopped && carried(turns[i].1) == Some(
                (Channel::Tcp, pieces[i]),
            ),
    ensures
        handed_to_clients(reader_actions(turns)) == pieces,
{
    lemma_message_types_differ();
    law_messages_reach_the_clients_and_the_peer(turns);
    lemma_stream_of_pieces(turns, pieces);
}

proof fn lemma_stream_of_pieces<P>(
    turns: Seq<(Tunnel<P>, tunnel::RelayEventView)>,
    pieces: Seq<Seq<u8>>,
)
    requires
        turns.len() == pieces.len(),
        forall|i: int|
            0 <= i < turns.len() ==> carried((#[trigger] turns[i]).1) == Some(
                (Channel::Tcp, pieces[i]),
            ),
    ensures
        stream_carried(turns) == pieces,
    decreases turns.len(),
{
    if turns.len() > 0 {
        let rest = turns.drop_first();
        let later = pieces.drop_first();
        assert forall|i: int| 0 <= i < rest.len() implies carried((#[trigger] rest[i]).1) == Some(
            (Channel::Tcp, later[i]),
        ) by {
            assert(rest[i] == turns[i + 1]);
        }
        lemma_stream_of_pieces(rest, later);
        assert(carried(turns[0].1) == Some((Channel::Tcp, pieces[0])));
        assert(seq![pieces[0]] + later =~= pieces);
    }
}

pub(crate) proof fn lemma_message_types_differ()
    ensures
        "data"@ != "vin"@,
        "data"@ != "peer_disconnected"@,
        "vin"@ != "peer_disconnected"@,
{
    reveal_strlit("data");
    reveal_strlit("vin");
    reveal_strlit("peer_disconnected");
    assert("data"@.len() == 4);
    assert("vin"@.len() == 3);
    assert("peer_disconnected"@.len() == 17);
}

// A client's stream goes out whole.

/// What the handler of the client at `peer` does over a run of turns, up to its end. Each turn
/// is the tunnel as the handler finds it and the event that it then waits for.
pub open spec fn client_actions<P>(
    peer: Seq<char>,
    turns: Seq<(Tunnel<P>, tunnel::ClientEventView)>,
) -> Seq<tunnel::ClientActionView>
    decreases turns.len(),
{
    if turns.len() == 0 || tunnel::client_turn_of(turns.first().0, peer) is Leave {
        Seq::empty()
    } else {
        match tunnel::client_step(turns.first().1) {
            tunnel::ClientActionView::Finish => Seq::empty(),
            action => seq![action] + client_actions(peer, turns.drop_first()),
        }
    }
}

/// The frames that are put into the queue to the relay, in order.
pub open spec fn frames_forwarded(actions: Seq<tunnel::ClientActionView>) -> Seq<Seq<u8>>
    decreases actions.len(),
{
    if actions.len() == 0 {
        Seq::empty()
    } else {
        match actions.first() {
            tunnel::ClientActionView::Forward(f) => seq![f] + frames_forwarded(
                actions.drop_first(),
            ),
            _ => frames_forwarded(actions.drop_first()),
        }
    }
}

/// The bytes that are written to the client, in order.
pub open spec fn bytes_written(actions: Seq<tunnel::ClientActionView>) -> Seq<u8>
    decreases actions.len(),
{
    if actions.len() == 0 {
        Seq::empty()
    } else {
        match actions.first() {
            tunnel::ClientActionView::Write(bytes) => bytes + bytes_written(actions.drop_first()),
            _ => bytes_written(actions.drop_first()),
        }
    }
}

/// The bytes that the client sent, in order.
pub open spec fn bytes_read<P>(turns: Seq<(Tunnel<P>, tunnel::ClientEventView)>) -> Seq<u8>
    decreases turns.len(),
{
    if turns.len() == 0 {
        Seq::empty()
    } else {
        match turns.first().1 {
            tunnel::ClientEventView::Read(data) => data + bytes_read(turns.drop_first()),
            _ => bytes_read(turns.drop_first()),
        }
    }
}

/// The bytes that came from the relay for the client, in order.
pub open spec fn bytes_relayed<P>(turns: Seq<(Tunnel<P>, tunnel::ClientEventView)>) -> Seq<u8>
    decreases turns.len(),
{
    if turns.len() == 0 {
        Seq::empty()
    } else {
        match turns.first().1 {
            tunnel::ClientEventView::FromRelay(bytes) => bytes + bytes_relayed(turns.drop_first()),
            _ => bytes_relayed(turns.drop_first()),
        }
    }
}

/// Both streams are open: the event is a read of some bytes, no more than the buffer holds, or
/// concerns what the relay sends.
pub open spec fn is_traffic(event: tunnel::ClientEventView) -> bool {
    match event {
        tunnel::ClientEventView::Read(data) => 0 < data.len() <= tunnel::READ_SIZE,
        tunnel::ClientEventView::FromRelay(_) => true,
        tunnel::ClientEventView::Lagged => true,
        _ => false,
    }
}

/// While the tunnel runs and until the client closes its stream, the client's bytes go out
/// whole, once, in order and uninterpreted, however the reads split them and whatever the
/// relay sends in between: every frame is a channel byte for TCP and at most a buffer of
/// bytes, and the frames without their first byte, joined, are the client's stream. What is
/// written to the client is, in the same way, what came from the relay.
pub proof fn law_client_stream_goes_out_whole<P>(
    peer: Seq<char>,
    turns: Seq<(Tunnel<P>, tunnel::ClientEventView)>,
    at_close: Tunnel<P>,
)
    requires
        forall|i: int|
            0 <= i < turns.len() ==> !(#[trigger] turns[i]).0.stopped && is_traffic(turns[i].1),
        !at_close.stopped,
    ensures
        ({
            let actions = client_actions(
                peer,
                turns.push((at_close, tunnel::ClientEventView::Read(Seq::empty()))),
            );
            let frames = frames_forwarded(actions);
            &&& forall|i: int|
                0 <= i < frames.len() ==> (#[trigger] frames[i])[0] == frame::CH_TCP && 2
                    <= frames[i].len() <= tunnel::READ_SIZE + 1
            &&& frames.map_values(|f: Seq<u8>| f.skip(1)).flatten() == bytes_read(turns)
            &&& bytes_written(actions) == bytes_relayed(turns)
        }),
    decreases turns.len(),
{
    let close = (at_close, tunnel::ClientEventView::Read(Seq::<u8>::empty()));
    let all = turns.push(close);
    let strip = |f: Seq<u8>| f.skip(1);
    if turns.len() > 0 {
        let rest = turns.drop_first();
        assert(all.drop_first() =~= rest.push(close));
        assert forall|i: int| 0 <= i < rest.len() implies !(#[trigger] rest[i]).0.stopped
            && is_traffic(rest[i].1) by {
            assert(rest[i] == turns[i + 1]);
        }
        law_client_stream_goes_out_whole(peer, rest, at_close);
        let after = client_actions(peer, rest.push(close));
        let action = tunnel::client_step(turns[0].1);
        let actions = seq![action] + after;
        assert(client_actions(peer, all) == actions);
        assert(actions.drop_first() =~= after);
        let later = frames_forwarded(after);
        if let tunnel::ClientEventView::Read(data) = turns[0].1 {
            let f = frame::framed(Channel::Tcp, data);
            let frames = seq![f] + later;
            assert(frames_forwarded(actions) == frames);
            assert(frames.map_values(strip).drop_first() =~= later.map_values(strip));
            assert(frames.map_values(strip).first() =~= data);
        }
    } else {
        assert(all.first() == close);
        assert(frames_forwarded(client_actions(peer, all)).map_values(strip).len() == 0);
    }
}

/// Something that a client handler does.
pub ghost enum ClientEffect {
    Act(tunnel::ClientActionView),
    Log(state::LogLine),
}

/// All that the handler of the client at `peer` does over a run of turns, its log included.
pub open spec fn client_effects<P>(
    peer: Seq<char>,
    turns: Seq<(Tunnel<P>, tunnel::ClientEventView)>,
) -> Seq<ClientEffect>
    decreases turns.len(),
{
    if turns.len() == 0 {
        Seq::empty()
    } else {
        match tunnel::client_turn_of(turns.first().0, peer) {
            tunnel::ClientTurnView::Leave(line) => seq![ClientEffect::Log(line)],
            tunnel::ClientTurnView::Wait => {
                let action = tunnel::client_step(turns.first().1);
                match tunnel::client_turn_after(action, peer) {
                    tunnel::ClientTurnView::Leave(line) => seq![ClientEffect::Log(line)],
                    tunnel::ClientTurnView::Wait => seq![ClientEffect::Act(action)]
                        + client_effects(peer, turns.drop_first()),
                }
            },
        }
    }
}

/// The turn is the last of a client handler: the tunnel is being shut down, or the event ends
/// the handler.
pub open spec fn ends_client<P>(turn: (Tunnel<P>, tunnel::ClientEventView)) -> bool {
    turn.0.stopped || tunnel::client_step(turn.1) is Finish
}

/// A client handler logs exactly one line, as the last thing it does, whatever ends it: that
/// its client is gone. One that has not ended logs nothing.
pub proof fn law_client_handler_logs_its_end<P>(
    peer: Seq<char>,
    turns: Seq<(Tunnel<P>, tunnel::ClientEventView)>,
)
    ensures
        client_effects(peer, turns) == client_actions(peer, turns).map_values(
            |action: tunnel::ClientActionView| ClientEffect::Act(action),
        ) + if exists|i: int| 0 <= i < turns.len() && ends_client(#[trigger] turns[i]) {
            seq![ClientEffect::Log(state::info_line("ISTA disconnesso: "@ + peer))]
        } else {
            Seq::empty()
        },
    decreases turns.len(),
{
    let act = |action: tunnel::ClientActionView| ClientEffect::Act(action);
    if turns.len() > 0 {
        if ends_client(turns[0]) {
            assert(client_actions(peer, turns).map_values(act) =~= Seq::empty());
            assert(client_effects(peer, turns) =~= Seq::empty() + seq![
                ClientEffect::Log(tunnel::gone_line(peer)),
            ]);
        } else {
            let rest = turns.drop_first();
            law_client_handler_logs_its_end(peer, rest);
            let action = tunnel::client_step(turns[0].1);
            let later = client_actions(peer, rest);
            assert((seq![action] + later).map_values(act) =~= seq![ClientEffect::Act(action)]
                + later.map_values(act));
            if exists|i: int| 0 <= i < turns.len() && ends_client(#[trigger] turns[i]) {
                let i = choose|i: int| 0 <= i < turns.len() && ends_client(#[trigger] turns[i]);
                assert(rest[i - 1] == turns[i]);
            }
            if exists|i: int| 0 <= i < rest.len() && ends_client(#[trigger] rest[i]) {
                let i = choose|i: int| 0 <= i < rest.len() && ends_client(#[trigger] rest[i]);
                assert(turns[i + 1] == rest[i]);
            }
        }
    } else {
        assert(client_actions(peer, turns).map_values(act) =~= Seq::empty());
    }
}

// The tunnel is shut down once and for all.

/// The relay reader does nothing more from the turn on at which it finds the tunnel shut down:
/// what arrives then reaches nobody.
pub proof fn law_relay_reader_ends_with_the_tunnel<P>(
    turns: Seq<(Tunnel<P>, tunnel::RelayEventView)>,
    k: int,
)
    requires
        0 <= k < turns.len(),
        turns[k].0.stopped,
    ensures
        reader_actions(turns) == reader_actions(turns.take(k)),
        k == 0 ==> reader_actions(turns) == Seq::<tunnel::RelayActionView<P>>::empty(),
    decreases k,
{
    if k > 0 {
        let rest = turns.drop_first();
        law_relay_reader_ends_with_the_tunnel(rest, k - 1);
        assert(turns.take(k).drop_first() =~= rest.take(k - 1));
    }
}

/// No task revives a tunnel that is being shut down.
pub proof fn law_stop_is_final<P>(
    t: Tunnel<P>,
    session_id: Seq<char>,
    relay: tunnel::RelayEventView,
    writer: tunnel::WriterEventView,
    udp: tunnel::UdpEventView<P>,
    listener: tunnel::ListenerEventView,
)
    requires
        t.stopped,
    ensures
        tunnel::relay_step(t, relay).0.stopped,
        tunnel::writer_step(t, session_id, writer).0.stopped,
        tunnel::udp_step(t, udp).0.stopped,
        tunnel::listener_step(t, listener).0.stopped,
{
}

/// While a tunnel is being shut down the relay reader delivers nothing, whatever arrives, and
/// no heartbeat is sent.
pub proof fn law_nothing_is_delivered_after_stop<P>(
    t: Tunnel<P>,
    session_id: Seq<char>,
    event: tunnel::RelayEventView,
)
    requires
        t.stopped,
    ensures
        tunnel::relay_step(t, event) == (t, tunnel::RelayActionView::<P>::Finish),
        tunnel::writer_step(t, session_id, tunnel::WriterEventView::HeartbeatDue) == (
            t,
            tunnel::WriterActionView::Finish,
        ),
{
}

/// While a tunnel is being shut down each of its tasks ends: the UDP receiver and a client
/// handler before they wait again, the latter with a last line in the log, and the listener,
/// without an error of the proxy, after the next client or command at the latest.
pub proof fn law_stopped_tunnel_ends_its_tasks<P>(
    t: Tunnel<P>,
    peer: Seq<char>,
    event: tunnel::ListenerEventView,
)
    requires
        t.stopped,
    ensures
        tunnel::udp_turn_of(t) == tunnel::UdpTurn::Leave,
        tunnel::client_turn_of(t, peer) == tunnel::ClientTurnView::Leave(
            state::info_line("ISTA disconnesso: "@ + peer),
        ),
        ({
            let (next, action) = tunnel::listener_step(t, event);
            &&& !tunnel::keeps_listening(next, action)
            &&& tunnel::proxy_outcome(next, action) == Some(Ok::<(), String>(()))
        }),
{
}

/// A client handler does nothing more from the turn on at which it finds the tunnel shut down.
/// One that starts on such a tunnel forwards and writes nothing, whatever is waiting for it.
pub proof fn law_client_handler_ends_with_the_tunnel<P>(
    peer: Seq<char>,
    turns: Seq<(Tunnel<P>, tunnel::ClientEventView)>,
    k: int,
)
    requires
        0 <= k < turns.len(),
        turns[k].0.stopped,
    ensures
        client_actions(peer, turns) == client_actions(peer, turns.take(k)),
        k == 0 ==> client_actions(peer, turns) == Seq::<tunnel::ClientActionView>::empty(),
    decreases k,
{
    if k > 0 {
        let rest = turns.drop_first();
        law_client_handler_ends_with_the_tunnel(peer, rest, k - 1);
        assert(turns.take(k).drop_first() =~= rest.take(k - 1));
    }
}

/// A running tunnel is listened on until the user disconnects: a client that connects, or one
/// that could not be accepted, does not end it.
pub proof fn law_what_ends_listening<P>(t: Tunnel<P>, event: tunnel::ListenerEventView)
    requires
        !t.stopped,
    ensures
        ({
            let (next, action) = tunnel::listener_step(t, event);
            &&& tunnel::keeps_listening(next, action) <==> !(event is Command)
            &&& tunnel::proxy_outcome(next, action) == if event is Command {
                Some(Ok::<(), String>(()))
            } else {
                None
            }
        }),
{
}

/// Once the relay has closed the connection or reported that the other end is gone, nothing
/// later from the relay is delivered, and the proxy ends without an error at the next client
/// or command, whichever comes first.
pub proof fn law_lost_relay_ends_the_proxy<P>(
    t: Tunnel<P>,
    lost: tunnel::RelayEventView,
    later: tunnel::RelayEventView,
    event: tunnel::ListenerEventView,
)
    requires
        !t.stopped,
        lost is Closed || is_departure(lost),
    ensures
        ({
            let (stopped, action) = tunnel::relay_step(t, lost);
            let (next, listening) = tunnel::listener_step(stopped, event);
            &&& action == tunnel::RelayActionView::<P>::FinishWith(
                state::warn_line(
                    if lost is Closed {
                        "Connessione relay chiusa"@
                    } else {
                        "AutoBridge Mac disconnesso dal relay"@
                    },
                ),
            )
            &&& tunnel::relay_step(stopped, later) == (
                stopped,
                tunnel::RelayActionView::<P>::Finish,
            )
            &&& tunnel::proxy_outcome(next, listening) == Some(Ok::<(), String>(()))
        }),
{
    lemma_message_types_differ();
}

/// The relay reader shuts the tunnel down in two cases only: the connection to the relay is
/// closed, or the relay reports that the other end is gone.
pub proof fn law_what_makes_the_reader_stop<P>(t: Tunnel<P>, event: tunnel::RelayEventView)
    requires
        !t.stopped,
    ensures
        tunnel::relay_step(t, event).0.stopped <==> {
            ||| event is Closed
            ||| is_departure(event)
        },
{
    lemma_message_types_differ();
}

/// A frame that names no channel, an empty one, and a text that is not JSON are passed over.
pub proof fn law_malformed_messages_are_ignored<P>(t: Tunnel<P>, bytes: Seq<u8>, text: Seq<char>)
    requires
        !t.stopped,
    ensures
        bytes.len() == 0 || bytes[0] > 1 ==> tunnel::relay_step(
            t,
            tunnel::RelayEventView::Binary(bytes),
        ) == (t, tunnel::RelayActionView::<P>::Ignore),
        json::json_string_members(text) is None ==> tunnel::relay_step(
            t,
            tunnel::RelayEventView::Text(text),
        ) == (t, tunnel::RelayActionView::<P>::Ignore),
{
}

// The setup goes one step at a time.

/// The place of a stage on the way, the end of a failed setup being last.
pub open spec fn rank(stage: Stage) -> int {
    match stage {
        Stage::Connecting => 0,
        Stage::Joining => 1,
        Stage::Waiting => 2,
        Stage::BindingUdp => 3,
        Stage::BindingTcp => 4,
        Stage::Serving => 5,
        Stage::Failed => 6,
    }
}

/// The event is the success that the stage waits for.
pub open spec fn is_success(stage: Stage, event: SetupEvent) -> bool {
    match stage {
        Stage::Connecting => event == SetupEvent::Relay(session::RelayConnect::Connected),
        Stage::Joining => event matches SetupEvent::JoinSent(Ok(())),
        Stage::Waiting => event matches SetupEvent::Join(e) && session::join_event_step(
            e,
        ) is Joined,
        Stage::BindingUdp => event matches SetupEvent::UdpBound(Ok(())),
        Stage::BindingTcp => event matches SetupEvent::TcpBound(Ok(())),
        Stage::Serving => false,
        Stage::Failed => false,
    }
}

/// A stage is left for the next one exactly on the success that it waits for; otherwise it
/// stays or the setup fails. A setup that failed or is done stays so.
pub proof fn law_setup_goes_step_by_step(plan: ProxyPlan, stage: Stage, event: SetupEvent)
    ensures
        ({
            let next = setup::setup_step(plan, stage, event).0;
            &&& is_success(stage, event) ==> rank(next) == rank(stage) + 1 && next != Stage::Failed
            &&& !is_success(stage, event) ==> next == stage || next == Stage::Failed
            &&& stage == Stage::Serving ==> next == Stage::Serving
        }),
{
}

/// The stage after a run of events.
pub open spec fn stage_after(plan: ProxyPlan, stage: Stage, events: Seq<SetupEvent>) -> Stage
    decreases events.len(),
{
    if events.len() == 0 {
        stage
    } else {
        setup::setup_step(
            plan,
            stage_after(plan, stage, events.drop_last()),
            events.last(),
        ).0
    }
}

/// A setup that has got past a stage has seen the success of that stage: in particular no
/// client is served before the session was joined and both sockets were bound.
pub proof fn law_no_stage_is_skipped(plan: ProxyPlan, events: Seq<SetupEvent>, passed: Stage)
    requires
        rank(passed) < rank(stage_after(plan, Stage::Connecting, events)),
        stage_after(plan, Stage::Connecting, events) != Stage::Failed,
    ensures
        exists|i: int| 0 <= i < events.len() && is_success(passed, #[trigger] events[i]),
    decreases events.len(),
{
    if events.len() > 0 {
        let before = events.drop_last();
        let stage = stage_after(plan, Stage::Connecting, before);
        law_setup_goes_step_by_step(plan, stage, events.last());
        if stage == passed {
            assert(is_success(passed, events[events.len() - 1]));
        } else if stage != Stage::Failed {
            law_no_stage_is_skipped(plan, before, passed);
            let i = choose|i: int| 0 <= i < before.len() && is_success(passed, #[trigger] before[i]);
            assert(is_success(passed, events[i]));
        }
    }
}

/// The status becomes `Connected` only when the relay has confirmed that the session is
/// joined.
pub proof fn law_connected_means_joined(plan: ProxyPlan, stage: Stage, event: SetupEvent)
    ensures
        setup::setup_step(plan, stage, event).2 is Joined <==> stage == Stage::Waiting
            && is_success(stage, event),
{
}

/// A failure is reported exactly when the setup fails.
pub proof fn law_failure_is_reported(plan: ProxyPlan, stage: Stage, event: SetupEvent)
    requires
        stage != Stage::Failed,
    ensures
        setup::setup_step(plan, stage, event).1 is Fail <==> setup::setup_step(
            plan,
            stage,
            event,
        ).0 == Stage::Failed,
{
}

/// While the answer to the join message is awaited, other messages, and texts that are not
/// JSON, change nothing.
pub proof fn law_unrelated_messages_do_not_end_the_wait(plan: ProxyPlan, event: JoinEvent)
    requires
        match event {
            JoinEvent::Text(t) => match message::message_in(t@) {
                Some(m) => m.kind != Some("session_joined"@) && m.kind != Some("error"@),
                None => true,
            },
            JoinEvent::Other => true,
            _ => false,
        },
    ensures
        setup::setup_step(plan, Stage::Waiting, SetupEvent::Join(event)) == (
            Stage::Waiting,
            setup::SetupActionView::AwaitMessage,
            setup::Change::Nothing,
        ),
{
}

// What is sent to the relay says what it should.

/// The join message names the type, the platform, the session and the device, and nothing
/// else.
pub proof fn law_join_message_content(session_id: Seq<char>, device_id: Seq<char>)
    ensures
        json::members_map(message::join_members(session_id, device_id))
            == map![
                "type"@ => "join"@,
                "platform"@ => "windows"@,
                "session_id"@ => session_id,
                "device_id"@ => device_id,
            ],
{
    let members = message::join_members(session_id, device_id);
    reveal_with_fuel(json::members_map, 5);
    assert(members.drop_last().last() == members[2]);
    assert(members.drop_last().drop_last().last() == members[1]);
    assert(members.drop_last().drop_last().drop_last().last() == members[0]);
}

/// The heartbeat names the type and the session, and nothing else.
pub proof fn law_heartbeat_content(session_id: Seq<char>)
    ensures
        json::members_map(message::heartbeat_members(session_id))
            == map!["type"@ => "heartbeat"@, "session_id"@ => session_id],
{
    let members = message::heartbeat_members(session_id);
    reveal_with_fuel(json::members_map, 3);
    assert(members.drop_last().last() == members[0]);
}

/// Machines that start at different times join under different names.
pub proof fn law_device_names_differ(a: nat, b: nat)
    requires
        a != b,
    ensures
        session::device_name(a) != session::device_name(b),
{
    let x = session::device_name(a);
    let y = session::device_name(b);
    reveal_strlit("win-");
    if x == y {
        assert(x.skip(4) =~= text::digits(a, 16));
        assert(y.skip(4) =~= text::digits(b, 16));
        text::lemma_digits_injective(a, b, 16);
    }
}

// The connection has one life at a time.

/// A configuration with which a connection may start is one with which the proxy runs.
pub proof fn law_accepted_configuration_has_a_plan(status: Seq<char>, config: AppConfig)
    requires
        state::connect_refusal(status, config.session_id@, config.local_bind_ip@) is None,
    ensures
        session::plan_refusal(config) is None,
{
}

/// While a connection is up or starting no other can start. When it is down, one can start
/// if and only if the session code and the adapter are given.
pub proof fn law_one_connection_at_a_time(session_id: Seq<char>, local_bind_ip: Seq<char>)
    ensures
        state::connect_refusal("Connecting"@, session_id, local_bind_ip) == Some(
            "Già "@ + "Connecting"@,
        ),
        state::connect_refusal("Connected"@, session_id, local_bind_ip) == Some(
            "Già "@ + "Connected"@,
        ),
        state::connect_refusal("Disconnected"@, session_id, local_bind_ip) is None <==> (
        !text::is_blank(session_id) && !text::is_blank(local_bind_ip)),
{
    reveal_strlit("Connecting");
    reveal_strlit("Connected");
    reveal_strlit("Disconnected");
    assert("Disconnected"@.len() == 12);
}

/// A connection that keeps others from starting can be disconnected, and no other can.
pub proof fn law_what_blocks_can_be_disconnected<C>(app: AppState<C>)
    requires
        app.is_consistent(),
    ensures
        app.cmd_tx is Some <==> state::connect_refusal(
            app.status@,
            app.config.session_id@,
            app.config.local_bind_ip@,
        ) == Some("Già "@ + app.status@),
{
    reveal_strlit("Connecting");
    reveal_strlit("Connected");
    reveal_strlit("Disconnected");
    reveal_strlit("Già ");
    reveal_strlit("Inserisci il codice sessione di AutoBridge Mac");
    reveal_strlit("Seleziona un adattatore di rete");
    assert("Disconnected"@.len() == 12);
    assert(("Già "@ + app.status@)[0] == 'G');
    assert("Inserisci il codice sessione di AutoBridge Mac"@[0] == 'I');
    assert("Seleziona un adattatore di rete"@[0] == 'S');
}

// Texts are normalised once and for all.

/// Removing the white space around a text twice is removing it once.
pub proof fn law_trimming_twice_changes_nothing(s: Seq<char>)
    ensures
        text::trimmed(text::trimmed(s)) == text::trimmed(s),
{
    text::lemma_trimmed_has_no_outer_space(s);
}

/// A session code of ASCII characters that is entered as a plan spells it leads to the same
/// session again.
pub proof fn law_normal_session_code_is_kept(
    first: AppConfig,
    first_millis: nat,
    first_plan: ProxyPlan,
    again: AppConfig,
    again_millis: nat,
    again_plan: ProxyPlan,
)
    requires
        is_ascii_chars(text::trimmed(first.session_id@)),
        session::is_plan(first, first_millis, first_plan),
        again.session_id@ == first_plan.session_id@,
        session::is_plan(again, again_millis, again_plan),
    ensures
        again_plan.session_id@ == first_plan.session_id@,
{
    let t = text::trimmed(first.session_id@);
    let up = |c: char| text::ascii_uppercase(c);
    let u = t.map_values(up);
    assert(first_plan.session_id@ =~= u);
    text::lemma_trimmed_has_no_outer_space(first.session_id@);
    assert(text::trimmed(u) == u) by {
        if u.len() > 0 {
            assert(u.first() == text::ascii_uppercase(t.first()));
            assert(u.last() == text::ascii_uppercase(t.last()));
        }
    }
    assert(is_ascii_chars(u));
    assert(u.map_values(up) =~= u);
    assert(again_plan.session_id@ =~= u.map_values(up));
}

// The levels of the log.

/// A text becomes the message of an entry as it is.
pub proof fn law_texts_are_logged_as_they_are(slice: &str, owned: String, message: String)
    ensures
        state::converts_to(slice, message) ==> message@ == slice@,
        state::converts_to(owned, message) ==> message == owned,
{
}

/// Entries of the five levels that the same thing makes at the same moment differ in their
/// level, each from each other, and in nothing else, provided that it is converted into the
/// same text each time.
pub proof fn law_entries_differ_in_level_alone<M: Into<String>>(
    time: Seq<char>,
    m: M,
    info: LogEntry,
    warn: LogEntry,
    error: LogEntry,
    doip: LogEntry,
    debug: LogEntry,
)
    requires
        forall|a: String, b: String| #[trigger]
            state::converts_to(m, a) && #[trigger] state::converts_to(m, b) ==> a@ == b@,
        info.is_entry(time, "INFO"@, m),
        warn.is_entry(time, "WARN"@, m),
        error.is_entry(time, "ERROR"@, m),
        doip.is_entry(time, "DOIP"@, m),
        debug.is_entry(time, "DEBUG"@, m),
    ensures
        ({
            let entries = seq![info, warn, error, doip, debug];
            forall|i: int, j: int|
                0 <= i < j < 5 ==> {
                    &&& (#[trigger] entries[i]).timestamp@ == (#[trigger] entries[j]).timestamp@
                    &&& entries[i].message@ == entries[j].message@
                    &&& entries[i].level@ != entries[j].level@
                }
        }),
        state::converts_to(m, debug.message),
        debug.level@ == "DEBUG"@,
{
    reveal_strlit("INFO");
    reveal_strlit("WARN");
    reveal_strlit("ERROR");
    reveal_strlit("DOIP");
    reveal_strlit("DEBUG");
    assert(info.level@[0] == 'I');
    assert(warn.level@[0] == 'W');
    assert(error.level@[0] == 'E');
    assert(doip.level@[0] == 'D' && doip.level@[1] == 'O');
    assert(debug.level@[0] == 'D' && debug.level@[1] == 'E');
}

// The log keeps the latest entries.

/// The log after a run of entries.
pub open spec fn logged_all(logs: Seq<LogEntry>, entries: Seq<LogEntry>) -> Seq<LogEntry>
    decreases entries.len(),
{
    if entries.len() == 0 {
        logs
    } else {
        state::logged(logged_all(logs, entries.drop_last()), entries.last())
    }
}

/// How many of `n` entries are still in the log: all of them up to its limit, then what is
/// left when the oldest were dropped, and one more with each entry until they are dropped
/// again.
pub open spec fn kept_of(n: int) -> int {
    if n <= state::LOG_LIMIT {
        n
    } else {
        state::LOG_LIMIT - state::LOG_DROP + 1 + (n - state::LOG_LIMIT - 1)
            % (state::LOG_DROP as int)
    }
}

/// Whatever is logged, the log holds the latest entries in the order in which they were
/// logged, exactly as many as `kept_of` says, and never more than its limit.
pub proof fn law_log_holds_the_latest_entries(entries: Seq<LogEntry>)
    ensures
        logged_all(Seq::empty(), entries).len() == kept_of(entries.len() as int),
        kept_of(entries.len() as int) <= state::LOG_LIMIT,
        kept_of(entries.len() as int) <= entries.len(),
        logged_all(Seq::empty(), entries) == entries.skip(
            entries.len() - kept_of(entries.len() as int),
        ),
    decreases entries.len(),
{
    if entries.len() > 0 {
        let before = entries.drop_last();
        let kept = logged_all(Seq::empty(), before);
        let dropped = before.len() - kept.len();
        law_log_holds_the_latest_entries(before);
        if kept.len() >= state::LOG_LIMIT {
            lemma_suffix_and_entry(entries, dropped, state::LOG_DROP as int);
        } else {
            lemma_suffix_and_entry(entries, dropped, 0);
            assert(kept.skip(0) =~= kept);
        }
    } else {
        assert(entries.skip(0) =~= entries);
    }
}

proof fn lemma_suffix_and_entry(entries: Seq<LogEntry>, a: int, d: int)
    requires
        0 <= a,
        0 <= d,
        a + d < entries.len(),
    ensures
        entries.drop_last().skip(a).skip(d).push(entries.last()) == entries.skip(a + d),
        entries.drop_last().skip(a).skip(d).len() == entries.len() - 1 - a - d,
{
    assert(entries.drop_last().skip(a).skip(d).push(entries.last()) =~= entries.skip(a + d));
}

// Every address that the user can choose is offered, and no other.

/// No interface is listed twice.
pub proof fn law_interfaces_are_distinct(raw: Seq<RawInterface>)
    ensures
        forall|i: int, j: int|
            0 <= i < j < interfaces::grouped(raw).len() ==> interfaces::grouped(raw)[i].name
                != interfaces::grouped(raw)[j].name,
{
    interfaces::lemma_names_distinct(raw);
}

/// Every offered address is listed under its interface.
pub proof fn law_offered_addresses_are_listed(raw: Seq<RawInterface>, i: int)
    requires
        0 <= i < raw.len(),
        interfaces::is_offered(raw[i]),
    ensures
        exists|g: int|
            0 <= g < interfaces::grouped(raw).len() && (#[trigger] interfaces::grouped(raw)[g]).name
                == raw[i].name@ && interfaces::grouped(raw)[g].ip_addresses.contains(
                interfaces::address_of(raw[i]),
            ),
{
    let name = raw[i].name@;
    interfaces::lemma_offered_is_listed(raw, i);
    let names = interfaces::offered_names(raw);
    let g = choose|g: int| 0 <= g < names.len() && names[g] == name;
    assert(interfaces::grouped(raw)[g].name == name);
}

/// Every address that is listed is an offered address of that interface, and every interface
/// that is listed has one.
pub proof fn law_only_offered_addresses_are_listed(raw: Seq<RawInterface>, g: int, k: int)
    requires
        0 <= g < interfaces::grouped(raw).len(),
    ensures
        interfaces::grouped(raw)[g].ip_addresses.len() > 0,
        0 <= k < interfaces::grouped(raw)[g].ip_addresses.len() ==> exists|i: int|
            0 <= i < raw.len() && interfaces::is_offered(#[trigger] raw[i]) && raw[i].name@
                == interfaces::grouped(raw)[g].name && interfaces::address_of(raw[i])
                == interfaces::grouped(raw)[g].ip_addresses[k],
{
    let name = interfaces::offered_names(raw)[g];
    interfaces::lemma_listed_has_address(raw, g);
    if 0 <= k < interfaces::addresses_of(raw, name).len() {
        interfaces::lemma_listed_is_offered(raw, name, k);
    }
}

// The relay is tested at a complete address.

/// The address that the relay test connects to is the host of the relay's address as it is
/// written there, and a port is introduced in it: also where the host is an IPv6 address.
pub proof fn law_tested_address_keeps_the_host(relay_url: Seq<char>)
    ensures
        relay_test::names_port(relay_test::tcp_address(relay_url)),
        relay_test::host_port(relay_url).is_prefix_of(relay_test::tcp_address(relay_url)),
{
    let host = relay_test::host_port(relay_url);
    reveal_strlit(":443");
    reveal_strlit(":80");
    if !relay_test::names_port(host) {
        lemma_digits_after_the_colon(host, ":443"@);
        lemma_digits_after_the_colon(host, ":80"@);
    }
}

/// The address that the relay test connects to ends in a port of decimal digits, unless the
/// relay's address introduces a port and then gives none.
pub proof fn law_tested_address_has_a_port(relay_url: Seq<char>)
    requires
        relay_test::names_port(relay_test::host_port(relay_url)) ==> relay_test::ends_in_port(
            relay_test::host_port(relay_url),
        ),
    ensures
        relay_test::ends_in_port(relay_test::tcp_address(relay_url)),
{
    let host = relay_test::host_port(relay_url);
    let address = relay_test::tcp_address(relay_url);
    reveal_strlit(":443");
    reveal_strlit(":80");
    if !relay_test::names_port(host) {
        let k = host.len() as int;
        assert(address[k] == ':');
        assert(relay_test::all_digits(address.skip(k + 1)));
    }
}

/// A colon that no bracket follows introduces a port, whatever stands before it.
proof fn lemma_digits_after_the_colon(host: Seq<char>, port: Seq<char>)
    requires
        port.len() > 0,
        port[0] == ':',
        forall|i: int| 0 <= i < port.len() ==> port[i] != ']',
    ensures
        relay_test::names_port(host + port),
    decreases port.len(),
{
    if port.len() > 1 {
        lemma_digits_after_the_colon(host, port.drop_last());
        assert((host + port).drop_last() =~= host + port.drop_last());
    }
}

} // verus!
