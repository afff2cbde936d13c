use autobridge_win::frame::{frame, unframe, Channel};
use autobridge_win::message::RelayMessage;
use autobridge_win::state::ProxyCommand;
use autobridge_win::tunnel::{
    after_client, on_client, ClientAction, ClientEvent, ClientTurn, ListenerAction, ListenerEvent,
    RelayAction, RelayEvent, Tunnel, UdpAction, UdpEvent, UdpTurn, WriterAction, WriterEvent,
    READ_SIZE,
};
use base64::Engine;

fn text(s: &str) -> RelayEvent {
    RelayEvent::Text(s.to_string())
}

fn data_message(frame: &[u8]) -> RelayEvent {
    let payload = base64::engine::general_purpose::STANDARD.encode(frame);
    RelayEvent::Text(format!("{{\"type\":\"data\",\"payload\":\"{}\"}}", payload))
}

fn running() -> Tunnel<u32> {
    Tunnel::new()
}

#[test]
fn frames_start_with_the_channel() {
    assert_eq!(frame(Channel::Tcp, &[1, 2, 3]), vec![0, 1, 2, 3]);
    assert_eq!(frame(Channel::Udp, &[1, 2, 3]), vec![1, 1, 2, 3]);
    assert_eq!(frame(Channel::Tcp, &[]), vec![0]);
}

#[test]
fn frames_are_taken_apart() {
    assert_eq!(unframe(&[0, 7, 8]), Some((Channel::Tcp, vec![7, 8])));
    assert_eq!(unframe(&[1]), Some((Channel::Udp, vec![])));
    assert_eq!(unframe(&[2, 7]), None);
    assert_eq!(unframe(&[]), None);
    for channel in [Channel::Tcp, Channel::Udp] {
        let data: Vec<u8> = (0..=255).collect();
        assert_eq!(unframe(&frame(channel, &data)), Some((channel, data)));
    }
}

#[test]
fn client_bytes_pass_unchanged() {
    let sent = match on_client(ClientEvent::Read(&[0xde, 0xad])) {
        ClientAction::Forward(f) => f,
        _ => panic!("not forwarded"),
    };
    let mut t = running();
    let written = match t.on_writer("S", WriterEvent::Frame(sent)) {
        WriterAction::SendBinary(f) => f,
        _ => panic!("not sent"),
    };
    assert_eq!(written, vec![0, 0xde, 0xad]);
    let handed = match t.on_relay(RelayEvent::Binary(written)) {
        RelayAction::ToClients(bytes) => bytes,
        _ => panic!("not delivered"),
    };
    assert!(matches!(
        on_client(ClientEvent::FromRelay(handed)),
        ClientAction::Write(bytes) if bytes == vec![0xde, 0xad]
    ));
}

#[test]
fn client_handler_ends() {
    assert!(matches!(on_client(ClientEvent::Read(&[])), ClientAction::Finish));
    assert!(matches!(on_client(ClientEvent::ReadFailed), ClientAction::Finish));
    assert!(matches!(on_client(ClientEvent::QueueClosed), ClientAction::Finish));
    assert!(matches!(on_client(ClientEvent::RelayClosed), ClientAction::Finish));
    assert!(matches!(on_client(ClientEvent::WriteFailed), ClientAction::Finish));
    assert!(matches!(on_client(ClientEvent::Lagged), ClientAction::Ignore));
}

#[test]
fn client_handler_logs_its_end() {
    let peer = "10.0.0.2:5000";
    for end in [
        ClientEvent::Read(&[]),
        ClientEvent::ReadFailed,
        ClientEvent::QueueClosed,
        ClientEvent::RelayClosed,
        ClientEvent::WriteFailed,
    ] {
        let mut t = running();
        let events = [ClientEvent::Read(&[1]), ClientEvent::Lagged, ClientEvent::FromRelay(vec![2])];
        let mut passed = 0;
        let mut lines: Vec<String> = vec![];
        for event in events.into_iter().chain([end, ClientEvent::Read(&[3])]) {
            if let ClientTurn::Leave(_) = t.client_turn(peer) {
                panic!("left");
            }
            let action = on_client(event);
            if let ClientTurn::Leave(entry) = after_client(&action, peer) {
                assert_eq!(entry.level, "INFO");
                lines.push(entry.message);
                break;
            }
            passed += 1;
        }
        assert_eq!(passed, 3);
        assert_eq!(lines, vec!["ISTA disconnesso: 10.0.0.2:5000"]);
        t.on_relay(RelayEvent::Closed);
        assert!(matches!(t.client_turn(peer), ClientTurn::Leave(e) if e.message == lines[0]));
    }
}

#[test]
fn answers_go_to_the_last_peer() {
    let mut t = running();
    assert!(matches!(t.on_relay(RelayEvent::Binary(vec![1, 5])), RelayAction::Ignore));
    assert!(matches!(
        t.on_udp(UdpEvent::Datagram(7, &[9])),
        UdpAction::Forward(f) if f == vec![1, 9]
    ));
    assert!(matches!(t.on_udp(UdpEvent::Datagram(8, &[])), UdpAction::Ignore));
    assert!(matches!(
        t.on_relay(RelayEvent::Binary(vec![1, 5])),
        RelayAction::ToPeer(7, d) if d == vec![5]
    ));
    t.on_udp(UdpEvent::Datagram(8, &[1]));
    assert!(matches!(t.on_relay(RelayEvent::Binary(vec![1])), RelayAction::ToPeer(8, _)));
    assert!(matches!(t.on_udp(UdpEvent::Failed), UdpAction::Finish));
    assert!(matches!(t.on_udp(UdpEvent::QueueClosed), UdpAction::Finish));
    assert!(!t.stopped);
}

#[test]
fn text_data_is_decoded() {
    let mut t = running();
    assert!(matches!(
        t.on_relay(data_message(&[0, 1, 2, 3, 255])),
        RelayAction::ToClients(d) if d == vec![1, 2, 3, 255]
    ));
    t.on_udp(UdpEvent::Datagram(7, &[9]));
    assert!(matches!(
        t.on_relay(data_message(&[1, 4])),
        RelayAction::ToPeer(7, d) if d == vec![4]
    ));
    assert!(matches!(t.on_relay(data_message(&[9, 4])), RelayAction::Ignore));
    assert!(matches!(t.on_relay(data_message(&[])), RelayAction::Ignore));
    assert!(matches!(
        t.on_relay(text("{\"type\":\"data\",\"payload\":\"AAE\"}")),
        RelayAction::Ignore
    ));
    assert!(matches!(t.on_relay(text("{\"type\":\"data\"}")), RelayAction::Ignore));
}

#[test]
fn payloads_that_were_decoded() {
    let t = running();
    assert!(matches!(
        t.deliver_payload(Some(vec![0, 1])),
        RelayAction::ToClients(d) if d == vec![1]
    ));
    assert!(matches!(t.deliver_payload(None), RelayAction::Ignore));
    assert!(matches!(t.deliver(&[3, 1]), RelayAction::Ignore));
}

#[test]
fn vin_is_shown() {
    let mut t = running();
    match t.on_relay(text("{\"type\":\"vin\",\"vin\":\"WBA1\"}")) {
        RelayAction::ShowVin(vin, entry) => {
            assert_eq!(vin, "WBA1");
            assert_eq!(entry.message, "VIN dal Mac: WBA1");
            assert_eq!(entry.level, "INFO");
        }
        _ => panic!("not shown"),
    }
    assert!(matches!(t.on_relay(text("{\"type\":\"vin\",\"vin\":\"\"}")), RelayAction::Ignore));
    assert!(matches!(t.on_relay(text("{\"type\":\"vin\"}")), RelayAction::Ignore));
}

#[test]
fn other_messages_are_ignored() {
    let mut t = running();
    assert!(matches!(t.on_relay(text("{\"type\":\"heartbeat_ack\"}")), RelayAction::Ignore));
    assert!(matches!(t.on_relay(text("{\"type\":\"new\"}")), RelayAction::Ignore));
    assert!(matches!(t.on_relay(text("[]")), RelayAction::Ignore));
    assert!(matches!(t.on_relay(text("{")), RelayAction::Ignore));
    assert!(matches!(t.on_relay(RelayEvent::Other), RelayAction::Ignore));
    assert!(matches!(t.on_relay(RelayEvent::Binary(vec![])), RelayAction::Ignore));
    assert!(matches!(t.on_relay(RelayEvent::Ended), RelayAction::Finish));
    assert!(!t.stopped);
}

#[test]
fn closed_relay_stops_the_tunnel() {
    let mut t = running();
    match t.on_relay(RelayEvent::Closed) {
        RelayAction::FinishWith(entry) => {
            assert_eq!(entry.level, "WARN");
            assert_eq!(entry.message, "Connessione relay chiusa");
        }
        _ => panic!("not finished"),
    }
    assert!(t.stopped);
    assert!(matches!(t.on_relay(RelayEvent::Binary(vec![0, 1])), RelayAction::Finish));
    assert!(matches!(t.on_writer("S", WriterEvent::HeartbeatDue), WriterAction::Finish));
    assert!(matches!(
        t.on_writer("S", WriterEvent::Frame(vec![1])),
        WriterAction::SendBinary(f) if f == vec![1]
    ));
}

#[test]
fn departed_mac_stops_the_tunnel() {
    let mut t = running();
    let gone = RelayMessage {
        kind: Some("peer_disconnected".to_string()),
        vin: None,
        reason: None,
        payload: None,
    };
    match t.on_message(gone) {
        RelayAction::FinishWith(entry) => {
            assert_eq!(entry.level, "WARN");
            assert_eq!(entry.message, "AutoBridge Mac disconnesso dal relay");
        }
        _ => panic!("not finished"),
    }
    assert!(t.stopped);
}

#[test]
fn writer_sends_heartbeats_until_it_fails() {
    let mut t = running();
    match t.on_writer("AB1", WriterEvent::HeartbeatDue) {
        WriterAction::SendText(sent) => {
            let value: serde_json::Value = serde_json::from_str(&sent).unwrap();
            assert_eq!(value["type"], "heartbeat");
            assert_eq!(value["session_id"], "AB1");
        }
        _ => panic!("no heartbeat"),
    }
    assert!(matches!(t.on_writer("AB1", WriterEvent::QueueClosed), WriterAction::Finish));
    assert!(!t.stopped);
    assert!(matches!(t.on_writer("AB1", WriterEvent::SendFailed), WriterAction::Finish));
    assert!(t.stopped);
}

#[test]
fn listener_serves_until_told_to_stop() {
    let mut t = running();
    match t.on_listener(ListenerEvent::Accepted("10.0.0.2:5000".to_string())) {
        ListenerAction::Serve(entry) => {
            assert_eq!(entry.level, "INFO");
            assert_eq!(entry.message, "ISTA connesso da 10.0.0.2:5000");
        }
        _ => panic!("not served"),
    }
    match t.on_listener(ListenerEvent::AcceptFailed("e".to_string())) {
        ListenerAction::Report(entry) => {
            assert_eq!(entry.level, "WARN");
            assert_eq!(entry.message, "TCP accept: e");
        }
        _ => panic!("not reported"),
    }
    assert!(!t.stopped);
    for command in [Some(ProxyCommand::Disconnect), None] {
        let mut t = running();
        match t.on_listener(ListenerEvent::Command(command)) {
            ListenerAction::FinishWith(entry) => {
                assert_eq!(entry.level, "INFO");
                assert_eq!(entry.message, "Disconnessione richiesta");
            }
            _ => panic!("not finished"),
        }
        assert!(t.stopped);
    }
}

#[test]
fn stream_is_kept_in_order() {
    let mut t = running();
    let pieces: Vec<Vec<u8>> = vec![vec![1], vec![], vec![2, 3], vec![1]];
    let mut out: Vec<Vec<u8>> = vec![];
    for piece in &pieces {
        t.on_relay(RelayEvent::Binary(vec![1, 99]));
        if let RelayAction::ToClients(d) = t.on_relay(RelayEvent::Binary(frame(Channel::Tcp, piece))) {
            out.push(d);
        }
        t.on_relay(RelayEvent::Binary(vec![77]));
    }
    assert_eq!(out, pieces);
}

#[test]
fn stream_and_datagrams_are_kept_apart_while_the_peer_changes() {
    let mut t = running();
    let mut stream: Vec<Vec<u8>> = vec![];
    let mut datagrams: Vec<(u32, Vec<u8>)> = vec![];
    let messages = vec![
        RelayEvent::Binary(vec![1, 50]),
        data_message(&[0, 1]),
        RelayEvent::Binary(vec![1, 51]),
        text("{\"type\":\"heartbeat_ack\"}"),
        RelayEvent::Binary(vec![0, 2, 3]),
        data_message(&[1, 52]),
        RelayEvent::Other,
        data_message(&[0]),
    ];
    for (i, message) in messages.into_iter().enumerate() {
        if i > 0 {
            t.on_udp(UdpEvent::Datagram(i as u32, &[9]));
        }
        match t.on_relay(message) {
            RelayAction::ToClients(data) => stream.push(data),
            RelayAction::ToPeer(peer, data) => datagrams.push((peer, data)),
            RelayAction::Ignore => {}
            _ => panic!("neither delivered nor ignored"),
        }
    }
    assert_eq!(stream, vec![vec![1], vec![2, 3], vec![]]);
    assert_eq!(datagrams, vec![(2, vec![51]), (5, vec![52])]);
}

#[test]
fn datagrams_pass_unchanged() {
    let mut near = running();
    let mut far = running();
    far.on_udp(UdpEvent::Datagram(3, &[0]));
    let sent = match near.on_udp(UdpEvent::Datagram(7, &[1, 0, 255])) {
        UdpAction::Forward(f) => f,
        _ => panic!("not forwarded"),
    };
    assert!(matches!(
        far.on_relay(RelayEvent::Binary(sent)),
        RelayAction::ToPeer(3, d) if d == vec![1, 0, 255]
    ));
}

#[test]
fn only_datagrams_change_the_peer() {
    let mut t = running();
    t.on_udp(UdpEvent::Datagram(3, &[0]));
    t.on_relay(text("{\"type\":\"vin\",\"vin\":\"W\"}"));
    t.on_writer("S", WriterEvent::HeartbeatDue);
    t.on_listener(ListenerEvent::Accepted("a".to_string()));
    t.on_relay(RelayEvent::Closed);
    t.on_listener(ListenerEvent::Command(None));
    assert_eq!(t.last_udp, Some(3));
}

#[test]
fn a_stopped_tunnel_stays_stopped() {
    let mut t = running();
    t.on_listener(ListenerEvent::Command(None));
    t.on_relay(RelayEvent::Other);
    t.on_writer("S", WriterEvent::Frame(vec![0]));
    t.on_udp(UdpEvent::Datagram(3, &[0]));
    t.on_listener(ListenerEvent::Accepted("a".to_string()));
    assert!(t.stopped);
}

#[test]
fn tasks_wait_while_the_tunnel_runs() {
    let mut t = running();
    assert_eq!(t.udp_turn(), UdpTurn::Wait);
    assert!(matches!(t.client_turn("10.0.0.2:5000"), ClientTurn::Wait));
    let served = t.on_listener(ListenerEvent::Accepted("10.0.0.2:5000".to_string()));
    assert!(t.listens_on(&served));
    assert!(t.outcome_after(&served).is_none());
    let failed = t.on_listener(ListenerEvent::AcceptFailed("e".to_string()));
    assert!(t.listens_on(&failed));
    assert!(t.outcome_after(&failed).is_none());
}

#[test]
fn stopped_tunnel_ends_its_tasks() {
    let mut t = running();
    t.on_relay(RelayEvent::Closed);
    assert_eq!(t.udp_turn(), UdpTurn::Leave);
    match t.client_turn("192.168.1.20:50000") {
        ClientTurn::Leave(entry) => {
            assert_eq!(entry.level, "INFO");
            assert_eq!(entry.message, "ISTA disconnesso: 192.168.1.20:50000");
        }
        ClientTurn::Wait => panic!("waits"),
    }
    let served = t.on_listener(ListenerEvent::Accepted("10.0.0.2:5000".to_string()));
    assert!(!t.listens_on(&served));
    assert_eq!(t.outcome_after(&served), Some(Ok(())));
}

#[test]
fn departed_mac_ends_the_proxy_without_error() {
    let mut t = running();
    t.on_relay(text("{\"type\":\"peer_disconnected\"}"));
    assert!(matches!(t.on_relay(RelayEvent::Binary(vec![0, 1])), RelayAction::Finish));
    let failed = t.on_listener(ListenerEvent::AcceptFailed("e".to_string()));
    assert_eq!(t.outcome_after(&failed), Some(Ok(())));
}

#[test]
fn disconnection_ends_the_proxy_without_error() {
    let mut t = running();
    let told = t.on_listener(ListenerEvent::Command(Some(ProxyCommand::Disconnect)));
    assert!(!t.listens_on(&told));
    assert_eq!(t.outcome_after(&told), Some(Ok(())));
}

#[test]
fn handler_on_a_stopped_tunnel_passes_nothing_on() {
    let mut t = running();
    t.on_listener(ListenerEvent::Command(None));
    let mut passed = 0;
    for event in [ClientEvent::Read(&[1]), ClientEvent::FromRelay(vec![1])] {
        if matches!(t.client_turn("p"), ClientTurn::Leave(_)) {
            break;
        }
        on_client(event);
        passed += 1;
    }
    assert_eq!(passed, 0);
}

#[test]
fn client_stream_goes_out_whole() {
    let stream: Vec<u8> = (0..200_000_u32).map(|i| (i % 251) as u8).collect();
    for size in [1000, 4096, READ_SIZE] {
        let t = running();
        let mut joined: Vec<u8> = vec![];
        for read in stream.chunks(size) {
            assert!(matches!(t.client_turn("p"), ClientTurn::Wait));
            assert!(matches!(
                on_client(ClientEvent::FromRelay(vec![9])),
                ClientAction::Write(bytes) if bytes == vec![9]
            ));
            match on_client(ClientEvent::Read(read)) {
                ClientAction::Forward(f) => {
                    assert!(2 <= f.len() && f.len() <= 65537);
                    assert_eq!(f[0], 0);
                    joined.extend_from_slice(&f[1..]);
                }
                _ => panic!("not forwarded"),
            }
        }
        assert_eq!(joined, stream);
        assert!(matches!(on_client(ClientEvent::Read(&[])), ClientAction::Finish));
    }
}
