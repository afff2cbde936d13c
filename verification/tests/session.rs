use autobridge_win::message::{heartbeat_text, join_text, read_message, RelayMessage};
use autobridge_win::session::{join_reply, join_sent, join_step, plan, JoinEvent, JoinStep, RelayConnect};
use autobridge_win::setup::{Setup, SetupAction, SetupEvent, Stage};
use autobridge_win::state::{AppConfig, AppState, UiEvent};

fn configured() -> AppConfig {
    let mut config = AppConfig::default();
    config.relay_url = "  wss://relay.example/ws\n".to_string();
    config.session_id = " ab-c1 ".to_string();
    config.local_bind_ip = "\t192.168.1.10 ".to_string();
    config.tcp_port = 6801;
    config.udp_port = 6811;
    config
}

fn message(kind: &str) -> RelayMessage {
    RelayMessage { kind: Some(kind.to_string()), vin: None, reason: None, payload: None }
}

fn text(s: &str) -> JoinEvent {
    JoinEvent::Text(s.to_string())
}

#[test]
fn plan_of_a_configuration() {
    let plan = plan(&configured(), 0x18f_abcd_ef01).unwrap();
    assert_eq!(plan.relay_url, "wss://relay.example/ws");
    assert_eq!(plan.session_id, "AB-C1");
    assert_eq!(plan.device_id, "win-18fabcdef01");
    assert_eq!(plan.tcp_addr, "192.168.1.10:6801");
    assert_eq!(plan.udp_addr, "0.0.0.0:6811");
}

#[test]
fn plan_at_the_ends_of_the_ranges() {
    let mut config = configured();
    config.tcp_port = 0;
    config.udp_port = 65535;
    config.session_id = "stra\u{df}e".to_string();
    let first = plan(&config, 0).unwrap();
    assert_eq!(first.device_id, "win-0");
    assert_eq!(first.session_id, "STRASSE");
    assert_eq!(first.tcp_addr, "192.168.1.10:0");
    assert_eq!(first.udp_addr, "0.0.0.0:65535");
    let last = plan(&config, u128::MAX).unwrap();
    assert_eq!(last.device_id, "win-ffffffffffffffffffffffffffffffff");
    assert_eq!(plan(&config, 16).unwrap().device_id, "win-10");
}

#[test]
fn plan_needs_adapter_and_session_code() {
    let mut config = configured();
    config.local_bind_ip = " ".to_string();
    config.session_id = "".to_string();
    assert_eq!(plan(&config, 1).unwrap_err(), "Seleziona un adattatore di rete");
    config.local_bind_ip = "10.0.0.1".to_string();
    assert_eq!(
        plan(&config, 1).unwrap_err(),
        "Inserisci il codice sessione mostrato da AutoBridge Mac"
    );
}

#[test]
fn join_message_can_be_read() {
    let sent = join_text("AB\"1\\\u{1}é", "win-1");
    let value: serde_json::Value = serde_json::from_str(&sent).unwrap();
    assert_eq!(value["type"], "join");
    assert_eq!(value["platform"], "windows");
    assert_eq!(value["session_id"], "AB\"1\\\u{1}é");
    assert_eq!(value["device_id"], "win-1");
    assert_eq!(value.as_object().unwrap().len(), 4);
    assert_eq!(read_message(&sent).unwrap().kind.unwrap(), "join");
}

#[test]
fn heartbeat_can_be_read() {
    let sent = heartbeat_text("AB1");
    let value: serde_json::Value = serde_json::from_str(&sent).unwrap();
    assert_eq!(value["type"], "heartbeat");
    assert_eq!(value["session_id"], "AB1");
    assert_eq!(value.as_object().unwrap().len(), 2);
}

#[test]
fn only_string_members_are_read() {
    let read = read_message(
        "{\"type\":\"vin\",\"vin\":\"W1\",\"reason\":5,\"payload\":null,\"other\":\"x\"}",
    )
    .unwrap();
    assert_eq!(read.kind.unwrap(), "vin");
    assert_eq!(read.vin.unwrap(), "W1");
    assert!(read.reason.is_none());
    assert!(read.payload.is_none());
    assert!(read_message("not json").is_none());
    assert!(read_message("").is_none());
    let array = read_message("[\"type\"]").unwrap();
    assert!(array.kind.is_none());
    let twice = read_message("{\"type\":\"a\",\"type\":\"b\"}").unwrap();
    assert_eq!(twice.kind.unwrap(), "b");
}

#[test]
fn replies_to_the_join_message() {
    let mut joined = message("session_joined");
    joined.vin = Some("W1".to_string());
    assert!(matches!(join_reply(joined), JoinStep::Joined(Some(vin)) if vin == "W1"));
    let mut joined = message("session_joined");
    joined.vin = Some("".to_string());
    assert!(matches!(join_reply(joined), JoinStep::Joined(None)));
    assert!(matches!(join_reply(message("session_joined")), JoinStep::Joined(None)));
    let mut error = message("error");
    error.reason = Some("piena".to_string());
    assert!(matches!(join_reply(error), JoinStep::Failed(r) if r == "Relay: piena"));
    assert!(matches!(join_reply(message("error")), JoinStep::Failed(r) if r == "Relay: sconosciuto"));
    assert!(matches!(join_reply(message("vin")), JoinStep::Wait));
    let mut untyped = message("");
    untyped.kind = None;
    assert!(matches!(join_reply(untyped), JoinStep::Wait));
}

#[test]
fn events_while_waiting_to_join() {
    assert!(matches!(join_step(text("{")), JoinStep::Wait));
    assert!(matches!(join_step(JoinEvent::Other), JoinStep::Wait));
    assert!(matches!(
        join_step(text("{\"type\":\"session_joined\",\"vin\":\"W1\"}")),
        JoinStep::Joined(Some(vin)) if vin == "W1"
    ));
    assert!(matches!(
        join_step(JoinEvent::Ended),
        JoinStep::Failed(r) if r == "Relay chiuso prima di session_joined"
    ));
    assert!(matches!(
        join_step(JoinEvent::TimedOut),
        JoinStep::Failed(r) if r == "Timeout attesa sessione relay (15s)"
    ));
}

fn started() -> (AppState<u8>, Setup) {
    let mut app: AppState<u8> = AppState::new();
    app.update_config(configured());
    app.connect(1).unwrap();
    let (setup, events, action) = Setup::begin(&mut app, 1).unwrap();
    assert_eq!(events.len(), 1);
    assert!(matches!(&events[0], UiEvent::LogEntry(e)
        if e.message == "Connessione al relay: wss://relay.example/ws" && e.level == "INFO"));
    assert!(matches!(action, SetupAction::ConnectRelay(url) if url == "wss://relay.example/ws"));
    (app, setup)
}

fn advance(app: &mut AppState<u8>, setup: &mut Setup, event: SetupEvent) -> SetupAction {
    setup.step(app, event).1
}

#[test]
fn setup_from_start_to_end() {
    let (mut app, mut setup) = started();
    match advance(&mut app, &mut setup, SetupEvent::Relay(RelayConnect::Connected)) {
        SetupAction::SendJoin(sent) => assert_eq!(sent, join_text("AB-C1", "win-1")),
        _ => panic!("no join message"),
    }
    assert!(matches!(
        advance(&mut app, &mut setup, SetupEvent::JoinSent(Ok(()))),
        SetupAction::AwaitMessage
    ));
    assert!(matches!(
        advance(&mut app, &mut setup, SetupEvent::Join(text("{\"type\":\"hello\"}"))),
        SetupAction::AwaitMessage
    ));
    assert_eq!(app.get_status(), "Connecting");
    let (events, action) =
        setup.step(&mut app, SetupEvent::Join(text("{\"type\":\"session_joined\",\"vin\":\"W1\"}")));
    assert!(matches!(action, SetupAction::BindUdp(addr) if addr == "0.0.0.0:6811"));
    assert_eq!(events.len(), 3);
    assert!(matches!(&events[0], UiEvent::VinDetected(vin) if vin == "W1"));
    assert_eq!(app.get_status(), "Connected");
    assert!(matches!(
        advance(&mut app, &mut setup, SetupEvent::UdpBound(Ok(()))),
        SetupAction::BindTcp(addr) if addr == "192.168.1.10:6801"
    ));
    assert!(matches!(
        advance(&mut app, &mut setup, SetupEvent::TcpBound(Ok(()))),
        SetupAction::Serve
    ));
    assert_eq!(setup.stage, Stage::Serving);
    let said: Vec<String> = app.get_logs().into_iter().map(|e| e.message).collect();
    assert_eq!(
        said[1..],
        [
            "Connessione al relay: wss://relay.example/ws",
            "Sessione relay attiva [AB-C1]",
            "UDP discovery in ascolto su 0.0.0.0:6811",
            "TCP in ascolto su 192.168.1.10:6801 — in attesa di ISTA",
        ]
    );
}

fn failure(events: Vec<SetupEvent>) -> String {
    let (mut app, mut setup) = started();
    let mut last = SetupAction::Ignore;
    for event in events {
        last = advance(&mut app, &mut setup, event);
    }
    assert_eq!(setup.stage, Stage::Failed);
    match last {
        SetupAction::Fail(reason) => reason,
        _ => panic!("no failure"),
    }
}

#[test]
fn setup_failures() {
    let joined = || SetupEvent::Join(text("{\"type\":\"session_joined\"}"));
    let connected = || SetupEvent::Relay(RelayConnect::Connected);
    let e = || "e".to_string();
    assert_eq!(
        failure(vec![SetupEvent::Relay(RelayConnect::TimedOut)]),
        "Timeout connessione relay wss://relay.example/ws"
    );
    assert_eq!(
        failure(vec![SetupEvent::Relay(RelayConnect::Failed(e()))]),
        "WebSocket relay fallito: e"
    );
    assert_eq!(
        failure(vec![connected(), SetupEvent::JoinSent(Err(e()))]),
        "Invio join fallito: e"
    );
    assert_eq!(
        failure(vec![connected(), SetupEvent::JoinSent(Ok(())), SetupEvent::Join(JoinEvent::TimedOut)]),
        "Timeout attesa sessione relay (15s)"
    );
    assert_eq!(
        failure(vec![
            connected(),
            SetupEvent::JoinSent(Ok(())),
            joined(),
            SetupEvent::UdpBound(Err(e()))
        ]),
        "UDP bind 0.0.0.0:6811: e"
    );
    assert_eq!(
        failure(vec![
            connected(),
            SetupEvent::JoinSent(Ok(())),
            joined(),
            SetupEvent::UdpBound(Ok(())),
            SetupEvent::TcpBound(Err(e()))
        ]),
        "TCP bind 192.168.1.10:6801: e"
    );
    assert_eq!(join_sent(Err(e())), Err("Invio join fallito: e".to_string()));
}

#[test]
fn setup_ignores_what_it_does_not_wait_for() {
    let (mut app, mut setup) = started();
    let logs = app.logs.len();
    assert!(matches!(
        advance(&mut app, &mut setup, SetupEvent::TcpBound(Ok(()))),
        SetupAction::Ignore
    ));
    assert_eq!(setup.stage, Stage::Connecting);
    assert_eq!(app.logs.len(), logs);
}

#[test]
fn setup_needs_a_complete_configuration() {
    let mut app: AppState<u8> = AppState::new();
    assert_eq!(
        Setup::begin(&mut app, 1).unwrap_err(),
        "Seleziona un adattatore di rete"
    );
    assert_eq!(app.logs.len(), 0);
}

#[test]
fn device_names_differ() {
    let mut names: Vec<String> = vec![];
    for millis in [0u128, 1, 15, 16, 17, 255, 256, 4096, 65535, 1 << 100] {
        let name = plan(&configured(), millis).unwrap().device_id;
        assert_eq!(name, format!("win-{:x}", millis));
        assert!(!names.contains(&name));
        names.push(name);
    }
}

#[test]
fn normal_session_code_is_kept() {
    let first = plan(&configured(), 1).unwrap();
    let mut config = configured();
    config.session_id = first.session_id.clone();
    assert_eq!(plan(&config, 2).unwrap().session_id, first.session_id);
}

#[test]
fn accepted_configuration_has_a_plan() {
    let mut app: AppState<u8> = AppState::new();
    app.update_config(configured());
    assert!(app.connect(1).is_ok());
    assert!(plan(&app.config, 1).is_ok());
}
