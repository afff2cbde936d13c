use autobridge_win::state::{
    disconnect_result, AppConfig, AppState, LogEntry, ProxyCommand, UiEvent, LOG_LIMIT,
};

fn assert_clock_time(text: &str) {
    let chars: Vec<char> = text.chars().collect();
    assert_eq!(chars.len(), 12, "{}", text);
    for (i, c) in chars.iter().enumerate() {
        match i {
            2 | 5 => assert_eq!(*c, ':'),
            8 => assert_eq!(*c, '.'),
            _ => assert!(c.is_ascii_digit()),
        }
    }
    assert!(text[0..2].parse::<u32>().unwrap() <= 23);
    assert!(text[3..5].parse::<u32>().unwrap() <= 59);
    assert!(text[6..8].parse::<u32>().unwrap() <= 60);
}

fn configured() -> AppConfig {
    let mut config = AppConfig::default();
    config.relay_url = "wss://relay.example/ws".to_string();
    config.session_id = "ab12".to_string();
    config.local_bind_ip = "192.168.1.10".to_string();
    config
}

fn status_of(event: &UiEvent) -> &str {
    match event {
        UiEvent::ConnectionStatus(status) => status,
        _ => panic!("not a status"),
    }
}

fn entry_of(event: &UiEvent) -> &LogEntry {
    match event {
        UiEvent::LogEntry(entry) => entry,
        _ => panic!("not an entry"),
    }
}

#[test]
fn entries_have_level_message_and_time() {
    let entries = vec![
        (LogEntry::info("a"), "INFO", "a"),
        (LogEntry::warn("b".to_string()), "WARN", "b"),
        (LogEntry::error("c"), "ERROR", "c"),
        (LogEntry::doip("d"), "DOIP", "d"),
        (LogEntry::debug(""), "DEBUG", ""),
    ];
    for (entry, level, message) in entries {
        assert_eq!(entry.level, level);
        assert_eq!(entry.message, message);
        assert_clock_time(&entry.timestamp);
    }
}

#[test]
fn entry_of_a_given_time() {
    let entry = LogEntry::at("12:34:56.789".to_string(), "INFO", "x");
    assert_eq!(entry.timestamp, "12:34:56.789");
    assert_eq!(entry.level, "INFO");
    assert_eq!(entry.message, "x");
}

#[test]
fn entries_differ_in_level_alone() {
    let levels = ["INFO", "WARN", "ERROR", "DOIP", "DEBUG"];
    let entries: Vec<LogEntry> = levels
        .iter()
        .map(|level| LogEntry::at("12:34:56.789".to_string(), level, "x"))
        .collect();
    for (i, a) in entries.iter().enumerate() {
        for (j, b) in entries.iter().enumerate() {
            assert_eq!(a.timestamp, b.timestamp);
            assert_eq!(a.message, b.message);
            assert_eq!(a.level == b.level, i == j);
        }
    }
}

#[test]
fn default_configuration() {
    let config = AppConfig::default();
    assert_eq!(config.mac_ip, "");
    assert_eq!(config.mac_ws_port, 8765);
    assert_eq!(config.local_bind_ip, "");
    assert_eq!(config.vin, "");
    assert_eq!(config.session_label, "");
}

#[test]
fn state_at_the_start() {
    let state: AppState<ProxyCommand> = AppState::new();
    assert_eq!(state.get_status(), "Disconnected");
    assert_eq!(state.get_logs().len(), 0);
    assert!(state.cmd_tx.is_none());
    assert_eq!(state.config.mac_ws_port, 8765);
}

#[test]
fn log_drops_the_oldest_hundred_when_full() {
    let mut state: AppState<u8> = AppState::new();
    for i in 0..LOG_LIMIT {
        state.log(LogEntry::info(format!("{}", i)));
    }
    assert_eq!(state.logs.len(), 1000);
    assert_eq!(state.logs[0].message, "0");
    let event = state.log(LogEntry::info("1000"));
    assert_eq!(entry_of(&event).message, "1000");
    assert_eq!(state.logs.len(), 901);
    assert_eq!(state.logs[0].message, "100");
    assert_eq!(state.logs[900].message, "1000");
    for i in 1001..5000 {
        state.log(LogEntry::info(format!("{}", i)));
        assert_eq!(state.logs.len(), 901 + (i - 1000) % 100);
        assert_eq!(state.logs[state.logs.len() - 1].message, format!("{}", i));
    }
    let logs = state.get_logs();
    for pair in logs.windows(2) {
        let (a, b): (u32, u32) = (pair[0].message.parse().unwrap(), pair[1].message.parse().unwrap());
        assert_eq!(a + 1, b);
    }
}

#[test]
fn status_is_set_and_announced() {
    let mut state: AppState<u8> = AppState::new();
    let event = state.set_status("Connected");
    assert_eq!(state.get_status(), "Connected");
    assert_eq!(status_of(&event), "Connected");
    assert_eq!(event.name(), "connection_status");
    assert_eq!(UiEvent::LogEntry(LogEntry::info("")).name(), "log_entry");
    assert_eq!(UiEvent::VinDetected("V".to_string()).name(), "vin_detected");
}

#[test]
fn connect_needs_session_code_and_adapter() {
    let mut state: AppState<u8> = AppState::new();
    assert_eq!(
        state.connect(1).unwrap_err(),
        "Inserisci il codice sessione di AutoBridge Mac"
    );
    let mut config = configured();
    config.session_id = " \t\u{a0}\u{3000}".to_string();
    state.update_config(config);
    assert_eq!(
        state.connect(1).unwrap_err(),
        "Inserisci il codice sessione di AutoBridge Mac"
    );
    let mut config = configured();
    config.local_bind_ip = "  ".to_string();
    state.update_config(config);
    assert_eq!(state.connect(1).unwrap_err(), "Seleziona un adattatore di rete");
    assert!(state.cmd_tx.is_none());
    assert_eq!(state.logs.len(), 0);
}

#[test]
fn white_space_is_what_unicode_says() {
    for n in 0..=0x10ffff_u32 {
        if let Some(c) = char::from_u32(n) {
            if n < 0x3100 || n % 97 == 0 {
                let mut state: AppState<u8> = AppState::new();
                let mut config = configured();
                config.session_id = c.to_string();
                state.update_config(config);
                let listed = matches!(
                    n,
                    0x09..=0x0d | 0x20 | 0x85 | 0xa0 | 0x1680 | 0x2000..=0x200a | 0x2028 | 0x2029
                        | 0x202f | 0x205f | 0x3000
                );
                assert_eq!(state.connect(1).is_err(), listed, "{:x}", n);
            }
        }
    }
}

#[test]
fn one_connection_at_a_time() {
    let mut state: AppState<u8> = AppState::new();
    state.update_config(configured());
    assert_eq!(state.disconnect().unwrap_err(), "Non connesso");

    let (status, entry) = state.connect(7).unwrap();
    assert_eq!(status_of(&status), "Connecting");
    assert_eq!(
        entry_of(&entry).message,
        "Avvio proxy — Relay: wss://relay.example/ws  Sessione: ab12  Adattatore: 192.168.1.10"
    );
    assert_eq!(entry_of(&entry).level, "INFO");
    assert_clock_time(&entry_of(&entry).timestamp);
    assert_eq!(state.get_status(), "Connecting");
    assert_eq!(state.disconnect().unwrap(), &7);
    assert_eq!(state.connect(8).unwrap_err(), "Già Connecting");

    let events = state.session_joined("AB12", Some("WBA123".to_string()));
    assert_eq!(events.len(), 3);
    assert!(matches!(&events[0], UiEvent::VinDetected(vin) if vin == "WBA123"));
    assert_eq!(entry_of(&events[1]).message, "Sessione relay attiva [AB12]");
    assert_eq!(status_of(&events[2]), "Connected");
    assert_eq!(state.connect(8).unwrap_err(), "Già Connected");

    let events = state.proxy_ended(Err("x".to_string()));
    assert_eq!(events.len(), 2);
    assert_eq!(entry_of(&events[0]).level, "ERROR");
    assert_eq!(entry_of(&events[0]).message, "Proxy error: x");
    assert_eq!(status_of(&events[1]), "Disconnected");
    assert!(state.disconnect().is_err());
    assert_eq!(state.logs.len(), 3);

    assert!(state.connect(9).is_ok());
    assert_eq!(state.disconnect().unwrap(), &9);
    let events = state.proxy_ended(Ok(()));
    assert_eq!(events.len(), 1);
    assert_eq!(status_of(&events[0]), "Disconnected");
    assert_eq!(state.logs.len(), 4);
}

#[test]
fn result_of_a_disconnection() {
    assert_eq!(disconnect_result(true), Ok(()));
    assert_eq!(disconnect_result(false), Err("Canale già chiuso".to_string()));
}
