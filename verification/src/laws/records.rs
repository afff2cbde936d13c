//! What the application state holds and what it refuses, said of its fields.

use vstd::prelude::*;

use crate::relay_test;
use crate::session;
use crate::setup;
use crate::state;
use crate::state::{AppConfig, AppState, LogEntry, UiEvent};
use crate::text;
use crate::tunnel;

verus! {

// Entries.

/// A line has the level that it is named after and the message given; what an entry says is
/// its level and its message.
pub proof fn law_lines_have_their_level(message: Seq<char>, entry: LogEntry)
    ensures
        state::info_line(message).level == "INFO"@,
        state::info_line(message).message == message,
        state::warn_line(message).level == "WARN"@,
        state::warn_line(message).message == message,
        state::error_line(message).level == "ERROR"@,
        state::error_line(message).message == message,
        entry.line().level == entry.level@,
        entry.line().message == entry.message@,
{
}

/// A client that is gone is reported by its address.
pub proof fn law_gone_client_is_named(peer: Seq<char>)
    ensures
        tunnel::gone_line(peer).level == "INFO"@,
        tunnel::gone_line(peer).message == "ISTA disconnesso: "@ + peer,
{
}

/// An entry carries the time, the level and the message that it was made of.
pub proof fn law_entry_is_what_it_was_made_of<M: Into<String>>(
    entry: LogEntry,
    time: Seq<char>,
    level: Seq<char>,
    m: M,
)
    requires
        entry.is_entry(time, level, m),
    ensures
        entry.timestamp@ == time,
        entry.level@ == level,
        call_ensures(Into::<String>::into, (m,), entry.message),
{
}

/// The time of an entry is `HH:MM:SS.mmm`, in digits, with hours up to 23, minutes up to 59
/// and seconds up to 60.
pub proof fn law_entries_carry_a_time_of_day(entry: LogEntry)
    requires
        entry.is_stamped(),
    ensures
        ({
            let s = entry.timestamp@;
            let zero = '0' as int;
            &&& s.len() == 12
            &&& s[2] == ':'
            &&& s[5] == ':'
            &&& s[8] == '.'
            &&& forall|i: int|
                0 <= i < 12 && i != 2 && i != 5 && i != 8 ==> '0' <= #[trigger] s[i] <= '9'
            &&& 10 * (s[0] as int - zero) + (s[1] as int - zero) <= 23
            &&& 10 * (s[3] as int - zero) + (s[4] as int - zero) <= 59
            &&& 10 * (s[6] as int - zero) + (s[7] as int - zero) <= 60
        }),
{
}

// The log.

/// `after` is `before` with `entry` at its end, without the hundred oldest entries where
/// `before` held a thousand or more.
pub open spec fn is_log_with(
    before: Seq<LogEntry>,
    after: Seq<LogEntry>,
    entry: LogEntry,
) -> bool {
    &&& after.len() > 0
    &&& after.last() == entry
    &&& after.drop_last() == if before.len() >= 1000 {
        before.subrange(100, before.len() as int)
    } else {
        before
    }
}

/// One more entry stands at the end of the log. Nothing is lost from it before it holds a
/// thousand entries; then it loses the hundred oldest, and the others keep their order.
pub proof fn law_entry_goes_to_the_end_of_the_log(logs: Seq<LogEntry>, entry: LogEntry)
    ensures
        is_log_with(logs, state::logged(logs, entry), entry),
{
    let after = state::logged(logs, entry);
    if logs.len() >= 1000 {
        assert(after.drop_last() =~= logs.subrange(100, logs.len() as int));
    } else {
        assert(after.drop_last() =~= logs);
    }
}

// Connecting.

/// A connection is refused if and only if one is starting or up, or the session code or the
/// adapter holds nothing but white space, and each refusal says which, in this order.
pub proof fn law_connection_is_refused_for_a_reason(
    status: Seq<char>,
    session_id: Seq<char>,
    local_bind_ip: Seq<char>,
)
    ensures
        ({
            let refusal = state::connect_refusal(status, session_id, local_bind_ip);
            let busy = status == "Connected"@ || status == "Connecting"@;
            let code = exists|i: int|
                0 <= i < session_id.len() && !text::is_white_space(#[trigger] session_id[i]);
            let adapter = exists|i: int|
                0 <= i < local_bind_ip.len() && !text::is_white_space(#[trigger] local_bind_ip[i]);
            &&& busy ==> refusal == Some("Già "@ + status)
            &&& !busy && !code ==> refusal == Some(
                "Inserisci il codice sessione di AutoBridge Mac"@,
            )
            &&& !busy && code && !adapter ==> refusal == Some("Seleziona un adattatore di rete"@)
            &&& !busy && code && adapter ==> refusal is None
        }),
{
}

/// What is logged at the start of a connection names the relay, the session and the adapter as
/// they were configured.
pub proof fn law_start_names_relay_session_and_adapter(config: AppConfig)
    ensures
        state::start_message(config) == "Avvio proxy — Relay: "@ + config.relay_url@
            + "  Sessione: "@ + config.session_id@ + "  Adattatore: "@ + config.local_bind_ip@,
{
}

/// A consistent state has a command channel if and only if a connection is starting or up, and
/// says `Disconnected` otherwise.
pub proof fn law_consistent_state_has_a_channel_while_connected<C>(app: AppState<C>)
    ensures
        app.is_consistent() <==> ((app.cmd_tx is Some && (app.status@ == "Connecting"@
            || app.status@ == "Connected"@)) || (app.cmd_tx is None && app.status@
            == "Disconnected"@)),
{
}

/// Before the user changes anything, every text is empty, AutoBridge Mac is expected on port
/// 8765, and no other port is chosen.
pub proof fn law_default_configuration(config: AppConfig)
    requires
        config.is_default(),
    ensures
        config.mac_ip@.len() == 0,
        config.mac_ws_port == 8765,
        config.local_bind_ip@.len() == 0,
        config.vin@.len() == 0,
        config.session_label@.len() == 0,
        config.relay_url@.len() == 0,
        config.session_id@.len() == 0,
        config.tcp_port == 0,
        config.udp_port == 0,
{
}

/// A status is announced by the event of that status and by no other.
pub proof fn law_status_is_announced(event: UiEvent, status: Seq<char>)
    ensures
        event.is_status(status) <==> (event matches UiEvent::ConnectionStatus(told) && told@
            == status),
{
}

/// What a step of the setup does to the application state: nothing at all; or one more line in
/// the log, which is shown; or, when the session is joined, the VIN shown if it is known, then
/// the session logged and shown, then the status `Connected`, shown too. The configuration
/// and the command channel stay.
pub proof fn law_what_a_step_changes<C>(
    before: AppState<C>,
    after: AppState<C>,
    events: Seq<UiEvent>,
    session_id: Seq<char>,
    change: setup::Change,
)
    requires
        setup::is_changed(before, after, events, session_id, change),
    ensures
        after.config == before.config,
        after.cmd_tx == before.cmd_tx,
        match change {
            setup::Change::Nothing => after == before && events.len() == 0,
            setup::Change::Logged(line) => {
                &&& after.status == before.status
                &&& events.len() == 1
                &&& events[0] matches UiEvent::LogEntry(e)
                &&& e.level@ == line.level
                &&& e.message@ == line.message
                &&& e.is_stamped()
                &&& is_log_with(before.logs@, after.logs@, e)
            },
            setup::Change::Joined(vin) => {
                let n = events.len() as int;
                &&& n == if vin is Some {
                    3int
                } else {
                    2int
                }
                &&& vin is Some ==> {
                    &&& events[0] matches UiEvent::VinDetected(told)
                    &&& told@ == vin->Some_0
                }
                &&& events[n - 2] matches UiEvent::LogEntry(e)
                &&& e.level@ == "INFO"@
                &&& e.message@ == "Sessione relay attiva ["@ + session_id + "]"@
                &&& e.is_stamped()
                &&& is_log_with(before.logs@, after.logs@, e)
                &&& events[n - 1] matches UiEvent::ConnectionStatus(status)
                &&& status@ == "Connected"@
                &&& after.status@ == "Connected"@
            },
        },
{
    if let setup::Change::Logged(_) = change {
        law_entry_goes_to_the_end_of_the_log(before.logs@, events[0]->LogEntry_0);
    }
    if let setup::Change::Joined(_) = change {
        law_entry_goes_to_the_end_of_the_log(before.logs@, events[events.len() - 2]->LogEntry_0);
    }
}

// Limits.

/// The relay has ten seconds to be connected to and fifteen to confirm the session, a
/// heartbeat is sent every two seconds, the test of the relay waits five seconds, a read takes
/// up to 65536 bytes, and the log is shortened by a hundred at a thousand entries.
pub proof fn law_limits()
    ensures
        session::CONNECT_TIMEOUT_SECS == 10,
        session::JOIN_TIMEOUT_SECS == 15,
        session::HEARTBEAT_SECS == 2,
        relay_test::TEST_TIMEOUT_MS == 5000,
        tunnel::READ_SIZE == 65536,
        state::LOG_LIMIT == 1000,
        state::LOG_DROP == 100,
{
}

} // verus!
