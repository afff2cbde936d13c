//! How a session is planned, joined and set up, said of the configuration and of the members
//! of the messages.

use vstd::prelude::*;
use vstd::utf8::*;

use crate::json;
use crate::laws;
use crate::laws::addresses;
use crate::message;
use crate::session;
use crate::session::{JoinEvent, ProxyPlan, RelayConnect};
use crate::setup;
use crate::setup::{SetupEvent, Stage};
use crate::state;
use crate::state::AppConfig;
use crate::text;

verus! {

// The plan.

/// A session is refused if and only if the adapter or the session code holds nothing but white
/// space, and the refusal says which, the adapter first.
pub proof fn law_plan_is_refused_for_a_reason(config: AppConfig)
    ensures
        ({
            let code = exists|i: int|
                0 <= i < config.session_id@.len() && !text::is_white_space(
                    #[trigger] config.session_id@[i],
                );
            let adapter = exists|i: int|
                0 <= i < config.local_bind_ip@.len() && !text::is_white_space(
                    #[trigger] config.local_bind_ip@[i],
                );
            let refusal = session::plan_refusal(config);
            &&& !adapter ==> refusal == Some("Seleziona un adattatore di rete"@)
            &&& adapter && !code ==> refusal == Some(
                "Inserisci il codice sessione mostrato da AutoBridge Mac"@,
            )
            &&& adapter && code ==> refusal is None
        }),
{
}

/// The text of a plan: a prefix and then the number.
pub open spec fn is_prefixed_number(s: Seq<char>, prefix: Seq<char>, n: int, base: int) -> bool {
    exists|digits: Seq<char>|
        #[trigger] addresses::is_number(digits, n, base) && s == prefix + digits
}

/// The session code of a plan: the code without the white space around it, in upper case.
pub open spec fn is_code_of(code: Seq<char>, entered: Seq<char>) -> bool {
    exists|core: Seq<char>|
        {
            &&& #[trigger] addresses::is_core_of(entered, core)
            &&& code == text::unicode_uppercase(core)
            &&& is_ascii_chars(core) ==> {
                &&& code.len() == core.len()
                &&& forall|i: int|
                    0 <= i < core.len() ==> #[trigger] code[i] as int == if 'a' <= core[i] <= 'z' {
                        core[i] as int - 32
                    } else {
                        core[i] as int
                    }
            }
        }
}

/// The TCP address of a plan: the adapter without the white space around it, a colon and the
/// port.
pub open spec fn is_socket_of(address: Seq<char>, adapter: Seq<char>, port: int) -> bool {
    exists|core: Seq<char>|
        #[trigger] addresses::is_core_of(adapter, core) && is_prefixed_number(
            address,
            core + ":"@,
            port,
            10,
        )
}

/// A plan takes the relay, the session code, the adapter and the two ports from the
/// configuration, each for what it is, listens for datagrams on every adapter, and names the
/// device after the time.
pub proof fn law_plan_follows_the_configuration(
    config: AppConfig,
    unix_millis: nat,
    plan: ProxyPlan,
)
    requires
        session::is_plan(config, unix_millis, plan),
    ensures
        session::plan_refusal(config) is None,
        addresses::is_core_of(config.relay_url@, plan.relay_url@),
        is_code_of(plan.session_id@, config.session_id@),
        is_socket_of(plan.tcp_addr@, config.local_bind_ip@, config.tcp_port as int),
        is_prefixed_number(plan.udp_addr@, "0.0.0.0:"@, config.udp_port as int, 10),
        is_prefixed_number(plan.device_id@, "win-"@, unix_millis as int, 16),
{
    addresses::law_trimming_removes_outer_white_space(config.relay_url@);
    addresses::law_trimming_removes_outer_white_space(config.session_id@);
    addresses::law_trimming_removes_outer_white_space(config.local_bind_ip@);
    addresses::law_numbers_are_written_as_they_are(config.tcp_port as nat, 10);
    addresses::law_numbers_are_written_as_they_are(config.udp_port as nat, 10);
    addresses::law_numbers_are_written_as_they_are(unix_millis, 16);
    let core = text::trimmed(config.session_id@);
    assert(addresses::is_core_of(config.session_id@, core));
    let adapter = text::trimmed(config.local_bind_ip@);
    assert(addresses::is_core_of(config.local_bind_ip@, adapter));
    let port = text::digits(config.tcp_port as nat, 10);
    assert(addresses::is_number(port, config.tcp_port as int, 10));
    assert(is_prefixed_number(plan.tcp_addr@, adapter + ":"@, config.tcp_port as int, 10));
}

// The answer to the join message.

/// A text that answers the join message does so by its type: `session_joined` joins, and brings
/// the VIN if it holds one that is not empty, whatever its length; `error` fails, with its
/// reason if it holds one; anything else is waited past.
pub proof fn law_join_is_answered_by_type(text: String, members: Map<Seq<char>, Seq<char>>)
    requires
        json::json_string_members(text@) == Some(members),
    ensures
        ({
            let typed = members.contains_key("type"@);
            let joins = typed && members["type"@] == "session_joined"@;
            let fails = typed && members["type"@] == "error"@;
            let brings_vin = members.contains_key("vin"@) && members["vin"@].len() > 0;
            let step = session::join_event_step(JoinEvent::Text(text));
            &&& step is Joined <==> joins
            &&& step is Failed <==> fails
            &&& step is Wait <==> !joins && !fails
            &&& step matches session::JoinStepView::Joined(vin) ==> {
                &&& vin is Some <==> brings_vin
                &&& vin is Some ==> vin->Some_0 == members["vin"@]
            }
            &&& step matches session::JoinStepView::Failed(reason) ==> reason
                == if members.contains_key("reason"@) {
                "Relay: "@ + members["reason"@]
            } else {
                "Relay: "@ + "sconosciuto"@
            }
        }),
{
    lemma_answers_differ();
}

proof fn lemma_answers_differ()
    ensures
        "session_joined"@ != "error"@,
{
    reveal_strlit("session_joined");
    reveal_strlit("error");
    assert("session_joined"@.len() == 14);
    assert("error"@.len() == 5);
}

/// A message that was read answers in the same way.
pub proof fn law_message_answers_by_type(m: message::MessageView)
    ensures
        ({
            let joins = m.kind == Some("session_joined"@);
            let fails = m.kind == Some("error"@);
            let step = session::join_reply_step(m);
            &&& step is Joined <==> joins
            &&& step is Failed <==> fails
            &&& step is Wait <==> !joins && !fails
            &&& step matches session::JoinStepView::Joined(vin) ==> {
                &&& vin is Some <==> m.vin is Some && m.vin->Some_0.len() > 0
                &&& vin is Some ==> vin == m.vin
            }
            &&& step matches session::JoinStepView::Failed(reason) ==> reason
                == if m.reason is Some {
                "Relay: "@ + m.reason->Some_0
            } else {
                "Relay: "@ + "sconosciuto"@
            }
        }),
{
    lemma_answers_differ();
}

/// What is no JSON text does not end the wait; the end of the connection and of the time
/// allowed do, each with its reason.
pub proof fn law_join_fails_without_an_answer(event: JoinEvent)
    requires
        event matches JoinEvent::Text(text) ==> json::json_string_members(text@) is None,
    ensures
        ({
            let step = session::join_event_step(event);
            &&& event is Text || event is Other ==> step is Wait
            &&& event is Ended ==> step == session::JoinStepView::Failed(
                "Relay chiuso prima di session_joined"@,
            )
            &&& event is TimedOut ==> step == session::JoinStepView::Failed(
                "Timeout attesa sessione relay (15s)"@,
            )
        }),
{
}

/// The contracts speak of a step by what it holds.
pub proof fn law_join_steps_are_seen_whole(step: session::JoinStep)
    ensures
        match step {
            session::JoinStep::Wait => step@ is Wait,
            session::JoinStep::Joined(vin) => {
                &&& step@ matches session::JoinStepView::Joined(told)
                &&& told is Some <==> vin is Some
                &&& vin is Some ==> told->Some_0 == vin->Some_0@
            },
            session::JoinStep::Failed(reason) => step@ == session::JoinStepView::Failed(reason@),
        },
{
}

// The setup.

/// A connected relay is sent the join message of this session and device; one that could not
/// be connected to fails the setup, with the reason.
pub proof fn law_connected_relay_is_sent_the_join(plan: ProxyPlan, outcome: RelayConnect)
    ensures
        ({
            let (stage, action, change) = setup::setup_step(
                plan,
                Stage::Connecting,
                SetupEvent::Relay(outcome),
            );
            &&& change is Nothing
            &&& stage == if outcome is Connected {
                Stage::Joining
            } else {
                Stage::Failed
            }
            &&& match outcome {
                RelayConnect::Connected => action == setup::SetupActionView::SendJoin(
                    json::json_object_text(
                        seq![
                            ("type"@, "join"@),
                            ("platform"@, "windows"@),
                            ("session_id"@, plan.session_id@),
                            ("device_id"@, plan.device_id@),
                        ],
                    ),
                ),
                RelayConnect::TimedOut => action == setup::SetupActionView::Fail(
                    "Timeout connessione relay "@ + plan.relay_url@,
                ),
                RelayConnect::Failed(error) => action == setup::SetupActionView::Fail(
                    "WebSocket relay fallito: "@ + error@,
                ),
            }
        }),
{
}

/// Once the join message is sent its answer is awaited; if it could not be sent the setup
/// fails, with the reason.
pub proof fn law_sent_join_awaits_its_answer(plan: ProxyPlan, outcome: Result<(), String>)
    ensures
        ({
            let (stage, action, change) = setup::setup_step(
                plan,
                Stage::Joining,
                SetupEvent::JoinSent(outcome),
            );
            &&& change is Nothing
            &&& match outcome {
                Ok(()) => stage == Stage::Waiting && action is AwaitMessage,
                Err(error) => stage == Stage::Failed && action == setup::SetupActionView::Fail(
                    "Invio join fallito: "@ + error@,
                ),
            }
        }),
{
}

/// The wait for the answer ends with success if and only if a text of type `session_joined`
/// comes, and then the UDP socket is bound and the VIN that came with it shown; it fails if and
/// only if a text of type `error` comes, the connection ends or the time is over.
pub proof fn law_wait_ends_with_the_answer(
    plan: ProxyPlan,
    text: String,
    members: Map<Seq<char>, Seq<char>>,
)
    requires
        json::json_string_members(text@) == Some(members),
    ensures
        ({
            let joins = members.contains_key("type"@) && members["type"@] == "session_joined"@;
            let fails = members.contains_key("type"@) && members["type"@] == "error"@;
            let (stage, action, change) = setup::setup_step(
                plan,
                Stage::Waiting,
                SetupEvent::Join(JoinEvent::Text(text)),
            );
            &&& laws::is_success(Stage::Waiting, SetupEvent::Join(JoinEvent::Text(text))) <==> joins
            &&& stage == Stage::BindingUdp <==> joins
            &&& stage == Stage::Failed <==> fails
            &&& stage == Stage::Waiting <==> !joins && !fails
            &&& joins ==> {
                &&& action == setup::SetupActionView::BindUdp(plan.udp_addr@)
                &&& change matches setup::Change::Joined(vin)
                &&& vin is Some <==> members.contains_key("vin"@) && members["vin"@].len() > 0
                &&& vin is Some ==> vin->Some_0 == members["vin"@]
            }
            &&& fails ==> {
                &&& change is Nothing
                &&& action matches setup::SetupActionView::Fail(reason)
                &&& reason == if members.contains_key("reason"@) {
                    "Relay: "@ + members["reason"@]
                } else {
                    "Relay: "@ + "sconosciuto"@
                }
            }
            &&& !joins && !fails ==> action is AwaitMessage && change is Nothing
        }),
{
    law_join_is_answered_by_type(text, members);
}

/// Without an answer the wait goes on, until the connection ends or the time is over.
pub proof fn law_wait_fails_without_an_answer(plan: ProxyPlan, event: JoinEvent)
    requires
        event matches JoinEvent::Text(text) ==> json::json_string_members(text@) is None,
    ensures
        ({
            let (stage, action, change) = setup::setup_step(
                plan,
                Stage::Waiting,
                SetupEvent::Join(event),
            );
            &&& change is Nothing
            &&& event is Text || event is Other ==> stage == Stage::Waiting && action is AwaitMessage
            &&& event is Ended ==> stage == Stage::Failed && action
                == setup::SetupActionView::Fail("Relay chiuso prima di session_joined"@)
            &&& event is TimedOut ==> stage == Stage::Failed && action
                == setup::SetupActionView::Fail("Timeout attesa sessione relay (15s)"@)
        }),
{
}

/// A bound UDP socket is logged and the TCP socket is bound next; a bound TCP socket is logged
/// and clients are served; if either could not be bound the setup fails, with the address and
/// the reason.
pub proof fn law_sockets_are_bound_in_turn(plan: ProxyPlan, outcome: Result<(), String>)
    ensures
        ({
            let udp = setup::setup_step(plan, Stage::BindingUdp, SetupEvent::UdpBound(outcome));
            let tcp = setup::setup_step(plan, Stage::BindingTcp, SetupEvent::TcpBound(outcome));
            match outcome {
                Ok(()) => {
                    &&& udp.0 == Stage::BindingTcp
                    &&& udp.1 == setup::SetupActionView::BindTcp(plan.tcp_addr@)
                    &&& udp.2 == setup::Change::Logged(
                        (state::LogLine {
                            level: "INFO"@,
                            message: "UDP discovery in ascolto su "@ + plan.udp_addr@,
                        }),
                    )
                    &&& tcp.0 == Stage::Serving
                    &&& tcp.1 is Serve
                    &&& tcp.2 == setup::Change::Logged(
                        (state::LogLine {
                            level: "INFO"@,
                            message: "TCP in ascolto su "@ + plan.tcp_addr@
                                + " — in attesa di ISTA"@,
                        }),
                    )
                },
                Err(error) => {
                    &&& udp.0 == Stage::Failed
                    &&& udp.1 == setup::SetupActionView::Fail(
                        "UDP bind "@ + plan.udp_addr@ + ": "@ + error@,
                    )
                    &&& udp.2 is Nothing
                    &&& tcp.0 == Stage::Failed
                    &&& tcp.1 == setup::SetupActionView::Fail(
                        "TCP bind "@ + plan.tcp_addr@ + ": "@ + error@,
                    )
                    &&& tcp.2 is Nothing
                },
            }
        }),
{
}

/// An event that the stage does not wait for changes nothing.
pub proof fn law_unawaited_events_change_nothing(plan: ProxyPlan, stage: Stage, event: SetupEvent)
    requires
        !(stage == Stage::Connecting && event is Relay),
        !(stage == Stage::Joining && event is JoinSent),
        !(stage == Stage::Waiting && event is Join),
        !(stage == Stage::BindingUdp && event is UdpBound),
        !(stage == Stage::BindingTcp && event is TcpBound),
    ensures
        ({
            let (next, action, change) = setup::setup_step(plan, stage, event);
            next == stage && action is Ignore && change is Nothing
        }),
{
}

/// The contracts speak of an action by what it holds.
pub proof fn law_setup_actions_are_seen_whole(action: setup::SetupAction)
    ensures
        action@ == match action {
            setup::SetupAction::ConnectRelay(url) => setup::SetupActionView::ConnectRelay(url@),
            setup::SetupAction::SendJoin(text) => setup::SetupActionView::SendJoin(text@),
            setup::SetupAction::AwaitMessage => setup::SetupActionView::AwaitMessage,
            setup::SetupAction::BindUdp(address) => setup::SetupActionView::BindUdp(address@),
            setup::SetupAction::BindTcp(address) => setup::SetupActionView::BindTcp(address@),
            setup::SetupAction::Serve => setup::SetupActionView::Serve,
            setup::SetupAction::Fail(reason) => setup::SetupActionView::Fail(reason@),
            setup::SetupAction::Ignore => setup::SetupActionView::Ignore,
        },
{
}

// What is sent.

/// A list of members stands for the object that has exactly their keys, and under each key the
/// last member of that key.
pub proof fn law_last_member_of_a_key_counts(
    members: Seq<(Seq<char>, Seq<char>)>,
    key: Seq<char>,
    i: int,
)
    ensures
        json::members_map(members).contains_key(key) <==> (exists|k: int|
            0 <= k < members.len() && (#[trigger] members[k]).0 == key),
        0 <= i < members.len() && members[i].0 == key && (forall|j: int|
            i < j < members.len() ==> (#[trigger] members[j]).0 != key) ==> json::members_map(
            members,
        )[key] == members[i].1,
{
    lemma_keys_of_members(members, key);
    if 0 <= i < members.len() && members[i].0 == key && (forall|j: int|
        i < j < members.len() ==> (#[trigger] members[j]).0 != key) {
        lemma_last_member(members, key, i);
    }
}

proof fn lemma_keys_of_members(members: Seq<(Seq<char>, Seq<char>)>, key: Seq<char>)
    ensures
        json::members_map(members).contains_key(key) <==> (exists|k: int|
            0 <= k < members.len() && (#[trigger] members[k]).0 == key),
    decreases members.len(),
{
    if members.len() > 0 {
        let front = members.drop_last();
        let n = members.len() - 1;
        lemma_keys_of_members(front, key);
        assert forall|k: int| 0 <= k < n implies #[trigger] front[k] == members[k] by {}
        if members[n].0 != key {
            if json::members_map(front).contains_key(key) {
                let k = choose|k: int| 0 <= k < front.len() && (#[trigger] front[k]).0 == key;
                assert(members[k].0 == key);
            } else {
                assert forall|k: int| 0 <= k < members.len() implies (#[trigger] members[k]).0
                    != key by {
                    if k < n {
                        assert(front[k].0 != key);
                    }
                }
            }
        }
    }
}

proof fn lemma_last_member(members: Seq<(Seq<char>, Seq<char>)>, key: Seq<char>, i: int)
    requires
        0 <= i < members.len(),
        members[i].0 == key,
        forall|j: int| i < j < members.len() ==> (#[trigger] members[j]).0 != key,
    ensures
        json::members_map(members)[key] == members[i].1,
    decreases members.len(),
{
    let front = members.drop_last();
    let n = members.len() - 1;
    if i < n {
        assert(front[i].0 == key);
        assert forall|j: int| i < j < front.len() implies (#[trigger] front[j]).0 != key by {
            assert(members[j].0 != key);
        }
        lemma_last_member(front, key, i);
        lemma_keys_of_members(front, key);
        assert(members[n].0 != key);
    }
}

} // verus!
