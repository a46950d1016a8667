use simple_tunnel::controller::channel_start;
use simple_tunnel::controller::controller_step;
use simple_tunnel::controller::plan_of;
use simple_tunnel::controller::route_addresses;
use simple_tunnel::controller::wait_for_signal;
use simple_tunnel::controller::Directive;
use simple_tunnel::controller::Event;
use simple_tunnel::controller::Phase;
use simple_tunnel::controller::Plan;
use simple_tunnel::controller::Target;
use simple_tunnel::options::ClientClientMode;
use simple_tunnel::options::ClientServerMode;
use simple_tunnel::options::Options;

fn drive(plan: &Plan, events: &[Event]) -> (Phase, Vec<Directive>) {
    let (mut phase, _start) = channel_start(plan);
    let mut directives = Vec::new();
    for event in events {
        let (next, directive) = controller_step(plan, phase, event);
        phase = next;
        directives.push(directive);
    }
    (phase, directives)
}

#[test]
fn gate_ignores_silent_peer() {
    assert!(!wait_for_signal(0));
}

#[test]
fn gate_passes_on_first_byte() {
    assert!(wait_for_signal(1));
    assert!(wait_for_signal(4096));
}

#[test]
fn listener_listener_starts_with_both_accepts() {
    let (phase, directive) = channel_start(&Plan::AcceptBoth);
    assert_eq!(phase, Phase::AwaitPair);
    assert_eq!(directive, Directive::AcceptPair);
}

#[test]
fn listener_listener_relays_when_both_arrive() {
    let plan = Plan::AcceptBoth;
    let (phase, directives) = drive(&plan, &[Event::PairAccepted]);
    assert_eq!(phase, Phase::Relaying);
    assert_eq!(directives, vec![Directive::StartRelay]);
}

#[test]
fn listener_listener_accept_fault_is_fatal() {
    let plan = Plan::AcceptBoth;
    let (phase, directives) = drive(&plan, &[Event::AcceptFailed]);
    assert_eq!(phase, Phase::Halted);
    assert_eq!(directives, vec![Directive::Halt]);
}

#[test]
fn finished_channel_starts_the_next_one() {
    let plan = Plan::AcceptBoth;
    let (phase, directives) = drive(&plan, &[Event::PairAccepted, Event::RelayFinished]);
    assert_eq!(phase, Phase::AwaitPair);
    assert_eq!(
        directives,
        vec![Directive::StartRelay, Directive::AcceptPair]
    );
}

#[test]
fn setup_failure_abandons_the_channel_and_restarts() {
    let plan = Plan::DialBoth { timeout: 3 };
    let (phase, directives) = drive(
        &plan,
        &[Event::DialOk, Event::DialOk, Event::SetupFailed],
    );
    assert_eq!(phase, Phase::AwaitFirst);
    assert_eq!(
        directives,
        vec![
            Directive::Dial(Target::Second),
            Directive::StartRelay,
            Directive::Dial(Target::First),
        ]
    );
}

#[test]
fn dial_failures_warn_and_sleep_each_time() {
    // Three consecutive failures: exactly three sleep-and-redial directives
    // with the configured interval, then the acquisition proceeds.
    let plan = Plan::DialThenAccept { timeout: 10 };
    let (phase, directives) = drive(
        &plan,
        &[
            Event::DialFailed,
            Event::DialFailed,
            Event::DialFailed,
            Event::DialOk,
        ],
    );
    assert_eq!(phase, Phase::AwaitSecond);
    assert_eq!(
        directives,
        vec![
            Directive::SleepThenDial(Target::First, 10),
            Directive::SleepThenDial(Target::First, 10),
            Directive::SleepThenDial(Target::First, 10),
            Directive::Accept,
        ]
    );
}

#[test]
fn listener_dialer_restarts_whole_attempt_on_dial_failure() {
    // An already-accepted connection cannot be reused across a failed dial:
    // the controller goes back to accepting a replacement.
    let plan = Plan::AcceptThenDial { timeout: 7 };
    let (phase, directives) = drive(&plan, &[Event::AcceptOk, Event::DialFailed]);
    assert_eq!(phase, Phase::AwaitFirst);
    assert_eq!(
        directives,
        vec![
            Directive::Dial(Target::Second),
            Directive::SleepThenAccept(7),
        ]
    );
}

#[test]
fn reaccept_cadence_over_repeated_failures() {
    // Two failed attempts then a successful one: two sleeps at the
    // configured interval, each answered with a replacement accept, and the
    // relay starts only after the final dial succeeds.
    let plan = Plan::AcceptThenDial { timeout: 7 };
    let (phase, directives) = drive(
        &plan,
        &[
            Event::AcceptOk,
            Event::DialFailed,
            Event::AcceptOk,
            Event::DialFailed,
            Event::AcceptOk,
            Event::DialOk,
        ],
    );
    assert_eq!(phase, Phase::Relaying);
    assert_eq!(
        directives,
        vec![
            Directive::Dial(Target::Second),
            Directive::SleepThenAccept(7),
            Directive::Dial(Target::Second),
            Directive::SleepThenAccept(7),
            Directive::Dial(Target::Second),
            Directive::StartRelay,
        ]
    );
}

#[test]
fn dialer_listener_dials_then_accepts() {
    let plan = Plan::DialThenAccept { timeout: 10 };
    let (phase, directives) = drive(&plan, &[Event::DialOk, Event::AcceptOk]);
    assert_eq!(phase, Phase::Relaying);
    assert_eq!(directives, vec![Directive::Accept, Directive::StartRelay]);
}

#[test]
fn silent_trigger_never_dials_target() {
    // The trigger peer connects and closes without sending anything, twice:
    // the target side is never dialed.
    let plan = Plan::DialGateDial { timeout: 10 };
    let (phase, directives) = drive(
        &plan,
        &[Event::DialOk, Event::Peeked(0), Event::DialOk, Event::Peeked(0)],
    );
    assert_eq!(phase, Phase::AwaitFirst);
    assert_eq!(
        directives,
        vec![
            Directive::Peek,
            Directive::Dial(Target::First),
            Directive::Peek,
            Directive::Dial(Target::First),
        ]
    );
    assert!(directives
        .iter()
        .all(|d| !matches!(d, Directive::Dial(Target::Second))));
}

#[test]
fn data_on_trigger_dials_target_exactly_once() {
    let plan = Plan::DialGateDial { timeout: 10 };
    let (phase, directives) = drive(
        &plan,
        &[Event::DialOk, Event::Peeked(1), Event::DialOk],
    );
    assert_eq!(phase, Phase::Relaying);
    assert_eq!(
        directives,
        vec![
            Directive::Peek,
            Directive::Dial(Target::Second),
            Directive::StartRelay,
        ]
    );
    let target_dials = directives
        .iter()
        .filter(|d| **d == Directive::Dial(Target::Second))
        .count();
    assert_eq!(target_dials, 1);
}

#[test]
fn target_dial_retries_in_place() {
    let plan = Plan::DialGateDial { timeout: 5 };
    let (phase, directives) = drive(
        &plan,
        &[
            Event::DialOk,
            Event::Peeked(100),
            Event::DialFailed,
            Event::DialOk,
        ],
    );
    assert_eq!(phase, Phase::Relaying);
    assert_eq!(
        directives,
        vec![
            Directive::Peek,
            Directive::Dial(Target::Second),
            Directive::SleepThenDial(Target::Second, 5),
            Directive::StartRelay,
        ]
    );
}

#[test]
fn unreachable_external_keeps_warning_and_never_dials_internal() {
    // Dialer-to-dialer "both" mode with an unreachable external address:
    // every attempt produces one warn-and-sleep directive at the configured
    // interval, the internal side is never dialed, and nothing halts.
    let plan = Plan::DialBoth { timeout: 10 };
    let events = vec![Event::DialFailed; 5];
    let (phase, directives) = drive(&plan, &events);
    assert_eq!(phase, Phase::AwaitFirst);
    assert_eq!(directives.len(), 5);
    for d in &directives {
        assert_eq!(*d, Directive::SleepThenDial(Target::First, 10));
    }
    assert!(directives
        .iter()
        .all(|d| !matches!(d, Directive::Dial(Target::Second))));
    let (phase, directives) = drive(
        &plan,
        &[
            Event::DialFailed,
            Event::DialFailed,
            Event::DialOk,
            Event::DialOk,
        ],
    );
    assert_eq!(phase, Phase::Relaying);
    assert_eq!(directives[2], Directive::Dial(Target::Second));
    assert_eq!(directives[3], Directive::StartRelay);
}

#[test]
fn accept_fault_after_dial_is_fatal() {
    let plan = Plan::DialThenAccept { timeout: 10 };
    let (phase, directives) = drive(&plan, &[Event::DialOk, Event::AcceptFailed]);
    assert_eq!(phase, Phase::Halted);
    assert_eq!(directives, vec![Directive::Accept, Directive::Halt]);
}

#[test]
fn relay_never_starts_with_one_side_ready() {
    // After only the first of two acquisitions, no event makes the
    // controller start the relay.
    let plan = Plan::DialBoth { timeout: 10 };
    for event in [
        Event::DialOk,
        Event::PairAccepted,
        Event::RelayFinished,
        Event::Peeked(9),
    ] {
        let (_, directives) = drive(&plan, &[event]);
        assert!(directives.iter().all(|d| *d != Directive::StartRelay));
    }
}

#[test]
fn plans_follow_the_configured_topology() {
    let server_server = Options::ServerServer {
        external_address: "0.0.0.0:8001".to_string(),
        internal_address: "0.0.0.0:8002".to_string(),
    };
    assert_eq!(plan_of(&server_server), Plan::AcceptBoth);

    let listen = Options::ClientServer {
        client_address: "10.0.0.1:9000".to_string(),
        server_address: "0.0.0.0:9001".to_string(),
        mode: ClientServerMode::Listen,
        timeout: 10,
    };
    assert_eq!(plan_of(&listen), Plan::AcceptThenDial { timeout: 10 });

    let connect = Options::ClientServer {
        client_address: "10.0.0.1:9000".to_string(),
        server_address: "0.0.0.0:9001".to_string(),
        mode: ClientServerMode::Connect,
        timeout: 4,
    };
    assert_eq!(plan_of(&connect), Plan::DialThenAccept { timeout: 4 });

    let external = Options::ClientClient {
        external_address: "a:1".to_string(),
        internal_address: "b:2".to_string(),
        mode: ClientClientMode::ConnectExternal,
        timeout: 10,
    };
    assert_eq!(plan_of(&external), Plan::DialGateDial { timeout: 10 });

    let internal = Options::ClientClient {
        external_address: "a:1".to_string(),
        internal_address: "b:2".to_string(),
        mode: ClientClientMode::ConnectInternal,
        timeout: 10,
    };
    assert_eq!(plan_of(&internal), Plan::DialGateDial { timeout: 10 });

    let both = Options::ClientClient {
        external_address: "a:1".to_string(),
        internal_address: "b:2".to_string(),
        mode: ClientClientMode::ConnectBoth,
        timeout: 2,
    };
    assert_eq!(plan_of(&both), Plan::DialBoth { timeout: 2 });
}

#[test]
fn addresses_follow_acquisition_order() {
    let server_server = Options::ServerServer {
        external_address: "ext:1".to_string(),
        internal_address: "int:2".to_string(),
    };
    assert_eq!(
        route_addresses(&server_server),
        ("ext:1".to_string(), "int:2".to_string())
    );

    let listen = Options::ClientServer {
        client_address: "cli:1".to_string(),
        server_address: "srv:2".to_string(),
        mode: ClientServerMode::Listen,
        timeout: 10,
    };
    assert_eq!(
        route_addresses(&listen),
        ("srv:2".to_string(), "cli:1".to_string())
    );

    let connect = Options::ClientServer {
        client_address: "cli:1".to_string(),
        server_address: "srv:2".to_string(),
        mode: ClientServerMode::Connect,
        timeout: 10,
    };
    assert_eq!(
        route_addresses(&connect),
        ("cli:1".to_string(), "srv:2".to_string())
    );

    let internal_first = Options::ClientClient {
        external_address: "ext:1".to_string(),
        internal_address: "int:2".to_string(),
        mode: ClientClientMode::ConnectInternal,
        timeout: 10,
    };
    assert_eq!(
        route_addresses(&internal_first),
        ("int:2".to_string(), "ext:1".to_string())
    );

    let external_first = Options::ClientClient {
        external_address: "ext:1".to_string(),
        internal_address: "int:2".to_string(),
        mode: ClientClientMode::ConnectExternal,
        timeout: 10,
    };
    assert_eq!(
        route_addresses(&external_first),
        ("ext:1".to_string(), "int:2".to_string())
    );
}
