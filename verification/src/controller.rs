//! The topology controller: an explicit state machine that, for each
//! configured topology, decides in what order to accept and dial, how to
//! retry a failed dial, when the lazy-dial gate lets the downstream dial
//! proceed, and when a new channel may begin.
//!
//! The surrounding binary performs one directive at a time (an accept, a
//! dial, a timed sleep, a non-destructive peek, or the relay itself), reports
//! the resulting event, and asks the controller for the next directive.

use crate::options::ClientClientMode;
use crate::options::ClientServerMode;
use crate::options::Options;
use vstd::prelude::*;

verus! {

/// One of the two endpoints of a channel, in acquisition order.
#[derive(Clone, Copy, Debug, PartialEq, Eq, Structural)]
pub enum Target {
    /// The endpoint acquired first.
    First,
    /// The endpoint acquired second.
    Second,
}

/// The acquisition plan a topology follows for every channel. The retry
/// timeout is the configured sleep, in seconds, between dial attempts.
#[derive(Clone, Copy, Debug, PartialEq, Eq, Structural)]
pub enum Plan {
    /// Listener on both sides: both accepts are issued together.
    AcceptBoth,
    /// Accept the first endpoint, then dial the second; a failed dial
    /// restarts the whole channel attempt, replacement accept included.
    AcceptThenDial { timeout: u64 },
    /// Dial the first endpoint with retry, then accept the second.
    DialThenAccept { timeout: u64 },
    /// Dial the trigger endpoint with retry, then wait until it shows data
    /// before dialing the target endpoint with its own retry.
    DialGateDial { timeout: u64 },
    /// Dial both endpoints, each with its own retry, first then second.
    DialBoth { timeout: u64 },
}

/// Where the controller stands inside one channel attempt.
#[derive(Clone, Copy, Debug, PartialEq, Eq, Structural)]
pub enum Phase {
    /// Both accepts of a listener-to-listener channel are outstanding.
    AwaitPair,
    /// The first acquisition (accept or dial, per plan) is outstanding.
    AwaitFirst,
    /// The trigger connection is open; the peek is outstanding.
    AwaitGate,
    /// The second acquisition is outstanding.
    AwaitSecond,
    /// Both endpoints are connected and the relay is running.
    Relaying,
    /// An unrecoverable listener fault happened; the process must stop.
    Halted,
}

/// What the surrounding binary reports back after performing a directive.
#[derive(Clone, Copy, Debug, PartialEq, Eq, Structural)]
pub enum Event {
    /// Both outstanding accepts completed.
    PairAccepted,
    /// The single outstanding accept completed.
    AcceptOk,
    /// An accept (or bind) failed: an unrecoverable listener fault.
    AcceptFailed,
    /// The outstanding dial connected.
    DialOk,
    /// The outstanding dial failed (refused, unreachable, timeout).
    DialFailed,
    /// A non-destructive peek of the trigger connection observed this many
    /// bytes; zero means the peer closed without sending anything.
    Peeked(usize),
    /// The peek itself failed.
    PeekFailed,
    /// Enabling the no-delay option on a connection failed while starting
    /// the relay; the channel attempt is abandoned.
    SetupFailed,
    /// Both relay directions have finished; the channel is over.
    RelayFinished,
}

/// What the surrounding binary must do next.
#[derive(Clone, Copy, Debug, PartialEq, Eq, Structural)]
pub enum Directive {
    /// Issue both accepts, one per listener, and wait for both.
    AcceptPair,
    /// Issue the single accept of this plan and wait for it.
    Accept,
    /// Dial the given endpoint now.
    Dial(Target),
    /// Warn, sleep the given number of seconds, then dial the given endpoint
    /// again.
    SleepThenDial(Target, u64),
    /// Warn, sleep the given number of seconds, then restart the channel
    /// attempt with a fresh accept.
    SleepThenAccept(u64),
    /// Peek the trigger connection without consuming bytes.
    Peek,
    /// Enable no-delay on both connections, split them, and run both relay
    /// directions to completion.
    StartRelay,
    /// Stop the process: an unrecoverable listener fault.
    Halt,
    /// The reported event cannot occur in this phase; do nothing.
    Ignore,
}

/// Whether the lazy-dial gate lets the downstream dial proceed: it does
/// exactly when the peek observed at least one byte.
pub open spec fn gate_passes(peeked: usize) -> bool {
    peeked > 0
}

/// The lazy-dial gate's decision on what a non-destructive inspection of the
/// trigger connection observed: `false` for a peer that closed without
/// sending anything (nothing to tunnel), `true` once at least one byte is
/// observable.
pub fn wait_for_signal(peeked: usize) -> (proceed: bool)
    ensures
        proceed == gate_passes(peeked),
{
    peeked > 0
}

/// The phase and directive a fresh channel attempt starts from.
pub open spec fn spec_channel_start(plan: Plan) -> (Phase, Directive) {
    match plan {
        Plan::AcceptBoth => (Phase::AwaitPair, Directive::AcceptPair),
        Plan::AcceptThenDial { .. } => (Phase::AwaitFirst, Directive::Accept),
        Plan::DialThenAccept { .. } => (Phase::AwaitFirst, Directive::Dial(Target::First)),
        Plan::DialGateDial { .. } => (Phase::AwaitFirst, Directive::Dial(Target::First)),
        Plan::DialBoth { .. } => (Phase::AwaitFirst, Directive::Dial(Target::First)),
    }
}

/// The transition relation of the controller: from the plan, the current
/// phase and the reported event to the next phase and the next directive.
/// Events that cannot occur in a phase leave it unchanged with `Ignore`.
pub open spec fn spec_step(plan: Plan, phase: Phase, event: Event) -> (Phase, Directive) {
    match phase {
        Phase::AwaitPair => match event {
            Event::PairAccepted => (Phase::Relaying, Directive::StartRelay),
            Event::AcceptFailed => (Phase::Halted, Directive::Halt),
            _ => (Phase::AwaitPair, Directive::Ignore),
        },
        Phase::AwaitFirst => match plan {
            Plan::AcceptBoth => (Phase::AwaitFirst, Directive::Ignore),
            Plan::AcceptThenDial { .. } => match event {
                Event::AcceptOk => (Phase::AwaitSecond, Directive::Dial(Target::Second)),
                Event::AcceptFailed => (Phase::Halted, Directive::Halt),
                _ => (Phase::AwaitFirst, Directive::Ignore),
            },
            Plan::DialThenAccept { timeout } => match event {
                Event::DialOk => (Phase::AwaitSecond, Directive::Accept),
                Event::DialFailed => (
                    Phase::AwaitFirst,
                    Directive::SleepThenDial(Target::First, timeout),
                ),
                _ => (Phase::AwaitFirst, Directive::Ignore),
            },
            Plan::DialGateDial { timeout } => match event {
                Event::DialOk => (Phase::AwaitGate, Directive::Peek),
                Event::DialFailed => (
                    Phase::AwaitFirst,
                    Directive::SleepThenDial(Target::First, timeout),
                ),
                _ => (Phase::AwaitFirst, Directive::Ignore),
            },
            Plan::DialBoth { timeout } => match event {
                Event::DialOk => (Phase::AwaitSecond, Directive::Dial(Target::Second)),
                Event::DialFailed => (
                    Phase::AwaitFirst,
                    Directive::SleepThenDial(Target::First, timeout),
                ),
                _ => (Phase::AwaitFirst, Directive::Ignore),
            },
        },
        Phase::AwaitGate => match event {
            Event::Peeked(n) => if gate_passes(n) {
                (Phase::AwaitSecond, Directive::Dial(Target::Second))
            } else {
                (Phase::AwaitFirst, Directive::Dial(Target::First))
            },
            Event::PeekFailed => (Phase::AwaitFirst, Directive::Dial(Target::First)),
            _ => (Phase::AwaitGate, Directive::Ignore),
        },
        Phase::AwaitSecond => match plan {
            Plan::AcceptBoth => (Phase::AwaitSecond, Directive::Ignore),
            Plan::AcceptThenDial { timeout } => match event {
                Event::DialOk => (Phase::Relaying, Directive::StartRelay),
                Event::DialFailed => (Phase::AwaitFirst, Directive::SleepThenAccept(timeout)),
                _ => (Phase::AwaitSecond, Directive::Ignore),
            },
            Plan::DialThenAccept { .. } => match event {
                Event::AcceptOk => (Phase::Relaying, Directive::StartRelay),
                Event::AcceptFailed => (Phase::Halted, Directive::Halt),
                _ => (Phase::AwaitSecond, Directive::Ignore),
            },
            Plan::DialGateDial { timeout } => match event {
                Event::DialOk => (Phase::Relaying, Directive::StartRelay),
                Event::DialFailed => (
                    Phase::AwaitSecond,
                    Directive::SleepThenDial(Target::Second, timeout),
                ),
                _ => (Phase::AwaitSecond, Directive::Ignore),
            },
            Plan::DialBoth { timeout } => match event {
                Event::DialOk => (Phase::Relaying, Directive::StartRelay),
                Event::DialFailed => (
                    Phase::AwaitSecond,
                    Directive::SleepThenDial(Target::Second, timeout),
                ),
                _ => (Phase::AwaitSecond, Directive::Ignore),
            },
        },
        Phase::Relaying => match event {
            Event::RelayFinished => spec_channel_start(plan),
            Event::SetupFailed => spec_channel_start(plan),
            _ => (Phase::Relaying, Directive::Ignore),
        },
        Phase::Halted => (Phase::Halted, Directive::Halt),
    }
}

/// Begins a fresh channel attempt for this plan.
pub fn channel_start(plan: &Plan) -> (r: (Phase, Directive))
    ensures
        r == spec_channel_start(*plan),
{
    match plan {
        Plan::AcceptBoth => (Phase::AwaitPair, Directive::AcceptPair),
        Plan::AcceptThenDial { .. } => (Phase::AwaitFirst, Directive::Accept),
        Plan::DialThenAccept { .. } => (Phase::AwaitFirst, Directive::Dial(Target::First)),
        Plan::DialGateDial { .. } => (Phase::AwaitFirst, Directive::Dial(Target::First)),
        Plan::DialBoth { .. } => (Phase::AwaitFirst, Directive::Dial(Target::First)),
    }
}

/// Takes one step of the controller: consumes the event the surrounding
/// binary reported and returns the next phase and the next directive,
/// exactly as the transition relation prescribes.
pub fn controller_step(plan: &Plan, phase: Phase, event: &Event) -> (r: (Phase, Directive))
    ensures
        r == spec_step(*plan, phase, *event),
{
    match phase {
        Phase::AwaitPair => match event {
            Event::PairAccepted => (Phase::Relaying, Directive::StartRelay),
            Event::AcceptFailed => (Phase::Halted, Directive::Halt),
            _ => (Phase::AwaitPair, Directive::Ignore),
        },
        Phase::AwaitFirst => match plan {
            Plan::AcceptBoth => (Phase::AwaitFirst, Directive::Ignore),
            Plan::AcceptThenDial { .. } => match event {
                Event::AcceptOk => (Phase::AwaitSecond, Directive::Dial(Target::Second)),
                Event::AcceptFailed => (Phase::Halted, Directive::Halt),
                _ => (Phase::AwaitFirst, Directive::Ignore),
            },
            Plan::DialThenAccept { timeout } => match event {
                Event::DialOk => (Phase::AwaitSecond, Directive::Accept),
                Event::DialFailed => (
                    Phase::AwaitFirst,
                    Directive::SleepThenDial(Target::First, *timeout),
                ),
                _ => (Phase::AwaitFirst, Directive::Ignore),
            },
            Plan::DialGateDial { timeout } => match event {
                Event::DialOk => (Phase::AwaitGate, Directive::Peek),
                Event::DialFailed => (
                    Phase::AwaitFirst,
                    Directive::SleepThenDial(Target::First, *timeout),
                ),
                _ => (Phase::AwaitFirst, Directive::Ignore),
            },
            Plan::DialBoth { timeout } => match event {
                Event::DialOk => (Phase::AwaitSecond, Directive::Dial(Target::Second)),
                Event::DialFailed => (
                    Phase::AwaitFirst,
                    Directive::SleepThenDial(Target::First, *timeout),
                ),
                _ => (Phase::AwaitFirst, Directive::Ignore),
            },
        },
        Phase::AwaitGate => match event {
            Event::Peeked(n) => if wait_for_signal(*n) {
                (Phase::AwaitSecond, Directive::Dial(Target::Second))
            } else {
                (Phase::AwaitFirst, Directive::Dial(Target::First))
            },
            Event::PeekFailed => (Phase::AwaitFirst, Directive::Dial(Target::First)),
            _ => (Phase::AwaitGate, Directive::Ignore),
        },
        Phase::AwaitSecond => match plan {
            Plan::AcceptBoth => (Phase::AwaitSecond, Directive::Ignore),
            Plan::AcceptThenDial { timeout } => match event {
                Event::DialOk => (Phase::Relaying, Directive::StartRelay),
                Event::DialFailed => (Phase::AwaitFirst, Directive::SleepThenAccept(*timeout)),
                _ => (Phase::AwaitSecond, Directive::Ignore),
            },
            Plan::DialThenAccept { .. } => match event {
                Event::AcceptOk => (Phase::Relaying, Directive::StartRelay),
                Event::AcceptFailed => (Phase::Halted, Directive::Halt),
                _ => (Phase::AwaitSecond, Directive::Ignore),
            },
            Plan::DialGateDial { timeout } => match event {
                Event::DialOk => (Phase::Relaying, Directive::StartRelay),
                Event::DialFailed => (
                    Phase::AwaitSecond,
                    Directive::SleepThenDial(Target::Second, *timeout),
                ),
                _ => (Phase::AwaitSecond, Directive::Ignore),
            },
            Plan::DialBoth { timeout } => match event {
                Event::DialOk => (Phase::Relaying, Directive::StartRelay),
                Event::DialFailed => (
                    Phase::AwaitSecond,
                    Directive::SleepThenDial(Target::Second, *timeout),
                ),
                _ => (Phase::AwaitSecond, Directive::Ignore),
            },
        },
        Phase::Relaying => match event {
            Event::RelayFinished => channel_start(plan),
            Event::SetupFailed => channel_start(plan),
            _ => (Phase::Relaying, Directive::Ignore),
        },
        Phase::Halted => (Phase::Halted, Directive::Halt),
    }
}

/// The plan a configured topology follows.
pub open spec fn spec_plan_of(o: Options) -> Plan {
    match o {
        Options::ServerServer { .. } => Plan::AcceptBoth,
        Options::ClientServer { mode, timeout, .. } => match mode {
            ClientServerMode::Listen => Plan::AcceptThenDial { timeout },
            ClientServerMode::Connect => Plan::DialThenAccept { timeout },
        },
        Options::ClientClient { mode, timeout, .. } => match mode {
            ClientClientMode::ConnectExternal => Plan::DialGateDial { timeout },
            ClientClientMode::ConnectInternal => Plan::DialGateDial { timeout },
            ClientClientMode::ConnectBoth => Plan::DialBoth { timeout },
        },
    }
}

/// The address of the endpoint acquired first under each topology: the
/// external listener, the accepted or dialed side that comes first, or the
/// trigger of a gated dialer pair.
pub open spec fn spec_first_address(o: Options) -> String {
    match o {
        Options::ServerServer { external_address, .. } => external_address,
        Options::ClientServer { client_address, server_address, mode, .. } => match mode {
            ClientServerMode::Listen => server_address,
            ClientServerMode::Connect => client_address,
        },
        Options::ClientClient { external_address, internal_address, mode, .. } => match mode {
            ClientClientMode::ConnectExternal => external_address,
            ClientClientMode::ConnectInternal => internal_address,
            ClientClientMode::ConnectBoth => external_address,
        },
    }
}

/// The address of the endpoint acquired second under each topology.
pub open spec fn spec_second_address(o: Options) -> String {
    match o {
        Options::ServerServer { internal_address, .. } => internal_address,
        Options::ClientServer { client_address, server_address, mode, .. } => match mode {
            ClientServerMode::Listen => client_address,
            ClientServerMode::Connect => server_address,
        },
        Options::ClientClient { external_address, internal_address, mode, .. } => match mode {
            ClientClientMode::ConnectExternal => internal_address,
            ClientClientMode::ConnectInternal => external_address,
            ClientClientMode::ConnectBoth => internal_address,
        },
    }
}

/// Derives the acquisition plan from the configured topology: a double
/// listener accepts both sides together; a listener-and-dialer pair accepts
/// or dials first as its mode says; a double dialer gates the second dial on
/// data unless both sides are dialed unconditionally.
pub fn plan_of(o: &Options) -> (p: Plan)
    ensures
        p == spec_plan_of(*o),
{
    match o {
        Options::ServerServer { .. } => Plan::AcceptBoth,
        Options::ClientServer { mode, timeout, .. } => match mode {
            ClientServerMode::Listen => Plan::AcceptThenDial { timeout: *timeout },
            ClientServerMode::Connect => Plan::DialThenAccept { timeout: *timeout },
        },
        Options::ClientClient { mode, timeout, .. } => match mode {
            ClientClientMode::ConnectExternal => Plan::DialGateDial { timeout: *timeout },
            ClientClientMode::ConnectInternal => Plan::DialGateDial { timeout: *timeout },
            ClientClientMode::ConnectBoth => Plan::DialBoth { timeout: *timeout },
        },
    }
}

/// The two addresses of a configured topology in acquisition order: the
/// address acquired first, then the address acquired second.
pub fn route_addresses(o: &Options) -> (r: (String, String))
    ensures
        r.0 == spec_first_address(*o),
        r.1 == spec_second_address(*o),
{
    match o {
        Options::ServerServer { external_address, internal_address } => (
            external_address.clone(),
            internal_address.clone(),
        ),
        Options::ClientServer { client_address, server_address, mode, .. } => match mode {
            ClientServerMode::Listen => (server_address.clone(), client_address.clone()),
            ClientServerMode::Connect => (client_address.clone(), server_address.clone()),
        },
        Options::ClientClient { external_address, internal_address, mode, .. } => match mode {
            ClientClientMode::ConnectExternal => (
                external_address.clone(),
                internal_address.clone(),
            ),
            ClientClientMode::ConnectInternal => (
                internal_address.clone(),
                external_address.clone(),
            ),
            ClientClientMode::ConnectBoth => (
                external_address.clone(),
                internal_address.clone(),
            ),
        },
    }
}

/// The phase the controller is in after a fresh channel start followed by
/// these events, in order.
pub open spec fn run_phase(plan: Plan, events: Seq<Event>) -> Phase
    decreases events.len(),
{
    if events.len() == 0 {
        spec_channel_start(plan).0
    } else {
        spec_step(plan, run_phase(plan, events.drop_last()), events.last()).0
    }
}

/// The directives the controller issues in response to these events, in
/// order: one directive per event.
pub open spec fn run_directives(plan: Plan, events: Seq<Event>) -> Seq<Directive>
    decreases events.len(),
{
    if events.len() == 0 {
        Seq::empty()
    } else {
        run_directives(plan, events.drop_last()).push(
            spec_step(plan, run_phase(plan, events.drop_last()), events.last()).1,
        )
    }
}

/// The controller answers every event with exactly one directive.
pub proof fn lemma_run_directives_len(plan: Plan, events: Seq<Event>)
    ensures
        run_directives(plan, events).len() == events.len(),
    decreases events.len(),
{
    if events.len() > 0 {
        lemma_run_directives_len(plan, events.drop_last());
    }
}

/// A directive that opens or re-opens a connection to the second (target)
/// endpoint.
pub open spec fn dials_second(d: Directive) -> bool {
    ||| d == Directive::Dial(Target::Second)
    ||| d matches Directive::SleepThenDial(Target::Second, _)
}

/// An event that is not a peek observing data: every peek in it saw zero
/// bytes.
pub open spec fn peek_silent(e: Event) -> bool {
    e matches Event::Peeked(n) ==> n == 0
}

/// A trace in which no peek ever observed a byte.
pub open spec fn silent_peeks(events: Seq<Event>) -> bool {
    forall|i: int| 0 <= i < events.len() ==> peek_silent(#[trigger] events[i])
}

/// If the trigger connection never shows data — every upstream peer closes
/// having sent zero bytes — the gated topology never dials the target
/// endpoint: no directive in the whole run opens or retries a connection to
/// it, and the controller never even reaches the phase in which it would.
pub proof fn lemma_silent_trigger_never_dials_target(t: u64, events: Seq<Event>)
    requires
        silent_peeks(events),
    ensures
        run_phase(Plan::DialGateDial { timeout: t }, events) == Phase::AwaitFirst
            || run_phase(Plan::DialGateDial { timeout: t }, events) == Phase::AwaitGate,
        run_directives(Plan::DialGateDial { timeout: t }, events).len() == events.len(),
        forall|j: int| 0 <= j < events.len() ==> !dials_second(
            #[trigger] run_directives(Plan::DialGateDial { timeout: t }, events)[j],
        ),
    decreases events.len(),
{
    let plan = Plan::DialGateDial { timeout: t };
    if events.len() > 0 {
        let prefix = events.drop_last();
        assert(silent_peeks(prefix)) by {
            assert(forall|i: int| 0 <= i < prefix.len() ==> #[trigger] prefix[i] == events[i]);
        }
        lemma_silent_trigger_never_dials_target(t, prefix);
        assert(peek_silent(events.last()));
        assert(!dials_second(spec_step(plan, run_phase(plan, prefix), events.last()).1));
    }
}

/// An event reporting a peek that observed at least one byte.
pub open spec fn gate_signal_event(e: Event) -> bool {
    e matches Event::Peeked(n) && gate_passes(n)
}

/// In the gated topology, a peek that observes data makes the controller
/// dial the target endpoint at once, exactly then, and wait for that dial.
pub proof fn lemma_data_trigger_dials_target(t: u64, n: usize)
    requires
        gate_passes(n),
    ensures
        spec_step(Plan::DialGateDial { timeout: t }, Phase::AwaitGate, Event::Peeked(n))
            == (Phase::AwaitSecond, Directive::Dial(Target::Second)),
{
}

/// How many directives in a run open a fresh connection to the target
/// endpoint (retries of an already-decided dial not counted).
pub open spec fn count_target_dials(ds: Seq<Directive>) -> nat
    decreases ds.len(),
{
    if ds.len() == 0 {
        0
    } else {
        count_target_dials(ds.drop_last()) + if ds.last() == Directive::Dial(Target::Second) {
            1nat
        } else {
            0nat
        }
    }
}

/// How many times the lazy-dial gate passed in a run of the gated topology:
/// a peek that observed data while the peek itself was the outstanding step.
pub open spec fn count_gate_passes(t: u64, events: Seq<Event>) -> nat
    decreases events.len(),
{
    if events.len() == 0 {
        0
    } else {
        count_gate_passes(t, events.drop_last()) + if run_phase(
            Plan::DialGateDial { timeout: t },
            events.drop_last(),
        ) == Phase::AwaitGate && gate_signal_event(events.last()) {
            1nat
        } else {
            0nat
        }
    }
}

/// In the gated topology the target endpoint is dialed exactly once per
/// trigger connection that shows data: the number of fresh target dials in
/// any run equals the number of data-bearing peeks. Together with
/// the retry cadence this is the whole dial policy of the gated pair; the
/// bytes themselves are then delivered per the relay's fidelity.
pub proof fn lemma_target_dialed_once_per_signal(t: u64, events: Seq<Event>)
    ensures
        count_target_dials(run_directives(Plan::DialGateDial { timeout: t }, events))
            == count_gate_passes(t, events),
    decreases events.len(),
{
    let plan = Plan::DialGateDial { timeout: t };
    if events.len() > 0 {
        lemma_target_dialed_once_per_signal(t, events.drop_last());
        lemma_run_directives_len(plan, events.drop_last());
        assert(run_directives(plan, events).drop_last() =~= run_directives(
            plan,
            events.drop_last(),
        ));
    }
}

/// A channel begins only when both sides are ready: under every plan, the
/// relay is started exactly on the event that completes the later of the two
/// acquisitions, never with only one endpoint acquired.
pub proof fn lemma_relay_needs_both_sides(plan: Plan, phase: Phase, event: Event)
    ensures
        spec_step(plan, phase, event).1 == Directive::StartRelay ==> (phase == Phase::AwaitPair
            && event == Event::PairAccepted) || (phase == Phase::AwaitSecond && (event
            == Event::DialOk || event == Event::AcceptOk)),
{
}

/// Channels are strictly sequential: while a relay is running the controller
/// acquires nothing, and only the end of the relay (or a failed channel
/// setup) makes it begin the next channel attempt from the top.
pub proof fn lemma_channels_sequential(plan: Plan, event: Event)
    ensures
        event == Event::RelayFinished || event == Event::SetupFailed ==> spec_step(
            plan,
            Phase::Relaying,
            event,
        ) == spec_channel_start(plan),
        event != Event::RelayFinished && event != Event::SetupFailed ==> spec_step(
            plan,
            Phase::Relaying,
            event,
        ) == (Phase::Relaying, Directive::Ignore),
{
}

/// In the listener-then-dialer plan a failed dial restarts the whole channel
/// attempt: one warn-and-sleep with the configured interval, then a
/// replacement accept — an already-accepted connection is never reused
/// across a failed dial — and a fresh dial only after that accept completes.
pub proof fn lemma_failed_dial_forces_reaccept(t: u64)
    ensures
        spec_step(
            Plan::AcceptThenDial { timeout: t },
            Phase::AwaitSecond,
            Event::DialFailed,
        ) == (Phase::AwaitFirst, Directive::SleepThenAccept(t)),
        spec_step(Plan::AcceptThenDial { timeout: t }, Phase::AwaitFirst, Event::AcceptOk) == (
            Phase::AwaitSecond,
            Directive::Dial(Target::Second),
        ),
{
}

/// The plans whose first acquisition is a dial with in-place retry.
pub open spec fn dial_first_plan(plan: Plan) -> bool {
    ||| plan matches Plan::DialThenAccept { .. }
    ||| plan matches Plan::DialGateDial { .. }
    ||| plan matches Plan::DialBoth { .. }
}

/// The configured retry interval of a plan that has one.
pub open spec fn plan_timeout(plan: Plan) -> u64 {
    match plan {
        Plan::AcceptBoth => 0,
        Plan::AcceptThenDial { timeout } => timeout,
        Plan::DialThenAccept { timeout } => timeout,
        Plan::DialGateDial { timeout } => timeout,
        Plan::DialBoth { timeout } => timeout,
    }
}

/// The directive that follows a successful first dial under each dial-first
/// plan: accept the second side, peek the trigger, or dial the second side.
pub open spec fn after_first_dial(plan: Plan) -> (Phase, Directive) {
    match plan {
        Plan::DialThenAccept { .. } => (Phase::AwaitSecond, Directive::Accept),
        Plan::DialGateDial { .. } => (Phase::AwaitGate, Directive::Peek),
        _ => (Phase::AwaitSecond, Directive::Dial(Target::Second)),
    }
}

/// While the first dial keeps failing, the controller stays in place and
/// answers every failure with one warn-sleep-redial directive carrying the
/// configured interval.
pub proof fn lemma_all_dial_failures(plan: Plan, events: Seq<Event>)
    requires
        dial_first_plan(plan),
        forall|i: int| 0 <= i < events.len() ==> #[trigger] events[i] == Event::DialFailed,
    ensures
        run_phase(plan, events) == Phase::AwaitFirst,
        run_directives(plan, events).len() == events.len(),
        forall|i: int| 0 <= i < events.len() ==> #[trigger] run_directives(plan, events)[i]
            == Directive::SleepThenDial(Target::First, plan_timeout(plan)),
    decreases events.len(),
{
    if events.len() > 0 {
        let prefix = events.drop_last();
        assert(forall|i: int| 0 <= i < prefix.len() ==> #[trigger] prefix[i] == events[i]);
        lemma_all_dial_failures(plan, prefix);
        assert(events.last() == Event::DialFailed);
    }
}

/// Retry cadence of a failing dial: N consecutive dial failures followed by
/// a success produce exactly N warn-sleep-redial directives, each with the
/// configured interval, and nothing else, before the acquisition proceeds to
/// its next step.
pub proof fn lemma_dial_retry_cadence(plan: Plan, events: Seq<Event>)
    requires
        dial_first_plan(plan),
        events.len() >= 1,
        forall|i: int| 0 <= i < events.len() - 1 ==> #[trigger] events[i] == Event::DialFailed,
        events.last() == Event::DialOk,
    ensures
        run_directives(plan, events).len() == events.len(),
        forall|i: int| 0 <= i < events.len() - 1 ==> #[trigger] run_directives(plan, events)[i]
            == Directive::SleepThenDial(Target::First, plan_timeout(plan)),
        run_directives(plan, events).last() == after_first_dial(plan).1,
        run_phase(plan, events) == after_first_dial(plan).0,
{
    let prefix = events.drop_last();
    assert(forall|i: int| 0 <= i < prefix.len() ==> #[trigger] prefix[i] == events[i]);
    lemma_all_dial_failures(plan, prefix);
}

/// The trace of N failed channel attempts under the accept-then-dial plan:
/// each attempt accepts an inbound connection and then fails the dial.
pub open spec fn reaccept_cycle_events(n: nat) -> Seq<Event>
    decreases n,
{
    if n == 0 {
        Seq::empty()
    } else {
        reaccept_cycle_events((n - 1) as nat) + seq![Event::AcceptOk, Event::DialFailed]
    }
}

/// While the dial of an accept-then-dial channel keeps failing, every
/// attempt costs exactly one dial directive and one warn-and-sleep directive
/// with the configured interval, and the controller is back at a fresh
/// accept.
pub proof fn lemma_all_reaccept_cycles(t: u64, n: nat)
    ensures
        run_phase(Plan::AcceptThenDial { timeout: t }, reaccept_cycle_events(n))
            == Phase::AwaitFirst,
        run_directives(Plan::AcceptThenDial { timeout: t }, reaccept_cycle_events(n)).len() == 2
            * n,
        forall|j: int| 0 <= j < 2 * n ==> #[trigger] run_directives(
            Plan::AcceptThenDial { timeout: t },
            reaccept_cycle_events(n),
        )[j] == (if j % 2 == 0 {
            Directive::Dial(Target::Second)
        } else {
            Directive::SleepThenAccept(t)
        }),
    decreases n,
{
    let plan = Plan::AcceptThenDial { timeout: t };
    let events = reaccept_cycle_events(n);
    if n == 0 {
        assert(events =~= Seq::<Event>::empty());
    } else {
        let prev = reaccept_cycle_events((n - 1) as nat);
        lemma_all_reaccept_cycles(t, (n - 1) as nat);
        let mid = prev.push(Event::AcceptOk);
        assert(events =~= mid.push(Event::DialFailed));
        assert(mid.drop_last() =~= prev);
        assert(events.drop_last() =~= mid);
        assert(run_phase(plan, mid) == Phase::AwaitSecond);
        assert(run_directives(plan, mid) =~= run_directives(plan, prev).push(
            Directive::Dial(Target::Second),
        ));
        assert(run_directives(plan, events) =~= run_directives(plan, mid).push(
            Directive::SleepThenAccept(t),
        ));
    }
}

/// Retry cadence of the accept-then-dial plan: N failed dials, each paired
/// with the accept that preceded it, followed by a successful attempt,
/// produce exactly N warn-and-sleep directives with the configured interval
/// — one per failure, each answered with a replacement accept — and the
/// relay starts only after the final dial succeeds.
pub proof fn lemma_reaccept_retry_cadence(t: u64, n: nat)
    ensures
        run_phase(
            Plan::AcceptThenDial { timeout: t },
            reaccept_cycle_events(n).push(Event::AcceptOk).push(Event::DialOk),
        ) == Phase::Relaying,
        run_directives(
            Plan::AcceptThenDial { timeout: t },
            reaccept_cycle_events(n).push(Event::AcceptOk).push(Event::DialOk),
        ).len() == 2 * n + 2,
        forall|j: int| 0 <= j < 2 * n ==> #[trigger] run_directives(
            Plan::AcceptThenDial { timeout: t },
            reaccept_cycle_events(n).push(Event::AcceptOk).push(Event::DialOk),
        )[j] == (if j % 2 == 0 {
            Directive::Dial(Target::Second)
        } else {
            Directive::SleepThenAccept(t)
        }),
        run_directives(
            Plan::AcceptThenDial { timeout: t },
            reaccept_cycle_events(n).push(Event::AcceptOk).push(Event::DialOk),
        )[2 * n as int] == Directive::Dial(Target::Second),
        run_directives(
            Plan::AcceptThenDial { timeout: t },
            reaccept_cycle_events(n).push(Event::AcceptOk).push(Event::DialOk),
        ).last() == Directive::StartRelay,
{
    let plan = Plan::AcceptThenDial { timeout: t };
    let cycles = reaccept_cycle_events(n);
    lemma_all_reaccept_cycles(t, n);
    let mid = cycles.push(Event::AcceptOk);
    let full = mid.push(Event::DialOk);
    assert(mid.drop_last() =~= cycles);
    assert(full.drop_last() =~= mid);
    assert(run_phase(plan, mid) == Phase::AwaitSecond);
    assert(run_directives(plan, mid) =~= run_directives(plan, cycles).push(
        Directive::Dial(Target::Second),
    ));
    assert(run_directives(plan, full) =~= run_directives(plan, mid).push(Directive::StartRelay));
}

} // verus!
