//! Machine-checked laws of the event dispatcher, phrased over the trace
//! semantics of [`crate::dispatch`]: classification completeness, condition
//! validation, teardown completeness and order, steady-state behavior, the
//! tx drain-failure asymmetry, and the terminal state.

use vstd::prelude::*;

use crate::dispatch::{
    is_processor_action, is_registrar_action, on_notification, on_outcome,
    processor_invocations, registrar_calls, run, step, Action, Event, Notification, Phase, Resume,
    RX_IOEVENT_DATA, TAPFD_DATA, TX_IOEVENT_DATA,
};

verus! {

/// Running over a concatenation is running over the first part, then the
/// second from where the first left off, with the requested actions
/// concatenated likewise.
pub proof fn lemma_run_append(p: Phase, a: Seq<Event>, b: Seq<Event>)
    ensures
        run(p, a + b).0 == run(run(p, a).0, b).0,
        run(p, a + b).1 =~= run(p, a).1 + run(run(p, a).0, b).1,
    decreases a.len(),
{
    if a.len() == 0 {
        assert(a + b =~= b);
        assert(run(p, a).1 =~= Seq::<Action>::empty());
        assert(run(p, a).1 + run(run(p, a).0, b).1 =~= run(p, b).1);
    } else {
        let first = step(p, a[0]);
        assert((a + b)[0] == a[0]);
        assert((a + b).drop_first() =~= a.drop_first() + b);
        lemma_run_append(first.0, a.drop_first(), b);
        assert(run(p, a + b).1 =~= run(p, a).1 + run(run(p, a).0, b).1);
    }
}

/// Both action counts distribute over concatenation.
pub proof fn lemma_counts_add(a: Seq<Action>, b: Seq<Action>)
    ensures
        processor_invocations(a + b) == processor_invocations(a) + processor_invocations(b),
        registrar_calls(a + b) == registrar_calls(a) + registrar_calls(b),
    decreases a.len(),
{
    if a.len() == 0 {
        assert(a + b =~= b);
    } else {
        assert((a + b)[0] == a[0]);
        assert((a + b).drop_first() =~= a.drop_first() + b);
        lemma_counts_add(a.drop_first(), b);
    }
}

/// The counts of a single requested action.
pub proof fn lemma_counts_singleton(a: Action)
    ensures
        processor_invocations(seq![a]) == if is_processor_action(a) {
            1nat
        } else {
            0nat
        },
        registrar_calls(seq![a]) == if is_registrar_action(a) {
            1nat
        } else {
            0nat
        },
{
    assert(seq![a].drop_first() =~= Seq::<Action>::empty());
    assert(seq![a][0] == a);
    assert(processor_invocations(Seq::<Action>::empty()) == 0);
    assert(registrar_calls(Seq::<Action>::empty()) == 0);
}

/// The events of one readable notification from source `s` in which
/// everything the machine asks for succeeds: the notification itself, then
/// one successful outcome per requested action (one for the tap path, two —
/// the drain, then the processor — for each kick path).
pub open spec fn successful_round(s: u32) -> Seq<Event> {
    if s == TAPFD_DATA {
        seq![Event::Notify(Notification { source: s, readable: true }), Event::Outcome(true)]
    } else {
        seq![
            Event::Notify(Notification { source: s, readable: true }),
            Event::Outcome(true),
            Event::Outcome(true),
        ]
    }
}

/// Classification completeness: a readable notification carrying one of the
/// three registered source tags, with everything the machine asks for
/// succeeding, invokes exactly the one queue processor belonging to that tag
/// — the tap processor directly, the rx and tx processors after their kick
/// drain — makes no registrar call, and leaves the machine operational.
pub proof fn lemma_classification_completeness(s: u32)
    requires
        s == TAPFD_DATA || s == RX_IOEVENT_DATA || s == TX_IOEVENT_DATA,
    ensures
        ({
            let out = run(Phase::Ready, successful_round(s));
            &&& out.0 == Phase::Ready
            &&& (s == TAPFD_DATA ==> out.1 =~= seq![
                Action::ProcessTap,
                Action::AwaitNotification,
            ])
            &&& (s == RX_IOEVENT_DATA ==> out.1 =~= seq![
                Action::DrainRx,
                Action::ProcessRx,
                Action::AwaitNotification,
            ])
            &&& (s == TX_IOEVENT_DATA ==> out.1 =~= seq![
                Action::DrainTx,
                Action::ProcessTx,
                Action::AwaitNotification,
            ])
            &&& processor_invocations(out.1) == 1
            &&& registrar_calls(out.1) == 0
        }),
{
    reveal_with_fuel(run, 4);
    reveal_with_fuel(processor_invocations, 4);
    reveal_with_fuel(registrar_calls, 4);
    let tr = successful_round(s);
    if s == TAPFD_DATA {
        assert(tr.drop_first() =~= seq![Event::Outcome(true)]);
        assert(seq![Event::Outcome(true)].drop_first() =~= Seq::<Event>::empty());
        assert(run(Phase::Ready, tr).1 =~= seq![Action::ProcessTap, Action::AwaitNotification]);
    } else {
        assert(tr.drop_first() =~= seq![Event::Outcome(true), Event::Outcome(true)]);
        assert(seq![Event::Outcome(true), Event::Outcome(true)].drop_first() =~= seq![
            Event::Outcome(true),
        ]);
        assert(seq![Event::Outcome(true)].drop_first() =~= Seq::<Event>::empty());
    }
}

/// Registration completeness: from the phase `init` puts a fresh machine in,
/// three successful adds register the three sources in the fixed order tap,
/// rx kick, tx kick, and the machine becomes operational; any add that fails
/// halts the instance before it ever processes a notification.
pub proof fn lemma_init_registration()
    ensures
        ({
            let out = run(
                Phase::AddingTap,
                seq![Event::Outcome(true), Event::Outcome(true), Event::Outcome(true)],
            );
            &&& out.0 == Phase::Ready
            &&& out.1 =~= seq![Action::AddRx, Action::AddTx, Action::AwaitNotification]
        }),
        on_outcome(Phase::AddingTap, false) == (Phase::Halted, Action::Halt),
        on_outcome(Phase::AddingRx, false) == (Phase::Halted, Action::Halt),
        on_outcome(Phase::AddingTx, false) == (Phase::Halted, Action::Halt),
{
    reveal_with_fuel(run, 4);
    let o_t = Event::Outcome(true);
    assert(seq![o_t, o_t, o_t].drop_first() =~= seq![o_t, o_t]);
    assert(seq![o_t, o_t].drop_first() =~= seq![o_t]);
    assert(seq![o_t].drop_first() =~= Seq::<Event>::empty());
}

/// The phases a fatal condition passes through on its way to rest: the three
/// removals of a teardown that ends the instance, and the two terminal
/// phases.
pub open spec fn winding_down(p: Phase) -> bool {
    ||| p == Phase::RemovingTap(Resume::Stop)
    ||| p == Phase::RemovingRx(Resume::Stop)
    ||| p == Phase::RemovingTx(Resume::Stop)
    ||| p == Phase::Stopped
    ||| p == Phase::Halted
}

/// From any winding-down phase, no later event — an outcome or a stray
/// notification — ever makes the machine invoke a queue processor, and the
/// machine stays winding down.
pub proof fn lemma_winding_down_no_processors(p: Phase, es: Seq<Event>)
    requires
        winding_down(p),
    ensures
        winding_down(run(p, es).0),
        processor_invocations(run(p, es).1) == 0,
    decreases es.len(),
{
    if es.len() > 0 {
        let first = step(p, es[0]);
        assert(winding_down(first.0));
        assert(!is_processor_action(first.1));
        lemma_winding_down_no_processors(first.0, es.drop_first());
        lemma_counts_singleton(first.1);
        lemma_counts_add(seq![first.1], run(first.0, es.drop_first()).1);
    }
}

/// Condition validation: from the operational phase, a notification whose
/// condition is not "readable" begins teardown at once — the first requested
/// action is the tap removal — and no queue processor is invoked then or
/// ever after, whatever events follow.
pub proof fn lemma_condition_validation(n: Notification, es: Seq<Event>)
    requires
        !n.readable,
    ensures
        on_notification(Phase::Ready, n).1 == Action::RemoveTap,
        processor_invocations(run(on_notification(Phase::Ready, n).0, es).1) == 0,
{
    lemma_winding_down_no_processors(on_notification(Phase::Ready, n).0, es);
}

/// Defensive classification: a readable notification whose source tag is
/// none of the three registered ones likewise begins teardown at once, and
/// no queue processor is ever invoked afterwards.
pub proof fn lemma_unknown_source(n: Notification, es: Seq<Event>)
    requires
        n.readable,
        n.source != TAPFD_DATA,
        n.source != RX_IOEVENT_DATA,
        n.source != TX_IOEVENT_DATA,
    ensures
        on_notification(Phase::Ready, n).1 == Action::RemoveTap,
        processor_invocations(run(on_notification(Phase::Ready, n).0, es).1) == 0,
{
    lemma_winding_down_no_processors(on_notification(Phase::Ready, n).0, es);
}

/// Teardown completeness: whenever any event makes the machine begin
/// teardown — its requested action is the tap removal — then, with each
/// removal succeeding, the three registrations are removed exactly once
/// each, in the fixed order tap, rx kick, tx kick, regardless of which
/// source triggered the failure. Afterwards the machine stops; only a failed
/// tx drain leaves the tx processor still owed its invocation first.
pub proof fn lemma_teardown_completeness(p: Phase, e: Event)
    requires
        step(p, e).1 == Action::RemoveTap,
    ensures
        ({
            let begun = step(p, e).0;
            let removals = run(begun, seq![Event::Outcome(true), Event::Outcome(true)]);
            &&& seq![step(p, e).1] + removals.1 =~= seq![
                Action::RemoveTap,
                Action::RemoveRx,
                Action::RemoveTx,
            ]
            &&& (removals.0 == Phase::RemovingTx(Resume::Stop) || removals.0 == Phase::RemovingTx(
                Resume::RunTxProcessor,
            ))
            &&& (removals.0 == Phase::RemovingTx(Resume::RunTxProcessor) <==> (p
                == Phase::TxDraining && e == Event::Outcome(false)))
            &&& on_outcome(removals.0, true) == if removals.0 == Phase::RemovingTx(Resume::Stop) {
                (Phase::Stopped, Action::AwaitNotification)
            } else {
                (Phase::TxRunning(true), Action::ProcessTx)
            }
        }),
{
    reveal_with_fuel(run, 4);
    let begun = step(p, e).0;
    assert(begun == Phase::RemovingTap(Resume::Stop) || begun == Phase::RemovingTap(
        Resume::RunTxProcessor,
    ));
    let es2 = seq![Event::Outcome(true), Event::Outcome(true)];
    assert(es2.drop_first() =~= seq![Event::Outcome(true)]);
    assert(seq![Event::Outcome(true)].drop_first() =~= Seq::<Event>::empty());
    assert(seq![step(p, e).1] + run(begun, es2).1 =~= seq![
        Action::RemoveTap,
        Action::RemoveRx,
        Action::RemoveTx,
    ]);
}

/// `n` consecutive rx rounds: each a valid `RxKick` notification followed by
/// a successful drain and a successful rx-processor call.
pub open spec fn rx_rounds(n: nat) -> Seq<Event>
    decreases n,
{
    if n == 0 {
        Seq::empty()
    } else {
        successful_round(RX_IOEVENT_DATA) + rx_rounds((n - 1) as nat)
    }
}

/// Steady state: after any number of valid rx kicks, each drained and
/// processed successfully, the machine is still operational, has invoked a
/// queue processor exactly once per kick, and has made no registrar call —
/// in particular, no teardown.
pub proof fn lemma_steady_state(n: nat)
    ensures
        ({
            let out = run(Phase::Ready, rx_rounds(n));
            &&& out.0 == Phase::Ready
            &&& processor_invocations(out.1) == n
            &&& registrar_calls(out.1) == 0
        }),
    decreases n,
{
    if n > 0 {
        let round = successful_round(RX_IOEVENT_DATA);
        lemma_run_append(Phase::Ready, round, rx_rounds((n - 1) as nat));
        lemma_classification_completeness(RX_IOEVENT_DATA);
        lemma_steady_state((n - 1) as nat);
        lemma_counts_add(
            run(Phase::Ready, round).1,
            run(Phase::Ready, rx_rounds((n - 1) as nat)).1,
        );
    }
}

/// Tx drain-failure asymmetry: when the tx kick's drain fails, teardown runs
/// — all three removals — yet the tx processor is still invoked afterwards,
/// and only then does the machine stop. When the rx kick's drain fails, the
/// rx processor is never invoked: teardown runs and the machine stops. The
/// two traces below, with all removals and the late tx-processor call
/// succeeding, pin the exact order.
pub proof fn lemma_tx_drain_failure_asymmetry()
    ensures
        ({
            let tx = run(
                Phase::Ready,
                seq![
                    Event::Notify(Notification { source: TX_IOEVENT_DATA, readable: true }),
                    Event::Outcome(false),
                    Event::Outcome(true),
                    Event::Outcome(true),
                    Event::Outcome(true),
                    Event::Outcome(true),
                ],
            );
            let rx = run(
                Phase::Ready,
                seq![
                    Event::Notify(Notification { source: RX_IOEVENT_DATA, readable: true }),
                    Event::Outcome(false),
                    Event::Outcome(true),
                    Event::Outcome(true),
                    Event::Outcome(true),
                ],
            );
            &&& tx.1 =~= seq![
                Action::DrainTx,
                Action::RemoveTap,
                Action::RemoveRx,
                Action::RemoveTx,
                Action::ProcessTx,
                Action::AwaitNotification,
            ]
            &&& tx.0 == Phase::Stopped
            &&& rx.1 =~= seq![
                Action::DrainRx,
                Action::RemoveTap,
                Action::RemoveRx,
                Action::RemoveTx,
                Action::AwaitNotification,
            ]
            &&& rx.0 == Phase::Stopped
        }),
{
    reveal_with_fuel(run, 8);
    let o_t = Event::Outcome(true);
    let o_f = Event::Outcome(false);
    let tx_es = seq![
        Event::Notify(Notification { source: TX_IOEVENT_DATA, readable: true }),
        o_f,
        o_t,
        o_t,
        o_t,
        o_t,
    ];
    assert(tx_es.drop_first() =~= seq![o_f, o_t, o_t, o_t, o_t]);
    assert(seq![o_f, o_t, o_t, o_t, o_t].drop_first() =~= seq![o_t, o_t, o_t, o_t]);
    assert(seq![o_t, o_t, o_t, o_t].drop_first() =~= seq![o_t, o_t, o_t]);
    assert(seq![o_t, o_t, o_t].drop_first() =~= seq![o_t, o_t]);
    assert(seq![o_t, o_t].drop_first() =~= seq![o_t]);
    assert(seq![o_t].drop_first() =~= Seq::<Event>::empty());
    let rx_es = seq![
        Event::Notify(Notification { source: RX_IOEVENT_DATA, readable: true }),
        o_f,
        o_t,
        o_t,
        o_t,
    ];
    assert(rx_es.drop_first() =~= seq![o_f, o_t, o_t, o_t]);
    assert(seq![o_f, o_t, o_t, o_t].drop_first() =~= seq![o_t, o_t, o_t]);
}

/// Terminal phases: stopped for good, or halted on an infrastructure
/// inconsistency.
pub open spec fn terminal(p: Phase) -> bool {
    p == Phase::Stopped || p == Phase::Halted
}

/// Terminal state: once the machine is stopped or halted, no sequence of
/// further events makes it ask for a registrar call or a processor
/// invocation, and it never leaves the terminal phases.
pub proof fn lemma_terminal_state(p: Phase, es: Seq<Event>)
    requires
        terminal(p),
    ensures
        terminal(run(p, es).0),
        registrar_calls(run(p, es).1) == 0,
        processor_invocations(run(p, es).1) == 0,
    decreases es.len(),
{
    if es.len() > 0 {
        let first = step(p, es[0]);
        assert(terminal(first.0));
        assert(!is_registrar_action(first.1) && !is_processor_action(first.1));
        lemma_terminal_state(first.0, es.drop_first());
        lemma_counts_singleton(first.1);
        lemma_counts_add(seq![first.1], run(first.0, es.drop_first()).1);
    }
}

} // verus!
