//! Verified event-dispatch state machine for the network device.
//!
//! The host's readiness multiplexer delivers one notification at a time; the
//! machine classifies it by its registered source tag, decides which kick
//! descriptor to drain and which queue processor to run, and on any fatal
//! condition removes all three registrations (tap, then rx kick, then tx
//! kick) before stopping for good. The machine itself performs no I/O: each
//! call returns the next [`Action`] for the surrounding driver to carry out,
//! and the driver feeds the action's outcome back in. This keeps the whole
//! decision logic verifiable while the descriptor operations stay with the
//! host-facing code.

use vstd::prelude::*;

verus! {

/// Source tag under which the tap descriptor is registered.
pub const TAPFD_DATA: u32 = 0;

/// Source tag under which the rx kick descriptor is registered.
pub const RX_IOEVENT_DATA: u32 = 1;

/// Source tag under which the tx kick descriptor is registered.
pub const TX_IOEVENT_DATA: u32 = 2;

/// One readiness notification as delivered by the host multiplexer:
/// the source tag it was registered with, and whether the observed
/// condition is exactly "readable" (the only condition ever requested).
#[derive(Clone, Copy, PartialEq, Eq, Structural, Debug)]
pub struct Notification {
    /// The source tag carried by the notification.
    pub source: u32,
    /// True when the observed condition is exactly "readable".
    pub readable: bool,
}

/// What the machine does once a notification is fully handled: either the
/// device stays operational, or (after a completed teardown) it stops.
#[derive(Clone, Copy, PartialEq, Eq, Structural, Debug)]
pub enum Resume {
    /// Teardown was the end of the matter: become `Stopped`.
    Stop,
    /// The tx drain failed, so teardown ran first, but the tx processor is
    /// still owed its invocation before the device stops.
    RunTxProcessor,
}

/// The dispatcher's control state. `Ready`, `Stopped` and `Halted` are the
/// quiescent states; every other state records exactly which requested
/// [`Action`] is outstanding.
#[derive(Clone, Copy, PartialEq, Eq, Structural, Debug)]
pub enum Phase {
    /// Constructed, not yet initialized.
    Uninit,
    /// `AddTap` outstanding.
    AddingTap,
    /// `AddRx` outstanding.
    AddingRx,
    /// `AddTx` outstanding.
    AddingTx,
    /// Operational: all three sources registered, awaiting a notification.
    Ready,
    /// `ProcessTap` outstanding.
    TapRunning,
    /// `DrainRx` outstanding.
    RxDraining,
    /// `ProcessRx` outstanding.
    RxRunning,
    /// `DrainTx` outstanding.
    TxDraining,
    /// `ProcessTx` outstanding; the field records whether teardown has
    /// already run for this notification (a failed tx drain).
    TxRunning(bool),
    /// `RemoveTap` outstanding; the field says what follows the teardown.
    RemovingTap(Resume),
    /// `RemoveRx` outstanding.
    RemovingRx(Resume),
    /// `RemoveTx` outstanding.
    RemovingTx(Resume),
    /// Terminal: registrations removed, the device is inert.
    Stopped,
    /// Terminal: a registration, removal or lock failed; the instance must
    /// halt rather than continue with inconsistent host state.
    Halted,
}

/// What the machine asks the driver to do next.
#[derive(Clone, Copy, PartialEq, Eq, Structural, Debug)]
pub enum Action {
    /// Register the tap descriptor, edge-triggered readable, tag `TAPFD_DATA`.
    AddTap,
    /// Register the rx kick descriptor, level-triggered readable.
    AddRx,
    /// Register the tx kick descriptor, level-triggered readable.
    AddTx,
    /// Drain the rx kick descriptor (read and discard its pending count).
    DrainRx,
    /// Drain the tx kick descriptor.
    DrainTx,
    /// Run the tap-readable queue processor.
    ProcessTap,
    /// Run the rx queue processor.
    ProcessRx,
    /// Run the tx queue processor.
    ProcessTx,
    /// Remove the tap registration.
    RemoveTap,
    /// Remove the rx kick registration.
    RemoveRx,
    /// Remove the tx kick registration.
    RemoveTx,
    /// Nothing outstanding: wait for the next notification (or, once
    /// stopped, for nothing at all).
    AwaitNotification,
    /// Fatal: stop the instance; the host integration is broken.
    Halt,
}

/// True for the phases in which an action is outstanding and the driver owes
/// the machine an outcome.
pub open spec fn pending(p: Phase) -> bool {
    match p {
        Phase::Uninit | Phase::Ready | Phase::Stopped | Phase::Halted => false,
        _ => true,
    }
}

/// True for the registrar-facing actions (registration adds and removals).
pub open spec fn is_registrar_action(a: Action) -> bool {
    match a {
        Action::AddTap | Action::AddRx | Action::AddTx | Action::RemoveTap | Action::RemoveRx
            | Action::RemoveTx => true,
        _ => false,
    }
}

/// True for the queue-processor invocations.
pub open spec fn is_processor_action(a: Action) -> bool {
    match a {
        Action::ProcessTap | Action::ProcessRx | Action::ProcessTx => true,
        _ => false,
    }
}

/// How a quiescent machine reacts to one delivered notification.
///
/// From `Ready`: a condition other than "readable" or an unrecognized source
/// tag is a protocol violation and begins teardown; otherwise the tap path
/// goes straight to its processor, while each kick path drains its descriptor
/// first. Once `Stopped` the machine ignores everything, and `Halted` stays
/// halted.
pub open spec fn on_notification(p: Phase, n: Notification) -> (Phase, Action) {
    match p {
        Phase::Ready => {
            if !n.readable {
                (Phase::RemovingTap(Resume::Stop), Action::RemoveTap)
            } else if n.source == TAPFD_DATA {
                (Phase::TapRunning, Action::ProcessTap)
            } else if n.source == RX_IOEVENT_DATA {
                (Phase::RxDraining, Action::DrainRx)
            } else if n.source == TX_IOEVENT_DATA {
                (Phase::TxDraining, Action::DrainTx)
            } else {
                (Phase::RemovingTap(Resume::Stop), Action::RemoveTap)
            }
        },
        Phase::Stopped => (Phase::Stopped, Action::AwaitNotification),
        _ => (Phase::Halted, Action::Halt),
    }
}

/// How the machine reacts to the outcome of the outstanding action.
///
/// A failed registration halts the instance before it ever runs. A failed
/// drain, processor call or invalid notification begins teardown: the three
/// removals in the fixed order tap, rx kick, tx kick. A failed tx drain is
/// the one asymmetric case: teardown runs, and the tx processor is still
/// invoked afterwards (`Resume::RunTxProcessor`). A failed removal is an
/// internal-consistency violation and halts the instance.
pub open spec fn on_outcome(p: Phase, ok: bool) -> (Phase, Action) {
    match p {
        Phase::AddingTap => if ok {
            (Phase::AddingRx, Action::AddRx)
        } else {
            (Phase::Halted, Action::Halt)
        },
        Phase::AddingRx => if ok {
            (Phase::AddingTx, Action::AddTx)
        } else {
            (Phase::Halted, Action::Halt)
        },
        Phase::AddingTx => if ok {
            (Phase::Ready, Action::AwaitNotification)
        } else {
            (Phase::Halted, Action::Halt)
        },
        Phase::TapRunning => if ok {
            (Phase::Ready, Action::AwaitNotification)
        } else {
            (Phase::RemovingTap(Resume::Stop), Action::RemoveTap)
        },
        Phase::RxDraining => if ok {
            (Phase::RxRunning, Action::ProcessRx)
        } else {
            (Phase::RemovingTap(Resume::Stop), Action::RemoveTap)
        },
        Phase::RxRunning => if ok {
            (Phase::Ready, Action::AwaitNotification)
        } else {
            (Phase::RemovingTap(Resume::Stop), Action::RemoveTap)
        },
        Phase::TxDraining => if ok {
            (Phase::TxRunning(false), Action::ProcessTx)
        } else {
            (Phase::RemovingTap(Resume::RunTxProcessor), Action::RemoveTap)
        },
        Phase::TxRunning(torn_down) => if ok {
            if torn_down {
                (Phase::Stopped, Action::AwaitNotification)
            } else {
                (Phase::Ready, Action::AwaitNotification)
            }
        } else {
            (Phase::RemovingTap(Resume::Stop), Action::RemoveTap)
        },
        Phase::RemovingTap(r) => if ok {
            (Phase::RemovingRx(r), Action::RemoveRx)
        } else {
            (Phase::Halted, Action::Halt)
        },
        Phase::RemovingRx(r) => if ok {
            (Phase::RemovingTx(r), Action::RemoveTx)
        } else {
            (Phase::Halted, Action::Halt)
        },
        Phase::RemovingTx(r) => if ok {
            match r {
                Resume::Stop => (Phase::Stopped, Action::AwaitNotification),
                Resume::RunTxProcessor => (Phase::TxRunning(true), Action::ProcessTx),
            }
        } else {
            (Phase::Halted, Action::Halt)
        },
        _ => (Phase::Halted, Action::Halt),
    }
}

/// One input to the machine: either a delivered readiness notification or
/// the outcome of the action the machine last requested.
#[derive(Clone, Copy, PartialEq, Eq, Structural, Debug)]
pub enum Event {
    /// A readiness notification delivered by the host multiplexer.
    Notify(Notification),
    /// Whether the outstanding action succeeded.
    Outcome(bool),
}

/// One transition of the machine on one input event.
pub open spec fn step(p: Phase, e: Event) -> (Phase, Action) {
    match e {
        Event::Notify(n) => on_notification(p, n),
        Event::Outcome(ok) => on_outcome(p, ok),
    }
}

/// The machine run over a whole sequence of input events: the final phase,
/// and the actions requested along the way, in order.
pub open spec fn run(p: Phase, es: Seq<Event>) -> (Phase, Seq<Action>)
    decreases es.len(),
{
    if es.len() == 0 {
        (p, Seq::empty())
    } else {
        let first = step(p, es[0]);
        let rest = run(first.0, es.drop_first());
        (rest.0, seq![first.1] + rest.1)
    }
}

/// How many queue-processor invocations a requested action sequence holds.
pub open spec fn processor_invocations(s: Seq<Action>) -> nat
    decreases s.len(),
{
    if s.len() == 0 {
        0
    } else {
        (if is_processor_action(s[0]) {
            1nat
        } else {
            0nat
        }) + processor_invocations(s.drop_first())
    }
}

/// How many registrar calls (adds and removals) a requested action sequence
/// holds.
pub open spec fn registrar_calls(s: Seq<Action>) -> nat
    decreases s.len(),
{
    if s.len() == 0 {
        0
    } else {
        (if is_registrar_action(s[0]) {
            1nat
        } else {
            0nat
        }) + registrar_calls(s.drop_first())
    }
}

/// The event dispatcher for one device instance.
///
/// Holds nothing but the control phase: the descriptors, the registrar and
/// the queue processors belong to the driver, which executes the actions the
/// machine asks for.
pub struct QueueHandler {
    phase: Phase,
}

impl QueueHandler {
    /// The machine's current control phase.
    pub closed spec fn phase(&self) -> Phase {
        self.phase
    }

    /// A fresh, not yet initialized dispatcher.
    pub fn new() -> (h: QueueHandler)
        ensures
            h.phase() == Phase::Uninit,
    {
        QueueHandler { phase: Phase::Uninit }
    }

    /// Begin the one-time registration of the three readiness sources.
    /// The driver must perform the returned `AddTap` and report its outcome.
    pub fn init(&mut self) -> (a: Action)
        requires
            old(self).phase() == Phase::Uninit,
        ensures
            final(self).phase() == Phase::AddingTap,
            a == Action::AddTap,
    {
        self.phase = Phase::AddingTap;
        Action::AddTap
    }

    /// Dispatch one delivered readiness notification.
    ///
    /// The driver calls this only between notifications (never while an
    /// action is outstanding) and only after `init` has been called; the
    /// machine then behaves exactly as [`on_notification`] says: it begins
    /// the tap, rx or tx path, begins teardown on a protocol violation, and
    /// ignores the notification once stopped.
    pub fn process(&mut self, n: Notification) -> (a: Action)
        requires
            old(self).phase() == Phase::Ready || old(self).phase() == Phase::Stopped || old(
                self,
            ).phase() == Phase::Halted,
        ensures
            final(self).phase() == on_notification(old(self).phase(), n).0,
            a == on_notification(old(self).phase(), n).1,
    {
        let step = match self.phase {
            Phase::Ready => {
                if !n.readable {
                    (Phase::RemovingTap(Resume::Stop), Action::RemoveTap)
                } else if n.source == TAPFD_DATA {
                    (Phase::TapRunning, Action::ProcessTap)
                } else if n.source == RX_IOEVENT_DATA {
                    (Phase::RxDraining, Action::DrainRx)
                } else if n.source == TX_IOEVENT_DATA {
                    (Phase::TxDraining, Action::DrainTx)
                } else {
                    (Phase::RemovingTap(Resume::Stop), Action::RemoveTap)
                }
            },
            Phase::Stopped => (Phase::Stopped, Action::AwaitNotification),
            _ => (Phase::Halted, Action::Halt),
        };
        self.phase = step.0;
        step.1
    }

    /// Report the outcome of the outstanding action.
    ///
    /// The driver calls this exactly once per action it was handed (other
    /// than `AwaitNotification` and `Halt`), with `ok` saying whether the
    /// registration, drain, processor call or removal succeeded; the machine
    /// then behaves exactly as [`on_outcome`] says.
    pub fn resolve(&mut self, ok: bool) -> (a: Action)
        requires
            pending(old(self).phase()),
        ensures
            final(self).phase() == on_outcome(old(self).phase(), ok).0,
            a == on_outcome(old(self).phase(), ok).1,
    {
        let step = match self.phase {
            Phase::AddingTap => if ok {
                (Phase::AddingRx, Action::AddRx)
            } else {
                (Phase::Halted, Action::Halt)
            },
            Phase::AddingRx => if ok {
                (Phase::AddingTx, Action::AddTx)
            } else {
                (Phase::Halted, Action::Halt)
            },
            Phase::AddingTx => if ok {
                (Phase::Ready, Action::AwaitNotification)
            } else {
                (Phase::Halted, Action::Halt)
            },
            Phase::TapRunning => if ok {
                (Phase::Ready, Action::AwaitNotification)
            } else {
                (Phase::RemovingTap(Resume::Stop), Action::RemoveTap)
            },
            Phase::RxDraining => if ok {
                (Phase::RxRunning, Action::ProcessRx)
            } else {
                (Phase::RemovingTap(Resume::Stop), Action::RemoveTap)
            },
            Phase::RxRunning => if ok {
                (Phase::Ready, Action::AwaitNotification)
            } else {
                (Phase::RemovingTap(Resume::Stop), Action::RemoveTap)
            },
            Phase::TxDraining => if ok {
                (Phase::TxRunning(false), Action::ProcessTx)
            } else {
                (Phase::RemovingTap(Resume::RunTxProcessor), Action::RemoveTap)
            },
            Phase::TxRunning(torn_down) => if ok {
                if torn_down {
                    (Phase::Stopped, Action::AwaitNotification)
                } else {
                    (Phase::Ready, Action::AwaitNotification)
                }
            } else {
                (Phase::RemovingTap(Resume::Stop), Action::RemoveTap)
            },
            Phase::RemovingTap(r) => if ok {
                (Phase::RemovingRx(r), Action::RemoveRx)
            } else {
                (Phase::Halted, Action::Halt)
            },
            Phase::RemovingRx(r) => if ok {
                (Phase::RemovingTx(r), Action::RemoveTx)
            } else {
                (Phase::Halted, Action::Halt)
            },
            Phase::RemovingTx(r) => if ok {
                match r {
                    Resume::Stop => (Phase::Stopped, Action::AwaitNotification),
                    Resume::RunTxProcessor => (Phase::TxRunning(true), Action::ProcessTx),
                }
            } else {
                (Phase::Halted, Action::Halt)
            },
            _ => (Phase::Halted, Action::Halt),
        };
        self.phase = step.0;
        step.1
    }

    /// True while the machine is constructed but `init` has not run.
    pub fn is_uninit(&self) -> (r: bool)
        ensures
            r == (self.phase() == Phase::Uninit),
    {
        self.phase == Phase::Uninit
    }

    /// True while all three sources are registered and notifications are
    /// being processed.
    pub fn is_operational(&self) -> (r: bool)
        ensures
            r == (self.phase() == Phase::Ready),
    {
        self.phase == Phase::Ready
    }

    /// True once teardown has completed and the device is inert.
    pub fn is_stopped(&self) -> (r: bool)
        ensures
            r == (self.phase() == Phase::Stopped),
    {
        self.phase == Phase::Stopped
    }

    /// True once the instance has hit an infrastructure inconsistency and
    /// must not be used further.
    pub fn is_halted(&self) -> (r: bool)
        ensures
            r == (self.phase() == Phase::Halted),
    {
        self.phase == Phase::Halted
    }

    /// True when no action is outstanding, i.e. the driver may deliver the
    /// next notification.
    pub fn is_quiescent(&self) -> (r: bool)
        ensures
            r == !pending(self.phase()),
    {
        match self.phase {
            Phase::Uninit | Phase::Ready | Phase::Stopped | Phase::Halted => true,
            _ => false,
        }
    }
}

} // verus!
