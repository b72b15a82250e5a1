//! What idle detection does from its start on, call by call: the actions it asks
//! for, and what becomes of the activity flag.
use vstd::prelude::*;
use crate::daemon::tracker::idle_wayland::{
    connect_error, start, Action, ConnectStep, IdleError, IdleMonitor, MonitorView, Notification,
    Phase, PhaseView, Reply, State,
};

verus! {

/// What an [`IdleError`] says to the user.
pub proof fn law_idle_error_messages(error: &IdleError, message: String)
    requires
        call_ensures(IdleError::message, (error,), message),
    ensures
        match *error {
            IdleError::ConnectionUnavailable { .. } => message@
                == "Wayland connection unavailable (WAYLAND_DISPLAY is not usable)"@,
            IdleError::RegistryUnavailable { .. } => message@
                == "failed to initialize the Wayland registry"@,
            IdleError::NoSeat { cause } => message@
                == "Wayland compositor does not advertise wl_seat: "@ + cause@,
            IdleError::NoIdleNotifier { cause } => message@
                == "Wayland compositor does not advertise ext-idle-notify-v1: "@ + cause@,
            IdleError::SetupPanicked => message@
                == "Wayland idle setup panicked (protocol version mismatch?); falling back to rdev"@,
            IdleError::ThreadNotSpawned { .. } => message@
                == "failed to spawn Wayland idle event thread"@,
        },
{
}

/// Each step of connecting fails with an error of its own, which keeps the cause.
pub proof fn law_step_errors(step: ConnectStep, cause: String, error: Option<IdleError>)
    requires
        call_ensures(connect_error, (step, cause), error),
    ensures
        match step {
            ConnectStep::Open => error matches Some(IdleError::ConnectionUnavailable {
                cause: kept,
            }) && kept@ == cause@,
            ConnectStep::Registry => error matches Some(IdleError::RegistryUnavailable {
                cause: kept,
            }) && kept@ == cause@,
            ConnectStep::Seat => error matches Some(IdleError::NoSeat { cause: kept }) && kept@
                == cause@,
            ConnectStep::Notifier => error matches Some(IdleError::NoIdleNotifier {
                cause: kept,
            }) && kept@ == cause@,
            ConnectStep::Request => error is None,
        },
{
}

/// An event that says something of the user sets the flag and is passed on; any
/// other does neither.
pub proof fn law_event_sets_the_flag(
    state: &mut State,
    notification: Notification,
    store: Option<bool>,
)
    requires
        call_ensures(State::event, (state, notification), store),
    ensures
        match notification {
            Notification::Idled => store == Some(false) && !final(state).user_active,
            Notification::Resumed => store == Some(true) && final(state).user_active,
            Notification::Other => store is None && final(state).user_active
                == old(state).user_active,
        },
{
}

/// A reply changes the flag only at the end of the pause before connecting again,
/// when the user counts as active; otherwise nothing is stored, and the flag stays.
pub proof fn law_reply_leaves_the_flag(
    monitor: &mut IdleMonitor,
    action: Option<Action>,
    reply: Reply,
    store: Option<bool>,
)
    requires
        call_ensures(IdleMonitor::pending, (&*monitor,), action),
        call_ensures(IdleMonitor::resume, (monitor, reply), store),
    ensures
        if action matches Some(Action::Sleep { .. }) && reply is Done {
            store == Some(true) && final(monitor).state.user_active
        } else {
            store is None && final(monitor).state.user_active == old(monitor).state.user_active
        },
{
}

/// Something that idle detection is told.
pub enum Told {
    /// The reply to its action.
    Reply { reply: Reply },
    /// An event.
    Event { notification: Notification },
}

/// The thread was spawned before the `n`-th of these calls.
pub open spec fn spawned(told: Seq<Told>, actions: Seq<Option<Action>>, n: int) -> bool
    decreases n,
{
    n > 0 && (spawned(told, actions, n - 1) || (actions[n - 1] == Some(Action::SpawnThread) && told[n
        - 1] == (Told::Reply { reply: Reply::Done })))
}

/// Whether the user is active, going by the first `n` of what was told: by the last
/// event that says so, and by the end of a pause, after which the user counts as
/// active, as at the beginning.
pub open spec fn last_said(told: Seq<Told>, actions: Seq<Option<Action>>, n: int) -> bool
    decreases n,
{
    if n <= 0 {
        true
    } else {
        match told[n - 1] {
            Told::Event { notification: Notification::Idled } => false,
            Told::Event { notification: Notification::Resumed } => true,
            Told::Event { notification: Notification::Other } => last_said(told, actions, n - 1),
            Told::Reply { .. } => if actions[n - 1] matches Some(Action::Sleep { .. }) {
                true
            } else {
                last_said(told, actions, n - 1)
            },
        }
    }
}

/// `told` can come when `action` is waited for: requesting notifications and sleeping
/// cannot fail, and a panic is survived only until the thread is spawned.
pub open spec fn suits(action: Option<Action>, was_spawned: bool, told: Told) -> bool {
    match (action, told) {
        (None, _) => false,
        (Some(_), Told::Event { .. }) => true,
        (Some(_), Told::Reply { reply: Reply::Done }) => true,
        (Some(waiting), Told::Reply { reply: Reply::Failed { .. } }) => match waiting {
            Action::RequestNotification { .. } => false,
            Action::Sleep { .. } => false,
            _ => true,
        },
        (Some(waiting), Told::Reply { reply: Reply::Panicked }) => !was_spawned && waiting
            != Action::SpawnThread,
    }
}

/// The action after `action` got `reply`: connecting goes step by step; the first
/// time it ends in spawning the thread, and a failure in no action at all; later it
/// ends in taking events, and a failure in a pause.
pub open spec fn action_after(action: Action, was_spawned: bool, reply: Reply) -> Option<Action> {
    match (action, reply) {
        (_, Reply::Panicked) => None,
        (Action::SpawnThread, Reply::Failed { .. }) => None,
        (_, Reply::Failed { .. }) => if was_spawned {
            Some(Action::Sleep { secs: 5 })
        } else {
            None
        },
        (Action::OpenConnection, Reply::Done) => Some(Action::InitRegistry),
        (Action::InitRegistry, Reply::Done) => Some(Action::BindSeat { lowest: 1, highest: 9 }),
        (Action::BindSeat { .. }, Reply::Done) => Some(
            Action::BindNotifier { lowest: 1, highest: 1 },
        ),
        (Action::BindNotifier { .. }, Reply::Done) => Some(
            Action::RequestNotification { timeout_ms: 10_000 },
        ),
        (Action::RequestNotification { .. }, Reply::Done) => if was_spawned {
            Some(Action::Dispatch)
        } else {
            Some(Action::SpawnThread)
        },
        (Action::SpawnThread, Reply::Done) => Some(Action::Dispatch),
        (Action::Dispatch, Reply::Done) => Some(Action::Dispatch),
        (Action::Sleep { .. }, Reply::Done) => Some(Action::OpenConnection),
    }
}

/// `phase` reports that `action` failed for `cause`, or panicked.
pub open spec fn reports(phase: Phase, action: Action, reply: Reply) -> bool {
    match (reply, action) {
        (Reply::Panicked, _) => phase == (Phase::Failed { error: IdleError::SetupPanicked }),
        (Reply::Failed { cause }, Action::OpenConnection) => phase matches Phase::Failed {
            error: IdleError::ConnectionUnavailable { cause: kept },
        } && kept@ == cause@,
        (Reply::Failed { cause }, Action::InitRegistry) => phase matches Phase::Failed {
            error: IdleError::RegistryUnavailable { cause: kept },
        } && kept@ == cause@,
        (Reply::Failed { cause }, Action::BindSeat { .. }) => phase matches Phase::Failed {
            error: IdleError::NoSeat { cause: kept },
        } && kept@ == cause@,
        (Reply::Failed { cause }, Action::BindNotifier { .. }) => phase matches Phase::Failed {
            error: IdleError::NoIdleNotifier { cause: kept },
        } && kept@ == cause@,
        (Reply::Failed { cause }, Action::SpawnThread) => phase matches Phase::Failed {
            error: IdleError::ThreadNotSpawned { cause: kept },
        } && kept@ == cause@,
        _ => false,
    }
}

/// How far a monitor is that has seen the thread spawned, or not.
spec fn in_phase(phase: PhaseView, was_spawned: bool) -> bool {
    match phase {
        PhaseView::Connecting { starting, .. } => starting == !was_spawned,
        PhaseView::Spawning => !was_spawned,
        PhaseView::Dispatching => was_spawned,
        PhaseView::BackingOff => was_spawned,
        PhaseView::Failed { .. } => true,
    }
}

proof fn lemma_one_call(
    monitor: MonitorView,
    was_spawned: bool,
    reply: Reply,
)
    requires
        in_phase(monitor.phase, was_spawned),
        suits(monitor.pending(), was_spawned, Told::Reply { reply }),
    ensures
        monitor.fits(reply@),
        monitor.next(reply@).pending() == action_after(monitor.pending()->0, was_spawned, reply),
        in_phase(
            monitor.next(reply@).phase,
            was_spawned || (monitor.pending() == Some(Action::SpawnThread) && reply == Reply::Done),
        ),
{
}

/// Idle detection from its start on, whatever it is told.  It begins by opening a
/// connection, with the user active.  Every reply that suits its action is taken,
/// and leads to the next action; events change no action.  The flag is at every
/// time what was said last, and what is passed on to be stored is exactly what
/// changes hands: what an event says, and that the user is active again after a
/// pause.
pub proof fn law_idle_detection<'a>(
    begun: IdleMonitor,
    monitors: Seq<&'a mut IdleMonitor>,
    told: Seq<Told>,
    actions: Seq<Option<Action>>,
    stored: Seq<Option<bool>>,
    n: int,
)
    requires
        call_ensures(start, (), begun),
        monitors.len() == told.len() == actions.len() == stored.len(),
        0 <= n < told.len(),
        *monitors[0] == begun,
        forall|i: int|
            0 <= i < told.len() ==> call_ensures(
                IdleMonitor::pending,
                (&*(#[trigger] monitors[i]),),
                actions[i],
            ),
        forall|i: int|
            0 <= i < told.len() ==> suits(
                #[trigger] actions[i],
                spawned(told, actions, i),
                told[i],
            ),
        forall|i: int|
            0 <= i < told.len() ==> match #[trigger] told[i] {
                Told::Reply { reply } => call_ensures(
                    IdleMonitor::resume,
                    (monitors[i], reply),
                    stored[i],
                ),
                Told::Event { notification } => call_ensures(
                    IdleMonitor::notify,
                    (monitors[i], notification),
                    stored[i],
                ),
            },
        forall|i: int| 0 <= i < told.len() - 1 ==> *final(#[trigger] monitors[i]) == *monitors[i + 1],
    ensures
        begun.state.user_active,
        actions[0] == Some(Action::OpenConnection),
        (*monitors[n]).state.user_active == last_said(told, actions, n),
        (*final(monitors[n])).state.user_active == last_said(told, actions, n + 1),
        match told[n] {
            Told::Event { notification: Notification::Idled } => stored[n] == Some(false),
            Told::Event { notification: Notification::Resumed } => stored[n] == Some(true),
            Told::Event { notification: Notification::Other } => stored[n] is None,
            Told::Reply { reply } => {
                &&& call_requires(IdleMonitor::resume, (monitors[n], reply))
                &&& stored[n] == if actions[n] matches Some(Action::Sleep { .. }) {
                    Some(true)
                } else {
                    None
                }
                &&& action_after(actions[n]->0, spawned(told, actions, n), reply) is None
                    ==> reports((*final(monitors[n])).phase, actions[n]->0, reply)
            },
        },
        n + 1 < told.len() ==> actions[n + 1] == match told[n] {
            Told::Event { .. } => actions[n],
            Told::Reply { reply } => action_after(
                actions[n]->0,
                spawned(told, actions, n),
                reply,
            ),
        },
{
    lemma_run(begun, monitors, told, actions, stored, n);
    assert(call_ensures(IdleMonitor::pending, (&*monitors[0],), actions[0]));
    assert(call_ensures(IdleMonitor::pending, (&*monitors[n],), actions[n]));
    assert(suits(actions[n], spawned(told, actions, n), told[n]));
    match told[n] {
        Told::Reply { reply } => {
            assert(call_ensures(IdleMonitor::resume, (monitors[n], reply), stored[n]));
            lemma_one_call((*monitors[n])@, spawned(told, actions, n), reply);
        },
        Told::Event { notification } => {
            assert(call_ensures(IdleMonitor::notify, (monitors[n], notification), stored[n]));
        },
    }
    if n + 1 < told.len() {
        assert(*final(monitors[n]) == *monitors[n + 1]);
        assert(call_ensures(IdleMonitor::pending, (&*monitors[n + 1],), actions[n + 1]));
    }
}

proof fn lemma_run<'a>(
    begun: IdleMonitor,
    monitors: Seq<&'a mut IdleMonitor>,
    told: Seq<Told>,
    actions: Seq<Option<Action>>,
    stored: Seq<Option<bool>>,
    n: int,
)
    requires
        call_ensures(start, (), begun),
        monitors.len() == told.len() == actions.len() == stored.len(),
        0 <= n < told.len(),
        *monitors[0] == begun,
        forall|i: int|
            0 <= i < told.len() ==> call_ensures(
                IdleMonitor::pending,
                (&*(#[trigger] monitors[i]),),
                actions[i],
            ),
        forall|i: int|
            0 <= i < told.len() ==> suits(
                #[trigger] actions[i],
                spawned(told, actions, i),
                told[i],
            ),
        forall|i: int|
            0 <= i < told.len() ==> match #[trigger] told[i] {
                Told::Reply { reply } => call_ensures(
                    IdleMonitor::resume,
                    (monitors[i], reply),
                    stored[i],
                ),
                Told::Event { notification } => call_ensures(
                    IdleMonitor::notify,
                    (monitors[i], notification),
                    stored[i],
                ),
            },
        forall|i: int| 0 <= i < told.len() - 1 ==> *final(#[trigger] monitors[i]) == *monitors[i + 1],
    ensures
        in_phase((*monitors[n]).phase@, spawned(told, actions, n)),
        (*monitors[n]).state.user_active == last_said(told, actions, n),
    decreases n,
{
    if n > 0 {
        let i = n - 1;
        lemma_run(begun, monitors, told, actions, stored, i);
        assert(call_ensures(IdleMonitor::pending, (&*monitors[i],), actions[i]));
        assert(suits(actions[i], spawned(told, actions, i), told[i]));
        assert(*final(monitors[i]) == *monitors[n]);
        match told[i] {
            Told::Reply { reply } => {
                assert(call_ensures(IdleMonitor::resume, (monitors[i], reply), stored[i]));
                lemma_one_call((*monitors[i])@, spawned(told, actions, i), reply);
            },
            Told::Event { notification } => {
                assert(call_ensures(IdleMonitor::notify, (monitors[i], notification), stored[i]));
            },
        }
    }
}

} // verus!
