//! What holds of every run of idle detection.
use vstd::prelude::*;
use crate::daemon::tracker::idle_wayland::{
    step_error, Action, ConnectStep, IdleErrorView, MonitorView, Notification, PhaseView,
    ReplyView, RECONNECT_BACKOFF_SECS,
};

verus! {

/// Something that idle detection is told: the reply to its action, or an event.
pub enum Input {
    Reply { reply: ReplyView },
    Event { notification: Notification },
}

/// Idle detection after one input.
pub open spec fn step(monitor: MonitorView, input: Input) -> MonitorView {
    match input {
        Input::Reply { reply } => monitor.next(reply),
        Input::Event { notification } => monitor.notified(notification),
    }
}

/// `input` can come to `monitor`: a reply fits the pending action, and events
/// come while they are waited for.
pub open spec fn can_come(monitor: MonitorView, input: Input) -> bool {
    match input {
        Input::Reply { reply } => monitor.fits(reply),
        Input::Event { .. } => monitor.phase is Dispatching,
    }
}

/// Idle detection after `inputs`.
pub open spec fn after(monitor: MonitorView, inputs: Seq<Input>) -> MonitorView
    decreases inputs.len(),
{
    if inputs.len() == 0 {
        monitor
    } else {
        step(after(monitor, inputs.drop_last()), inputs.last())
    }
}

/// Each of `inputs` can come in its turn.
pub open spec fn can_follow(monitor: MonitorView, inputs: Seq<Input>) -> bool
    decreases inputs.len(),
{
    inputs.len() == 0 || {
        &&& can_follow(monitor, inputs.drop_last())
        &&& can_come(after(monitor, inputs.drop_last()), inputs.last())
    }
}

/// The setup has succeeded.
pub open spec fn running(monitor: MonitorView) -> bool {
    match monitor.phase {
        PhaseView::Connecting { starting, .. } => !starting,
        PhaseView::Dispatching => true,
        PhaseView::BackingOff => true,
        _ => false,
    }
}

/// Once set up, idle detection never fails: whatever comes, there is a next
/// action.
pub proof fn law_running_never_fails(monitor: MonitorView, inputs: Seq<Input>)
    requires
        running(monitor),
        can_follow(monitor, inputs),
    ensures
        running(after(monitor, inputs)),
        after(monitor, inputs).pending() is Some,
    decreases inputs.len(),
{
    if inputs.len() > 0 {
        law_running_never_fails(monitor, inputs.drop_last());
    }
}

/// What the last of `events` that says anything says of the user; `flag` if none
/// does.
pub open spec fn last_activity(flag: bool, events: Seq<Notification>) -> bool
    decreases events.len(),
{
    if events.len() == 0 {
        flag
    } else {
        match events.last() {
            Notification::Idled => false,
            Notification::Resumed => true,
            Notification::Other => last_activity(flag, events.drop_last()),
        }
    }
}

/// After a row of events the flag says what the last telling one said, and
/// nothing else has changed.
pub proof fn law_last_event_decides(monitor: MonitorView, events: Seq<Notification>)
    ensures
        after(
            monitor,
            Seq::new(events.len(), |i: int| Input::Event { notification: events[i] }),
        ) == (MonitorView { user_active: last_activity(monitor.user_active, events), ..monitor }),
    decreases events.len(),
{
    let inputs = Seq::new(events.len(), |i: int| Input::Event { notification: events[i] });
    if events.len() > 0 {
        let earlier = events.drop_last();
        law_last_event_decides(monitor, earlier);
        assert(inputs.drop_last() =~= Seq::new(
            earlier.len(),
            |i: int| Input::Event { notification: earlier[i] },
        ));
    }
}

/// While a connection is set up, for the first time or again, the user counts as
/// active.
pub proof fn law_active_while_connecting(inputs: Seq<Input>)
    requires
        can_follow(MonitorView::start(), inputs),
    ensures
        ({
            let reached = after(MonitorView::start(), inputs);
            (reached.phase is Connecting || reached.phase is Spawning) ==> reached.user_active
        }),
    decreases inputs.len(),
{
    if inputs.len() > 0 {
        law_active_while_connecting(inputs.drop_last());
    }
}

/// Connecting again always follows a pause.
pub proof fn law_reconnecting_follows_a_pause(monitor: MonitorView, input: Input)
    requires
        can_come(monitor, input),
        step(monitor, input).phase == (PhaseView::Connecting {
            step: ConnectStep::Open,
            starting: false,
        }),
    ensures
        monitor.pending() == Some(Action::Sleep { secs: RECONNECT_BACKOFF_SECS }),
        step(monitor, input).pending() == Some(Action::OpenConnection),
{
}

/// A lost connection, or a failed attempt to connect again, leads to a pause and
/// leaves the flag alone.
pub proof fn law_failure_leads_to_a_pause(monitor: MonitorView, cause: Seq<char>)
    requires
        running(monitor),
        monitor.fits(ReplyView::Failed { cause }),
    ensures
        monitor.next(ReplyView::Failed { cause }) == (MonitorView {
            phase: PhaseView::BackingOff,
            ..monitor
        }),
{
}

/// During the setup a failed step ends idle detection with the step's error, and
/// a panic in any step with the error for panics, so that the caller can fall
/// back.
pub proof fn law_failed_setup_is_reported(
    monitor: MonitorView,
    connecting: ConnectStep,
    reply: ReplyView,
)
    requires
        monitor.phase == (PhaseView::Connecting { step: connecting, starting: true }),
        monitor.fits(reply),
        !(reply is Done),
    ensures
        monitor.next(reply).pending() is None,
        monitor.next(reply).phase == (PhaseView::Failed {
            error: match reply {
                ReplyView::Failed { cause } => step_error(connecting, cause)->0,
                _ => IdleErrorView::SetupPanicked,
            },
        }),
{
}

/// How many replies the setup has behind it.
spec fn setup_steps(phase: PhaseView) -> int {
    match phase {
        PhaseView::Connecting { step, starting: true } => match step {
            ConnectStep::Open => 0,
            ConnectStep::Registry => 1,
            ConnectStep::Seat => 2,
            ConnectStep::Notifier => 3,
            ConnectStep::Request => 4,
        },
        PhaseView::Spawning => 5,
        _ => 6,
    }
}

proof fn lemma_setup(inputs: Seq<Input>)
    requires
        can_follow(MonitorView::start(), inputs),
        !(after(MonitorView::start(), inputs).phase is Failed),
    ensures
        inputs.len() >= setup_steps(after(MonitorView::start(), inputs).phase),
        !running(after(MonitorView::start(), inputs)) ==> inputs.len() == setup_steps(
            after(MonitorView::start(), inputs).phase,
        ),
        forall|i: int|
            0 <= i < inputs.len() && i < 6 ==> #[trigger] inputs[i] == (Input::Reply {
                reply: ReplyView::Done,
            }),
    decreases inputs.len(),
{
    if inputs.len() > 0 {
        let earlier = inputs.drop_last();
        lemma_setup(earlier);
        assert forall|i: int| 0 <= i < inputs.len() && i < 6 implies #[trigger] inputs[i] == (
        Input::Reply { reply: ReplyView::Done }) by {
            if i < earlier.len() {
                assert(earlier[i] == inputs[i]);
            } else {
                assert(inputs[i] == inputs.last());
            }
        }
    }
}

/// Idle detection runs only after each step of connecting and the spawning of
/// its thread succeeded.
pub proof fn law_running_after_full_setup(inputs: Seq<Input>)
    requires
        can_follow(MonitorView::start(), inputs),
        running(after(MonitorView::start(), inputs)),
    ensures
        inputs.len() >= 6,
        forall|i: int|
            0 <= i < 6 ==> #[trigger] inputs[i] == (Input::Reply { reply: ReplyView::Done }),
{
    lemma_setup(inputs);
}

/// No action asks for a version of the idle notifier beyond the first, the only
/// one that the protocol bindings know.
pub proof fn law_notifier_version_stays_one(monitor: MonitorView)
    ensures
        monitor.pending() matches Some(Action::BindNotifier { lowest, highest }) ==> lowest == 1
            && highest == 1,
{
}

} // verus!
