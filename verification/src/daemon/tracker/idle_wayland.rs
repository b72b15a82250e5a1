//! Wayland idle detection using `ext-idle-notify-v1`.
//!
//! The event queue is driven from a thread of its own: waiting for events must
//! never block the rest of the daemon.
use vstd::prelude::*;

verus! {

/// How long the user must be away to count as idle.
pub const IDLE_TIMEOUT_MS: u32 = 10_000;

/// How long to wait before connecting again.
pub const RECONNECT_BACKOFF_SECS: u64 = 5;

/// The lowest version of `wl_seat` that will do.
pub const SEAT_LOWEST: u32 = 1;

/// The highest version of `wl_seat` that is asked for.
pub const SEAT_HIGHEST: u32 = 9;

/// The lowest version of `ext_idle_notifier_v1` that will do.
pub const NOTIFIER_LOWEST: u32 = 1;

/// The highest version of `ext_idle_notifier_v1` that is asked for.  It must not
/// exceed the version that the protocol bindings were generated for: binding
/// panics, rather than failing, where it does.
pub const NOTIFIER_HIGHEST: u32 = 1;

/// An event of the idle notification.
#[derive(Clone, Copy, Debug, PartialEq, Eq, Structural)]
pub enum Notification {
    /// The user has been away for the timeout.
    Idled,
    /// The user is back.
    Resumed,
    /// An event of a later protocol version.
    Other,
}

/// What `notification` says of the user, if it says anything: whether they are
/// active.
pub open spec fn activity(notification: Notification) -> Option<bool> {
    match notification {
        Notification::Idled => Some(false),
        Notification::Resumed => Some(true),
        Notification::Other => None,
    }
}

/// The activity flag after `stored`, a value to store in it, if any.
pub open spec fn flag_after(flag: bool, stored: Option<bool>) -> bool {
    match stored {
        Some(active) => active,
        None => flag,
    }
}

/// The activity flag: whether the user counts as active.
#[derive(Clone, Copy, Debug, PartialEq, Eq, Structural)]
pub struct State {
    pub user_active: bool,
}

impl State {
    /// Takes an event.  Returns the value to store in the shared flag, if any.
    pub fn event(&mut self, notification: Notification) -> (store: Option<bool>)
        ensures
            store == activity(notification),
            final(self).user_active == flag_after(old(self).user_active, store),
    {
        match notification {
            Notification::Idled => {
                self.user_active = false;
                Some(false)
            },
            Notification::Resumed => {
                self.user_active = true;
                Some(true)
            },
            Notification::Other => None,
        }
    }
}

/// Why idle detection could not be set up.
#[derive(Clone, Debug, PartialEq, Eq)]
pub enum IdleError {
    ConnectionUnavailable { cause: String },
    RegistryUnavailable { cause: String },
    NoSeat { cause: String },
    NoIdleNotifier { cause: String },
    SetupPanicked,
    ThreadNotSpawned { cause: String },
}

/// What an [`IdleError`] says.
#[verifier::ext_equal]
pub enum IdleErrorView {
    ConnectionUnavailable { cause: Seq<char> },
    RegistryUnavailable { cause: Seq<char> },
    NoSeat { cause: Seq<char> },
    NoIdleNotifier { cause: Seq<char> },
    SetupPanicked,
    ThreadNotSpawned { cause: Seq<char> },
}

impl View for IdleError {
    type V = IdleErrorView;

    open spec fn view(&self) -> IdleErrorView {
        match *self {
            IdleError::ConnectionUnavailable { cause } => {
                IdleErrorView::ConnectionUnavailable { cause: cause@ }
            },
            IdleError::RegistryUnavailable { cause } => {
                IdleErrorView::RegistryUnavailable { cause: cause@ }
            },
            IdleError::NoSeat { cause } => IdleErrorView::NoSeat { cause: cause@ },
            IdleError::NoIdleNotifier { cause } => IdleErrorView::NoIdleNotifier { cause: cause@ },
            IdleError::SetupPanicked => IdleErrorView::SetupPanicked,
            IdleError::ThreadNotSpawned { cause } => {
                IdleErrorView::ThreadNotSpawned { cause: cause@ }
            },
        }
    }
}

/// The message that reports `error`.
pub open spec fn idle_error_message(error: IdleErrorView) -> Seq<char> {
    match error {
        IdleErrorView::ConnectionUnavailable { .. } => {
            "Wayland connection unavailable (WAYLAND_DISPLAY is not usable)"@
        },
        IdleErrorView::RegistryUnavailable { .. } => "failed to initialize the Wayland registry"@,
        IdleErrorView::NoSeat { cause } => {
            "Wayland compositor does not advertise wl_seat: "@ + cause
        },
        IdleErrorView::NoIdleNotifier { cause } => {
            "Wayland compositor does not advertise ext-idle-notify-v1: "@ + cause
        },
        IdleErrorView::SetupPanicked => {
            "Wayland idle setup panicked (protocol version mismatch?); falling back to rdev"@
        },
        IdleErrorView::ThreadNotSpawned { .. } => "failed to spawn Wayland idle event thread"@,
    }
}

impl IdleError {
    /// The message that reports this error.
    pub fn message(&self) -> (message: String)
        ensures
            message@ == idle_error_message(self@),
    {
        match self {
            IdleError::ConnectionUnavailable { .. } => {
                "Wayland connection unavailable (WAYLAND_DISPLAY is not usable)".to_owned()
            },
            IdleError::RegistryUnavailable { .. } => {
                "failed to initialize the Wayland registry".to_owned()
            },
            IdleError::NoSeat { cause } => {
                "Wayland compositor does not advertise wl_seat: ".to_owned().concat(cause.as_str())
            },
            IdleError::NoIdleNotifier { cause } => {
                "Wayland compositor does not advertise ext-idle-notify-v1: ".to_owned().concat(
                    cause.as_str(),
                )
            },
            IdleError::SetupPanicked => {
                "Wayland idle setup panicked (protocol version mismatch?); falling back to rdev".to_owned()
            },
            IdleError::ThreadNotSpawned { .. } => {
                "failed to spawn Wayland idle event thread".to_owned()
            },
        }
    }
}

/// The steps of connecting to the compositor, in order.
#[derive(Clone, Copy, Debug, PartialEq, Eq, Structural)]
pub enum ConnectStep {
    Open,
    Registry,
    Seat,
    Notifier,
    Request,
}

/// The error with which `step` fails.  Requesting notifications cannot fail.
pub open spec fn step_error(step: ConnectStep, cause: Seq<char>) -> Option<IdleErrorView> {
    match step {
        ConnectStep::Open => Some(IdleErrorView::ConnectionUnavailable { cause }),
        ConnectStep::Registry => Some(IdleErrorView::RegistryUnavailable { cause }),
        ConnectStep::Seat => Some(IdleErrorView::NoSeat { cause }),
        ConnectStep::Notifier => Some(IdleErrorView::NoIdleNotifier { cause }),
        ConnectStep::Request => None,
    }
}

/// The step after `step`.
pub open spec fn step_after(step: ConnectStep) -> Option<ConnectStep> {
    match step {
        ConnectStep::Open => Some(ConnectStep::Registry),
        ConnectStep::Registry => Some(ConnectStep::Seat),
        ConnectStep::Seat => Some(ConnectStep::Notifier),
        ConnectStep::Notifier => Some(ConnectStep::Request),
        ConnectStep::Request => None,
    }
}

/// What to do next for idle detection.
#[derive(Clone, Copy, Debug, PartialEq, Eq, Structural)]
pub enum Action {
    /// Connect to the compositor that the environment names.
    OpenConnection,
    /// Set up the registry and its event queue.
    InitRegistry,
    /// Bind `wl_seat` in one of these versions.
    BindSeat { lowest: u32, highest: u32 },
    /// Bind `ext_idle_notifier_v1` in one of these versions.
    BindNotifier { lowest: u32, highest: u32 },
    /// Ask the notifier for notifications with this timeout.
    RequestNotification { timeout_ms: u32 },
    /// Hand the monitor over to a thread of its own.
    SpawnThread,
    /// Wait for events and take them.
    Dispatch,
    /// Sleep.
    Sleep { secs: u64 },
}

/// What came of an [`Action`].
#[derive(Clone, Debug, PartialEq, Eq)]
pub enum Reply {
    Done,
    Failed { cause: String },
    /// The action panicked.
    Panicked,
}

/// What a [`Reply`] says.
#[verifier::ext_equal]
pub enum ReplyView {
    Done,
    Failed { cause: Seq<char> },
    Panicked,
}

impl View for Reply {
    type V = ReplyView;

    open spec fn view(&self) -> ReplyView {
        match *self {
            Reply::Done => ReplyView::Done,
            Reply::Failed { cause } => ReplyView::Failed { cause: cause@ },
            Reply::Panicked => ReplyView::Panicked,
        }
    }
}

/// How far idle detection has come.
#[verifier::ext_equal]
pub enum PhaseView {
    /// Connecting, for the first time or again.
    Connecting { step: ConnectStep, starting: bool },
    /// Connected for the first time; the thread is being spawned.
    Spawning,
    /// Taking events.
    Dispatching,
    /// Waiting before connecting again.
    BackingOff,
    /// Not set up.
    Failed { error: IdleErrorView },
}

/// The phase of idle detection, and the activity flag.
#[verifier::ext_equal]
pub struct MonitorView {
    pub phase: PhaseView,
    pub user_active: bool,
}

impl MonitorView {
    /// Idle detection before its first action: the user counts as active.
    pub open spec fn start() -> MonitorView {
        MonitorView {
            phase: PhaseView::Connecting { step: ConnectStep::Open, starting: true },
            user_active: true,
        }
    }

    /// The action that waits for its reply.
    pub open spec fn pending(self) -> Option<Action> {
        match self.phase {
            PhaseView::Connecting { step, .. } => Some(
                match step {
                    ConnectStep::Open => Action::OpenConnection,
                    ConnectStep::Registry => Action::InitRegistry,
                    ConnectStep::Seat => {
                        Action::BindSeat { lowest: SEAT_LOWEST, highest: SEAT_HIGHEST }
                    },
                    ConnectStep::Notifier => {
                        Action::BindNotifier { lowest: NOTIFIER_LOWEST, highest: NOTIFIER_HIGHEST }
                    },
                    ConnectStep::Request => {
                        Action::RequestNotification { timeout_ms: IDLE_TIMEOUT_MS }
                    },
                },
            ),
            PhaseView::Spawning => Some(Action::SpawnThread),
            PhaseView::Dispatching => Some(Action::Dispatch),
            PhaseView::BackingOff => Some(Action::Sleep { secs: RECONNECT_BACKOFF_SECS }),
            PhaseView::Failed { .. } => None,
        }
    }

    /// `reply` is one that the pending action can get.  Only the setup survives
    /// a panic.
    pub open spec fn fits(self, reply: ReplyView) -> bool {
        match self.phase {
            PhaseView::Connecting { step, starting } => match reply {
                ReplyView::Done => true,
                ReplyView::Failed { .. } => step != ConnectStep::Request,
                ReplyView::Panicked => starting,
            },
            PhaseView::Spawning => !(reply is Panicked),
            PhaseView::Dispatching => !(reply is Panicked),
            PhaseView::BackingOff => reply is Done,
            PhaseView::Failed { .. } => false,
        }
    }

    /// The phase that `reply` to the pending action leads to.
    pub open spec fn next_phase(self, reply: ReplyView) -> PhaseView {
        match (self.phase, reply) {
            (PhaseView::Connecting { step, starting }, ReplyView::Done) => match step_after(step) {
                Some(next) => PhaseView::Connecting { step: next, starting },
                None => if starting {
                    PhaseView::Spawning
                } else {
                    PhaseView::Dispatching
                },
            },
            (PhaseView::Connecting { step, starting }, ReplyView::Failed { cause }) => {
                match step_error(step, cause) {
                    Some(error) if starting => PhaseView::Failed { error },
                    _ => PhaseView::BackingOff,
                }
            },
            (PhaseView::Connecting { .. }, ReplyView::Panicked) => PhaseView::Failed {
                error: IdleErrorView::SetupPanicked,
            },
            (PhaseView::Spawning, ReplyView::Done) => PhaseView::Dispatching,
            (PhaseView::Spawning, ReplyView::Failed { cause }) => PhaseView::Failed {
                error: IdleErrorView::ThreadNotSpawned { cause },
            },
            (PhaseView::Dispatching, ReplyView::Failed { .. }) => PhaseView::BackingOff,
            (PhaseView::BackingOff, ReplyView::Done) => {
                PhaseView::Connecting { step: ConnectStep::Open, starting: false }
            },
            (phase, _) => phase,
        }
    }

    /// The value that `reply` has stored in the activity flag: connecting again
    /// starts from an active user.
    pub open spec fn stored(self, reply: ReplyView) -> Option<bool> {
        if self.phase is BackingOff && reply is Done {
            Some(true)
        } else {
            None
        }
    }

    /// Idle detection after `reply` to the pending action.
    pub open spec fn next(self, reply: ReplyView) -> MonitorView {
        MonitorView {
            phase: self.next_phase(reply),
            user_active: flag_after(self.user_active, self.stored(reply)),
        }
    }

    /// Idle detection after an event.
    pub open spec fn notified(self, notification: Notification) -> MonitorView {
        MonitorView {
            user_active: flag_after(self.user_active, activity(notification)),
            ..self
        }
    }
}

/// How far idle detection has come.
#[derive(Clone, Debug, PartialEq, Eq)]
pub enum Phase {
    Connecting { step: ConnectStep, starting: bool },
    Spawning,
    Dispatching,
    BackingOff,
    Failed { error: IdleError },
}

impl View for Phase {
    type V = PhaseView;

    open spec fn view(&self) -> PhaseView {
        match *self {
            Phase::Connecting { step, starting } => PhaseView::Connecting { step, starting },
            Phase::Spawning => PhaseView::Spawning,
            Phase::Dispatching => PhaseView::Dispatching,
            Phase::BackingOff => PhaseView::BackingOff,
            Phase::Failed { error } => PhaseView::Failed { error: error@ },
        }
    }
}

/// Idle detection as a state machine.
#[derive(Clone, Debug, PartialEq, Eq)]
pub struct IdleMonitor {
    pub phase: Phase,
    pub state: State,
}

impl View for IdleMonitor {
    type V = MonitorView;

    open spec fn view(&self) -> MonitorView {
        MonitorView { phase: self.phase@, user_active: self.state.user_active }
    }
}

/// Starts idle detection.  The setup comes first, so that the caller can fall
/// back to another means when it fails; the thread is spawned once it succeeded.
pub fn start() -> (monitor: IdleMonitor)
    ensures
        monitor@ == MonitorView::start(),
{
    let state = State { user_active: true };
    IdleMonitor { phase: connect(true), state }
}

/// The phase in which connecting begins.
fn connect(starting: bool) -> (phase: Phase)
    ensures
        phase@ == (PhaseView::Connecting { step: ConnectStep::Open, starting }),
{
    Phase::Connecting { step: ConnectStep::Open, starting }
}

/// The phase after `step` of connecting was done.
fn connect_done(step: ConnectStep, starting: bool) -> (phase: Phase)
    ensures
        phase@ == match step_after(step) {
            Some(next) => PhaseView::Connecting { step: next, starting },
            None => if starting {
                PhaseView::Spawning
            } else {
                PhaseView::Dispatching
            },
        },
{
    match step {
        ConnectStep::Open => Phase::Connecting { step: ConnectStep::Registry, starting },
        ConnectStep::Registry => Phase::Connecting { step: ConnectStep::Seat, starting },
        ConnectStep::Seat => Phase::Connecting { step: ConnectStep::Notifier, starting },
        ConnectStep::Notifier => Phase::Connecting { step: ConnectStep::Request, starting },
        ConnectStep::Request => if starting {
            Phase::Spawning
        } else {
            Phase::Dispatching
        },
    }
}

/// The error with which `step` of connecting fails, if it can.
pub fn connect_error(step: ConnectStep, cause: String) -> (error: Option<IdleError>)
    ensures
        error is Some <==> step_error(step, cause@) is Some,
        error matches Some(reported) ==> Some(reported@) == step_error(step, cause@),
{
    match step {
        ConnectStep::Open => Some(IdleError::ConnectionUnavailable { cause }),
        ConnectStep::Registry => Some(IdleError::RegistryUnavailable { cause }),
        ConnectStep::Seat => Some(IdleError::NoSeat { cause }),
        ConnectStep::Notifier => Some(IdleError::NoIdleNotifier { cause }),
        ConnectStep::Request => None,
    }
}

impl IdleMonitor {
    /// The action to take next; none if idle detection could not be set up.
    pub fn pending(&self) -> (action: Option<Action>)
        ensures
            action == self@.pending(),
    {
        match &self.phase {
            Phase::Connecting { step, .. } => Some(
                match step {
                    ConnectStep::Open => Action::OpenConnection,
                    ConnectStep::Registry => Action::InitRegistry,
                    ConnectStep::Seat => {
                        Action::BindSeat { lowest: SEAT_LOWEST, highest: SEAT_HIGHEST }
                    },
                    ConnectStep::Notifier => {
                        Action::BindNotifier { lowest: NOTIFIER_LOWEST, highest: NOTIFIER_HIGHEST }
                    },
                    ConnectStep::Request => {
                        Action::RequestNotification { timeout_ms: IDLE_TIMEOUT_MS }
                    },
                },
            ),
            Phase::Spawning => Some(Action::SpawnThread),
            Phase::Dispatching => Some(Action::Dispatch),
            Phase::BackingOff => Some(Action::Sleep { secs: RECONNECT_BACKOFF_SECS }),
            Phase::Failed { .. } => None,
        }
    }

    /// Takes the reply to the pending action.  Returns the value to store in the
    /// shared flag, if any.
    pub fn resume(&mut self, reply: Reply) -> (store: Option<bool>)
        requires
            old(self)@.fits(reply@),
        ensures
            final(self)@ == old(self)@.next(reply@),
            store == old(self)@.stored(reply@),
    {
        if let Phase::BackingOff = self.phase {
            self.state.user_active = true;
            self.phase = connect(false);
            return Some(true);
        }
        let phase = match &self.phase {
            Phase::Connecting { step, starting } => match reply {
                Reply::Done => connect_done(*step, *starting),
                Reply::Failed { cause } => match connect_error(*step, cause) {
                    Some(error) => if *starting {
                        Phase::Failed { error }
                    } else {
                        Phase::BackingOff
                    },
                    None => Phase::BackingOff,
                },
                Reply::Panicked => Phase::Failed { error: IdleError::SetupPanicked },
            },
            Phase::Spawning => match reply {
                Reply::Failed { cause } => Phase::Failed {
                    error: IdleError::ThreadNotSpawned { cause },
                },
                _ => Phase::Dispatching,
            },
            _ => match reply {
                Reply::Failed { .. } => Phase::BackingOff,
                _ => Phase::Dispatching,
            },
        };
        self.phase = phase;
        None
    }

    /// Takes an event.  Returns the value to store in the shared flag, if any.
    pub fn notify(&mut self, notification: Notification) -> (store: Option<bool>)
        ensures
            final(self)@ == old(self)@.notified(notification),
            store == activity(notification),
    {
        self.state.event(notification)
    }
}

} // verus!
