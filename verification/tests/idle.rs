use hustle_tracker::daemon::tracker::idle_wayland::{
    connect_error, start, Action, ConnectStep, IdleError, IdleMonitor, Notification, Phase, Reply,
    State,
};

fn failed(cause: &str) -> Reply {
    Reply::Failed { cause: cause.to_string() }
}

fn running() -> IdleMonitor {
    let mut monitor = start();
    let setup = [
        Action::OpenConnection,
        Action::InitRegistry,
        Action::BindSeat { lowest: 1, highest: 9 },
        Action::BindNotifier { lowest: 1, highest: 1 },
        Action::RequestNotification { timeout_ms: 10_000 },
        Action::SpawnThread,
    ];
    for action in setup {
        assert_eq!(monitor.pending(), Some(action));
        assert!(monitor.state.user_active);
        assert_eq!(monitor.resume(Reply::Done), None);
    }
    assert_eq!(monitor.pending(), Some(Action::Dispatch));
    monitor
}

#[test]
fn setup_takes_every_step() {
    let monitor = running();
    assert!(monitor.state.user_active);
}

#[test]
fn events_set_the_flag() {
    let mut monitor = running();
    assert_eq!(monitor.notify(Notification::Idled), Some(false));
    assert!(!monitor.state.user_active);
    assert_eq!(monitor.notify(Notification::Other), None);
    assert!(!monitor.state.user_active);
    assert_eq!(monitor.resume(Reply::Done), None);
    assert_eq!(monitor.notify(Notification::Resumed), Some(true));
    assert!(monitor.state.user_active);
    assert_eq!(monitor.pending(), Some(Action::Dispatch));
}

#[test]
fn lost_connection_is_opened_again_after_a_pause() {
    let mut monitor = running();
    monitor.notify(Notification::Idled);
    assert_eq!(monitor.resume(failed("broken pipe")), None);
    assert_eq!(monitor.pending(), Some(Action::Sleep { secs: 5 }));
    assert!(!monitor.state.user_active);
    // Connecting starts from an active user, even if it fails.
    assert_eq!(monitor.resume(Reply::Done), Some(true));
    assert!(monitor.state.user_active);
    assert_eq!(monitor.pending(), Some(Action::OpenConnection));
    assert_eq!(monitor.resume(failed("still down")), None);
    assert_eq!(monitor.pending(), Some(Action::Sleep { secs: 5 }));
    assert_eq!(monitor.resume(Reply::Done), Some(true));
    for _ in 0..5 {
        assert!(matches!(monitor.phase, Phase::Connecting { starting: false, .. }));
        assert_eq!(monitor.resume(Reply::Done), None);
    }
    assert_eq!(monitor.pending(), Some(Action::Dispatch));
}

#[test]
fn failed_setup_is_reported() {
    let messages = [
        "Wayland connection unavailable (WAYLAND_DISPLAY is not usable)",
        "failed to initialize the Wayland registry",
        "Wayland compositor does not advertise wl_seat: cause",
        "Wayland compositor does not advertise ext-idle-notify-v1: cause",
    ];
    for (steps, message) in messages.iter().enumerate() {
        let mut monitor = start();
        for _ in 0..steps {
            monitor.resume(Reply::Done);
        }
        assert_eq!(monitor.resume(failed("cause")), None);
        assert_eq!(monitor.pending(), None);
        match &monitor.phase {
            Phase::Failed { error } => assert_eq!(error.message(), *message),
            phase => panic!("{:?}", phase),
        }
    }
}

#[test]
fn panic_in_the_setup_is_reported() {
    for steps in 0..5 {
        let mut monitor = start();
        for _ in 0..steps {
            monitor.resume(Reply::Done);
        }
        monitor.resume(Reply::Panicked);
        assert_eq!(monitor.phase, Phase::Failed { error: IdleError::SetupPanicked });
    }
    assert_eq!(
        IdleError::SetupPanicked.message(),
        "Wayland idle setup panicked (protocol version mismatch?); falling back to rdev"
    );
}

#[test]
fn unspawned_thread_is_reported() {
    let mut monitor = start();
    for _ in 0..5 {
        monitor.resume(Reply::Done);
    }
    assert_eq!(monitor.pending(), Some(Action::SpawnThread));
    monitor.resume(failed("no memory"));
    let error = IdleError::ThreadNotSpawned { cause: "no memory".to_string() };
    assert_eq!(error.message(), "failed to spawn Wayland idle event thread");
    assert_eq!(monitor.phase, Phase::Failed { error });
}

#[test]
fn step_errors() {
    assert_eq!(
        connect_error(ConnectStep::Seat, "x".to_string()),
        Some(IdleError::NoSeat { cause: "x".to_string() })
    );
    assert_eq!(connect_error(ConnectStep::Request, "x".to_string()), None);
}

#[test]
fn flag_alone() {
    let mut state = State { user_active: true };
    assert_eq!(state.event(Notification::Idled), Some(false));
    assert_eq!(state, State { user_active: false });
    assert_eq!(state.event(Notification::Other), None);
    assert_eq!(state, State { user_active: false });
}
