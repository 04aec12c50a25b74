use desktop_backend::auth_server::{
    start_auth_server, stop_auth_server, stop_reply, AuthError, AuthState, ServerLaunch, Signal,
    StartAction, StartEvent, LOOPBACK, STOPPED_MESSAGE,
};
use tokio::sync::oneshot::channel;
use tokio::sync::oneshot::error::TryRecvError;

fn launch(state: &mut AuthState, port: u16) -> ServerLaunch {
    match start_auth_server(state, StartEvent::PortAllocation(Some(port))) {
        StartAction::Launch(launch) => launch,
        other => panic!("expected a launch, got {:?}", other),
    }
}

#[test]
fn new_state_is_empty() {
    assert!(!AuthState::new().running());
    assert!(!AuthState::default().running());
}

#[test]
fn start_request_asks_for_the_window_first() {
    let mut state = AuthState::new();
    let action = start_auth_server(&mut state, StartEvent::Requested);
    assert!(matches!(action, StartAction::LookupWindow));
    assert!(!state.running());
}

#[test]
fn start_with_window_asks_for_a_port() {
    let mut state = AuthState::new();
    let action = start_auth_server(&mut state, StartEvent::WindowLookup(true));
    assert!(matches!(action, StartAction::AllocatePort));
    assert!(!state.running());
}

#[test]
fn start_without_window_fails() {
    let mut state = AuthState::new();
    match start_auth_server(&mut state, StartEvent::WindowLookup(false)) {
        StartAction::Fail(message) => assert_eq!(message, "failed to get main webview window"),
        other => panic!("expected a failure, got {:?}", other),
    }
    assert!(!state.running());
}

#[test]
fn start_without_port_fails() {
    let mut state = AuthState::new();
    match start_auth_server(&mut state, StartEvent::PortAllocation(None)) {
        StartAction::Fail(message) => assert_eq!(message, "failed to find available port"),
        other => panic!("expected a failure, got {:?}", other),
    }
    assert!(!state.running());
}

#[test]
fn failed_start_keeps_running_server() {
    let mut state = AuthState::new();
    let mut first = launch(&mut state, 4100);
    let action = start_auth_server(&mut state, StartEvent::PortAllocation(None));
    assert!(matches!(action, StartAction::Fail(_)));
    let action = start_auth_server(&mut state, StartEvent::WindowLookup(false));
    assert!(matches!(action, StartAction::Fail(_)));
    assert!(state.running());
    assert_eq!(first.shutdown.try_recv(), Err(TryRecvError::Empty));
}

#[test]
fn start_with_port_launches_and_fills_slot() {
    let mut state = AuthState::new();
    let mut launch = launch(&mut state, 8080);
    assert_eq!(launch.address, [127, 0, 0, 1]);
    assert_eq!(LOOPBACK, [127, 0, 0, 1]);
    assert_eq!(launch.port, 8080);
    assert_eq!(launch.callback_url, "http://localhost:8080/callback");
    assert!(state.running());
    assert_eq!(launch.shutdown.try_recv(), Err(TryRecvError::Empty));
}

#[test]
fn stop_signals_the_running_server() {
    let mut state = AuthState::new();
    let mut launch = launch(&mut state, 8080);
    assert_eq!(stop_auth_server(&mut state), Ok("Auth server stopped successfully".to_string()));
    assert!(!state.running());
    assert_eq!(launch.shutdown.try_recv(), Ok(()));
}

#[test]
fn stop_without_start_reports_no_server() {
    let mut state = AuthState::new();
    assert_eq!(
        stop_auth_server(&mut state),
        Err("No auth server is currently running".to_string())
    );
    assert!(!state.running());
}

#[test]
fn stop_after_failed_start_reports_no_server() {
    let mut state = AuthState::new();
    start_auth_server(&mut state, StartEvent::Requested);
    start_auth_server(&mut state, StartEvent::WindowLookup(true));
    start_auth_server(&mut state, StartEvent::PortAllocation(None));
    assert_eq!(
        stop_auth_server(&mut state),
        Err("No auth server is currently running".to_string())
    );
}

#[test]
fn second_stop_reports_no_server() {
    let mut state = AuthState::new();
    let _launch = launch(&mut state, 8080);
    assert_eq!(stop_auth_server(&mut state), Ok("Auth server stopped successfully".to_string()));
    assert_eq!(
        stop_auth_server(&mut state),
        Err("No auth server is currently running".to_string())
    );
}

#[test]
fn stop_after_server_is_gone_reports_signal_failure() {
    let mut state = AuthState::new();
    let launch = launch(&mut state, 8080);
    drop(launch);
    assert_eq!(stop_auth_server(&mut state), Err("Failed to send shutdown signal".to_string()));
    assert!(!state.running());
    assert_eq!(
        stop_auth_server(&mut state),
        Err("No auth server is currently running".to_string())
    );
}

#[test]
fn second_start_releases_the_first_handle() {
    let mut state = AuthState::new();
    let mut first = launch(&mut state, 4001);
    let mut second = launch(&mut state, 4002);
    assert_ne!(first.callback_url, second.callback_url);
    assert_eq!(first.shutdown.try_recv(), Err(TryRecvError::Closed));
    assert_eq!(second.shutdown.try_recv(), Err(TryRecvError::Empty));
    assert!(state.running());
    assert_eq!(stop_auth_server(&mut state), Ok("Auth server stopped successfully".to_string()));
    assert_eq!(second.shutdown.try_recv(), Ok(()));
    assert_eq!(
        stop_auth_server(&mut state),
        Err("No auth server is currently running".to_string())
    );
}

#[test]
fn one_stop_empties_the_slot_after_many_starts() {
    let mut state = AuthState::new();
    let mut launches = Vec::new();
    for port in 5000u16..5010u16 {
        launches.push(launch(&mut state, port));
    }
    let mut open = 0;
    for launch in launches.iter_mut() {
        if launch.shutdown.try_recv() == Err(TryRecvError::Empty) {
            open += 1;
        }
    }
    assert_eq!(open, 1);
    assert!(stop_auth_server(&mut state).is_ok());
    assert!(!state.running());
    assert!(stop_auth_server(&mut state).is_err());
}

#[test]
fn install_replaces_and_take_empties() {
    let mut state = AuthState::new();
    assert!(state.take().is_none());
    let (first, mut first_end) = channel::<()>();
    let (second, mut second_end) = channel::<()>();
    state.install(first);
    assert!(state.running());
    state.install(second);
    assert_eq!(first_end.try_recv(), Err(TryRecvError::Closed));
    let taken = state.take().expect("the slot was full");
    assert!(!state.running());
    assert!(state.take().is_none());
    assert_eq!(second_end.try_recv(), Err(TryRecvError::Empty));
    assert_eq!(taken.send(()), Ok(()));
    assert_eq!(second_end.try_recv(), Ok(()));
}

#[test]
fn stop_reply_for_each_signal() {
    assert_eq!(
        stop_reply(Signal::NoHandle),
        Err("No auth server is currently running".to_string())
    );
    assert_eq!(stop_reply(Signal::Delivered), Ok("Auth server stopped successfully".to_string()));
    assert_eq!(stop_reply(Signal::Undelivered), Err("Failed to send shutdown signal".to_string()));
    assert_eq!(STOPPED_MESSAGE, "Auth server stopped successfully");
}

#[test]
fn error_messages() {
    assert_eq!(AuthError::NoMainWindow.message(), "failed to get main webview window");
    assert_eq!(AuthError::PortAllocationFailed.message(), "failed to find available port");
    assert_eq!(AuthError::NoServerRunning.message(), "No auth server is currently running");
    assert_eq!(AuthError::SignalFailed.message(), "Failed to send shutdown signal");
}
