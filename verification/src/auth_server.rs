//! The loopback OAuth callback receiver: the slot that holds the running
//! server's shutdown handle, the `start` and `stop` commands around it, and
//! the handling of a request that reaches the server.
//!
//! Nothing here touches a socket or a window. The host looks up the main
//! window, asks the operating system for a port, runs the HTTP server and
//! publishes events; it reports what happened as events, and performs the
//! actions that the functions of this module hand back.

use crate::query::QueryParams;
use crate::text::{decimal, push_decimal, same_text};
use tokio::sync::oneshot::{channel, Receiver, Sender};
use vstd::prelude::*;
use vstd::string::StringExecFns;

verus! {

/// The channel on which an authorization code is published to the frontend.
pub const AUTH_CALLBACK_EVENT: &'static str = "auth-callback";

/// The page shown once the authorization code has been forwarded.
pub const SUCCESS_PAGE: &'static str = "Authentication successful! You can close this window.";

/// The page shown for a callback that carries no authorization code.
pub const FAILURE_PAGE: &'static str = "Authentication failed.";

/// What `stop` answers once the server has been told to shut down.
pub const STOPPED_MESSAGE: &'static str = "Auth server stopped successfully";

/// The address that the server binds to: the IPv4 loopback interface, so
/// that only this machine reaches it.
pub const LOOPBACK: [u8; 4] = [127, 0, 0, 1];

/// The media type of both pages.
pub const HTML_CONTENT_TYPE: &'static str = "text/html";

/// The ways in which a command fails.
#[derive(Debug, Clone, Copy, PartialEq, Eq, Structural)]
pub enum AuthError {
    /// `start`: the host has no main window to publish events to.
    NoMainWindow,
    /// `start`: the operating system gave no loopback port.
    PortAllocationFailed,
    /// `stop`: the slot holds no shutdown handle.
    NoServerRunning,
    /// `stop`: the server task was gone before the signal reached it.
    SignalFailed,
}

impl AuthError {
    /// The message that the frontend receives for this error.
    pub open spec fn spec_message(self) -> Seq<char> {
        match self {
            AuthError::NoMainWindow => "failed to get main webview window"@,
            AuthError::PortAllocationFailed => "failed to find available port"@,
            AuthError::NoServerRunning => "No auth server is currently running"@,
            AuthError::SignalFailed => "Failed to send shutdown signal"@,
        }
    }

    /// The message that the frontend receives for this error.
    pub fn message(&self) -> (text: String)
        ensures
            text@ == self.spec_message(),
    {
        match self {
            AuthError::NoMainWindow => "failed to get main webview window".to_owned(),
            AuthError::PortAllocationFailed => "failed to find available port".to_owned(),
            AuthError::NoServerRunning => "No auth server is currently running".to_owned(),
            AuthError::SignalFailed => "Failed to send shutdown signal".to_owned(),
        }
    }
}

/// The payload of the event that carries the authorization code.
#[derive(Debug, Clone, PartialEq, Eq)]
pub struct AuthCallback {
    pub code: String,
}

/// What changes the slot: a `start` command that reached its launch, with
/// the handle it installed, or a `stop` command.
pub enum SlotEvent {
    Launched(Sender<()>),
    Stopped,
}

/// The slot after an event. A launch leaves its own handle there, whatever
/// was there before; a stop leaves nothing.
pub open spec fn slot_after(slot: Option<Sender<()>>, event: SlotEvent) -> Option<Sender<()>> {
    match event {
        SlotEvent::Launched(sender) => Some(sender),
        SlotEvent::Stopped => None,
    }
}

/// The slot after a sequence of events, starting from the empty slot that the
/// host creates at startup.
pub open spec fn slot_after_all(events: Seq<SlotEvent>) -> Option<Sender<()>>
    decreases events.len(),
{
    if events.len() == 0 {
        None
    } else {
        slot_after(slot_after_all(events.drop_last()), events.last())
    }
}

/// The slot for the running server's shutdown handle. It is empty exactly
/// when no server is running.
pub struct AuthState {
    shutdown_sender: Option<Sender<()>>,
}

impl AuthState {
    /// The shutdown handle in the slot, if there is one.
    pub closed spec fn handle(&self) -> Option<Sender<()>> {
        self.shutdown_sender
    }

    /// Whether the slot holds a handle, that is, whether a server is running.
    pub open spec fn is_running(&self) -> bool {
        self.handle() is Some
    }

    /// The handles in the slot, as a sequence.
    pub open spec fn handles(&self) -> Seq<Sender<()>> {
        match self.handle() {
            Some(sender) => seq![sender],
            None => Seq::empty(),
        }
    }

    /// An empty slot.
    pub fn new() -> (state: AuthState)
        ensures
            state.handle() is None,
    {
        AuthState { shutdown_sender: None }
    }

    /// Whether a server is running.
    pub fn running(&self) -> (running: bool)
        ensures
            running == self.is_running(),
    {
        self.shutdown_sender.is_some()
    }

    /// Puts `sender` into the slot. A handle that was there is dropped, which
    /// lets the server that waits on it shut down.
    pub fn install(&mut self, sender: Sender<()>)
        ensures
            final(self).handle() == slot_after(old(self).handle(), SlotEvent::Launched(sender)),
    {
        self.shutdown_sender = Some(sender);
    }

    /// Empties the slot and hands out what it held.
    pub fn take(&mut self) -> (sender: Option<Sender<()>>)
        ensures
            sender == old(self).handle(),
            final(self).handle() == slot_after(old(self).handle(), SlotEvent::Stopped),
    {
        self.shutdown_sender.take()
    }
}

impl Default for AuthState {
    /// An empty slot.
    fn default() -> (state: AuthState)
        ensures
            state.handle() is None,
    {
        AuthState::new()
    }
}

/// The URL that the identity provider is to redirect to, for a server on `port`.
pub open spec fn spec_callback_url(port: u16) -> Seq<char> {
    "http://localhost:"@ + decimal(port as nat) + "/callback"@
}

/// The URL that the identity provider is to redirect to, for a server on `port`.
pub fn callback_url(port: u16) -> (url: String)
    ensures
        url@ == spec_callback_url(port),
{
    let mut url = "http://localhost:".to_owned();
    push_decimal(&mut url, port);
    url.append("/callback");
    url
}

/// What the host reports to `start_auth_server`.
#[derive(Debug, Clone, Copy, PartialEq, Eq, Structural)]
pub enum StartEvent {
    /// The frontend asked for a server.
    Requested,
    /// The main window was looked up; `true` if it exists.
    WindowLookup(bool),
    /// A loopback port was asked for; `None` if the operating system refused.
    PortAllocation(Option<u16>),
}

/// A server that the host is to run: bound to `address` and `port`, until
/// `shutdown` resolves.
#[derive(Debug)]
pub struct ServerLaunch {
    pub address: [u8; 4],
    pub port: u16,
    pub callback_url: String,
    pub shutdown: Receiver<()>,
}

/// What the host is to do next for a `start` command.
#[derive(Debug)]
pub enum StartAction {
    /// Look up the main window and report `StartEvent::WindowLookup`.
    LookupWindow,
    /// Ask for a loopback port and report `StartEvent::PortAllocation`.
    AllocatePort,
    /// Spawn the server and answer the command with its callback URL.
    Launch(ServerLaunch),
    /// Answer the command with this error message.
    Fail(String),
}

/// A `StartAction` without its shutdown receiver, and with its strings as
/// sequences of characters.
pub enum StartActionView {
    LookupWindow,
    AllocatePort,
    Launch { address: Seq<u8>, port: u16, callback_url: Seq<char> },
    Fail { message: Seq<char> },
}

impl View for StartAction {
    type V = StartActionView;

    open spec fn view(&self) -> StartActionView {
        match *self {
            StartAction::LookupWindow => StartActionView::LookupWindow,
            StartAction::AllocatePort => StartActionView::AllocatePort,
            StartAction::Launch(launch) => StartActionView::Launch {
                address: launch.address@,
                port: launch.port,
                callback_url: launch.callback_url@,
            },
            StartAction::Fail(message) => StartActionView::Fail { message: message@ },
        }
    }
}

/// The step of a `start` command that follows `event`: the window is looked
/// up first, a port is asked for only once the window is known to exist, and
/// the server is launched, on the loopback interface, only once a port is
/// there.
pub open spec fn start_step(event: StartEvent) -> StartActionView {
    match event {
        StartEvent::Requested => StartActionView::LookupWindow,
        StartEvent::WindowLookup(found) => if found {
            StartActionView::AllocatePort
        } else {
            StartActionView::Fail { message: AuthError::NoMainWindow.spec_message() }
        },
        StartEvent::PortAllocation(Some(port)) => StartActionView::Launch {
            address: LOOPBACK@,
            port,
            callback_url: spec_callback_url(port),
        },
        StartEvent::PortAllocation(None) => StartActionView::Fail {
            message: AuthError::PortAllocationFailed.spec_message(),
        },
    }
}

/// Advances a `start` command by one step.
///
/// Only the last step touches the slot: with a port at hand, a fresh
/// shutdown channel is made, its sending half replaces whatever the slot
/// held, and its receiving half is handed out with the launch. The slot is
/// thus filled before the host can spawn the server. Every other step leaves
/// the slot as it was.
pub fn start_auth_server(state: &mut AuthState, event: StartEvent) -> (action: StartAction)
    ensures
        action@ == start_step(event),
        action is Launch ==> exists|sender: Sender<()>|
            final(state).handle() == #[trigger] slot_after(
                old(state).handle(),
                SlotEvent::Launched(sender),
            ),
        !(action is Launch) ==> final(state).handle() == old(state).handle(),
{
    match event {
        StartEvent::Requested => StartAction::LookupWindow,
        StartEvent::WindowLookup(found) => {
            if found {
                StartAction::AllocatePort
            } else {
                StartAction::Fail(AuthError::NoMainWindow.message())
            }
        },
        StartEvent::PortAllocation(allocated) => {
            match allocated {
                Some(port) => {
                    let (sender, shutdown) = channel::<()>();
                    state.install(sender);
                    StartAction::Launch(
                        ServerLaunch {
                            address: LOOPBACK,
                            port,
                            callback_url: callback_url(port),
                            shutdown,
                        },
                    )
                },
                None => StartAction::Fail(AuthError::PortAllocationFailed.message()),
            }
        },
    }
}

/// What became of the shutdown signal of a `stop` command.
#[derive(Debug, Clone, Copy, PartialEq, Eq, Structural)]
pub enum Signal {
    /// The slot was empty: there was nothing to signal.
    NoHandle,
    /// The signal was accepted by the channel.
    Delivered,
    /// The receiving half was gone already.
    Undelivered,
}

/// The view of a command's answer: both strings as sequences of characters.
pub open spec fn reply_view(reply: Result<String, String>) -> Result<Seq<char>, Seq<char>> {
    match reply {
        Ok(text) => Ok(text@),
        Err(text) => Err(text@),
    }
}

/// What `stop` answers for each outcome of the signal.
pub open spec fn spec_stop_reply(signal: Signal) -> Result<Seq<char>, Seq<char>> {
    match signal {
        Signal::NoHandle => Err(AuthError::NoServerRunning.spec_message()),
        Signal::Delivered => Ok(STOPPED_MESSAGE@),
        Signal::Undelivered => Err(AuthError::SignalFailed.spec_message()),
    }
}

/// What `stop` answers for each outcome of the signal.
pub fn stop_reply(signal: Signal) -> (reply: Result<String, String>)
    ensures
        reply_view(reply) == spec_stop_reply(signal),
{
    match signal {
        Signal::NoHandle => Err(AuthError::NoServerRunning.message()),
        Signal::Delivered => Ok(STOPPED_MESSAGE.to_owned()),
        Signal::Undelivered => Err(AuthError::SignalFailed.message()),
    }
}

/// Whether `reply` is an answer that `stop` may give. With an empty slot
/// there is one: that no server is running. With a full slot there are two,
/// one for each outcome of the signal.
pub open spec fn stop_may_answer(running: bool, reply: Result<Seq<char>, Seq<char>>) -> bool {
    if running {
        reply == spec_stop_reply(Signal::Delivered) || reply == spec_stop_reply(Signal::Undelivered)
    } else {
        reply == spec_stop_reply(Signal::NoHandle)
    }
}

/// Stops the running server.
///
/// The slot is emptied first. If it held a handle, the handle is signaled;
/// whether the signal is delivered depends on whether the server task still
/// listens, so the answer for a full slot is one of two. For an empty slot
/// the answer is always that no server is running.
pub fn stop_auth_server(state: &mut AuthState) -> (reply: Result<String, String>)
    ensures
        final(state).handle() == slot_after(old(state).handle(), SlotEvent::Stopped),
        stop_may_answer(old(state).is_running(), reply_view(reply)),
{
    let signal = match state.take() {
        Some(sender) => match sender.send(()) {
            Ok(_) => Signal::Delivered,
            Err(_) => Signal::Undelivered,
        },
        None => Signal::NoHandle,
    };
    stop_reply(signal)
}

/// The slot never holds more than one shutdown handle, whatever calls led to
/// its state.
pub proof fn lemma_at_most_one_handle(state: AuthState)
    ensures
        state.handles().len() <= 1,
{
}

/// After any sequence of launches and stops, the slot holds the handle of the
/// last launch if no stop came after it, and is empty otherwise. So a second
/// launch leaves only its own handle, and a stop leaves none.
pub proof fn lemma_slot_follows_last_event(events: Seq<SlotEvent>)
    ensures
        slot_after_all(events) == (if events.len() > 0 && events.last() is Launched {
            Some(events.last()->Launched_0)
        } else {
            None
        }),
{
}

/// A `stop` that no launch precedes finds the slot empty, and its answer is
/// exactly the error that no server is running.
pub proof fn lemma_stop_without_start(
    state: AuthState,
    events: Seq<SlotEvent>,
    reply: Result<Seq<char>, Seq<char>>,
)
    requires
        state.handle() == slot_after_all(events),
        forall|i: int| 0 <= i < events.len() ==> events[i] is Stopped,
        stop_may_answer(state.is_running(), reply),
    ensures
        !state.is_running(),
        reply == Err::<Seq<char>, Seq<char>>("No auth server is currently running"@),
{
    lemma_slot_follows_last_event(events);
}

/// What the host is to do for a request that reached the server, in order.
#[derive(Debug, PartialEq, Eq)]
pub enum CallbackAction {
    /// Publish `payload` on `channel`; a failure to publish is fatal to the
    /// server task.
    Emit { channel: &'static str, payload: AuthCallback },
    /// Answer the request.
    Respond { status: u16, content_type: &'static str, body: String },
    /// Answer the request as the server answers any unknown route.
    NotFound,
}

/// A `CallbackAction` with its strings as sequences of characters.
pub enum CallbackActionView {
    Emit { channel: Seq<char>, code: Seq<char> },
    Respond { status: u16, content_type: Seq<char>, body: Seq<char> },
    NotFound,
}

impl View for CallbackAction {
    type V = CallbackActionView;

    open spec fn view(&self) -> CallbackActionView {
        match *self {
            CallbackAction::Emit { channel, payload } => CallbackActionView::Emit {
                channel: channel@,
                code: payload.code@,
            },
            CallbackAction::Respond { status, content_type, body } => CallbackActionView::Respond {
                status,
                content_type: content_type@,
                body: body@,
            },
            CallbackAction::NotFound => CallbackActionView::NotFound,
        }
    }
}

/// The views of a list of actions, in order.
pub open spec fn action_views(actions: Seq<CallbackAction>) -> Seq<CallbackActionView> {
    Seq::new(actions.len(), |i: int| actions[i]@)
}

/// The one route of the server: `GET /callback`.
pub open spec fn is_callback_route(method: Seq<char>, path: Seq<char>) -> bool {
    method == "GET"@ && path == "/callback"@
}

/// An HTML page, answered with status 200.
pub open spec fn page(body: Seq<char>) -> CallbackActionView {
    CallbackActionView::Respond { status: 200, content_type: HTML_CONTENT_TYPE@, body }
}

/// What a request leads to. On the callback route, a `code` parameter is
/// published first and then acknowledged; without one, the failure page is
/// the whole answer. No other parameter is looked at.
pub open spec fn callback_actions(
    method: Seq<char>,
    path: Seq<char>,
    params: Map<Seq<char>, Seq<char>>,
) -> Seq<CallbackActionView> {
    if !is_callback_route(method, path) {
        seq![CallbackActionView::NotFound]
    } else if params.contains_key("code"@) {
        seq![
            CallbackActionView::Emit { channel: AUTH_CALLBACK_EVENT@, code: params["code"@] },
            page(SUCCESS_PAGE@),
        ]
    } else {
        seq![page(FAILURE_PAGE@)]
    }
}

/// Decides what a request leads to.
pub fn handle_request(method: &str, path: &str, params: &QueryParams) -> (actions: Vec<
    CallbackAction,
>)
    ensures
        action_views(actions@) == callback_actions(method@, path@, params@),
{
    let mut actions: Vec<CallbackAction> = Vec::new();
    if !(same_text(method, "GET") && same_text(path, "/callback")) {
        actions.push(CallbackAction::NotFound);
    } else {
        match params.get("code") {
            Some(code) => {
                actions.push(
                    CallbackAction::Emit {
                        channel: AUTH_CALLBACK_EVENT,
                        payload: AuthCallback { code: code.clone() },
                    },
                );
                actions.push(
                    CallbackAction::Respond {
                        status: 200,
                        content_type: HTML_CONTENT_TYPE,
                        body: SUCCESS_PAGE.to_owned(),
                    },
                );
            },
            None => {
                actions.push(
                    CallbackAction::Respond {
                        status: 200,
                        content_type: HTML_CONTENT_TYPE,
                        body: FAILURE_PAGE.to_owned(),
                    },
                );
            },
        }
    }
    assert(action_views(actions@) =~= callback_actions(method@, path@, params@));
    actions
}

} // verus!
