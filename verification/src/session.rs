//! The life of the one browser session behind the service.
//!
//! A process launches its browser once, starts draining the browser's
//! protocol events, confirms by a first round trip that commands are
//! answered, and only then serves requests. Commands are answered only while
//! events are drained, so none is issued before the pump runs. The caller
//! performs each `SessionAction` and reports what came of it.

use vstd::prelude::*;
use vstd::string::StringExecFns;

verus! {

/// Launch flag: render without a GPU.
pub const DISABLE_GPU: &'static str = "--disable-gpu";

/// Launch flag: run without the browser's sandbox, as containers require.
pub const NO_SANDBOX: &'static str = "--no-sandbox";

/// Launch flag: run without the setuid sandbox.
pub const NO_SETUID_SANDBOX: &'static str = "--disable-setuid-sandbox";

/// The address on which the service listens.
pub const BIND_ADDRESS: &'static str = "0.0.0.0:8080";

/// What is said when the connection is lost before the service is up.
pub const CONNECTION_LOST: &'static str = "browser connection lost during startup";

/// What is said of a report that answers nothing that was asked.
pub const UNEXPECTED_REPORT: &'static str = "unexpected report during startup";

/// The flags that the browser is launched with, in order.
pub fn launch_flags() -> (flags: Vec<&'static str>)
    ensures
        flags@ == seq![DISABLE_GPU, NO_SANDBOX, NO_SETUID_SANDBOX],
{
    let mut flags: Vec<&'static str> = Vec::new();
    flags.push(DISABLE_GPU);
    flags.push(NO_SANDBOX);
    flags.push(NO_SETUID_SANDBOX);
    assert(flags@ =~= seq![DISABLE_GPU, NO_SANDBOX, NO_SETUID_SANDBOX]);
    flags
}

/// Where the session stands.
#[derive(Clone, Copy, Debug, PartialEq, Eq, Structural)]
pub enum SessionState {
    /// The browser is being launched.
    Launching,
    /// The browser runs; the event pump is being started.
    PumpStarting,
    /// The pump runs; a first command is on its way.
    Confirming,
    /// Commands are answered: requests are served.
    Serving,
    /// The session is over.
    Stopped,
}

/// What the caller reports of the session.
#[derive(Debug, PartialEq, Eq)]
pub enum SessionEvent {
    /// The browser was launched and the handshake succeeded.
    Launched,
    /// The event pump runs.
    PumpStarted,
    /// The first command was answered.
    Confirmed,
    /// The event stream ended: the connection is gone.
    ConnectionLost,
    /// What was asked failed; the browser's words.
    Failed(String),
}

/// What the caller is to do next.
#[derive(Debug, PartialEq, Eq)]
pub enum SessionAction {
    /// Launch the browser with `launch_flags`.
    Launch,
    /// Start draining protocol events, for as long as the process lives.
    StartPump,
    /// Ask the browser for its version: a first round trip.
    QueryVersion,
    /// Begin to accept requests.
    Serve,
    /// Give up before serving: the service cannot run. The reason.
    Abort(String),
    /// Stop serving: the connection is gone.
    Shutdown,
    /// Nothing.
    Nothing,
}

/// `SessionEvent` as a mathematical value.
pub enum SessionEventModel {
    Launched,
    PumpStarted,
    Confirmed,
    ConnectionLost,
    Failed(Seq<char>),
}

/// `SessionAction` as a mathematical value.
pub enum SessionActionModel {
    Launch,
    StartPump,
    QueryVersion,
    Serve,
    Abort(Seq<char>),
    Shutdown,
    Nothing,
}

impl View for SessionEvent {
    type V = SessionEventModel;

    open spec fn view(&self) -> SessionEventModel {
        match self {
            SessionEvent::Launched => SessionEventModel::Launched,
            SessionEvent::PumpStarted => SessionEventModel::PumpStarted,
            SessionEvent::Confirmed => SessionEventModel::Confirmed,
            SessionEvent::ConnectionLost => SessionEventModel::ConnectionLost,
            SessionEvent::Failed(words) => SessionEventModel::Failed(words@),
        }
    }
}

impl View for SessionAction {
    type V = SessionActionModel;

    open spec fn view(&self) -> SessionActionModel {
        match self {
            SessionAction::Launch => SessionActionModel::Launch,
            SessionAction::StartPump => SessionActionModel::StartPump,
            SessionAction::QueryVersion => SessionActionModel::QueryVersion,
            SessionAction::Serve => SessionActionModel::Serve,
            SessionAction::Abort(reason) => SessionActionModel::Abort(reason@),
            SessionAction::Shutdown => SessionActionModel::Shutdown,
            SessionAction::Nothing => SessionActionModel::Nothing,
        }
    }
}

/// Why startup is given up on `event`, which is not what was waited for.
pub open spec fn abort_reason(event: SessionEventModel) -> Seq<char> {
    match event {
        SessionEventModel::Failed(words) => words,
        SessionEventModel::ConnectionLost => CONNECTION_LOST@,
        _ => UNEXPECTED_REPORT@,
    }
}

/// The transition function of the session.
///
/// During startup the awaited report moves the session one step on, and
/// anything else is fatal. While serving, the loss of the connection stops
/// the session and every other report changes nothing. A stopped session
/// stays stopped.
pub open spec fn session_next(state: SessionState, event: SessionEventModel) -> (
    SessionState,
    SessionActionModel,
) {
    match (state, event) {
        (SessionState::Launching, SessionEventModel::Launched) => (
            SessionState::PumpStarting,
            SessionActionModel::StartPump,
        ),
        (SessionState::PumpStarting, SessionEventModel::PumpStarted) => (
            SessionState::Confirming,
            SessionActionModel::QueryVersion,
        ),
        (SessionState::Confirming, SessionEventModel::Confirmed) => (
            SessionState::Serving,
            SessionActionModel::Serve,
        ),
        (SessionState::Serving, SessionEventModel::ConnectionLost) => (
            SessionState::Stopped,
            SessionActionModel::Shutdown,
        ),
        (SessionState::Serving, _) => (SessionState::Serving, SessionActionModel::Nothing),
        (SessionState::Stopped, _) => (SessionState::Stopped, SessionActionModel::Nothing),
        _ => (SessionState::Stopped, SessionActionModel::Abort(abort_reason(event))),
    }
}

/// The reason to give up startup on `event`.
fn reason(event: SessionEvent) -> (words: String)
    ensures
        words@ == abort_reason(event@),
{
    match event {
        SessionEvent::Failed(words) => words,
        SessionEvent::ConnectionLost => String::from_str(CONNECTION_LOST),
        _ => String::from_str(UNEXPECTED_REPORT),
    }
}

impl SessionState {
    /// Begins the session: the first thing to do is to launch the browser.
    pub fn start() -> (begun: (SessionState, SessionAction))
        ensures
            begun.0 == SessionState::Launching,
            begun.1@ == SessionActionModel::Launch,
    {
        (SessionState::Launching, SessionAction::Launch)
    }

    /// Whether requests may be served: commands are known to be answered.
    pub fn is_serving(&self) -> (serving: bool)
        ensures
            serving == (*self == SessionState::Serving),
    {
        match self {
            SessionState::Serving => true,
            _ => false,
        }
    }

    /// Takes a report and decides what to do next.
    pub fn step(self, event: SessionEvent) -> (stepped: (SessionState, SessionAction))
        ensures
            (stepped.0, stepped.1@) == session_next(self, event@),
    {
        match self {
            SessionState::Launching => match event {
                SessionEvent::Launched => (SessionState::PumpStarting, SessionAction::StartPump),
                other => (SessionState::Stopped, SessionAction::Abort(reason(other))),
            },
            SessionState::PumpStarting => match event {
                SessionEvent::PumpStarted => (SessionState::Confirming, SessionAction::QueryVersion),
                other => (SessionState::Stopped, SessionAction::Abort(reason(other))),
            },
            SessionState::Confirming => match event {
                SessionEvent::Confirmed => (SessionState::Serving, SessionAction::Serve),
                other => (SessionState::Stopped, SessionAction::Abort(reason(other))),
            },
            SessionState::Serving => match event {
                SessionEvent::ConnectionLost => (SessionState::Stopped, SessionAction::Shutdown),
                _ => (SessionState::Serving, SessionAction::Nothing),
            },
            SessionState::Stopped => (SessionState::Stopped, SessionAction::Nothing),
        }
    }
}

/// The state of a session after `events`.
pub open spec fn session_after(events: Seq<SessionEventModel>) -> SessionState
    decreases events.len(),
{
    if events.len() == 0 {
        SessionState::Launching
    } else {
        session_next(session_after(events.drop_last()), events.last()).0
    }
}

/// The action that the last of `events` called for; before any event, the
/// launch.
pub open spec fn session_issued(events: Seq<SessionEventModel>) -> SessionActionModel {
    if events.len() == 0 {
        SessionActionModel::Launch
    } else {
        session_next(session_after(events.drop_last()), events.last()).1
    }
}

/// How often the browser was launched over `events`: the launch at the
/// start, and every launch asked for since.
pub open spec fn launches(events: Seq<SessionEventModel>) -> nat
    decreases events.len(),
{
    if events.len() == 0 {
        1
    } else {
        let again: nat = if session_issued(events) is Launch {
            1
        } else {
            0
        };
        launches(events.drop_last()) + again
    }
}

/// What the state of a session tells of the events behind it.
pub open spec fn session_consistent(events: Seq<SessionEventModel>) -> bool {
    &&& launches(events) == 1
    &&& match session_after(events) {
        SessionState::Launching => events.len() == 0,
        SessionState::PumpStarting => events.len() == 1 && events[0] is Launched,
        SessionState::Confirming => {
            &&& events.len() == 2
            &&& events[0] is Launched
            &&& events[1] is PumpStarted
        },
        SessionState::Serving => {
            &&& events.len() >= 3
            &&& events[0] is Launched
            &&& events[1] is PumpStarted
            &&& events[2] is Confirmed
            &&& forall|i: int| 3 <= i < events.len() ==> !(#[trigger] events[i] is ConnectionLost)
        },
        SessionState::Stopped => events.len() >= 1,
    }
}

/// Every session is consistent: its state always tells the reports that led
/// to it, and the browser was launched once.
pub proof fn every_session_is_consistent(events: Seq<SessionEventModel>)
    ensures
        session_consistent(events),
    decreases events.len(),
{
    if events.len() > 0 {
        let before = events.drop_last();
        every_session_is_consistent(before);
        assert(forall|i: int| 0 <= i < before.len() ==> before[i] == events[i]);
    }
}

/// The browser is launched once. Whatever is reported, and however many
/// requests are served, no second launch is ever asked for.
pub proof fn launched_once(events: Seq<SessionEventModel>)
    ensures
        launches(events) == 1,
        events.len() >= 1 ==> !(session_issued(events) is Launch),
{
    every_session_is_consistent(events);
    if events.len() > 0 {
        every_session_is_consistent(events.drop_last());
    }
}

/// No command before the pump. The first command, the version query, is
/// issued only in answer to the report that the pump runs, and requests are
/// served only after that command was answered and while the connection has
/// not been lost since.
pub proof fn serving_needs_running_pump(events: Seq<SessionEventModel>)
    ensures
        session_issued(events) is QueryVersion ==> events.len() == 2 && events[0] is Launched
            && events[1] is PumpStarted,
        session_issued(events) is Serve ==> events.len() == 3 && events[0] is Launched
            && events[1] is PumpStarted && events[2] is Confirmed,
        session_after(events) == SessionState::Serving ==> {
            &&& events.len() >= 3
            &&& events[0] is Launched
            &&& events[1] is PumpStarted
            &&& events[2] is Confirmed
            &&& forall|i: int| 3 <= i < events.len() ==> !(#[trigger] events[i] is ConnectionLost)
        },
{
    every_session_is_consistent(events);
    if events.len() > 0 {
        let before = events.drop_last();
        every_session_is_consistent(before);
        assert(forall|i: int| 0 <= i < before.len() ==> before[i] == events[i]);
    }
}

/// A lost connection ends the session: once the event stream has ended, the
/// session is stopped for good, and nothing more is asked of the caller but
/// to stop.
pub proof fn lost_connection_stops(events: Seq<SessionEventModel>, at: int)
    requires
        0 <= at < events.len(),
        events[at] is ConnectionLost,
    ensures
        session_after(events) == SessionState::Stopped,
        !(session_issued(events) is Serve),
        !(session_issued(events) is QueryVersion),
        !(session_issued(events) is StartPump),
    decreases events.len(),
{
    let before = events.drop_last();
    every_session_is_consistent(events);
    every_session_is_consistent(before);
    if at < events.len() - 1 {
        assert(before[at] == events[at]);
        lost_connection_stops(before, at);
    }
}

} // verus!
