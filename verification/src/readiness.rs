//! The readiness gate: the supervisor that makes sure, once at startup, that
//! a usable device server answers before any device is bridged.
//!
//! The supervisor pings the server up to five times. A server that answers is
//! checked for its identity and its version. A server that does not answer
//! is waited for with growing delays; if it is expected on this machine, it
//! is started once. The supervisor itself neither pings nor sleeps: it says what is
//! due ([`GateAction`]) and takes what happened ([`GateEvent`]).

use vstd::prelude::*;
use crate::text::{push_text, same_text};
use crate::version::{spec_version_acceptable, version_acceptable};

verus! {

/// How often the server is pinged before the supervisor gives up.
pub const MAX_ATTEMPTS: u8 = 5;

/// The name by which the device server identifies itself.
pub open spec fn expected_server() -> Seq<char> {
    "VIIPER"@
}

/// The seconds to wait after the failed attempt number `attempt` (from 0):
/// 1, 1, 2, 4, 6.
pub open spec fn spec_backoff(attempt: u8) -> u64 {
    if attempt <= 1 {
        1
    } else if attempt == 2 {
        2
    } else if attempt == 3 {
        4
    } else {
        6
    }
}

/// The seconds to wait after the failed attempt number `attempt` (from 0).
pub fn backoff_secs(attempt: u8) -> (r: u64)
    ensures
        r == spec_backoff(attempt),
{
    if attempt <= 1 {
        1
    } else if attempt == 2 {
        2
    } else if attempt == 3 {
        4
    } else {
        6
    }
}

/// Why the supervisor gave up.
#[derive(Clone, Copy, Debug, PartialEq, Eq, Structural)]
pub enum FailKind {
    /// Another product answers at the server's address.
    WrongServer,
    /// The server is older than required.
    TooOld,
    /// The server could not be started on this machine.
    SpawnFailed,
    /// The server did not answer any of the attempts.
    Unavailable,
}

/// Where the supervisor stands.
#[derive(Clone, Copy, Debug, PartialEq, Eq, Structural)]
pub enum GatePhase {
    /// Not started.
    Idle,
    /// A ping is on its way.
    Pinging,
    /// The local server is being started.
    Spawning,
    /// The delay before the next attempt is running.
    Sleeping,
    /// The server is usable.
    Ready,
    /// The supervisor gave up.
    Failed(FailKind),
}

/// What happened.
#[derive(Clone, Debug)]
pub enum GateEvent {
    /// The supervisor is to begin.
    Start,
    /// The server answered a ping.
    PingResponse { server: String, version: String },
    /// The ping got no answer.
    PingFailed,
    /// Starting the local server succeeded or failed.
    SpawnFinished { ok: bool },
    /// The delay is over.
    SleepFinished,
}

/// The contents of a [`GateEvent`].
pub enum GateEventView {
    Start,
    PingResponse { server: Seq<char>, version: Seq<char> },
    PingFailed,
    SpawnFinished { ok: bool },
    SleepFinished,
}

impl View for GateEvent {
    type V = GateEventView;

    open spec fn view(&self) -> GateEventView {
        match *self {
            GateEvent::Start => GateEventView::Start,
            GateEvent::PingResponse { server, version } => GateEventView::PingResponse {
                server: server@,
                version: version@,
            },
            GateEvent::PingFailed => GateEventView::PingFailed,
            GateEvent::SpawnFinished { ok } => GateEventView::SpawnFinished { ok },
            GateEvent::SleepFinished => GateEventView::SleepFinished,
        }
    }
}

/// Why the supervisor gave up, with what there is to tell the user.
#[derive(Clone, Debug)]
pub enum FatalReason {
    WrongServer { server: String },
    TooOld { version: String },
    SpawnFailed,
    Unavailable,
}

/// The contents of a [`FatalReason`].
pub enum FatalReasonView {
    WrongServer { server: Seq<char> },
    TooOld { version: Seq<char> },
    SpawnFailed,
    Unavailable,
}

impl View for FatalReason {
    type V = FatalReasonView;

    open spec fn view(&self) -> FatalReasonView {
        match *self {
            FatalReason::WrongServer { server } => FatalReasonView::WrongServer { server: server@ },
            FatalReason::TooOld { version } => FatalReasonView::TooOld { version: version@ },
            FatalReason::SpawnFailed => FatalReasonView::SpawnFailed,
            FatalReason::Unavailable => FatalReasonView::Unavailable,
        }
    }
}

impl FatalReasonView {
    /// The kind of the reason.
    pub open spec fn kind(self) -> FailKind {
        match self {
            FatalReasonView::WrongServer { .. } => FailKind::WrongServer,
            FatalReasonView::TooOld { .. } => FailKind::TooOld,
            FatalReasonView::SpawnFailed => FailKind::SpawnFailed,
            FatalReasonView::Unavailable => FailKind::Unavailable,
        }
    }

    /// The title of the notice for the user.
    pub open spec fn title(self) -> Seq<char> {
        match self {
            FatalReasonView::WrongServer { .. } => "Invalid VIIPER server"@,
            FatalReasonView::TooOld { .. } => "VIIPER too old"@,
            FatalReasonView::SpawnFailed => "Failed to start VIIPER"@,
            FatalReasonView::Unavailable => "VIIPER unavailable"@,
        }
    }

    /// The text of the notice for the user. `address` is the server's
    /// address, `minimum` the required version, `detail` what is known of a
    /// failed start.
    pub open spec fn message(
        self,
        address: Seq<char>,
        minimum: Seq<char>,
        detail: Seq<char>,
    ) -> Seq<char> {
        match self {
            FatalReasonView::WrongServer { server } => "A non-VIIPER server is running at "@
                + address + " (server="@ + server
                + ").\n\nSISR requires VIIPER to function and will now exit."@,
            FatalReasonView::TooOld { version } => "VIIPER is too old.\n\nDetected: "@ + version
                + "\nRequired: "@ + minimum + "\n\nSISR will now exit."@,
            FatalReasonView::SpawnFailed => "Failed to start VIIPER locally.\n\n"@ + detail
                + "\n\nSISR will now exit."@,
            FatalReasonView::Unavailable => "Unable to connect to VIIPER at "@ + address
                + " after multiple attempts.\n\nSISR will now exit."@,
        }
    }
}

impl FatalReason {
    /// The title of the notice for the user.
    pub fn title(&self) -> (r: String)
        ensures
            r@ == self@.title(),
    {
        match self {
            FatalReason::WrongServer { .. } => "Invalid VIIPER server".to_owned(),
            FatalReason::TooOld { .. } => "VIIPER too old".to_owned(),
            FatalReason::SpawnFailed => "Failed to start VIIPER".to_owned(),
            FatalReason::Unavailable => "VIIPER unavailable".to_owned(),
        }
    }

    /// The text of the notice for the user.
    pub fn message(&self, address: &str, minimum: &str, detail: &str) -> (r: String)
        ensures
            r@ == self@.message(address@, minimum@, detail@),
    {
        match self {
            FatalReason::WrongServer { server } => {
                let mut r: String = "A non-VIIPER server is running at ".to_owned();
                push_text(&mut r, address);
                push_text(&mut r, " (server=");
                push_text(&mut r, server.as_str());
                push_text(&mut r, ").\n\nSISR requires VIIPER to function and will now exit.");
                r
            },
            FatalReason::TooOld { version } => {
                let mut r: String = "VIIPER is too old.\n\nDetected: ".to_owned();
                push_text(&mut r, version.as_str());
                push_text(&mut r, "\nRequired: ");
                push_text(&mut r, minimum);
                push_text(&mut r, "\n\nSISR will now exit.");
                r
            },
            FatalReason::SpawnFailed => {
                let mut r: String = "Failed to start VIIPER locally.\n\n".to_owned();
                push_text(&mut r, detail);
                push_text(&mut r, "\n\nSISR will now exit.");
                r
            },
            FatalReason::Unavailable => {
                let mut r: String = "Unable to connect to VIIPER at ".to_owned();
                push_text(&mut r, address);
                push_text(&mut r, " after multiple attempts.\n\nSISR will now exit.");
                r
            },
        }
    }
}

/// What is due.
#[derive(Clone, Debug)]
pub enum GateAction {
    /// Nothing: the event did not fit the phase, or the supervisor is done.
    Nothing,
    /// Ping the server and report the outcome.
    Ping,
    /// Start the server on this machine and report the outcome.
    Spawn,
    /// Wait and report when the time is over.
    Sleep { secs: u64 },
    /// Tell the input side that the server is ready.
    NotifyReady { version: String },
    /// Tell the user why, then shut down.
    Fail(FatalReason),
}

/// The contents of a [`GateAction`].
pub enum GateActionView {
    Nothing,
    Ping,
    Spawn,
    Sleep { secs: u64 },
    NotifyReady { version: Seq<char> },
    Fail(FatalReasonView),
}

impl View for GateAction {
    type V = GateActionView;

    open spec fn view(&self) -> GateActionView {
        match *self {
            GateAction::Nothing => GateActionView::Nothing,
            GateAction::Ping => GateActionView::Ping,
            GateAction::Spawn => GateActionView::Spawn,
            GateAction::Sleep { secs } => GateActionView::Sleep { secs },
            GateAction::NotifyReady { version } => GateActionView::NotifyReady {
                version: version@,
            },
            GateAction::Fail(reason) => GateActionView::Fail(reason@),
        }
    }
}

/// The state of the supervisor.
pub struct GateView {
    pub phase: GatePhase,
    /// The number of attempts that failed so far.
    pub attempt: u8,
    /// Whether the local server was started, or tried to be.
    pub spawn_attempted: bool,
    /// Whether the server is expected on this machine.
    pub is_loopback: bool,
    /// The version that the server must at least have.
    pub min_version: Seq<char>,
    /// Whether development builds pass without a version check.
    pub allow_dev: bool,
    /// The version of the server, once it is ready.
    pub version: Option<Seq<char>>,
}

impl GateView {
    /// The supervisor before it began.
    pub open spec fn fresh(
        is_loopback: bool,
        spawn_tracked: bool,
        min_version: Seq<char>,
        allow_dev: bool,
    ) -> GateView {
        GateView {
            phase: GatePhase::Idle,
            attempt: 0,
            spawn_attempted: spawn_tracked,
            is_loopback,
            min_version,
            allow_dev,
            version: None,
        }
    }

    /// Whether the server is usable.
    pub open spec fn ready(self) -> bool {
        self.phase == GatePhase::Ready
    }

    /// What the supervisor does with an answer to its ping, given whether the
    /// version that the server reports is acceptable: a server of another
    /// name and a server that is too old are fatal, any other server is ready.
    pub open spec fn answered_as(self, server: Seq<char>, version: Seq<char>, acceptable: bool) -> (
        GateView,
        GateActionView,
    ) {
        if server != expected_server() {
            (
                GateView { phase: GatePhase::Failed(FailKind::WrongServer), ..self },
                GateActionView::Fail(FatalReasonView::WrongServer { server }),
            )
        } else if !acceptable {
            (
                GateView { phase: GatePhase::Failed(FailKind::TooOld), ..self },
                GateActionView::Fail(FatalReasonView::TooOld { version }),
            )
        } else {
            (
                GateView { phase: GatePhase::Ready, version: Some(version), ..self },
                GateActionView::NotifyReady { version },
            )
        }
    }

    /// What the supervisor does with an answer to its ping: that of
    /// [`Self::answered_as`], the version being acceptable exactly when it
    /// satisfies the required one.
    pub open spec fn answered(self, server: Seq<char>, version: Seq<char>) -> (
        GateView,
        GateActionView,
    ) {
        self.answered_as(
            server,
            version,
            spec_version_acceptable(version, self.min_version, self.allow_dev),
        )
    }

    /// The delay that follows a failed attempt.
    pub open spec fn sleeping(self) -> (GateView, GateActionView) {
        (
            GateView { phase: GatePhase::Sleeping, ..self },
            GateActionView::Sleep { secs: spec_backoff(self.attempt) },
        )
    }

    /// The next state and the action that an event leads to.
    ///
    /// - `Start` while idle: the first ping.
    /// - An answer while pinging: see [`Self::answered`].
    /// - No answer while pinging: the local server is started if the server
    ///   is expected on this machine and no start was tried yet; else the
    ///   delay of this attempt begins.
    /// - The outcome of the start: a failed start is fatal, after a start
    ///   that worked the delay of this attempt begins.
    /// - The end of the delay: the attempt counts as failed; the next ping
    ///   follows unless five attempts have failed, which is fatal.
    /// - Any event that does not fit the phase changes nothing.
    pub open spec fn step(self, event: GateEventView) -> (GateView, GateActionView) {
        match (self.phase, event) {
            (GatePhase::Idle, GateEventView::Start) => (
                GateView { phase: GatePhase::Pinging, ..self },
                GateActionView::Ping,
            ),
            (GatePhase::Pinging, GateEventView::PingResponse { server, version }) => {
                self.answered(server, version)
            },
            (GatePhase::Pinging, GateEventView::PingFailed) => {
                if self.is_loopback && !self.spawn_attempted {
                    (
                        GateView { phase: GatePhase::Spawning, spawn_attempted: true, ..self },
                        GateActionView::Spawn,
                    )
                } else {
                    self.sleeping()
                }
            },
            (GatePhase::Spawning, GateEventView::SpawnFinished { ok }) => {
                if ok {
                    self.sleeping()
                } else {
                    (
                        GateView { phase: GatePhase::Failed(FailKind::SpawnFailed), ..self },
                        GateActionView::Fail(FatalReasonView::SpawnFailed),
                    )
                }
            },
            (GatePhase::Sleeping, GateEventView::SleepFinished) => {
                if self.attempt + 1 < MAX_ATTEMPTS {
                    (
                        GateView {
                            phase: GatePhase::Pinging,
                            attempt: (self.attempt + 1) as u8,
                            ..self
                        },
                        GateActionView::Ping,
                    )
                } else {
                    (
                        GateView {
                            phase: GatePhase::Failed(FailKind::Unavailable),
                            attempt: MAX_ATTEMPTS,
                            ..self
                        },
                        GateActionView::Fail(FatalReasonView::Unavailable),
                    )
                }
            },
            _ => (self, GateActionView::Nothing),
        }
    }

    /// What holds of every state that the supervisor reaches: it has counted five
    /// failed attempts exactly when it gave up for want of an answer, fewer
    /// otherwise, and none before it began; it has asked for the local server before it waits
    /// for it; it knows the server's version exactly when it is ready.
    pub open spec fn wf(self) -> bool {
        &&& self.attempt <= MAX_ATTEMPTS
        &&& self.attempt == MAX_ATTEMPTS <==> self.phase == GatePhase::Failed(
            FailKind::Unavailable,
        )
        &&& self.phase == GatePhase::Idle ==> self.attempt == 0
        &&& self.phase == GatePhase::Spawning ==> self.spawn_attempted
        &&& self.version.is_some() <==> self.phase == GatePhase::Ready
    }

    /// The state after the events were taken in order.
    pub open spec fn after(self, events: Seq<GateEventView>) -> GateView
        decreases events.len(),
    {
        if events.len() == 0 {
            self
        } else {
            self.after(events.drop_last()).step(events.last()).0
        }
    }

    /// The actions that the events lead to, in order.
    pub open spec fn actions(self, events: Seq<GateEventView>) -> Seq<GateActionView>
        decreases events.len(),
    {
        if events.len() == 0 {
            Seq::empty()
        } else {
            self.actions(events.drop_last()).push(
                self.after(events.drop_last()).step(events.last()).1,
            )
        }
    }
}

/// How many of the actions are the given one.
pub open spec fn count_of(actions: Seq<GateActionView>, a: GateActionView) -> nat
    decreases actions.len(),
{
    if actions.len() == 0 {
        0
    } else {
        count_of(actions.drop_last(), a) + if actions.last() == a {
            1nat
        } else {
            0nat
        }
    }
}

/// The readiness gate.
pub struct ReadinessGate {
    phase: GatePhase,
    attempt: u8,
    spawn_attempted: bool,
    is_loopback: bool,
    min_version: String,
    allow_dev: bool,
    version: Option<String>,
}

impl View for ReadinessGate {
    type V = GateView;

    closed spec fn view(&self) -> GateView {
        GateView {
            phase: self.phase,
            attempt: self.attempt,
            spawn_attempted: self.spawn_attempted,
            is_loopback: self.is_loopback,
            min_version: self.min_version@,
            allow_dev: self.allow_dev,
            version: match self.version {
                Some(v) => Some(v@),
                None => None,
            },
        }
    }
}

impl ReadinessGate {
    /// A supervisor that has not begun. `is_loopback` tells whether the
    /// server's address is on this machine, `spawn_tracked` whether this
    /// process has started a server before; if it has, none is started again.
    pub fn new(is_loopback: bool, spawn_tracked: bool, min_version: String, allow_dev: bool) -> (r:
        Self)
        ensures
            r@ == GateView::fresh(is_loopback, spawn_tracked, min_version@, allow_dev),
            r@.wf(),
    {
        ReadinessGate {
            phase: GatePhase::Idle,
            attempt: 0,
            spawn_attempted: spawn_tracked,
            is_loopback,
            min_version,
            allow_dev,
            version: None,
        }
    }

    /// Where the supervisor stands.
    pub fn phase(&self) -> (r: GatePhase)
        ensures
            r == self@.phase,
    {
        self.phase
    }

    /// Whether the server is usable.
    pub fn ready(&self) -> (r: bool)
        ensures
            r == self@.ready(),
    {
        match self.phase {
            GatePhase::Ready => true,
            _ => false,
        }
    }

    /// The version of the server, once it is ready.
    pub fn version(&self) -> (r: Option<String>)
        ensures
            match r {
                Some(v) => self@.version == Some(v@),
                None => self@.version.is_none(),
            },
    {
        match &self.version {
            Some(v) => Some(v.clone()),
            None => None,
        }
    }

    /// The number of attempts that failed so far.
    pub fn attempt(&self) -> (r: u8)
        ensures
            r == self@.attempt,
    {
        self.attempt
    }

    /// Takes the answer to a ping, given whether the reported version is
    /// acceptable; see [`GateView::answered_as`]. While no ping is on its
    /// way nothing changes.
    pub fn ping_answered(&mut self, server: String, version: String, acceptable: bool) -> (action:
        GateAction)
        requires
            old(self)@.wf(),
        ensures
            final(self)@.wf(),
            final(self)@ == if old(self)@.phase == GatePhase::Pinging {
                old(self)@.answered_as(server@, version@, acceptable).0
            } else {
                old(self)@
            },
            action@ == if old(self)@.phase == GatePhase::Pinging {
                old(self)@.answered_as(server@, version@, acceptable).1
            } else {
                GateActionView::Nothing
            },
    {
        match self.phase {
            GatePhase::Pinging => {
                if !same_text(server.as_str(), "VIIPER") {
                    self.phase = GatePhase::Failed(FailKind::WrongServer);
                    GateAction::Fail(FatalReason::WrongServer { server })
                } else if !acceptable {
                    self.phase = GatePhase::Failed(FailKind::TooOld);
                    GateAction::Fail(FatalReason::TooOld { version })
                } else {
                    self.phase = GatePhase::Ready;
                    self.version = Some(version.clone());
                    GateAction::NotifyReady { version }
                }
            },
            _ => GateAction::Nothing,
        }
    }

    /// Takes an event and says what is due; see [`GateView::step`].
    pub fn step(&mut self, event: GateEvent) -> (action: GateAction)
        requires
            old(self)@.wf(),
        ensures
            final(self)@.wf(),
            final(self)@ == old(self)@.step(event@).0,
            action@ == old(self)@.step(event@).1,
    {
        match (self.phase, event) {
            (GatePhase::Idle, GateEvent::Start) => {
                self.phase = GatePhase::Pinging;
                GateAction::Ping
            },
            (GatePhase::Pinging, GateEvent::PingResponse { server, version }) => {
                let acceptable: bool = version_acceptable(
                    version.as_str(),
                    self.min_version.as_str(),
                    self.allow_dev,
                );
                self.ping_answered(server, version, acceptable)
            },
            (GatePhase::Pinging, GateEvent::PingFailed) => {
                if self.is_loopback && !self.spawn_attempted {
                    self.spawn_attempted = true;
                    self.phase = GatePhase::Spawning;
                    GateAction::Spawn
                } else {
                    self.phase = GatePhase::Sleeping;
                    GateAction::Sleep { secs: backoff_secs(self.attempt) }
                }
            },
            (GatePhase::Spawning, GateEvent::SpawnFinished { ok }) => {
                if ok {
                    self.phase = GatePhase::Sleeping;
                    GateAction::Sleep { secs: backoff_secs(self.attempt) }
                } else {
                    self.phase = GatePhase::Failed(FailKind::SpawnFailed);
                    GateAction::Fail(FatalReason::SpawnFailed)
                }
            },
            (GatePhase::Sleeping, GateEvent::SleepFinished) => {
                if self.attempt + 1 < MAX_ATTEMPTS {
                    self.attempt = self.attempt + 1;
                    self.phase = GatePhase::Pinging;
                    GateAction::Ping
                } else {
                    self.attempt = MAX_ATTEMPTS;
                    self.phase = GatePhase::Failed(FailKind::Unavailable);
                    GateAction::Fail(FatalReason::Unavailable)
                }
            },
            _ => GateAction::Nothing,
        }
    }
}

/// Every step keeps what holds of every state.
pub proof fn lemma_step_wf(g: GateView, event: GateEventView)
    requires
        g.wf(),
    ensures
        g.step(event).0.wf(),
{
}

/// Every run keeps what holds of every state, and never changes the settings.
pub proof fn lemma_after_wf(g: GateView, events: Seq<GateEventView>)
    requires
        g.wf(),
    ensures
        g.after(events).wf(),
        g.after(events).is_loopback == g.is_loopback,
        g.after(events).min_version == g.min_version,
        g.after(events).allow_dev == g.allow_dev,
    decreases events.len(),
{
    if events.len() > 0 {
        lemma_after_wf(g, events.drop_last());
        lemma_step_wf(g.after(events.drop_last()), events.last());
    }
}

/// Whatever happens and however often the ping fails, the supervisor asks for the
/// local server to be started at most once; a supervisor that has asked before
/// never asks again.
pub proof fn lemma_spawns_at_most_once(g: GateView, events: Seq<GateEventView>)
    ensures
        count_of(g.actions(events), GateActionView::Spawn) <= 1,
        g.spawn_attempted ==> count_of(g.actions(events), GateActionView::Spawn) == 0,
        g.spawn_attempted ==> g.after(events).spawn_attempted,
        count_of(g.actions(events), GateActionView::Spawn) == 1 ==> g.after(
            events,
        ).spawn_attempted,
        !g.is_loopback ==> count_of(g.actions(events), GateActionView::Spawn) == 0,
    decreases events.len(),
{
    if events.len() > 0 {
        let shorter = events.drop_last();
        lemma_spawns_at_most_once(g, shorter);
        lemma_settings_kept(g, shorter);
        let acts = g.actions(events);
        assert(acts.drop_last() =~= g.actions(shorter));
    }
}

/// No run changes where the server is expected.
pub proof fn lemma_settings_kept(g: GateView, events: Seq<GateEventView>)
    ensures
        g.after(events).is_loopback == g.is_loopback,
    decreases events.len(),
{
    if events.len() > 0 {
        lemma_settings_kept(g, events.drop_last());
    }
}

/// How many pings a supervisor in the given state has sent.
pub open spec fn pings_sent(g: GateView) -> nat {
    match g.phase {
        GatePhase::Idle => 0,
        GatePhase::Pinging => (g.attempt + 1) as nat,
        GatePhase::Spawning => (g.attempt + 1) as nat,
        GatePhase::Sleeping => (g.attempt + 1) as nat,
        GatePhase::Ready => (g.attempt + 1) as nat,
        GatePhase::Failed(FailKind::Unavailable) => g.attempt as nat,
        GatePhase::Failed(_) => (g.attempt + 1) as nat,
    }
}

/// A step sends a ping exactly when its action is `Ping`.
pub proof fn lemma_step_pings(g: GateView, event: GateEventView)
    requires
        g.wf(),
    ensures
        pings_sent(g.step(event).0) == pings_sent(g) + if g.step(event).1 == GateActionView::Ping {
            1nat
        } else {
            0nat
        },
{
}

/// A supervisor that starts fresh pings at most five times, whatever happens, and
/// gives up for want of an answer only after exactly five pings.
pub proof fn lemma_at_most_five_pings(
    is_loopback: bool,
    spawn_tracked: bool,
    min_version: Seq<char>,
    allow_dev: bool,
    events: Seq<GateEventView>,
)
    ensures
        ({
            let g = GateView::fresh(is_loopback, spawn_tracked, min_version, allow_dev);
            &&& count_of(g.actions(events), GateActionView::Ping) == pings_sent(g.after(events))
            &&& count_of(g.actions(events), GateActionView::Ping) <= 5
            &&& g.after(events).phase == GatePhase::Failed(FailKind::Unavailable) ==> count_of(
                g.actions(events),
                GateActionView::Ping,
            ) == 5
        }),
    decreases events.len(),
{
    let g = GateView::fresh(is_loopback, spawn_tracked, min_version, allow_dev);
    if events.len() > 0 {
        let shorter = events.drop_last();
        lemma_at_most_five_pings(is_loopback, spawn_tracked, min_version, allow_dev, shorter);
        lemma_after_wf(g, shorter);
        lemma_after_wf(g, events);
        lemma_step_pings(g.after(shorter), events.last());
        let acts = g.actions(events);
        assert(acts.drop_last() =~= g.actions(shorter));
        assert(acts.last() == g.after(shorter).step(events.last()).1);
    } else {
        lemma_after_wf(g, events);
    }
}

/// The events of a session in which no ping is answered and no server is
/// started: the start, then five times a failed ping and the end of its delay.
pub open spec fn silent_session() -> Seq<GateEventView> {
    seq![
        GateEventView::Start,
        GateEventView::PingFailed,
        GateEventView::SleepFinished,
        GateEventView::PingFailed,
        GateEventView::SleepFinished,
        GateEventView::PingFailed,
        GateEventView::SleepFinished,
        GateEventView::PingFailed,
        GateEventView::SleepFinished,
        GateEventView::PingFailed,
        GateEventView::SleepFinished,
    ]
}

/// The actions of a session in which no ping is answered and no server is
/// started: five pings, each followed by its delay of 1, 1, 2, 4 and 6
/// seconds, then the failure.
pub open spec fn silent_actions() -> Seq<GateActionView> {
    seq![
        GateActionView::Ping,
        GateActionView::Sleep { secs: 1 },
        GateActionView::Ping,
        GateActionView::Sleep { secs: 1 },
        GateActionView::Ping,
        GateActionView::Sleep { secs: 2 },
        GateActionView::Ping,
        GateActionView::Sleep { secs: 4 },
        GateActionView::Ping,
        GateActionView::Sleep { secs: 6 },
        GateActionView::Fail(FatalReasonView::Unavailable),
    ]
}

/// One more event: the state and the actions of the longer run follow from
/// those of the shorter one by one step.
pub proof fn lemma_run_push(g: GateView, events: Seq<GateEventView>, e: GateEventView)
    ensures
        g.after(events.push(e)) == g.after(events).step(e).0,
        g.actions(events.push(e)) == g.actions(events).push(g.after(events).step(e).1),
{
    assert(events.push(e).drop_last() =~= events);
}

/// A server that is not expected on this machine and never answers is
/// pinged five times with delays of 1, 1, 2, 4 and 6 seconds, and then
/// given up.
pub proof fn lemma_silent_server_is_given_up(min_version: Seq<char>, allow_dev: bool)
    ensures
        ({
            let g = GateView::fresh(false, false, min_version, allow_dev);
            &&& g.actions(silent_session()) == silent_actions()
            &&& g.after(silent_session()).phase == GatePhase::Failed(FailKind::Unavailable)
        }),
{
    let g = GateView::fresh(false, false, min_version, allow_dev);
    let f = GateEventView::PingFailed;
    let s = GateEventView::SleepFinished;
    let e0 = Seq::<GateEventView>::empty();
    let e1 = e0.push(GateEventView::Start);
    let e2 = e1.push(f);
    let e3 = e2.push(s);
    let e4 = e3.push(f);
    let e5 = e4.push(s);
    let e6 = e5.push(f);
    let e7 = e6.push(s);
    let e8 = e7.push(f);
    let e9 = e8.push(s);
    let e10 = e9.push(f);
    let e11 = e10.push(s);
    lemma_run_push(g, e0, GateEventView::Start);
    lemma_run_push(g, e1, f);
    lemma_run_push(g, e2, s);
    lemma_run_push(g, e3, f);
    lemma_run_push(g, e4, s);
    lemma_run_push(g, e5, f);
    lemma_run_push(g, e6, s);
    lemma_run_push(g, e7, f);
    lemma_run_push(g, e8, s);
    lemma_run_push(g, e9, f);
    lemma_run_push(g, e10, s);
    assert(e11 =~= silent_session());
    assert(g.actions(e11) =~= silent_actions());
}

/// Once the server is ready it stays ready with the same version: the
/// supervisor goes from not ready to ready once and never back.
pub proof fn lemma_ready_is_final(g: GateView, events: Seq<GateEventView>)
    requires
        g.ready(),
    ensures
        g.after(events) == g,
    decreases events.len(),
{
    if events.len() > 0 {
        lemma_ready_is_final(g, events.drop_last());
    }
}

/// A server that is expected on this machine and never answers is started
/// once, after the first ping, and then pinged and waited for as any other:
/// five pings in all, delays of 1, 1, 2, 4 and 6 seconds, then the failure.
pub proof fn lemma_silent_local_server_is_started_once(min_version: Seq<char>, allow_dev: bool)
    ensures
        ({
            let g = GateView::fresh(true, false, min_version, allow_dev);
            let events = silent_session().insert(2, GateEventView::SpawnFinished { ok: true });
            &&& g.actions(events) == silent_actions().insert(1, GateActionView::Spawn)
            &&& g.after(events).phase == GatePhase::Failed(FailKind::Unavailable)
        }),
{
    let g = GateView::fresh(true, false, min_version, allow_dev);
    let f = GateEventView::PingFailed;
    let s = GateEventView::SleepFinished;
    let e0 = Seq::<GateEventView>::empty();
    let e1 = e0.push(GateEventView::Start);
    let e2 = e1.push(f);
    let e3 = e2.push(GateEventView::SpawnFinished { ok: true });
    let e4 = e3.push(s);
    let e5 = e4.push(f);
    let e6 = e5.push(s);
    let e7 = e6.push(f);
    let e8 = e7.push(s);
    let e9 = e8.push(f);
    let e10 = e9.push(s);
    let e11 = e10.push(f);
    let e12 = e11.push(s);
    lemma_run_push(g, e0, GateEventView::Start);
    lemma_run_push(g, e1, f);
    lemma_run_push(g, e2, GateEventView::SpawnFinished { ok: true });
    lemma_run_push(g, e3, s);
    lemma_run_push(g, e4, f);
    lemma_run_push(g, e5, s);
    lemma_run_push(g, e6, f);
    lemma_run_push(g, e7, s);
    lemma_run_push(g, e8, f);
    lemma_run_push(g, e9, s);
    lemma_run_push(g, e10, f);
    lemma_run_push(g, e11, s);
    assert(e12 =~= silent_session().insert(2, GateEventView::SpawnFinished { ok: true }));
    assert(g.actions(e12) =~= silent_actions().insert(1, GateActionView::Spawn));
}

/// Every event is answered by one action.
pub proof fn lemma_one_action_per_event(g: GateView, events: Seq<GateEventView>)
    ensures
        g.actions(events).len() == events.len(),
    decreases events.len(),
{
    if events.len() > 0 {
        lemma_one_action_per_event(g, events.drop_last());
    }
}

/// Once the server is ready nothing more is asked for.
pub proof fn lemma_ready_asks_nothing(g: GateView, events: Seq<GateEventView>, i: int)
    requires
        g.ready(),
        0 <= i < events.len(),
    ensures
        g.actions(events)[i] == GateActionView::Nothing,
    decreases events.len(),
{
    let shorter = events.drop_last();
    lemma_one_action_per_event(g, shorter);
    lemma_one_action_per_event(g, events);
    if i < events.len() - 1 {
        lemma_ready_asks_nothing(g, shorter, i);
        assert(g.actions(events)[i] == g.actions(shorter)[i]);
    } else {
        lemma_ready_is_final(g, shorter);
    }
}

/// A supervisor that gave up stays so.
pub proof fn lemma_failure_is_final(g: GateView, events: Seq<GateEventView>)
    requires
        g.phase is Failed,
    ensures
        g.after(events) == g,
    decreases events.len(),
{
    if events.len() > 0 {
        lemma_failure_is_final(g, events.drop_last());
    }
}

} // verus!
