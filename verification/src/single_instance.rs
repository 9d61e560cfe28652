//! Single-instance enforcement.
//!
//! [`SingleInstanceApp`] decides whether this process becomes the primary
//! instance.  The decision procedure is a state machine: each call of
//! [`SingleInstanceApp::advance`] takes the outcome of the last action and
//! returns the next action to carry out (connect to a primary, clean up
//! stale files, start a server, pause, probe the recorded owner process,
//! record this process's PID) until it returns [`EnforcementAction::Finish`]
//! with the result.  The application crate carries the actions out.

use vstd::prelude::*;
use crate::error::{CommunicationError, is_lock_conflict, lock_conflict};
use crate::pid::{parse_pid, pid_of_text};
use crate::types::{CommunicationConfig, ConfigView, ProtocolType, SerializationFormat, spec_default_config};

verus! {

/// Where the enforcement procedure stands.
#[derive(Debug, Clone, Copy, PartialEq, Eq, Structural)]
pub enum EnforcementStage {
    /// Not started.
    Idle,
    /// Waiting for the first handshake with an existing primary.
    FirstConnect,
    /// Waiting for stale files of the configured protocol to be cleaned up.
    FirstCleanup,
    /// Waiting for the server of the configured protocol to start.
    FirstStart,
    /// The lock file is held by someone else: pausing before asking again.
    ReclaimPause,
    /// Asking the lock holder for a handshake.
    ReclaimConnect,
    /// Waiting for the text of the PID file.
    OwnerCheck,
    /// Waiting to learn whether the recorded owner process runs.
    OwnerProbe,
    /// The owner runs but did not answer: pausing before asking again.
    OwnerPause,
    /// Asking the running owner for a handshake once more.
    OwnerConnect,
    /// Waiting for stale files to be cleaned up before reclaiming.
    ReclaimCleanup,
    /// Pausing after the cleanup.
    ReclaimCleanupPause,
    /// Asking for a handshake after the cleanup.
    ReclaimReconnect,
    /// Starting the server again after the cleanup.
    ReclaimStart,
    /// Asking for a handshake over a fallback protocol.
    FallbackConnect,
    /// Starting a server over a fallback protocol.
    FallbackStart,
    /// Waiting for this process's PID to be recorded.
    RecordPid,
    /// The result has been given.
    Finished,
}

/// What the application must do next.
#[derive(Debug)]
pub enum EnforcementAction {
    /// Connect to an existing primary over `protocol` and perform the
    /// opening handshake, with the handshake configuration.
    ConnectToPrimary { protocol: ProtocolType },
    /// Remove the files that a dead primary may have left for `protocol`.
    CleanupStale { protocol: ProtocolType },
    /// Create and start a server for `protocol` with the current configuration.
    StartServer { protocol: ProtocolType },
    /// Sleep for the given number of milliseconds.
    Pause { millis: u64 },
    /// Read the text of the PID file, if there is one.
    ReadOwnerPid,
    /// Find out whether a process with this PID runs.
    ProbeProcess { pid: u32 },
    /// Write this process's PID to the PID file.
    RecordPid,
    /// Enforcement is over: `Ok(true)` when this process is the primary
    /// instance, `Ok(false)` when another instance answered, `Err` when every
    /// attempt failed.
    Finish { result: Result<bool, CommunicationError> },
}

/// The outcome of the last action.
#[derive(Debug)]
pub enum EnforcementEvent {
    /// The handshake with a primary succeeded.
    Connected,
    /// The handshake with a primary failed.
    ConnectFailed,
    /// The server started and listens at `endpoint`.
    ServerStarted { endpoint: String },
    /// The server did not start.
    ServerFailed { error: CommunicationError },
    /// The PID file's text, or `None` when it is missing or unreadable.
    OwnerPid { text: Option<String> },
    /// Whether the probed process runs.
    ProcessChecked { alive: bool },
    /// A cleanup, pause or PID record is complete.
    Done,
}

/// Enhanced single instance enforcement with multiple communication protocols.
pub struct SingleInstanceApp {
    identifier: String,
    config: CommunicationConfig,
    endpoint: Option<String>,
    is_primary: bool,
    stage: EnforcementStage,
    initial_protocol: ProtocolType,
    first_error: Option<CommunicationError>,
    plan: Vec<ProtocolType>,
    plan_index: usize,
}

/// The mathematical value of a [`SingleInstanceApp`].
pub struct AppView {
    pub identifier: Seq<char>,
    pub config: ConfigView,
    pub endpoint: Option<Seq<char>>,
    pub is_primary: bool,
    pub stage: EnforcementStage,
    pub initial_protocol: ProtocolType,
    pub first_error: Option<CommunicationError>,
    pub plan: Seq<ProtocolType>,
    pub plan_index: int,
}

impl View for SingleInstanceApp {
    type V = AppView;

    closed spec fn view(&self) -> AppView {
        AppView {
            identifier: self.identifier@,
            config: self.config@,
            endpoint: match self.endpoint {
                Some(e) => Some(e@),
                None => None,
            },
            is_primary: self.is_primary,
            stage: self.stage,
            initial_protocol: self.initial_protocol,
            first_error: self.first_error,
            plan: self.plan@,
            plan_index: self.plan_index as int,
        }
    }
}

// ---------------------------------------------------------------------------
// The decision procedure, as mathematics
// ---------------------------------------------------------------------------

/// The first position at or after `from` whose protocol is not `initial`,
/// or the length of the plan when there is none.
pub open spec fn next_fallback(plan: Seq<ProtocolType>, initial: ProtocolType, from: int) -> int
    decreases plan.len() - from,
{
    if from < 0 || from >= plan.len() {
        plan.len() as int
    } else if plan[from] != initial {
        from
    } else {
        next_fallback(plan, initial, from + 1)
    }
}

/// The state with a new stage.
pub open spec fn at_stage(s: AppView, stage: EnforcementStage) -> AppView {
    AppView { stage, ..s }
}

/// Tries the fallback plan from position `from`: the next protocol of the
/// plan that is not the initial one is tried, or enforcement fails with the
/// error of the first server start.
pub open spec fn continue_fallback(s: AppView, from: int) -> (AppView, EnforcementAction) {
    let i = next_fallback(s.plan, s.initial_protocol, from);
    if i < s.plan.len() {
        (
            AppView {
                stage: EnforcementStage::FallbackConnect,
                plan_index: i,
                config: ConfigView { protocol: s.plan[i], ..s.config },
                ..s
            },
            EnforcementAction::ConnectToPrimary { protocol: s.plan[i] },
        )
    } else {
        (
            AppView { stage: EnforcementStage::Finished, first_error: None, ..s },
            EnforcementAction::Finish { result: Err(s.first_error->Some_0) },
        )
    }
}

/// Turns to the fallback protocols: the plan is the configured fallback
/// list when fallback is enabled, and empty otherwise.
pub open spec fn begin_fallback(s: AppView) -> (AppView, EnforcementAction) {
    let plan = if s.config.enable_fallback {
        s.config.fallback_protocols
    } else {
        Seq::<ProtocolType>::empty()
    };
    continue_fallback(AppView { plan, plan_index: 0, ..s }, 0)
}

/// The outcome of a successful server start: the endpoint is kept and the
/// PID is recorded next.
pub open spec fn server_started(s: AppView, endpoint: String) -> (AppView, EnforcementAction) {
    (
        AppView { stage: EnforcementStage::RecordPid, endpoint: Some(endpoint@), ..s },
        EnforcementAction::RecordPid,
    )
}

/// The outcome of a successful handshake: another instance is primary.
pub open spec fn secondary(s: AppView) -> (AppView, EnforcementAction) {
    (at_stage(s, EnforcementStage::Finished), EnforcementAction::Finish { result: Ok(false) })
}

/// Does `e` answer the action that the stage waits for?
pub open spec fn answers(stage: EnforcementStage, e: EnforcementEvent) -> bool {
    match stage {
        EnforcementStage::FirstConnect | EnforcementStage::ReclaimConnect
        | EnforcementStage::OwnerConnect | EnforcementStage::ReclaimReconnect
        | EnforcementStage::FallbackConnect => e is Connected || e is ConnectFailed,
        EnforcementStage::FirstStart | EnforcementStage::ReclaimStart
        | EnforcementStage::FallbackStart => e is ServerStarted || e is ServerFailed,
        EnforcementStage::FirstCleanup | EnforcementStage::ReclaimPause
        | EnforcementStage::OwnerPause | EnforcementStage::ReclaimCleanup
        | EnforcementStage::ReclaimCleanupPause | EnforcementStage::RecordPid => e is Done,
        EnforcementStage::OwnerCheck => e is OwnerPid,
        EnforcementStage::OwnerProbe => e is ProcessChecked,
        EnforcementStage::Idle | EnforcementStage::Finished => false,
    }
}

/// One step of the decision procedure: the state and action that follow
/// from the outcome `e` of the action the state waits for.
pub open spec fn step(s: AppView, e: EnforcementEvent) -> (AppView, EnforcementAction) {
    let initial = s.initial_protocol;
    match s.stage {
        EnforcementStage::FirstConnect => if e is Connected {
            secondary(s)
        } else {
            (
                at_stage(s, EnforcementStage::FirstCleanup),
                EnforcementAction::CleanupStale { protocol: initial },
            )
        },
        EnforcementStage::FirstCleanup => (
            at_stage(s, EnforcementStage::FirstStart),
            EnforcementAction::StartServer { protocol: initial },
        ),
        EnforcementStage::FirstStart => match e {
            EnforcementEvent::ServerStarted { endpoint } => server_started(s, endpoint),
            EnforcementEvent::ServerFailed { error } => if is_lock_conflict(error) {
                (
                    AppView {
                        stage: EnforcementStage::ReclaimPause,
                        first_error: Some(error),
                        ..s
                    },
                    EnforcementAction::Pause { millis: 50 },
                )
            } else {
                begin_fallback(AppView { first_error: Some(error), ..s })
            },
            _ => (s, EnforcementAction::Pause { millis: 0 }),
        },
        EnforcementStage::ReclaimPause => (
            at_stage(s, EnforcementStage::ReclaimConnect),
            EnforcementAction::ConnectToPrimary { protocol: initial },
        ),
        EnforcementStage::ReclaimConnect => if e is Connected {
            secondary(s)
        } else {
            (at_stage(s, EnforcementStage::OwnerCheck), EnforcementAction::ReadOwnerPid)
        },
        EnforcementStage::OwnerCheck => {
            let pid = match e {
                EnforcementEvent::OwnerPid { text: Some(t) } => pid_of_text(t@),
                _ => None,
            };
            match pid {
                Some(p) => (
                    at_stage(s, EnforcementStage::OwnerProbe),
                    EnforcementAction::ProbeProcess { pid: p },
                ),
                None => (
                    at_stage(s, EnforcementStage::ReclaimCleanup),
                    EnforcementAction::CleanupStale { protocol: initial },
                ),
            }
        },
        EnforcementStage::OwnerProbe => if e matches EnforcementEvent::ProcessChecked {
            alive: true,
        } {
            (at_stage(s, EnforcementStage::OwnerPause), EnforcementAction::Pause { millis: 500 })
        } else {
            (
                at_stage(s, EnforcementStage::ReclaimCleanup),
                EnforcementAction::CleanupStale { protocol: initial },
            )
        },
        EnforcementStage::OwnerPause => (
            at_stage(s, EnforcementStage::OwnerConnect),
            EnforcementAction::ConnectToPrimary { protocol: initial },
        ),
        EnforcementStage::OwnerConnect => if e is Connected {
            secondary(s)
        } else {
            (
                at_stage(s, EnforcementStage::ReclaimCleanup),
                EnforcementAction::CleanupStale { protocol: initial },
            )
        },
        EnforcementStage::ReclaimCleanup => (
            at_stage(s, EnforcementStage::ReclaimCleanupPause),
            EnforcementAction::Pause { millis: 100 },
        ),
        EnforcementStage::ReclaimCleanupPause => (
            at_stage(s, EnforcementStage::ReclaimReconnect),
            EnforcementAction::ConnectToPrimary { protocol: initial },
        ),
        EnforcementStage::ReclaimReconnect => if e is Connected {
            secondary(s)
        } else {
            (
                at_stage(s, EnforcementStage::ReclaimStart),
                EnforcementAction::StartServer { protocol: initial },
            )
        },
        EnforcementStage::ReclaimStart => match e {
            EnforcementEvent::ServerStarted { endpoint } => server_started(s, endpoint),
            _ => begin_fallback(s),
        },
        EnforcementStage::FallbackConnect => if e is Connected {
            secondary(s)
        } else {
            (
                at_stage(s, EnforcementStage::FallbackStart),
                EnforcementAction::StartServer { protocol: s.plan[s.plan_index] },
            )
        },
        EnforcementStage::FallbackStart => match e {
            EnforcementEvent::ServerStarted { endpoint } => server_started(s, endpoint),
            _ => continue_fallback(s, s.plan_index + 1),
        },
        EnforcementStage::RecordPid => (
            AppView { stage: EnforcementStage::Finished, is_primary: true, ..s },
            EnforcementAction::Finish { result: Ok(true) },
        ),
        EnforcementStage::Idle | EnforcementStage::Finished => (
            s,
            EnforcementAction::Pause { millis: 0 },
        ),
    }
}

/// The state from which enforcement starts, and its first action: a
/// handshake over the configured protocol.
pub open spec fn begin(s: AppView) -> (AppView, EnforcementAction) {
    (
        AppView {
            stage: EnforcementStage::FirstConnect,
            initial_protocol: s.config.protocol,
            first_error: None,
            plan: Seq::<ProtocolType>::empty(),
            plan_index: 0,
            ..s
        },
        EnforcementAction::ConnectToPrimary { protocol: s.config.protocol },
    )
}

/// The facts that hold between the steps of the procedure.
pub open spec fn stage_invariant(s: AppView) -> bool {
    &&& (s.stage is FallbackConnect || s.stage is FallbackStart) ==> {
        &&& 0 <= s.plan_index < s.plan.len()
        &&& s.plan[s.plan_index] != s.initial_protocol
    }
    &&& (s.stage is ReclaimPause || s.stage is ReclaimConnect || s.stage is OwnerCheck
        || s.stage is OwnerProbe || s.stage is OwnerPause || s.stage is OwnerConnect
        || s.stage is ReclaimCleanup || s.stage is ReclaimCleanupPause
        || s.stage is ReclaimReconnect || s.stage is ReclaimStart || s.stage is FallbackConnect
        || s.stage is FallbackStart) ==> s.first_error is Some
    &&& s.stage is RecordPid ==> s.endpoint is Some
}

/// How many steps at most remain: every step lowers it.
pub open spec fn remaining_steps(s: AppView) -> nat {
    let f = 2 * s.config.fallback_protocols.len() + 4;
    match s.stage {
        EnforcementStage::Idle => f + 15,
        EnforcementStage::FirstConnect => f + 13,
        EnforcementStage::FirstCleanup => f + 12,
        EnforcementStage::FirstStart => f + 11,
        EnforcementStage::ReclaimPause => f + 10,
        EnforcementStage::ReclaimConnect => f + 9,
        EnforcementStage::OwnerCheck => f + 8,
        EnforcementStage::OwnerProbe => f + 7,
        EnforcementStage::OwnerPause => f + 6,
        EnforcementStage::OwnerConnect => f + 5,
        EnforcementStage::ReclaimCleanup => f + 4,
        EnforcementStage::ReclaimCleanupPause => f + 3,
        EnforcementStage::ReclaimReconnect => f + 2,
        EnforcementStage::ReclaimStart => f + 1,
        EnforcementStage::FallbackConnect => (3 + 2 * (s.plan.len() - s.plan_index)) as nat,
        EnforcementStage::FallbackStart => (2 + 2 * (s.plan.len() - s.plan_index)) as nat,
        EnforcementStage::RecordPid => 1,
        EnforcementStage::Finished => 0,
    }
}

// ---------------------------------------------------------------------------
// The decision procedure, as code
// ---------------------------------------------------------------------------

/// Unfolds the fallback scan by one position.
proof fn lemma_next_fallback_skip(plan: Seq<ProtocolType>, initial: ProtocolType, from: int)
    requires
        0 <= from < plan.len(),
        plan[from] == initial,
    ensures
        next_fallback(plan, initial, from) == next_fallback(plan, initial, from + 1),
{
}

/// The scan ends inside the plan on a protocol other than `initial`, or at the end.
proof fn lemma_next_fallback_bounds(plan: Seq<ProtocolType>, initial: ProtocolType, from: int)
    requires
        0 <= from,
    ensures
        from <= next_fallback(plan, initial, from) <= plan.len() || (from > plan.len()
            && next_fallback(plan, initial, from) == plan.len()),
        next_fallback(plan, initial, from) < plan.len() ==> plan[next_fallback(plan, initial, from)]
            != initial,
        forall|k: int|
            from <= k < next_fallback(plan, initial, from) ==> #[trigger] plan[k] == initial,
    decreases plan.len() - from,
{
    if from < plan.len() && plan[from] == initial {
        lemma_next_fallback_bounds(plan, initial, from + 1);
    }
}

fn next_fallback_index(plan: &Vec<ProtocolType>, initial: ProtocolType, from: usize) -> (i: usize)
    requires
        from <= plan@.len(),
    ensures
        i == next_fallback(plan@, initial, from as int),
{
    let mut i = from;
    while i < plan.len() && plan[i] == initial
        invariant
            from <= i <= plan@.len(),
            next_fallback(plan@, initial, from as int) == next_fallback(plan@, initial, i as int),
        decreases plan@.len() - i,
    {
        proof {
            lemma_next_fallback_skip(plan@, initial, i as int);
        }
        i = i + 1;
    }
    i
}

/// Every step brings the procedure closer to its end.
pub proof fn lemma_step_decreases(s: AppView, e: EnforcementEvent)
    requires
        stage_invariant(s),
        answers(s.stage, e),
    ensures
        remaining_steps(step(s, e).0) < remaining_steps(s),
{
    let plan = if s.config.enable_fallback {
        s.config.fallback_protocols
    } else {
        Seq::<ProtocolType>::empty()
    };
    lemma_next_fallback_bounds(plan, s.initial_protocol, 0);
    if s.stage is FallbackStart {
        lemma_next_fallback_bounds(s.plan, s.initial_protocol, s.plan_index + 1);
    }
}

impl SingleInstanceApp {
    /// The invariant of the enforcement procedure.
    #[verifier::type_invariant]
    spec fn wf(&self) -> bool {
        stage_invariant(self@)
    }

    /// Create a new single instance application with the given identifier.
    pub fn new(identifier: &str) -> (app: Self)
        ensures
            app@.identifier == identifier@,
            app@.config == (ConfigView { identifier: identifier@, ..spec_default_config() }),
            app@.endpoint is None,
            !app@.is_primary,
            app@.stage is Idle,
            stage_invariant(app@),
            app@.config.serialization_format == SerializationFormat::Json,
            app@.config.protocol == ProtocolType::SharedMemory,
    {
        let mut config = CommunicationConfig::default();
        config.identifier = String::from_str(identifier);
        SingleInstanceApp {
            identifier: String::from_str(identifier),
            config,
            endpoint: None,
            is_primary: false,
            stage: EnforcementStage::Idle,
            initial_protocol: ProtocolType::SharedMemory,
            first_error: None,
            plan: Vec::new(),
            plan_index: 0,
        }
    }

    /// Configure the communication protocol.
    pub fn with_protocol(self, protocol: ProtocolType) -> (app: Self)
        ensures
            app@ == (AppView { config: ConfigView { protocol, ..self@.config }, ..self@ }),
            stage_invariant(app@),
    {
        proof {
            use_type_invariant(&self);
        }
        let mut app = self;
        app.config.protocol = protocol;
        app
    }

    /// Configure the serialization format.
    pub fn with_serialization_format(self, format: SerializationFormat) -> (app: Self)
        ensures
            app@ == (AppView {
                config: ConfigView { serialization_format: format, ..self@.config },
                ..self@
            }),
            stage_invariant(app@),
    {
        proof {
            use_type_invariant(&self);
        }
        let mut app = self;
        app.config.serialization_format = format;
        app
    }

    /// Configure the timeout (milliseconds) for communication operations.
    pub fn with_timeout(self, timeout_ms: u64) -> (app: Self)
        ensures
            app@ == (AppView { config: ConfigView { timeout_ms, ..self@.config }, ..self@ }),
            stage_invariant(app@),
    {
        proof {
            use_type_invariant(&self);
        }
        let mut app = self;
        app.config.timeout_ms = timeout_ms;
        app
    }

    /// Disable fallback protocols.
    pub fn without_fallback(self) -> (app: Self)
        ensures
            app@ == (AppView { config: ConfigView { enable_fallback: false, ..self@.config }, ..self@ }),
            stage_invariant(app@),
    {
        proof {
            use_type_invariant(&self);
        }
        let mut app = self;
        app.config.enable_fallback = false;
        app
    }

    /// Set custom fallback protocols.
    pub fn with_fallback_protocols(self, protocols: Vec<ProtocolType>) -> (app: Self)
        ensures
            app@ == (AppView {
                config: ConfigView { fallback_protocols: protocols@, ..self@.config },
                ..self@
            }),
            stage_invariant(app@),
    {
        proof {
            use_type_invariant(&self);
        }
        let mut app = self;
        app.config.fallback_protocols = protocols;
        app
    }

    /// Return the current communication endpoint, if the server has started.
    pub fn endpoint(&self) -> (e: Option<String>)
        ensures
            e is Some <==> self@.endpoint is Some,
            e matches Some(t) ==> self@.endpoint == Some(t@),
    {
        match &self.endpoint {
            Some(e) => Some(e.clone()),
            None => None,
        }
    }

    /// Records that a server was started outside the enforcement procedure
    /// and listens at `endpoint`.
    pub fn record_started(&mut self, endpoint: String)
        ensures
            final(self)@ == (AppView { endpoint: Some(endpoint@), ..old(self)@ }),
            stage_invariant(final(self)@),
    {
        proof {
            use_type_invariant(&*self);
        }
        self.endpoint = Some(endpoint);
    }

    /// Return a reference to the current configuration.
    pub fn config(&self) -> (c: &CommunicationConfig)
        ensures
            c@ == self@.config,
    {
        &self.config
    }

    /// The identifier the application was created with.
    pub fn identifier(&self) -> (id: &String)
        ensures
            id@ == self@.identifier,
    {
        &self.identifier
    }

    /// Whether enforcement made this process the primary instance.
    pub fn is_primary(&self) -> (r: bool)
        ensures
            r == self@.is_primary,
    {
        self.is_primary
    }

    /// The configuration used for a handshake with a primary: the current
    /// configuration with a 2000 ms timeout.
    pub fn handshake_config(&self) -> (c: CommunicationConfig)
        ensures
            c@ == (ConfigView { timeout_ms: 2000, ..self@.config }),
    {
        let mut c = self.config.duplicate();
        c.timeout_ms = 2000;
        c
    }

    /// Does `event` answer the action the procedure waits for?
    pub fn accepts(&self, event: &EnforcementEvent) -> (r: bool)
        ensures
            r == answers(self@.stage, *event),
    {
        match self.stage {
            EnforcementStage::FirstConnect | EnforcementStage::ReclaimConnect
            | EnforcementStage::OwnerConnect | EnforcementStage::ReclaimReconnect
            | EnforcementStage::FallbackConnect => match event {
                EnforcementEvent::Connected | EnforcementEvent::ConnectFailed => true,
                _ => false,
            },
            EnforcementStage::FirstStart | EnforcementStage::ReclaimStart
            | EnforcementStage::FallbackStart => match event {
                EnforcementEvent::ServerStarted { .. } | EnforcementEvent::ServerFailed { .. } => true,
                _ => false,
            },
            EnforcementStage::FirstCleanup | EnforcementStage::ReclaimPause
            | EnforcementStage::OwnerPause | EnforcementStage::ReclaimCleanup
            | EnforcementStage::ReclaimCleanupPause | EnforcementStage::RecordPid => match event {
                EnforcementEvent::Done => true,
                _ => false,
            },
            EnforcementStage::OwnerCheck => match event {
                EnforcementEvent::OwnerPid { .. } => true,
                _ => false,
            },
            EnforcementStage::OwnerProbe => match event {
                EnforcementEvent::ProcessChecked { .. } => true,
                _ => false,
            },
            EnforcementStage::Idle | EnforcementStage::Finished => false,
        }
    }

    /// Starts (or restarts) enforcement; returns the first action, a
    /// handshake with an existing primary over the configured protocol.
    pub fn begin_enforcement(&mut self) -> (a: EnforcementAction)
        ensures
            (final(self)@, a) == begin(old(self)@),
            stage_invariant(final(self)@),
    {
        proof {
            use_type_invariant(&*self);
        }
        self.stage = EnforcementStage::FirstConnect;
        self.initial_protocol = self.config.protocol;
        self.first_error = None;
        self.plan = Vec::new();
        self.plan_index = 0;
        EnforcementAction::ConnectToPrimary { protocol: self.config.protocol }
    }

    fn continue_fallback_from(&mut self, from: usize) -> (a: EnforcementAction)
        requires
            from <= old(self)@.plan.len(),
            old(self)@.first_error is Some,
        ensures
            (final(self)@, a) == continue_fallback(old(self)@, from as int),
    {
        proof {
            use_type_invariant(&*self);
        }
        let i = next_fallback_index(&self.plan, self.initial_protocol, from);
        proof {
            lemma_next_fallback_bounds(self@.plan, self@.initial_protocol, from as int);
        }
        if i < self.plan.len() {
            let p = self.plan[i];
            self.plan_index = i;
            self.config.protocol = p;
            self.stage = EnforcementStage::FallbackConnect;
            EnforcementAction::ConnectToPrimary { protocol: p }
        } else {
            let result = match &self.first_error {
                Some(error) => Err(error.duplicate()),
                None => Ok(false),
            };
            self.stage = EnforcementStage::Finished;
            self.first_error = None;
            EnforcementAction::Finish { result }
        }
    }

    fn begin_fallback_now(&mut self) -> (a: EnforcementAction)
        requires
            old(self)@.first_error is Some,
            !(old(self)@.stage is FallbackConnect || old(self)@.stage is FallbackStart),
        ensures
            (final(self)@, a) == begin_fallback(old(self)@),
    {
        proof {
            use_type_invariant(&*self);
        }
        if self.config.enable_fallback {
            self.plan = self.config.fallback_protocols.clone();
        } else {
            self.plan = Vec::new();
        }
        self.plan_index = 0;
        self.continue_fallback_from(0)
    }

    /// Takes the outcome of the last action and returns the next action.
    pub fn advance(&mut self, event: EnforcementEvent) -> (a: EnforcementAction)
        requires
            answers(old(self)@.stage, event),
        ensures
            (final(self)@, a) == step(old(self)@, event),
            remaining_steps(final(self)@) < remaining_steps(old(self)@),
            stage_invariant(final(self)@),
    {
        proof {
            use_type_invariant(&*self);
        }
        let ghost s0 = self@;
        proof {
            lemma_step_decreases(s0, event);
            lemma_step_keeps_invariant(s0, event);
        }
        let initial = self.initial_protocol;
        let a = match self.stage {
            EnforcementStage::FirstConnect => match event {
                EnforcementEvent::Connected => {
                    self.stage = EnforcementStage::Finished;
                    EnforcementAction::Finish { result: Ok(false) }
                },
                _ => {
                    self.stage = EnforcementStage::FirstCleanup;
                    EnforcementAction::CleanupStale { protocol: initial }
                },
            },
            EnforcementStage::FirstCleanup => {
                self.stage = EnforcementStage::FirstStart;
                EnforcementAction::StartServer { protocol: initial }
            },
            EnforcementStage::FirstStart => match event {
                EnforcementEvent::ServerStarted { endpoint } => {
                    self.endpoint = Some(endpoint);
                    self.stage = EnforcementStage::RecordPid;
                    EnforcementAction::RecordPid
                },
                EnforcementEvent::ServerFailed { error } => {
                    let conflict = lock_conflict(&error);
                    self.first_error = Some(error);
                    if conflict {
                        self.stage = EnforcementStage::ReclaimPause;
                        EnforcementAction::Pause { millis: 50 }
                    } else {
                        self.begin_fallback_now()
                    }
                },
                _ => EnforcementAction::Pause { millis: 0 },
            },
            EnforcementStage::ReclaimPause => {
                self.stage = EnforcementStage::ReclaimConnect;
                EnforcementAction::ConnectToPrimary { protocol: initial }
            },
            EnforcementStage::ReclaimConnect => match event {
                EnforcementEvent::Connected => {
                    self.stage = EnforcementStage::Finished;
                    EnforcementAction::Finish { result: Ok(false) }
                },
                _ => {
                    self.stage = EnforcementStage::OwnerCheck;
                    EnforcementAction::ReadOwnerPid
                },
            },
            EnforcementStage::OwnerCheck => {
                let pid = match &event {
                    EnforcementEvent::OwnerPid { text: Some(t) } => parse_pid(t.as_str()),
                    _ => None,
                };
                match pid {
                    Some(p) => {
                        self.stage = EnforcementStage::OwnerProbe;
                        EnforcementAction::ProbeProcess { pid: p }
                    },
                    None => {
                        self.stage = EnforcementStage::ReclaimCleanup;
                        EnforcementAction::CleanupStale { protocol: initial }
                    },
                }
            },
            EnforcementStage::OwnerProbe => match event {
                EnforcementEvent::ProcessChecked { alive: true } => {
                    self.stage = EnforcementStage::OwnerPause;
                    EnforcementAction::Pause { millis: 500 }
                },
                _ => {
                    self.stage = EnforcementStage::ReclaimCleanup;
                    EnforcementAction::CleanupStale { protocol: initial }
                },
            },
            EnforcementStage::OwnerPause => {
                self.stage = EnforcementStage::OwnerConnect;
                EnforcementAction::ConnectToPrimary { protocol: initial }
            },
            EnforcementStage::OwnerConnect => match event {
                EnforcementEvent::Connected => {
                    self.stage = EnforcementStage::Finished;
                    EnforcementAction::Finish { result: Ok(false) }
                },
                _ => {
                    self.stage = EnforcementStage::ReclaimCleanup;
                    EnforcementAction::CleanupStale { protocol: initial }
                },
            },
            EnforcementStage::ReclaimCleanup => {
                self.stage = EnforcementStage::ReclaimCleanupPause;
                EnforcementAction::Pause { millis: 100 }
            },
            EnforcementStage::ReclaimCleanupPause => {
                self.stage = EnforcementStage::ReclaimReconnect;
                EnforcementAction::ConnectToPrimary { protocol: initial }
            },
            EnforcementStage::ReclaimReconnect => match event {
                EnforcementEvent::Connected => {
                    self.stage = EnforcementStage::Finished;
                    EnforcementAction::Finish { result: Ok(false) }
                },
                _ => {
                    self.stage = EnforcementStage::ReclaimStart;
                    EnforcementAction::StartServer { protocol: initial }
                },
            },
            EnforcementStage::ReclaimStart => match event {
                EnforcementEvent::ServerStarted { endpoint } => {
                    self.endpoint = Some(endpoint);
                    self.stage = EnforcementStage::RecordPid;
                    EnforcementAction::RecordPid
                },
                _ => self.begin_fallback_now(),
            },
            EnforcementStage::FallbackConnect => match event {
                EnforcementEvent::Connected => {
                    self.stage = EnforcementStage::Finished;
                    EnforcementAction::Finish { result: Ok(false) }
                },
                _ => {
                    self.stage = EnforcementStage::FallbackStart;
                    EnforcementAction::StartServer { protocol: self.plan[self.plan_index] }
                },
            },
            EnforcementStage::FallbackStart => match event {
                EnforcementEvent::ServerStarted { endpoint } => {
                    self.endpoint = Some(endpoint);
                    self.stage = EnforcementStage::RecordPid;
                    EnforcementAction::RecordPid
                },
                _ => {
                    let len = self.plan.len();
                    assert(self.plan_index < len);
                    let next = self.plan_index + 1;
                    self.continue_fallback_from(next)
                },
            },
            EnforcementStage::RecordPid => {
                self.stage = EnforcementStage::Finished;
                self.is_primary = true;
                EnforcementAction::Finish { result: Ok(true) }
            },
            EnforcementStage::Idle | EnforcementStage::Finished => EnforcementAction::Pause {
                millis: 0,
            },
        };
        a
    }
}

// ---------------------------------------------------------------------------
// Laws of the decision procedure
// ---------------------------------------------------------------------------

/// A process reports itself primary only after its own server started: the
/// result `Ok(true)` comes only from the step that follows the PID record,
/// which follows a successful start, and the state then holds the server's
/// endpoint and the primary mark.
pub proof fn lemma_primary_only_after_own_start(s: AppView, e: EnforcementEvent)
    requires
        stage_invariant(s),
        answers(s.stage, e),
        step(s, e).1 matches EnforcementAction::Finish { result: Ok(true) },
    ensures
        s.stage is RecordPid,
        step(s, e).0.is_primary,
        step(s, e).0.endpoint is Some,
{
}

/// A process reports another instance only after a handshake with it
/// succeeded.
pub proof fn lemma_secondary_only_after_handshake(s: AppView, e: EnforcementEvent)
    requires
        stage_invariant(s),
        answers(s.stage, e),
        step(s, e).1 matches EnforcementAction::Finish { result: Ok(false) },
    ensures
        e is Connected,
        !step(s, e).0.is_primary || s.is_primary,
{
}

/// A failed enforcement reports the error of the first failed server start,
/// and only once no protocol of the fallback plan is left to try.
pub proof fn lemma_failure_reports_first_error(s: AppView, e: EnforcementEvent)
    requires
        stage_invariant(s),
        answers(s.stage, e),
        step(s, e).1 matches EnforcementAction::Finish { result: Err(_) },
    ensures
        ({
            let reported = step(s, e).1->result->Err_0;
            if s.stage is FirstStart {
                e == (EnforcementEvent::ServerFailed { error: reported })
            } else {
                s.first_error == Some(reported)
            }
        }),
        ({
            let t = step(s, e).0;
            next_fallback(t.plan, t.initial_protocol, t.plan_index + (if s.stage is FallbackStart {
                1int
            } else {
                0int
            })) == t.plan.len()
        }),
        step(s, e).0.stage is Finished,
{
    let plan = if s.config.enable_fallback {
        s.config.fallback_protocols
    } else {
        Seq::<ProtocolType>::empty()
    };
    lemma_next_fallback_bounds(plan, s.initial_protocol, 0);
    if s.stage is FallbackStart {
        lemma_next_fallback_bounds(s.plan, s.initial_protocol, s.plan_index + 1);
    }
}

/// The fallback protocols are tried in the order of the plan, never the
/// protocol that failed first, and only when fallback is enabled.
pub proof fn lemma_fallback_skips_initial(s: AppView, e: EnforcementEvent)
    requires
        stage_invariant(s),
        answers(s.stage, e),
        step(s, e).0.stage is FallbackConnect || step(s, e).0.stage is FallbackStart,
    ensures
        ({
            let t = step(s, e).0;
            &&& 0 <= t.plan_index < t.plan.len()
            &&& t.plan[t.plan_index] != s.initial_protocol
            &&& (step(s, e).1 == (EnforcementAction::ConnectToPrimary {
                protocol: t.plan[t.plan_index],
            }) || step(s, e).1 == (EnforcementAction::StartServer {
                protocol: t.plan[t.plan_index],
            }))
            &&& (s.stage is FirstStart || s.stage is ReclaimStart) ==> s.config.enable_fallback
                && t.plan == s.config.fallback_protocols && forall|k: int|
                0 <= k < t.plan_index ==> #[trigger] t.plan[k] == s.initial_protocol
            &&& s.stage is FallbackStart ==> t.plan == s.plan && s.plan_index < t.plan_index
                && forall|k: int|
                s.plan_index < k < t.plan_index ==> #[trigger] t.plan[k] == s.initial_protocol
            &&& s.stage is FallbackConnect ==> t.plan == s.plan && t.plan_index == s.plan_index
        }),
{
    let plan = if s.config.enable_fallback {
        s.config.fallback_protocols
    } else {
        Seq::<ProtocolType>::empty()
    };
    lemma_next_fallback_bounds(plan, s.initial_protocol, 0);
    if s.stage is FallbackStart {
        lemma_next_fallback_bounds(s.plan, s.initial_protocol, s.plan_index + 1);
    }
}

/// Enforcement begins with a handshake over the configured protocol.
pub proof fn lemma_begin_connects_first(s: AppView)
    ensures
        begin(s).1 == (EnforcementAction::ConnectToPrimary { protocol: s.config.protocol }),
        stage_invariant(begin(s).0),
        begin(s).0.stage is FirstConnect,
{
}

/// Every step keeps the facts that hold between steps.
pub proof fn lemma_step_keeps_invariant(s: AppView, e: EnforcementEvent)
    requires
        stage_invariant(s),
        answers(s.stage, e),
    ensures
        stage_invariant(step(s, e).0),
{
    let plan = if s.config.enable_fallback {
        s.config.fallback_protocols
    } else {
        Seq::<ProtocolType>::empty()
    };
    lemma_next_fallback_bounds(plan, s.initial_protocol, 0);
    if s.stage is FallbackStart {
        lemma_next_fallback_bounds(s.plan, s.initial_protocol, s.plan_index + 1);
    }
}

/// With fallback disabled, enforcement never leaves the configured
/// protocol: every handshake, cleanup and server start it asks for uses the
/// protocol it began with, and it never enters the fallback stages.
pub proof fn lemma_disabled_fallback_keeps_protocol(s: AppView, e: EnforcementEvent)
    requires
        stage_invariant(s),
        answers(s.stage, e),
        !s.config.enable_fallback,
        !(s.stage is FallbackConnect || s.stage is FallbackStart),
    ensures
        !(step(s, e).0.stage is FallbackConnect || step(s, e).0.stage is FallbackStart),
        step(s, e).1 matches EnforcementAction::ConnectToPrimary { protocol } ==> protocol
            == s.initial_protocol,
        step(s, e).1 matches EnforcementAction::StartServer { protocol } ==> protocol
            == s.initial_protocol,
        step(s, e).1 matches EnforcementAction::CleanupStale { protocol } ==> protocol
            == s.initial_protocol,
{
}

/// A server that starts makes this process the primary, whatever protocol
/// it was started on: the start at the first attempt, after a reclaimed
/// lock, or on a fallback protocol is followed by the PID record, the
/// server's endpoint is kept, and the record ends enforcement with
/// `Ok(true)`.
pub proof fn lemma_started_server_makes_primary(s: AppView, e: EnforcementEvent)
    requires
        answers(s.stage, e),
        e is ServerStarted,
    ensures
        ({
            let (t, a) = step(s, e);
            let (u, b) = step(t, EnforcementEvent::Done);
            &&& a == EnforcementAction::RecordPid
            &&& t.endpoint == Some(e->endpoint@)
            &&& t.stage is RecordPid
            &&& answers(t.stage, EnforcementEvent::Done)
            &&& b == (EnforcementAction::Finish { result: Ok(true) })
            &&& u.is_primary
            &&& u.endpoint == Some(e->endpoint@)
            &&& u.stage is Finished
        }),
{
}

/// A handshake that another instance answers ends enforcement with
/// `Ok(false)`, whichever attempt it was, and leaves this process
/// secondary.
pub proof fn lemma_answered_handshake_makes_secondary(s: AppView)
    requires
        answers(s.stage, EnforcementEvent::Connected),
    ensures
        step(s, EnforcementEvent::Connected).1 == (EnforcementAction::Finish { result: Ok(false) }),
        step(s, EnforcementEvent::Connected).0.is_primary == s.is_primary,
        step(s, EnforcementEvent::Connected).0.stage is Finished,
{
}

/// When no instance answers the first handshake, the stale files of the
/// configured protocol are cleaned up and then a server is started on it.
pub proof fn lemma_unanswered_first_handshake_starts_server(s: AppView)
    requires
        s.stage is FirstConnect,
    ensures
        ({
            let (t, a) = step(s, EnforcementEvent::ConnectFailed);
            &&& a == (EnforcementAction::CleanupStale { protocol: s.initial_protocol })
            &&& step(t, EnforcementEvent::Done).1 == (EnforcementAction::StartServer {
                protocol: s.initial_protocol,
            })
        }),
{
}

/// A server start refused because its lock file is taken is followed by a
/// 50 ms pause and another handshake over the same protocol; then, without
/// an answer, by a look at the recorded owner PID.
pub proof fn lemma_lock_conflict_asks_owner(s: AppView, error: CommunicationError)
    requires
        s.stage is FirstStart,
        is_lock_conflict(error),
    ensures
        ({
            let (t, a) = step(s, EnforcementEvent::ServerFailed { error });
            let (u, b) = step(t, EnforcementEvent::Done);
            &&& a == (EnforcementAction::Pause { millis: 50 })
            &&& b == (EnforcementAction::ConnectToPrimary { protocol: s.initial_protocol })
            &&& step(u, EnforcementEvent::ConnectFailed).1 == EnforcementAction::ReadOwnerPid
        }),
{
}

/// A fallback protocol is first asked for a handshake, and a server is
/// started on it only when nobody answers.
pub proof fn lemma_fallback_connects_before_starting(s: AppView)
    requires
        s.stage is FallbackConnect,
    ensures
        step(s, EnforcementEvent::ConnectFailed).1 == (EnforcementAction::StartServer {
            protocol: s.plan[s.plan_index],
        }),
        step(s, EnforcementEvent::ConnectFailed).0.stage is FallbackStart,
{
}

} // verus!
