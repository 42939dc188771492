//! The startup sequence as a state machine: which step runs next, and what its result leads to.
//! The steps themselves (logging, database, listening) are carried out by the caller.
use vstd::prelude::*;

verus! {

/// Why startup failed; each stops the process.
#[derive(Clone, Debug, PartialEq, Eq)]
pub enum BootstrapError {
    LoggerInitError(String),
    DatabaseConnectError(String),
    MigrationError(String),
    RegistrationError(String),
    TransportError(String),
}

/// A step of the startup sequence.
#[derive(Copy, Clone, Debug, PartialEq, Eq, Structural)]
pub enum Step {
    /// Install the logging system.
    InitLogging,
    /// Compute the page routes; this cannot fail.
    ComputeRoutes,
    /// Open the database pool.
    ConnectDb,
    /// Apply pending schema migrations.
    RunMigrations,
    /// Register the remotely callable functions.
    RegisterFns,
    /// Build the request router.
    BuildRouter,
    /// Accept connections until stopped.
    Serve,
}

/// How far startup has come.
#[derive(Clone, Debug, PartialEq, Eq)]
pub enum BootState {
    Init,
    LoggingReady,
    RoutesComputed,
    /// The pool is open and migrations are still to be applied.
    DbConnected,
    Migrated,
    /// The pool is open and migrations are not wanted.
    MigrationSkipped,
    FnsRegistered,
    RouterBuilt,
    /// Serving ended without a transport error.
    Stopped,
    Failed(BootstrapError),
}

/// What the caller does next.
#[derive(Copy, Clone, Debug, PartialEq, Eq, Structural)]
pub enum BootAction {
    Perform(Step),
    /// Startup is over: exit with the state's code.
    Halt,
}

/// The next action in a state.
pub open spec fn next_spec(s: BootState) -> BootAction {
    match s {
        BootState::Init => BootAction::Perform(Step::InitLogging),
        BootState::LoggingReady => BootAction::Perform(Step::ComputeRoutes),
        BootState::RoutesComputed => BootAction::Perform(Step::ConnectDb),
        BootState::DbConnected => BootAction::Perform(Step::RunMigrations),
        BootState::Migrated => BootAction::Perform(Step::RegisterFns),
        BootState::MigrationSkipped => BootAction::Perform(Step::RegisterFns),
        BootState::FnsRegistered => BootAction::Perform(Step::BuildRouter),
        BootState::RouterBuilt => BootAction::Perform(Step::Serve),
        BootState::Stopped => BootAction::Halt,
        BootState::Failed(_) => BootAction::Halt,
    }
}

/// Whether a step can fail: computing routes and building the router cannot.
pub open spec fn step_can_fail(step: Step) -> bool {
    step != Step::ComputeRoutes && step != Step::BuildRouter
}

/// The error a failure of a step is reported as; none for a step that cannot fail.
pub open spec fn failure_spec(step: Step, message: String) -> Option<BootstrapError> {
    match step {
        Step::InitLogging => Some(BootstrapError::LoggerInitError(message)),
        Step::ConnectDb => Some(BootstrapError::DatabaseConnectError(message)),
        Step::RunMigrations => Some(BootstrapError::MigrationError(message)),
        Step::RegisterFns => Some(BootstrapError::RegistrationError(message)),
        Step::Serve => Some(BootstrapError::TransportError(message)),
        Step::ComputeRoutes => None,
        Step::BuildRouter => None,
    }
}

/// The step that runs in `s`, if any.
pub open spec fn step_in(s: BootState) -> Option<Step> {
    match next_spec(s) {
        BootAction::Perform(step) => Some(step),
        BootAction::Halt => None,
    }
}

/// The state after the step of `s` ended with `outcome`; `migrate` says whether migrations are
/// applied on load.
pub open spec fn advance_spec(s: BootState, migrate: bool, outcome: Result<(), String>) -> BootState {
    match next_spec(s) {
        BootAction::Halt => s,
        BootAction::Perform(step) => match outcome {
            Err(m) => match failure_spec(step, m) {
                Some(e) => BootState::Failed(e),
                None => s,
            },
            Ok(()) => match s {
                BootState::Init => BootState::LoggingReady,
                BootState::LoggingReady => BootState::RoutesComputed,
                BootState::RoutesComputed => if migrate {
                    BootState::DbConnected
                } else {
                    BootState::MigrationSkipped
                },
                BootState::DbConnected => BootState::Migrated,
                BootState::Migrated => BootState::FnsRegistered,
                BootState::MigrationSkipped => BootState::FnsRegistered,
                BootState::FnsRegistered => BootState::RouterBuilt,
                _ => BootState::Stopped,
            },
        },
    }
}

/// The next action in a state.
pub fn next_action(s: &BootState) -> (r: BootAction)
    ensures
        r == next_spec(*s),
{
    match s {
        BootState::Init => BootAction::Perform(Step::InitLogging),
        BootState::LoggingReady => BootAction::Perform(Step::ComputeRoutes),
        BootState::RoutesComputed => BootAction::Perform(Step::ConnectDb),
        BootState::DbConnected => BootAction::Perform(Step::RunMigrations),
        BootState::Migrated => BootAction::Perform(Step::RegisterFns),
        BootState::MigrationSkipped => BootAction::Perform(Step::RegisterFns),
        BootState::FnsRegistered => BootAction::Perform(Step::BuildRouter),
        BootState::RouterBuilt => BootAction::Perform(Step::Serve),
        BootState::Stopped => BootAction::Halt,
        BootState::Failed(_) => BootAction::Halt,
    }
}

/// The error a failure of a step is reported as.
pub fn step_failure(step: Step, message: String) -> (r: BootstrapError)
    requires
        step_can_fail(step),
    ensures
        failure_spec(step, message) == Some(r),
{
    match step {
        Step::InitLogging => BootstrapError::LoggerInitError(message),
        Step::ConnectDb => BootstrapError::DatabaseConnectError(message),
        Step::RunMigrations => BootstrapError::MigrationError(message),
        Step::RegisterFns => BootstrapError::RegistrationError(message),
        _ => BootstrapError::TransportError(message),
    }
}

/// Moves on after the step of `s` ended with `outcome`. Computing routes and building the
/// router cannot fail.
pub fn advance(s: BootState, migrate: bool, outcome: Result<(), String>) -> (r: BootState)
    requires
        step_in(s) matches Some(step) && !step_can_fail(step) ==> outcome is Ok,
    ensures
        r == advance_spec(s, migrate, outcome),
{
    match next_action(&s) {
        BootAction::Halt => s,
        BootAction::Perform(step) => match outcome {
            Err(m) => BootState::Failed(step_failure(step, m)),
            Ok(()) => match s {
                BootState::Init => BootState::LoggingReady,
                BootState::LoggingReady => BootState::RoutesComputed,
                BootState::RoutesComputed => if migrate {
                    BootState::DbConnected
                } else {
                    BootState::MigrationSkipped
                },
                BootState::DbConnected => BootState::Migrated,
                BootState::Migrated => BootState::FnsRegistered,
                BootState::MigrationSkipped => BootState::FnsRegistered,
                BootState::FnsRegistered => BootState::RouterBuilt,
                _ => BootState::Stopped,
            },
        },
    }
}

/// Exit code of the process once startup halts in `s`: zero only after an intended stop.
pub fn exit_code(s: &BootState) -> (r: i32)
    ensures
        (r == 0) == (*s == BootState::Stopped),
        r == 0 || r == 1,
{
    match s {
        BootState::Stopped => 0,
        _ => 1,
    }
}

/// The state reached from `Init` when the steps end with `outcomes`, in order.
pub open spec fn run_spec(migrate: bool, outcomes: Seq<Result<(), String>>) -> BootState
    decreases outcomes.len(),
{
    if outcomes.len() == 0 {
        BootState::Init
    } else {
        advance_spec(run_spec(migrate, outcomes.drop_last()), migrate, outcomes.last())
    }
}

/// Whatever the steps' results, no step but logging setup is asked for until logging setup
/// has succeeded: the first result is that of logging setup and it was a success.
pub proof fn law_logging_comes_first(migrate: bool, outcomes: Seq<Result<(), String>>)
    ensures
        next_spec(run_spec(migrate, outcomes)) matches BootAction::Perform(step) && step
            != Step::InitLogging ==> outcomes.len() > 0 && outcomes[0] is Ok,
        run_spec(migrate, outcomes) == BootState::Init ==> outcomes.len() == 0,
    decreases outcomes.len(),
{
    if outcomes.len() > 0 {
        law_logging_comes_first(migrate, outcomes.drop_last());
        let prev = outcomes.drop_last();
        if prev.len() > 0 {
            assert(prev[0] == outcomes[0]);
        }
    }
}

/// With migrations disabled, no migration is ever asked for, and once the pool is open the
/// sequence goes on to register functions with it.
pub proof fn law_no_migration_when_disabled(outcomes: Seq<Result<(), String>>)
    ensures
        next_spec(run_spec(false, outcomes)) != BootAction::Perform(Step::RunMigrations),
        run_spec(false, outcomes) != BootState::DbConnected,
        advance_spec(BootState::RoutesComputed, false, Ok(())) == BootState::MigrationSkipped,
        next_spec(BootState::MigrationSkipped) == BootAction::Perform(Step::RegisterFns),
    decreases outcomes.len(),
{
    if outcomes.len() > 0 {
        law_no_migration_when_disabled(outcomes.drop_last());
    }
}

/// Settings of the database pool.
#[derive(Copy, Clone, Debug, PartialEq, Eq, Structural)]
pub struct PoolSettings {
    pub max_connections: u32,
    pub min_connections: u32,
    pub acquire_timeout_secs: u64,
    pub idle_timeout_secs: u64,
    pub max_lifetime_secs: u64,
}

/// Most connections the pool holds.
pub const MAX_CONNECTIONS: u32 = 5;

/// Fewest connections the pool keeps open.
pub const MIN_CONNECTIONS: u32 = 2;

/// Seconds for acquiring a connection, for an idle connection, and for a connection's life.
pub const POOL_TIMEOUT_SECS: u64 = 8;

/// The pool settings used at startup: a small bounded pool with bounded timeouts.
pub fn pool_settings() -> (r: PoolSettings)
    ensures
        r.max_connections == MAX_CONNECTIONS,
        r.min_connections == MIN_CONNECTIONS,
        r.min_connections <= r.max_connections,
        r.acquire_timeout_secs == POOL_TIMEOUT_SECS,
        r.idle_timeout_secs == POOL_TIMEOUT_SECS,
        r.max_lifetime_secs == POOL_TIMEOUT_SECS,
{
    PoolSettings {
        max_connections: MAX_CONNECTIONS,
        min_connections: MIN_CONNECTIONS,
        acquire_timeout_secs: POOL_TIMEOUT_SECS,
        idle_timeout_secs: POOL_TIMEOUT_SECS,
        max_lifetime_secs: POOL_TIMEOUT_SECS,
    }
}

} // verus!
