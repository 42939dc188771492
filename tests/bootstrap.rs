use simple_erp::bootstrap::{advance, exit_code, next_action, pool_settings, BootAction, BootState, BootstrapError, Step};
use simple_erp::fallback::{fallback_response, FallbackResponse};
use simple_erp::registry::{dispatch, register_server_fns, Dispatch, FnRegistry};

fn run(migrate: bool, fail_at: Option<Step>) -> (Vec<Step>, BootState) {
    let mut state = BootState::Init;
    let mut steps = Vec::new();
    while let BootAction::Perform(step) = next_action(&state) {
        steps.push(step);
        let outcome = if Some(step) == fail_at { Err("boom".to_string()) } else { Ok(()) };
        state = advance(state, migrate, outcome);
    }
    (steps, state)
}

#[test]
fn full_sequence_with_migrations() {
    let (steps, end) = run(true, None);
    assert_eq!(
        steps,
        vec![
            Step::InitLogging,
            Step::ComputeRoutes,
            Step::ConnectDb,
            Step::RunMigrations,
            Step::RegisterFns,
            Step::BuildRouter,
            Step::Serve
        ]
    );
    assert_eq!(end, BootState::Stopped);
    assert_eq!(exit_code(&end), 0);
}

#[test]
fn logging_is_first() {
    for migrate in [true, false] {
        let (steps, _) = run(migrate, None);
        assert_eq!(steps[0], Step::InitLogging);
        assert_eq!(steps.iter().filter(|s| **s == Step::InitLogging).count(), 1);
    }
    let (steps, end) = run(true, Some(Step::InitLogging));
    assert_eq!(steps, vec![Step::InitLogging]);
    assert_eq!(end, BootState::Failed(BootstrapError::LoggerInitError("boom".to_string())));
}

#[test]
fn migrations_skipped_when_disabled() {
    let (steps, end) = run(false, None);
    assert!(!steps.contains(&Step::RunMigrations));
    assert_eq!(steps[3], Step::RegisterFns);
    assert_eq!(end, BootState::Stopped);
    assert_eq!(advance(BootState::RoutesComputed, false, Ok(())), BootState::MigrationSkipped);
}

#[test]
fn failures_are_fatal_and_typed() {
    let (steps, end) = run(true, Some(Step::ConnectDb));
    assert_eq!(steps.last(), Some(&Step::ConnectDb));
    assert_eq!(end, BootState::Failed(BootstrapError::DatabaseConnectError("boom".to_string())));
    assert_eq!(exit_code(&end), 1);
    let (_, end) = run(true, Some(Step::RunMigrations));
    assert_eq!(end, BootState::Failed(BootstrapError::MigrationError("boom".to_string())));
    let (_, end) = run(true, Some(Step::RegisterFns));
    assert_eq!(end, BootState::Failed(BootstrapError::RegistrationError("boom".to_string())));
    let (_, end) = run(false, Some(Step::Serve));
    assert_eq!(end, BootState::Failed(BootstrapError::TransportError("boom".to_string())));
}

#[test]
fn pool_is_bounded() {
    let p = pool_settings();
    assert_eq!(p.max_connections, 5);
    assert_eq!(p.min_connections, 2);
    assert_eq!(p.acquire_timeout_secs, 8);
    assert_eq!(p.idle_timeout_secs, 8);
    assert_eq!(p.max_lifetime_secs, 8);
}

#[test]
fn unknown_function_is_not_found() {
    let reg = register_server_fns("get_users").unwrap();
    assert_eq!(dispatch(&reg, "/api/does_not_exist"), Dispatch::NotFound);
    assert_eq!(dispatch(&reg, "/api/get_users"), Dispatch::Handler(0));
    assert_eq!(dispatch(&reg, "/api/"), Dispatch::NotFound);
    assert_eq!(dispatch(&reg, "/other/get_users"), Dispatch::NotFound);
    assert_eq!(dispatch(&reg, "/api/get_users/x"), Dispatch::NotFound);
}

#[test]
fn registered_functions() {
    let reg = register_server_fns("get_users123").unwrap();
    assert_eq!(reg.len(), 1);
    assert_eq!(reg.lookup("get_users123"), Some(0));
    assert_eq!(reg.lookup("get_users"), None);
}

#[test]
fn registry_refuses_duplicates() {
    let mut reg = FnRegistry::new();
    assert!(reg.register("a").is_ok());
    assert!(reg.register("b").is_ok());
    let e = reg.register("a").unwrap_err();
    assert_eq!(e.name, "a");
    assert_eq!(reg.len(), 2);
    assert_eq!(reg.lookup("b"), Some(1));
    assert_eq!(reg.lookup("c"), None);
}

#[test]
fn fallback_serves_found_files_only() {
    assert_eq!(fallback_response(Some(200)), FallbackResponse::StaticFile);
    assert_eq!(fallback_response(Some(304)), FallbackResponse::NotFound(404));
    assert_eq!(fallback_response(Some(404)), FallbackResponse::NotFound(404));
    assert_eq!(fallback_response(Some(405)), FallbackResponse::NotFound(404));
    assert_eq!(fallback_response(Some(500)), FallbackResponse::NotFound(404));
    assert_eq!(fallback_response(None), FallbackResponse::NotFound(404));
}

#[test]
fn registration_failure_is_a_registration_error() {
    let (steps, end) = run(true, Some(Step::RegisterFns));
    assert_eq!(steps.last(), Some(&Step::RegisterFns));
    assert_eq!(end, BootState::Failed(BootstrapError::RegistrationError("boom".to_string())));
}
