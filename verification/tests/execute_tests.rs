use huestatus::bridge::{BridgeClient, Light, LightState, Scene};
use huestatus::config::Config;
use huestatus::scenes::execute::{
    ApplyOutcome, BridgeSnapshot, ExecutionEvent, ExecutionStep, Phase, RollbackStep, TimedEvent,
};
use huestatus::scenes::{
    ExecutionContext, ExecutionMetrics, ExecutionOptions, ExecutionStrategy, LightStateBackup, SceneExecutor,
};
use huestatus::string_map::StringMap;
use huestatus::HueStatusError;

fn state(bri: u8, reachable: Option<bool>) -> LightState {
    LightState {
        on: true,
        bri: Some(bri),
        hue: Some(1000),
        sat: Some(200),
        effect: None,
        xy: None,
        ct: None,
        alert: None,
        colormode: Some("hs".to_string()),
        mode: None,
        reachable,
    }
}

fn light(name: &str, bri: u8, reachable: Option<bool>) -> Light {
    Light {
        name: name.to_string(),
        state: state(bri, reachable),
        light_type: "Extended color light".to_string(),
        modelid: "LCT001".to_string(),
        manufacturername: "Philips".to_string(),
        productname: None,
        capabilities: None,
        config: None,
        swversion: None,
        swconfigid: None,
        productid: None,
    }
}

fn scene(name: &str, lights: &[&str], locked: bool) -> Scene {
    Scene {
        name: name.to_string(),
        lights: lights.iter().map(|s| s.to_string()).collect(),
        owner: "o".to_string(),
        recycle: false,
        locked,
        appdata: None,
        picture: None,
        image: None,
        lastupdated: String::new(),
        version: 2,
        lightstates: None,
    }
}

fn listing() -> StringMap<Light> {
    let mut lights = StringMap::new();
    lights.insert("1".to_string(), light("One", 11, Some(true)));
    lights.insert("2".to_string(), light("Two", 22, Some(true)));
    lights.insert("3".to_string(), light("Three", 33, Some(false)));
    lights.insert("4".to_string(), light("Four", 44, None));
    lights
}

fn shown(lights: &[&str]) -> ExecutionEvent {
    ExecutionEvent::Fetched(Ok(BridgeSnapshot { scene: scene("red scene", lights, false), lights: listing() }))
}

fn executor() -> SceneExecutor {
    SceneExecutor::new(BridgeClient::new("h".to_string()).unwrap())
}

fn context(strategy: ExecutionStrategy, options: ExecutionOptions) -> ExecutionContext {
    ExecutionContext {
        scene_id: "red".to_string(),
        scene_name: "Red".to_string(),
        strategy,
        options,
        backup_states: Vec::new(),
    }
}

fn at(event: ExecutionEvent, at: u64) -> TimedEvent {
    TimedEvent { event, at }
}

fn applied_ok() -> ExecutionEvent {
    ExecutionEvent::Applied(ApplyOutcome::Replied(Ok(())))
}

fn applied_err() -> ExecutionEvent {
    ExecutionEvent::Applied(ApplyOutcome::Replied(Err(HueStatusError::BridgeNotFound)))
}

fn failed(reason: &str) -> HueStatusError {
    HueStatusError::SceneExecutionFailed { reason: reason.to_string() }
}

#[test]
fn test_execution_options() {
    let default_options = ExecutionOptions::default();
    assert!(default_options.retry_on_failure);
    assert_eq!(default_options.max_retries, 3);
    assert_eq!(default_options.timeout_ms, 5000);

    let fast_options = ExecutionOptions::fast();
    assert!(!fast_options.retry_on_failure);
    assert_eq!(fast_options.timeout_ms, 2000);

    let reliable_options = ExecutionOptions::reliable();
    assert!(reliable_options.validate_before_execution);
    assert_eq!(reliable_options.max_retries, 5);
}

#[test]
fn test_execution_strategy() {
    let immediate = ExecutionStrategy::Immediate;
    let delayed = ExecutionStrategy::Delayed(1000);
    let fade = ExecutionStrategy::Fade { duration_ms: 2000 };

    assert_eq!(immediate, ExecutionStrategy::Immediate);
    assert_ne!(immediate, delayed);

    match fade {
        ExecutionStrategy::Fade { duration_ms } => assert_eq!(duration_ms, 2000),
        _ => panic!("Expected Fade strategy"),
    }
}

#[test]
fn test_execution_metrics() {
    let mut metrics = ExecutionMetrics {
        total_time_ms: 1500,
        validation_time_ms: 200,
        execution_time_ms: 800,
        backup_time_ms: 100,
        lights_affected: 5,
        retry_count: 1,
        success: true,
    };

    assert!(metrics.performance_score() > 50);
    assert!(!metrics.is_fast_execution()); // Has retry

    metrics.retry_count = 0;
    metrics.execution_time_ms = 300;
    assert!(metrics.is_fast_execution());
}

#[test]
fn test_light_state_backup() {
    let backup = LightStateBackup {
        light_id: "1".to_string(),
        light_name: "Test Light".to_string(),
        previous_state: LightState {
            on: true,
            bri: Some(200),
            hue: Some(1000),
            sat: Some(200),
            effect: None,
            xy: None,
            ct: None,
            alert: None,
            colormode: Some("hs".to_string()),
            mode: None,
            reachable: Some(true),
        },
        timestamp: 0,
    };

    assert_eq!(backup.light_id, "1");
    assert_eq!(backup.light_name, "Test Light");
    assert!(backup.previous_state.on);
}

#[test]
fn test_execution_context() {
    let context = ExecutionContext {
        scene_id: "test-scene".to_string(),
        scene_name: "Test Scene".to_string(),
        strategy: ExecutionStrategy::Immediate,
        options: ExecutionOptions::fast(),
        backup_states: Vec::new(),
    };

    assert_eq!(context.scene_id, "test-scene");
    assert_eq!(context.strategy, ExecutionStrategy::Immediate);
    assert_eq!(context.options.timeout_ms, 2000);
}

#[test]
fn test_performance_score_exact() {
    let metrics = |execution_time_ms: u64, retry_count: usize, validation_time_ms: u64, success: bool| ExecutionMetrics {
        total_time_ms: 0,
        validation_time_ms,
        execution_time_ms,
        backup_time_ms: 0,
        lights_affected: 0,
        retry_count,
        success,
    };
    assert_eq!(metrics(800, 1, 200, true).performance_score(), 85);
    assert_eq!(metrics(500, 0, 1000, true).performance_score(), 100);
    assert_eq!(metrics(501, 0, 1001, true).performance_score(), 85);
    assert_eq!(metrics(1001, 0, 0, true).performance_score(), 85);
    assert_eq!(metrics(2001, 0, 0, true).performance_score(), 70);
    assert_eq!(metrics(2001, 7, 0, true).performance_score(), 0);
    assert_eq!(metrics(2001, 7, 5000, true).performance_score(), 0);
    assert_eq!(metrics(0, 0, 0, false).performance_score(), 0);
    assert_eq!(metrics(0, 9, 0, true).performance_score(), 10);
    assert_eq!(metrics(0, 10, 0, true).performance_score(), 0);
    assert_eq!(metrics(0, 26, 0, true).performance_score(), 0);
    assert_eq!(metrics(0, usize::MAX, 0, true).performance_score(), 0);
    assert_eq!(metrics(800, 1, 200, true).summary(), "Execution: 800ms, Total: 0ms, Retries: 1, Score: 85");
    assert!(!metrics(499, 0, 0, false).is_fast_execution());
    assert!(!metrics(500, 0, 0, true).is_fast_execution());
}

#[test]
fn test_option_presets_and_attempts() {
    let testing = ExecutionOptions::testing();
    assert_eq!((testing.timeout_ms, testing.retry_delay_ms, testing.max_retries), (15000, 0, 1));
    assert!(testing.restore_previous_state && testing.validate_before_execution && !testing.retry_on_failure);
    assert_eq!(ExecutionOptions::default().max_attempts(), 3);
    assert_eq!(ExecutionOptions::reliable().max_attempts(), 5);
    assert_eq!(ExecutionOptions::fast().max_attempts(), 1);
    let mut options = ExecutionOptions::default();
    options.max_retries = 0;
    assert_eq!(options.max_attempts(), 1);
    options.max_retries = 9;
    options.retry_on_failure = false;
    assert_eq!(options.max_attempts(), 1);
    let configured = executor().with_config(7, 250, true);
    assert_eq!((configured.retry_attempts, configured.retry_delay_ms, configured.verbose), (7, 250, true));
}

#[test]
fn test_validation_before_execution() {
    let executor = executor();
    let lights = listing();
    assert_eq!(executor.validate_scene_execution(&scene("S", &["1", "2"], false), &lights), Ok(()));
    let invalid = |reason: &str| Err(HueStatusError::ValidationFailed { reason: reason.to_string() });
    assert_eq!(
        executor.validate_scene_execution(&scene("S", &["1"], true), &lights),
        invalid("Scene 'S' is not suitable for execution")
    );
    assert_eq!(
        executor.validate_scene_execution(&scene("S", &[], false), &lights),
        invalid("Scene 'S' is not suitable for execution")
    );
    assert_eq!(
        executor.validate_scene_execution(&scene("S", &["1", "3", "2", "4"], false), &lights),
        invalid("Unreachable lights: Three, Four")
    );
    // A light that the bridge does not list is not reachable either, and is named by its identifier.
    assert_eq!(
        executor.validate_scene_execution(&scene("S", &["9", "1"], false), &lights),
        invalid("Unreachable lights: 9")
    );
}

#[test]
fn test_backup_captures_listed_states() {
    let executor = executor();
    let lights = listing();
    let backed = scene("S", &["2", "1", "3", "2"], false);
    let backups = executor.backup_current_states(&backed, &lights, 77).unwrap();
    assert_eq!(backups.len(), backed.lights.len());
    for (backup, light_id) in backups.iter().zip(&backed.lights) {
        let listed = lights.get(light_id).unwrap();
        assert_eq!(&backup.light_id, light_id);
        assert_eq!(backup.previous_state, listed.state);
        assert_eq!(backup.light_name, listed.name);
        assert_eq!(backup.timestamp, 77);
    }
    assert_eq!(backups[0].previous_state.bri, Some(22));
    // A light that the bridge does not list cannot be backed up.
    assert_eq!(
        executor.backup_current_states(&scene("S", &["2", "9", "1", "8"], false), &lights, 77),
        Err(HueStatusError::ValidationFailed { reason: "Light '9' in scene 'S' not found".to_string() })
    );
    assert_eq!(executor.backup_current_states(&scene("S", &[], false), &lights, 77), Ok(vec![]));
    assert_eq!(executor.restore_states(&backups), Ok(()));
    assert!(executor.get_execution_history().is_empty());
}

#[test]
fn test_apply_outcomes() {
    let executor = executor();
    assert_eq!(executor.execute_immediate("red", ApplyOutcome::Replied(Ok(()))), Ok(()));
    assert_eq!(
        executor.execute_immediate("red", ApplyOutcome::TimedOut),
        Err(HueStatusError::TimeoutError { operation: "Scene execution for red".to_string() })
    );
    assert_eq!(
        executor.execute_immediate("red", ApplyOutcome::Replied(Err(HueStatusError::AuthenticationFailed))),
        Err(failed("Authentication failed. Run 'huestatus --setup' to re-authenticate."))
    );
}

// The scene "red" fails to execute; the rollback scene "prior" executes.
#[test]
fn test_rollback_returns_the_original_error() {
    let executor = executor();
    let primary = ApplyOutcome::Replied(Err(failed("bridge busy")));
    let run = executor.execute_with_rollback("red", "prior", 5000, primary, ApplyOutcome::Replied(Ok(())), 40);
    assert!(matches!(run.result, Err(HueStatusError::SceneExecutionFailed { .. })));
    assert_eq!(run.result, Err(failed("Scene execution failed: bridge busy")));
    assert_eq!(run.rollback_invocations, 1);
}

#[test]
fn test_rollback_cases() {
    let executor = executor();
    let run = executor.execute_with_rollback(
        "red",
        "prior",
        5000,
        ApplyOutcome::TimedOut,
        ApplyOutcome::Replied(Err(HueStatusError::BridgeNotFound)),
        40,
    );
    assert_eq!(run.result, Err(HueStatusError::TimeoutError { operation: "Scene execution for red".to_string() }));
    assert_eq!(run.rollback_invocations, 1);
    let run =
        executor.execute_with_rollback("red", "prior", 5000, ApplyOutcome::Replied(Ok(())), ApplyOutcome::TimedOut, 40);
    assert_eq!(run.rollback_invocations, 0);
    let applied = run.result.unwrap();
    assert_eq!(applied.scene_id, "red");
    assert_eq!(applied.scene_name, "Unknown");
    assert_eq!((applied.execution_time_ms, applied.success), (40, true));
    assert_eq!(executor.execute_with_rollback_begin(9), RollbackStep::ApplyPrimary { timeout_ms: 9 });
    assert_eq!(
        executor.after_primary("red", 9, ApplyOutcome::TimedOut, 1),
        RollbackStep::ApplyRollback {
            timeout_ms: 9,
            original: HueStatusError::TimeoutError { operation: "Scene execution for red".to_string() }
        }
    );
    assert_eq!(
        executor.after_rollback(HueStatusError::NoLightsFound, ApplyOutcome::Replied(Ok(()))),
        RollbackStep::Done(Err(HueStatusError::NoLightsFound))
    );
}

#[test]
fn test_dry_run_report() {
    let executor = executor();
    let lights = listing();
    let report = executor.test_execution("id", &scene("Name", &["1", "3", "9"], false), &lights);
    assert_eq!(report.scene_id, "id");
    assert_eq!(report.scene_name, "Name");
    assert!(!report.is_valid);
    assert_eq!(report.issues, vec!["Light 'Three' is not reachable", "Light '9' not found"]);
    assert_eq!(report.lights_status.len(), 2);
    assert_eq!(report.lights_status[0].light_name, "One");
    assert_eq!(report.lights_status[0].current_state, Some(state(11, Some(true))));
    assert!(!report.lights_status[1].is_reachable);
    let good = executor.test_execution("id", &scene("Name", &["1", "2"], false), &lights);
    assert!(good.is_valid);
    assert!(good.issues.is_empty());
    let locked = executor.test_execution("id", &scene("Name", &["1"], true), &lights);
    assert_eq!(locked.issues, vec!["Scene is not suitable for status indication"]);
    let missing = executor.test_execution_without_scene("id");
    assert_eq!(missing.scene_name, "Unknown");
    assert_eq!(missing.issues, vec!["Scene not found"]);
    assert!(!missing.is_valid);
}

#[test]
fn test_status_scene_context() {
    let config = Config::new(
        "h".to_string(),
        "k".to_string(),
        Config::create_scene_config("s-id".to_string(), "s-name".to_string(), true),
        Config::create_scene_config("f-id".to_string(), "f-name".to_string(), true),
    );
    let context = SceneExecutor::status_scene_context("success", &config, &ExecutionOptions::fast()).unwrap();
    assert_eq!((context.scene_id.as_str(), context.scene_name.as_str()), ("s-id", "s-name"));
    assert_eq!(context.strategy, ExecutionStrategy::Immediate);
    assert_eq!(context.options, ExecutionOptions::fast());
    assert_eq!(
        SceneExecutor::status_scene_context("none", &config, &ExecutionOptions::fast()),
        Err(HueStatusError::SceneNotFound { scene_name: "none".to_string() })
    );
}

#[test]
fn test_pipeline_immediate_success() {
    let executor = executor();
    let (state, step) = executor.begin_execution(context(ExecutionStrategy::Immediate, ExecutionOptions::default()), 100);
    assert_eq!(step, ExecutionStep::Apply { timeout_ms: 5000 });
    assert_eq!(state.phase, Phase::Applying);
    let (state, step) = executor.advance(state, applied_ok(), 150);
    match step {
        ExecutionStep::Done(Ok(result)) => {
            assert_eq!((result.scene_id.as_str(), result.scene_name.as_str()), ("red", "Red"));
            assert_eq!((result.execution_time_ms, result.success), (50, true));
        }
        other => panic!("unexpected step {:?}", other),
    }
    assert_eq!(state.phase, Phase::Finished);
    assert_eq!(state.attempts_made, 1);
    assert_eq!(
        state.metrics,
        ExecutionMetrics {
            total_time_ms: 50,
            validation_time_ms: 0,
            execution_time_ms: 50,
            backup_time_ms: 0,
            lights_affected: 0,
            retry_count: 0,
            success: true
        }
    );
}

#[test]
fn test_pipeline_full_order() {
    let executor = executor();
    let events = vec![
        at(shown(&["1", "2"]), 10),  // validation
        at(shown(&["1", "2"]), 25),  // backup
        at(applied_err(), 30),       // first attempt
        at(ExecutionEvent::Slept, 2030),
        at(applied_ok(), 2100),      // second attempt
        at(applied_ok(), 9999),      // never reported
    ];
    let (state, step) =
        executor.execute_with_context(context(ExecutionStrategy::BackupAndRestore, ExecutionOptions::reliable()), 0, events);
    assert!(matches!(step, ExecutionStep::Done(Ok(_))));
    assert_eq!(state.metrics.validation_time_ms, 10);
    assert_eq!(state.metrics.backup_time_ms, 15);
    assert_eq!(state.metrics.execution_time_ms, 70);
    assert_eq!(state.metrics.total_time_ms, 2100);
    assert_eq!(state.metrics.retry_count, 1);
    assert!(state.metrics.success);
    assert_eq!(state.attempts_made, 2);
    assert_eq!(state.context.backup_states.len(), 2);
    assert_eq!(state.context.backup_states[0].previous_state, state_of("1"));
    assert_eq!(state.context.backup_states[1].previous_state, state_of("2"));
    assert_eq!(state.context.backup_states[1].timestamp, 25);
}

fn state_of(id: &str) -> LightState {
    listing().get(id).unwrap().state.clone()
}

#[test]
fn test_pipeline_steps_in_order() {
    let executor = executor();
    let (state, step) = executor.begin_execution(context(ExecutionStrategy::Immediate, ExecutionOptions::reliable()), 0);
    assert_eq!((state.phase, &step), (Phase::Validating, &ExecutionStep::Fetch));
    let (state, step) = executor.advance(state, shown(&["1"]), 5);
    assert_eq!((state.phase, &step), (Phase::BackingUp, &ExecutionStep::Fetch));
    assert!(state.context.backup_states.is_empty());
    let (state, step) = executor.advance(state, shown(&["1"]), 9);
    assert_eq!((state.phase, &step), (Phase::Applying, &ExecutionStep::Apply { timeout_ms: 10000 }));
    assert_eq!(state.context.backup_states.len(), 1);
    let (state, step) = executor.advance(state, applied_err(), 11);
    assert_eq!((state.phase, &step), (Phase::Pausing, &ExecutionStep::Sleep(2000)));
    let (state, step) = executor.advance(state, ExecutionEvent::Slept, 2011);
    assert_eq!((state.phase, &step), (Phase::Applying, &ExecutionStep::Apply { timeout_ms: 10000 }));
    // An event that is not waited for changes nothing.
    let (after, step) = executor.advance(state.clone(), ExecutionEvent::Slept, 2012);
    assert_eq!(after, state);
    assert_eq!(step, ExecutionStep::Done(Err(failed("Unexpected event"))));
}

#[test]
fn test_pipeline_validation_failure_is_not_retried() {
    let executor = executor();
    let events = vec![at(shown(&["1", "3"]), 10), at(applied_ok(), 20)];
    let (state, step) =
        executor.execute_with_context(context(ExecutionStrategy::Immediate, ExecutionOptions::reliable()), 0, events);
    assert_eq!(
        step,
        ExecutionStep::Done(Err(HueStatusError::ValidationFailed { reason: "Unreachable lights: Three".to_string() }))
    );
    assert_eq!((state.attempts_made, state.metrics.retry_count, state.metrics.success), (0, 0, false));
    assert_eq!(state.metrics.total_time_ms, 10);
    // The same holds for the validation that precedes an attempt.
    let mut options = ExecutionOptions::default();
    options.max_retries = 5;
    let events = vec![
        at(shown(&["1"]), 1),
        at(applied_err(), 2),
        at(ExecutionEvent::Slept, 3),
        at(shown(&["3"]), 4),
        at(applied_ok(), 5),
    ];
    let (state, step) = executor.execute_with_context(context(ExecutionStrategy::ValidatedExecution, options), 0, events);
    assert_eq!(
        step,
        ExecutionStep::Done(Err(HueStatusError::ValidationFailed { reason: "Unreachable lights: Three".to_string() }))
    );
    assert_eq!((state.attempts_made, state.metrics.retry_count), (1, 1));
}

#[test]
fn test_pipeline_retries_are_bounded() {
    let executor = executor();
    let mut events = Vec::new();
    for k in 0..10u64 {
        events.push(at(applied_err(), 10 * k));
        events.push(at(ExecutionEvent::Slept, 10 * k + 5));
    }
    let (state, step) =
        executor.execute_with_context(context(ExecutionStrategy::Immediate, ExecutionOptions::default()), 0, events);
    assert_eq!(
        step,
        ExecutionStep::Done(Err(failed("Bridge not found. Check network connection and try again.")))
    );
    assert_eq!((state.attempts_made, state.metrics.retry_count), (3, 2));
    assert_eq!(state.metrics.total_time_ms, 20);
    let single = vec![at(applied_err(), 1), at(ExecutionEvent::Slept, 2)];
    let (state, step) =
        executor.execute_with_context(context(ExecutionStrategy::Immediate, ExecutionOptions::fast()), 0, single);
    assert!(matches!(step, ExecutionStep::Done(Err(_))));
    assert_eq!((state.attempts_made, state.metrics.retry_count), (1, 0));
}

#[test]
fn test_pipeline_strategies() {
    let executor = executor();
    let (state, step) = executor.begin_execution(context(ExecutionStrategy::Delayed(750), ExecutionOptions::fast()), 0);
    assert_eq!((state.phase, &step), (Phase::Delaying, &ExecutionStep::Sleep(750)));
    let (state, step) = executor.advance(state, ExecutionEvent::Slept, 750);
    assert_eq!((state.phase, &step), (Phase::Applying, &ExecutionStep::Apply { timeout_ms: 2000 }));
    let (state, step) = executor.advance(state, applied_ok(), 800);
    assert!(matches!(step, ExecutionStep::Done(Ok(_))));
    // The time of a delayed execution includes its delay.
    assert_eq!(state.metrics.execution_time_ms, 800);
    let (_, step) =
        executor.begin_execution(context(ExecutionStrategy::Fade { duration_ms: 2000 }, ExecutionOptions::fast()), 0);
    assert_eq!(step, ExecutionStep::Apply { timeout_ms: 7000 });
    let (_, step) =
        executor.begin_execution(context(ExecutionStrategy::Fade { duration_ms: u64::MAX }, ExecutionOptions::fast()), 0);
    assert_eq!(step, ExecutionStep::Apply { timeout_ms: u64::MAX });
    let (state, step) =
        executor.begin_execution(context(ExecutionStrategy::ValidatedExecution, ExecutionOptions::fast()), 0);
    assert_eq!((state.phase, &step), (Phase::Revalidating, &ExecutionStep::Fetch));
    // A fetch that fails with a connectivity error before an attempt counts as a failed attempt.
    let (state, step) = executor.advance(state, ExecutionEvent::Fetched(Err(HueStatusError::BridgeNotFound)), 3);
    assert_eq!(step, ExecutionStep::Done(Err(HueStatusError::BridgeNotFound)));
    assert_eq!(state.attempts_made, 1);
    let (state, _) =
        executor.begin_execution(context(ExecutionStrategy::ValidatedExecution, ExecutionOptions::default()), 0);
    let (state, step) = executor.advance(state, ExecutionEvent::Fetched(Err(HueStatusError::BridgeNotFound)), 3);
    assert_eq!((state.phase, step), (Phase::Pausing, ExecutionStep::Sleep(1000)));
    // Any other error of the fetch ends the execution.
    let (state, _) =
        executor.begin_execution(context(ExecutionStrategy::ValidatedExecution, ExecutionOptions::default()), 0);
    let (state, step) = executor.advance(state, ExecutionEvent::Fetched(Err(HueStatusError::AuthenticationFailed)), 3);
    assert_eq!(step, ExecutionStep::Done(Err(HueStatusError::AuthenticationFailed)));
    assert_eq!((state.phase, state.attempts_made), (Phase::Finished, 0));
    // A clock that goes backwards yields no time.
    let (state, _) = executor.begin_execution(context(ExecutionStrategy::Immediate, ExecutionOptions::fast()), 500);
    let (state, _) = executor.advance(state, applied_ok(), 100);
    assert_eq!((state.metrics.execution_time_ms, state.metrics.total_time_ms), (0, 0));
}

#[test]
fn test_pipeline_backup_must_be_complete() {
    let executor = executor();
    let mut options = ExecutionOptions::default();
    options.restore_previous_state = true;
    let events = vec![at(shown(&["1", "9"]), 4), at(applied_ok(), 8)];
    let (state, step) = executor.execute_with_context(context(ExecutionStrategy::BackupAndRestore, options), 0, events);
    assert_eq!(
        step,
        ExecutionStep::Done(Err(HueStatusError::ValidationFailed {
            reason: "Light '9' in scene 'red scene' not found".to_string()
        }))
    );
    assert_eq!((state.phase, state.attempts_made), (Phase::Finished, 0));
    assert!(state.context.backup_states.is_empty());
    assert!(!state.metrics.success);
}

#[test]
fn test_pipeline_script_runs_out() {
    let executor = executor();
    let (state, step) = executor.execute_with_context(
        context(ExecutionStrategy::Immediate, ExecutionOptions::reliable()),
        0,
        vec![at(shown(&["1"]), 1)],
    );
    assert_eq!((state.phase, step), (Phase::BackingUp, ExecutionStep::Fetch));
    let (state, step) = executor.execute_with_context(
        context(ExecutionStrategy::Immediate, ExecutionOptions::reliable()),
        0,
        vec![at(ExecutionEvent::Fetched(Err(HueStatusError::AuthenticationFailed)), 1)],
    );
    assert_eq!(step, ExecutionStep::Done(Err(HueStatusError::AuthenticationFailed)));
    assert_eq!(state.phase, Phase::Finished);
}
