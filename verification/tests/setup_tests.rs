use huestatus::bridge::{BridgeCapabilities, CapabilityLimits};
use huestatus::setup::{SceneCheck, SetupOptions, SetupResult, SetupStatus, SetupStep, SetupValidator};
use huestatus::HueStatusError;

fn result(warnings: usize, duration_ms: u64, lights: usize) -> SetupResult {
    SetupResult {
        success: true,
        bridge_ip: "192.168.1.100".to_string(),
        bridge_name: "Test Bridge".to_string(),
        username: "test-user".to_string(),
        scenes_created: 2,
        lights_configured: lights,
        config_path: "/test/config.json".to_string(),
        duration_ms,
        warnings: vec!["Test warning".to_string(); warnings],
    }
}

#[test]
fn test_setup_options() {
    let default_options = SetupOptions::default();
    assert!(default_options.interactive);
    assert!(!default_options.skip_validation);
    assert_eq!(default_options.timeout_seconds, 30);

    let quick_options = SetupOptions::quick();
    assert_eq!(quick_options.timeout_seconds, 15);
    assert!(quick_options.skip_validation);

    let thorough_options = SetupOptions::thorough();
    assert_eq!(thorough_options.timeout_seconds, 60);
    assert!(thorough_options.test_scenes);
}

#[test]
fn test_setup_steps() {
    assert_eq!(SetupStep::Initialize, SetupStep::Initialize);
    assert_ne!(SetupStep::Initialize, SetupStep::DiscoverBridge);
}

#[test]
fn test_setup_result() {
    let result = SetupResult {
        success: true,
        bridge_ip: "192.168.1.100".to_string(),
        bridge_name: "Test Bridge".to_string(),
        username: "test-user".to_string(),
        scenes_created: 2,
        lights_configured: 5,
        config_path: "/test/config.json".to_string(),
        duration_ms: 15000,
        warnings: vec!["Test warning".to_string()],
    };

    assert!(result.success);
    assert!(result.has_warnings());
    assert!(result.quality_score() > 70);
}

#[test]
fn test_setup_status() {
    let status = SetupStatus {
        current_step: SetupStep::DiscoverBridge,
        total_steps: 7,
        completed_steps: 1,
        message: "Discovering bridges...".to_string(),
        error: None,
    };

    assert_eq!(status.current_step, SetupStep::DiscoverBridge);
    assert_eq!(status.completed_steps, 1);
    assert!(status.error.is_none());
}

#[test]
fn test_quality_score_exact() {
    assert_eq!(result(0, 0, 2).quality_score(), 100);
    assert_eq!(result(1, 15000, 5).quality_score(), 90);
    assert_eq!(result(0, 30000, 2).quality_score(), 100);
    assert_eq!(result(0, 30001, 2).quality_score(), 95);
    assert_eq!(result(0, 60001, 2).quality_score(), 90);
    assert_eq!(result(0, 0, 1).quality_score(), 85);
    assert_eq!(result(9, 60001, 1).quality_score(), 0);
    assert_eq!(result(10, 0, 2).quality_score(), 0);
    assert_eq!(result(11, 0, 2).quality_score(), 0);
    assert_eq!(result(9, 0, 2).quality_score(), 10);
    assert_eq!(result(26, 0, 2).quality_score(), 0);
    assert!(!result(0, 0, 2).has_warnings());
}

#[test]
fn test_option_presets() {
    let plain = SetupOptions::non_interactive();
    assert!(!plain.interactive);
    assert_eq!(plain.timeout_seconds, 30);
    assert!(plain.backup_existing);
    let thorough = SetupOptions::thorough();
    assert!(thorough.verbose && thorough.backup_existing && !thorough.skip_validation && !thorough.force);
    assert_eq!(SetupOptions::quick().retry_attempts, 3);
}

#[test]
fn test_capability_warnings() {
    let limits = |available: usize, total: usize| CapabilityLimits { available, total };
    let capabilities = |scenes: CapabilityLimits, lights: CapabilityLimits| BridgeCapabilities {
        lights,
        sensors: limits(0, 0),
        groups: limits(0, 0),
        scenes,
        rules: limits(0, 0),
        schedules: limits(0, 0),
        resourcelinks: limits(0, 0),
        streaming: None,
        timezones: vec![],
    };
    let validator = SetupValidator::new(false);
    assert_eq!(validator.check_bridge_capabilities(&Ok(capabilities(limits(10, 200), limits(0, 2)))), Ok(vec![]));
    assert_eq!(
        validator.check_bridge_capabilities(&Ok(capabilities(limits(9, 200), limits(50, 1)))),
        Ok(vec![
            "Bridge is running low on scene storage".to_string(),
            "Bridge has very few lights connected".to_string()
        ])
    );
    assert_eq!(
        validator.check_bridge_capabilities(&Err(HueStatusError::BridgeNotFound)),
        Ok(vec![
            "Could not check bridge capabilities: Bridge not found. Check network connection and try again."
                .to_string()
        ])
    );
}

#[test]
fn test_setup_plan() {
    let all = vec![
        SetupStep::Initialize,
        SetupStep::DiscoverBridge,
        SetupStep::AuthenticateBridge,
        SetupStep::DiscoverLights,
        SetupStep::CreateScenes,
        SetupStep::ValidateSetup,
        SetupStep::SaveConfiguration,
        SetupStep::Complete,
    ];
    assert_eq!(SetupOptions::default().plan(false), Ok(all.clone()));
    let quick: Vec<SetupStep> = all.iter().copied().filter(|s| *s != SetupStep::ValidateSetup).collect();
    assert_eq!(SetupOptions::quick().plan(false), Ok(quick));
    assert_eq!(
        SetupOptions::default().plan(true),
        Err(HueStatusError::SetupFailed { reason: "Configuration already exists".to_string() })
    );
    let mut forced = SetupOptions::default();
    forced.force = true;
    assert_eq!(forced.plan(true), Ok(all));
}

#[test]
fn test_setup_warnings() {
    let validator = SetupValidator::new(true);
    let light = |name: &str| {
        (
            name.to_string(),
            huestatus::bridge::Light {
                name: name.to_string(),
                state: huestatus::bridge::LightState::new_success_state(),
                light_type: String::new(),
                modelid: String::new(),
                manufacturername: String::new(),
                productname: None,
                capabilities: None,
                config: None,
                swversion: None,
                swconfigid: None,
                productid: None,
            },
        )
    };
    let check = |name: &str, fetched: Result<(), HueStatusError>| SceneCheck { scene_name: name.to_string(), fetched };
    assert!(validator.validate_setup(&Ok(()), &Ok(vec![light("a"), light("b")]), &vec![check("s", Ok(()))]).is_empty());
    assert_eq!(
        validator.validate_setup(
            &Err(HueStatusError::BridgeNotFound),
            &Ok(vec![light("a")]),
            &vec![
                check("huestatus-success", Err(HueStatusError::AuthenticationFailed)),
                check("huestatus-failure", Ok(())),
            ],
        ),
        vec![
            "Bridge connection issue: Bridge not found. Check network connection and try again.",
            "Only one suitable light found - consider adding more for better visibility",
            "Scene 'huestatus-success' not found: Authentication failed. Run 'huestatus --setup' to re-authenticate.",
        ]
    );
    assert_eq!(
        validator.validate_setup(&Ok(()), &Ok(vec![]), &vec![]),
        vec!["No suitable lights found for status indication"]
    );
    assert_eq!(
        validator.validate_setup(&Ok(()), &Err(HueStatusError::NoLightsFound), &vec![]),
        vec!["Failed to get lights: No lights found. Ensure your Hue bridge has lights connected."]
    );
}
