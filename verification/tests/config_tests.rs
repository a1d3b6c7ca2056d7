use huestatus::config::validation::{
    validate_advanced_settings, validate_bridge_config, validate_scenes_config, validate_settings,
};
use huestatus::config::{
    get_config_health_score, has_reasonable_defaults, validate_application_key, validate_config,
    validate_ip_address, validate_retry_attempts, validate_retry_delay, validate_scene_config,
    validate_scene_name, validate_timeout, AdvancedSettings, CapabilitiesCache, Config, ConfigVersion, Settings,
};
use huestatus::HueStatusError;

fn sample() -> Config {
    Config::new(
        "192.168.1.100".to_string(),
        "valid-application-key".to_string(),
        Config::create_scene_config("success-id".to_string(), "success-scene".to_string(), true),
        Config::create_scene_config("failure-id".to_string(), "failure-scene".to_string(), true),
    )
}

fn invalid(reason: &str) -> Result<(), HueStatusError> {
    Err(HueStatusError::InvalidConfig { reason: reason.to_string() })
}

#[test]
fn test_config_version_compatibility() {
    assert!(ConfigVersion::V1_0.is_compatible());
    assert!(ConfigVersion::V1_1.is_compatible());
    assert!(ConfigVersion::V1_2.is_compatible());
}

#[test]
fn test_config_version_migration() {
    assert!(ConfigVersion::V1_0.needs_migration());
    assert!(ConfigVersion::V1_1.needs_migration());
    assert!(!ConfigVersion::V1_2.needs_migration());
}

#[test]
fn test_config_creation() {
    let config = Config::new(
        "192.168.1.100".to_string(),
        "test-key".to_string(),
        Config::create_scene_config("success-id".to_string(), "success-scene".to_string(), true),
        Config::create_scene_config("failure-id".to_string(), "failure-scene".to_string(), true),
    );

    assert_eq!(config.bridge.ip, "192.168.1.100");
    assert_eq!(config.bridge.application_key, "test-key");
    assert_eq!(config.scenes.success.id, "success-id");
    assert_eq!(config.scenes.failure.id, "failure-id");
}

#[test]
fn test_scene_getters() {
    let config = Config::new(
        "192.168.1.100".to_string(),
        "test-key".to_string(),
        Config::create_scene_config("success-id".to_string(), "success-scene".to_string(), true),
        Config::create_scene_config("failure-id".to_string(), "failure-scene".to_string(), true),
    );

    assert!(config.get_scene("success").is_some());
    assert!(config.get_scene("failure").is_some());
    assert!(config.get_scene("invalid").is_none());
}

#[test]
fn test_default_settings() {
    let settings = Settings::default();
    assert_eq!(settings.timeout_seconds, 10);
    assert_eq!(settings.retry_attempts, 3);
    assert_eq!(settings.retry_delay_seconds, 1);
    assert!(!settings.verbose_logging);
    assert!(!settings.quiet_mode);
    assert!(settings.auto_refresh_scenes);
    assert!(!settings.validate_scenes_on_startup);
}

#[test]
fn test_advanced_settings() {
    let advanced = AdvancedSettings::default();
    assert_eq!(advanced.connection_pool_size, 5);
    assert_eq!(advanced.cache_duration_minutes, 30);
    assert_eq!(advanced.scene_validation_interval_hours, 24);
}

#[test]
fn test_validate_ip_address() {
    assert!(validate_ip_address("192.168.1.1", true).is_ok());
    assert!(validate_ip_address("127.0.0.1", true).is_ok());
    assert!(validate_ip_address("::1", true).is_ok());
    assert!(validate_ip_address("invalid", false).is_err());
    assert!(validate_ip_address("", false).is_err());
    assert_eq!(validate_ip_address("invalid", false), invalid("Invalid IP address: invalid"));
}

#[test]
fn test_validate_scene_name() {
    assert!(validate_scene_name("valid-scene").is_ok());
    assert!(validate_scene_name("Valid Scene").is_ok());
    assert!(validate_scene_name("").is_err());
    assert!(validate_scene_name("a".repeat(33).as_str()).is_err());
    assert!(validate_scene_name("scene\nwith\nnewlines").is_err());
    assert!(validate_scene_name("hue_reserved").is_err());
}

#[test]
fn test_validate_application_key() {
    assert!(validate_application_key("valid-key-123").is_ok());
    assert!(validate_application_key("").is_err());
    assert!(validate_application_key("short").is_err());
    assert!(validate_application_key("a".repeat(101).as_str()).is_err());
    assert!(validate_application_key("invalid@key").is_err());
}

#[test]
fn test_validate_timeout() {
    assert!(validate_timeout(10).is_ok());
    assert!(validate_timeout(0).is_err());
    assert!(validate_timeout(301).is_err());
}

#[test]
fn test_validate_retry_attempts() {
    assert!(validate_retry_attempts(3).is_ok());
    assert!(validate_retry_attempts(0).is_err());
    assert!(validate_retry_attempts(11).is_err());
}

#[test]
fn test_validate_retry_delay() {
    assert!(validate_retry_delay(1).is_ok());
    assert!(validate_retry_delay(0).is_err());
    assert!(validate_retry_delay(61).is_err());
}

#[test]
fn test_validate_config() {
    let config = Config::new(
        "192.168.1.100".to_string(),
        "valid-application-key".to_string(),
        Config::create_scene_config("success-id".to_string(), "success-scene".to_string(), true),
        Config::create_scene_config("failure-id".to_string(), "failure-scene".to_string(), true),
    );

    assert!(validate_config(&config, true).is_ok());
}

#[test]
fn test_config_validation() {
    let valid_config = Config::new(
        "192.168.1.100".to_string(),
        "test-application-key".to_string(),
        Config::create_scene_config("success-id".to_string(), "success-scene".to_string(), true),
        Config::create_scene_config("failure-id".to_string(), "failure-scene".to_string(), true),
    );

    assert!(valid_config.validate(true).is_ok());
}

#[test]
fn test_has_reasonable_defaults() {
    let config = sample();

    assert!(has_reasonable_defaults(&config));
}

#[test]
fn test_config_health_score() {
    let config = sample();

    let score = get_config_health_score(&config);
    assert!(score >= 50); // Should have a reasonable score
}

#[test]
fn test_scene_name_rules() {
    assert_eq!(validate_scene_name(""), invalid("Scene name cannot be empty"));
    assert_eq!(validate_scene_name(&"a".repeat(32)), Ok(()));
    assert_eq!(validate_scene_name(&"a".repeat(33)), invalid("Scene name is too long (max 32 characters)"));
    // Sixteen characters of two bytes each are 32 bytes; seventeen are too long.
    assert_eq!(validate_scene_name(&"é".repeat(16)), Ok(()));
    assert_eq!(validate_scene_name(&"é".repeat(17)), invalid("Scene name is too long (max 32 characters)"));
    assert_eq!(validate_scene_name("a\tb"), invalid("Scene name contains invalid characters"));
    assert_eq!(validate_scene_name("a\rb"), invalid("Scene name contains invalid characters"));
    assert_eq!(
        validate_scene_name("Hue_x"),
        invalid("Scene name cannot start with 'hue_' or 'Hue_' (reserved)")
    );
    assert_eq!(validate_scene_name("hue"), Ok(()));
    assert_eq!(validate_scene_name("xhue_"), Ok(()));
}

#[test]
fn test_application_key_rules() {
    assert_eq!(validate_application_key(""), invalid("Application key cannot be empty"));
    assert_eq!(validate_application_key("123456789"), invalid("Application key is too short (min 10 characters)"));
    assert_eq!(validate_application_key("1234567890"), Ok(()));
    assert_eq!(validate_application_key(&"a".repeat(100)), Ok(()));
    assert_eq!(
        validate_application_key(&"a".repeat(101)),
        invalid("Application key is too long (max 100 characters)")
    );
    assert_eq!(validate_application_key("abc def ghi jkl"), invalid("Application key contains invalid characters"));
    assert_eq!(validate_application_key("Schlüssel-123"), Ok(()));
    assert_eq!(validate_application_key("under_score_key"), invalid("Application key contains invalid characters"));
}

#[test]
fn test_number_rules() {
    assert_eq!(validate_timeout(0), invalid("Timeout cannot be zero"));
    assert_eq!(validate_timeout(1), Ok(()));
    assert_eq!(validate_timeout(300), Ok(()));
    assert_eq!(validate_timeout(301), invalid("Timeout is too large (max 300 seconds)"));
    assert_eq!(validate_retry_attempts(0), invalid("Retry attempts cannot be zero"));
    assert_eq!(validate_retry_attempts(10), Ok(()));
    assert_eq!(validate_retry_attempts(11), invalid("Too many retry attempts (max 10)"));
    assert_eq!(validate_retry_delay(0), invalid("Retry delay cannot be zero"));
    assert_eq!(validate_retry_delay(60), Ok(()));
    assert_eq!(validate_retry_delay(61), invalid("Retry delay is too large (max 60 seconds)"));
}

#[test]
fn test_config_defects_in_order() {
    let mut config = sample();
    config.settings.timeout_seconds = 0;
    config.advanced.connection_pool_size = 0;
    assert_eq!(validate_config(&config, true), invalid("Timeout cannot be zero"));
    assert_eq!(validate_settings(&config), invalid("Timeout cannot be zero"));
    assert_eq!(validate_advanced_settings(&config), invalid("Connection pool size cannot be zero"));
    config.scenes.failure.id = "success-id".to_string();
    assert_eq!(validate_config(&config, true), invalid("Success and failure scenes have the same ID"));
    assert_eq!(validate_scenes_config(&config), invalid("Success and failure scenes have the same ID"));
    config.scenes.success.name = String::new();
    assert_eq!(validate_config(&config, true), invalid("success scene name is empty"));
    assert_eq!(validate_config(&config, false), invalid("Invalid bridge IP address: 192.168.1.100"));
    config.bridge.capabilities_cache = Some(CapabilitiesCache { max_scenes: 0, lights_count: 1, cached_at: 0 });
    assert_eq!(validate_bridge_config(&config, true), invalid("Capabilities cache has zero max_scenes"));
    config.bridge.application_key = "short".to_string();
    assert_eq!(validate_bridge_config(&config, true), invalid("Application key is too short"));
    config.bridge.application_key = String::new();
    assert_eq!(validate_bridge_config(&config, true), invalid("Application key is empty"));
    config.bridge.ip = String::new();
    assert_eq!(validate_bridge_config(&config, true), invalid("Bridge IP address is empty"));
    let scene = Config::create_scene_config(String::new(), "n".to_string(), false);
    assert_eq!(validate_scene_config(&scene, "failure"), invalid("failure scene ID is empty"));
    let scene = Config::create_scene_config("i".to_string(), "a\nb".to_string(), false);
    assert_eq!(validate_scene_config(&scene, "success"), invalid("success scene name contains invalid characters"));
    let scene = Config::create_scene_config("i".to_string(), "a".repeat(33), false);
    assert_eq!(
        validate_scene_config(&scene, "success"),
        invalid("success scene name is too long (max 32 characters)")
    );
    let mut loud = sample();
    loud.settings.verbose_logging = true;
    loud.settings.quiet_mode = true;
    assert_eq!(validate_settings(&loud), invalid("Cannot enable both verbose logging and quiet mode"));
    let mut advanced = sample();
    advanced.advanced.scene_validation_interval_hours = 8761;
    assert_eq!(
        validate_advanced_settings(&advanced),
        invalid("Scene validation interval is too large (max 365 days)")
    );
    advanced.advanced.cache_duration_minutes = 1441;
    assert_eq!(validate_advanced_settings(&advanced), invalid("Cache duration is too large (max 24 hours)"));
    advanced.advanced.connection_pool_size = 101;
    assert_eq!(validate_advanced_settings(&advanced), invalid("Connection pool size is too large (max 100)"));
}

#[test]
fn test_migration_steps() {
    let mut config = sample();
    config.version = ConfigVersion::V1_0;
    config.settings.retry_attempts = 0;
    config.settings.retry_delay_seconds = 0;
    config.advanced.connection_pool_size = 50;
    assert_eq!(config.migrate(), Ok(()));
    assert_eq!(config.version, ConfigVersion::V1_1);
    assert_eq!((config.settings.retry_attempts, config.settings.retry_delay_seconds), (3, 1));
    assert_eq!(config.advanced.connection_pool_size, 50);
    config.settings.retry_attempts = 7;
    assert_eq!(config.migrate(), Ok(()));
    assert_eq!(config.version, ConfigVersion::V1_2);
    assert_eq!(config.advanced, AdvancedSettings::default());
    assert_eq!(config.settings.retry_attempts, 7);
    let before = config.clone();
    assert_eq!(config.migrate(), Ok(()));
    assert_eq!(config, before);
    assert_eq!(ConfigVersion::default(), ConfigVersion::V1_2);
}

#[test]
fn test_staleness_at_fixed_times() {
    let mut config = sample();
    config.bridge.last_verified = 1_000;
    let day = 24 * 3_600_000;
    assert!(!config.is_bridge_verification_stale_at(1_000 + day));
    assert!(config.is_bridge_verification_stale_at(1_001 + day));
    assert!(config.is_capabilities_cache_stale_at(1_000));
    config.update_capabilities_cache_at(200, 5, 1_000);
    assert!(!config.is_capabilities_cache_stale_at(1_000 + 30 * 60_000));
    assert!(config.is_capabilities_cache_stale_at(1_001 + 30 * 60_000));
    assert!(config.is_scene_validation_stale_at("success", 1_000));
    config.scenes.success.last_validated = Some(1_000);
    assert!(!config.is_scene_validation_stale_at("success", 1_000 + day));
    assert!(config.is_scene_validation_stale_at("success", 1_001 + day));
    assert!(config.is_scene_validation_stale_at("failure", 1_000));
    assert!(config.is_scene_validation_stale_at("other", 1_000));
    config.update_last_verified_at(5_000);
    assert_eq!(config.bridge.last_verified, 5_000);
    config.update_last_verified();
    assert!(config.bridge.last_verified > 5_000);
    assert!(!config.is_bridge_verification_stale());
    config.update_capabilities_cache(10, 2);
    assert_eq!(config.bridge.capabilities_cache.map(|c| (c.max_scenes, c.lights_count)), Some((10, 2)));
    assert!(!config.is_capabilities_cache_stale());
}

#[test]
fn test_health_score_at_fixed_time() {
    let mut config = sample();
    config.bridge.last_verified = 0;
    assert_eq!(huestatus::config::validation::get_config_health_score_at(&config, 0), 75); // no cache: -15 -10
    config.update_capabilities_cache_at(200, 5, 0);
    assert_eq!(huestatus::config::validation::get_config_health_score_at(&config, 0), 100);
    assert_eq!(huestatus::config::validation::get_config_health_score_at(&config, i64::MAX), 70);
    config.settings.timeout_seconds = 4;
    config.settings.retry_attempts = 1;
    config.settings.retry_delay_seconds = 6;
    config.settings.verbose_logging = true;
    config.settings.quiet_mode = true;
    assert_eq!(huestatus::config::validation::get_config_health_score_at(&config, i64::MAX), 15);
    assert!(!has_reasonable_defaults(&config));
}

#[test]
fn test_path_length_validation() {
    // Test normal length path
    let normal_path = "normal/path/config.json";
    assert!(huestatus::config::validate_path_length(normal_path).is_ok());

    // Test extremely long path (exceed MAX_PATH_LENGTH of 4096)
    let long_dir = "a".repeat(4200); // Longer than MAX_PATH_LENGTH
    let long_path = format!("{}/config.json", long_dir);
    assert!(matches!(
        huestatus::config::validate_path_length(&long_path),
        Err(HueStatusError::PathTooLong { .. })
    ));
}

#[test]
fn test_safe_path_to_string() {
    // Test successful conversion
    let normal_path = "normal/path/config.json".to_string();
    let result = huestatus::config::safe_path_to_string(Ok(normal_path));
    assert!(result.is_ok());

    // Test error propagation
    let error_result = huestatus::config::safe_path_to_string(Err(HueStatusError::ConfigNotFound));
    assert!(error_result.is_err());
}

#[test]
fn test_safe_path_to_string_fallback() {
    // Test normal path
    let normal_path = "normal/path/config.json".to_string();
    let result = huestatus::config::safe_path_to_string_fallback(Ok(normal_path));
    assert!(result.contains("normal"));

    // Test fallback for error
    let result = huestatus::config::safe_path_to_string_fallback(Err(HueStatusError::ConfigNotFound));
    assert_eq!(result, "unknown");

    // Test fallback for path too long
    let long_dir = "a".repeat(4200); // Longer than MAX_PATH_LENGTH
    let long_path = format!("{}/config.json", long_dir);
    let result = huestatus::config::safe_path_to_string_fallback(Ok(long_path));
    assert_eq!(result, format!("{}-fallback", "huestatus-config"));
}

#[test]
fn test_path_is_shortened_in_the_error() {
    let path = format!("{}{}{}", "h".repeat(50), "m".repeat(4000), "t".repeat(47));
    assert_eq!(
        huestatus::config::validate_path_length(&path),
        Err(HueStatusError::PathTooLong { path: format!("{}...{}", "h".repeat(50), "t".repeat(47)) })
    );
    assert_eq!(huestatus::config::validate_path_length(&"a".repeat(4096)), Ok(()));
    // A path is never cut inside a character: "é" takes two bytes.
    let wide = format!("{}{}{}", "é".repeat(30), "m".repeat(4000), "é".repeat(30));
    assert_eq!(
        huestatus::config::validate_path_length(&wide),
        Err(HueStatusError::PathTooLong { path: format!("{}...{}", "é".repeat(25), "é".repeat(23)) })
    );
    let odd = format!("a{}{}{}", "é".repeat(30), "m".repeat(4000), "é".repeat(30));
    assert_eq!(
        huestatus::config::validate_path_length(&odd),
        Err(HueStatusError::PathTooLong { path: format!("a{}...{}", "é".repeat(24), "é".repeat(23)) })
    );
    assert!(huestatus::config::validate_path_length(&"a".repeat(4097)).is_err());
    assert_eq!(
        huestatus::config::safe_path_to_string_fallback(Err(HueStatusError::PathTooLong { path: "p".to_string() })),
        "huestatus-config-fallback"
    );
}

#[test]
fn test_env_overrides() {
    let mut config = Config::new(
        "192.168.1.100".to_string(),
        "test-key".to_string(),
        Config::create_scene_config("s1".to_string(), "success".to_string(), true),
        Config::create_scene_config("f1".to_string(), "failure".to_string(), true),
    );

    let overrides = huestatus::config::EnvOverrides {
        bridge_ip: Some("192.168.1.200".to_string()),
        timeout: Some("15".to_string()),
        verbose: Some("true".to_string()),
        quiet: None,
    };

    config.apply_env_overrides(&overrides).unwrap();

    assert_eq!(config.bridge.ip, "192.168.1.200");
    assert_eq!(config.settings.timeout_seconds, 15);
    assert!(config.settings.verbose_logging);
}

#[test]
fn test_override_edge_cases() {
    let mut config = sample();
    let overrides = huestatus::config::EnvOverrides {
        bridge_ip: None,
        timeout: Some("15s".to_string()),
        verbose: Some("true".to_string()),
        quiet: Some("true".to_string()),
    };
    assert_eq!(
        config.apply_env_overrides(&overrides),
        Err(HueStatusError::EnvironmentVariableError { var_name: "HUESTATUS_TIMEOUT".to_string() })
    );
    assert!(!config.settings.verbose_logging);
    let flags = huestatus::config::EnvOverrides {
        bridge_ip: None,
        timeout: None,
        verbose: Some("yes".to_string()),
        quiet: Some("false".to_string()),
    };
    config.settings.verbose_logging = true;
    config.settings.quiet_mode = true;
    assert_eq!(config.apply_env_overrides(&flags), Ok(()));
    assert!(!config.settings.verbose_logging);
    assert!(!config.settings.quiet_mode);
    assert_eq!(config.effective_timeout(Some("42")), 42);
    assert_eq!(config.effective_timeout(Some("")), 10);
    assert_eq!(config.effective_timeout(None), 10);
    assert!(config.effective_verbose(Some("true")));
    assert!(!config.effective_verbose(Some("TRUE")));
    assert!(!config.effective_quiet(None));
    config.update_scene_validation_at("failure", 9);
    assert_eq!(config.scenes.failure.last_validated, Some(9));
    config.update_scene_validation_at("other", 10);
    assert_eq!(config.scenes.success.last_validated, None);
    config.update_scene_validation("success");
    assert!(config.scenes.success.last_validated.is_some());
    assert!(!config.is_scene_validation_stale("success"));
    assert!(config.is_scene_validation_stale("other"));
}

#[test]
fn test_scene_can_be_changed_in_place() {
    let mut config = sample();
    config.get_scene_mut("failure").unwrap().id = "changed".to_string();
    assert_eq!(config.scenes.failure.id, "changed");
    assert_eq!(config.scenes.success.id, "success-id");
    config.get_scene_mut("success").unwrap().auto_created = false;
    assert!(!config.scenes.success.auto_created);
    assert!(config.get_scene_mut("other").is_none());
}
