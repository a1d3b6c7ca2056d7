//! The configuration record that the core receives: the bridge, the two
//! status scenes, and the settings for time limits and retries.

use crate::clock::current_time_millis;
use crate::error::{ErrorView, HueStatusError, Result};
use crate::text::{
    byte_prefix, byte_suffix, concat3, parse_bool, parse_u64, parsed_bool, parsed_u64, prefix_of, same_text,
    suffix_of,
};
use vstd::prelude::*;
use vstd::string::*;
use vstd::utf8::*;

pub mod validation;

pub use validation::{
    get_config_health_score, has_reasonable_defaults, validate_application_key, validate_config,
    validate_ip_address, validate_retry_attempts, validate_retry_delay, validate_scene_config,
    validate_scene_name, validate_timeout,
};

verus! {

/// The version of the configuration format.
#[derive(Debug, Clone, Copy, PartialEq, Eq)]
pub enum ConfigVersion {
    V1_0,
    V1_1,
    V1_2,
}

impl Default for ConfigVersion {
    fn default() -> (version: Self)
        ensures
            version == ConfigVersion::V1_2,
    {
        ConfigVersion::V1_2
    }
}

impl ConfigVersion {
    /// Whether this version can be read: every known version can.
    pub fn is_compatible(&self) -> (yes: bool)
        ensures
            yes,
    {
        true
    }

    /// Whether a configuration of this version must be migrated: every
    /// version but the latest.
    pub fn needs_migration(&self) -> (yes: bool)
        ensures
            yes == !(self is V1_2),
    {
        match self {
            ConfigVersion::V1_2 => false,
            _ => true,
        }
    }
}

/// What is cached of a bridge's capabilities.
#[derive(Debug, Clone, Copy, PartialEq, Eq)]
pub struct CapabilitiesCache {
    /// The number of scenes that the bridge can store.
    pub max_scenes: usize,
    /// The number of lights that the bridge knows.
    pub lights_count: usize,
    /// When the capabilities were read, in milliseconds since the start of
    /// 1970 (UTC).
    pub cached_at: i64,
}

/// The bridge that the configuration is for.
#[derive(Debug, Clone, PartialEq, Eq)]
pub struct BridgeConfig {
    pub ip: String,
    /// The credential.
    pub application_key: String,
    /// When the connection was last verified, in milliseconds since the
    /// start of 1970 (UTC).
    pub last_verified: i64,
    pub capabilities_cache: Option<CapabilitiesCache>,
}

/// One configured scene.
#[derive(Debug, Clone, PartialEq, Eq)]
pub struct SceneConfig {
    /// The identifier that the bridge gave to the scene.
    pub id: String,
    pub name: String,
    /// Whether the scene was created by this tool.
    pub auto_created: bool,
    /// When the scene was last validated, in milliseconds since the start
    /// of 1970 (UTC).
    pub last_validated: Option<i64>,
}

/// The two status scenes.
#[derive(Debug, Clone, PartialEq, Eq)]
pub struct ScenesConfig {
    pub success: SceneConfig,
    pub failure: SceneConfig,
}

/// The settings of the application.
#[derive(Debug, Clone, Copy, PartialEq, Eq)]
pub struct Settings {
    pub timeout_seconds: u64,
    pub retry_attempts: usize,
    pub retry_delay_seconds: u64,
    pub verbose_logging: bool,
    pub quiet_mode: bool,
    pub auto_refresh_scenes: bool,
    pub validate_scenes_on_startup: bool,
}

/// The settings that tune performance.
#[derive(Debug, Clone, Copy, PartialEq, Eq)]
pub struct AdvancedSettings {
    pub connection_pool_size: usize,
    pub cache_duration_minutes: u64,
    pub scene_validation_interval_hours: u64,
}

/// The whole configuration.
#[derive(Debug, Clone, PartialEq, Eq)]
pub struct Config {
    pub version: ConfigVersion,
    pub bridge: BridgeConfig,
    pub scenes: ScenesConfig,
    pub settings: Settings,
    pub advanced: AdvancedSettings,
}

/// The default time limit of a request, in seconds.
pub fn default_timeout() -> (seconds: u64)
    ensures
        seconds == 10,
{
    10
}

/// The default number of attempts of a request.
pub fn default_retry_attempts() -> (attempts: usize)
    ensures
        attempts == 3,
{
    3
}

/// The default pause between two attempts, in seconds.
pub fn default_retry_delay() -> (seconds: u64)
    ensures
        seconds == 1,
{
    1
}

/// Whether missing scenes are created again by default.
pub fn default_auto_refresh() -> (yes: bool)
    ensures
        yes,
{
    true
}

/// The default size of the connection pool.
pub fn default_pool_size() -> (size: usize)
    ensures
        size == 5,
{
    5
}

/// The default life time of the capabilities cache, in minutes.
pub fn default_cache_duration() -> (minutes: u64)
    ensures
        minutes == 30,
{
    30
}

/// The default interval between validations of a scene, in hours.
pub fn default_validation_interval() -> (hours: u64)
    ensures
        hours == 24,
{
    24
}

/// The default settings: a time limit of 10 seconds, 3 attempts with a
/// pause of 1 second, and scenes that are created again when missing.
pub open spec fn default_settings() -> Settings {
    Settings {
        timeout_seconds: 10,
        retry_attempts: 3,
        retry_delay_seconds: 1,
        verbose_logging: false,
        quiet_mode: false,
        auto_refresh_scenes: true,
        validate_scenes_on_startup: false,
    }
}

/// The default advanced settings: a pool of 5 connections, a cache life
/// time of 30 minutes, and a validation every 24 hours.
pub open spec fn default_advanced_settings() -> AdvancedSettings {
    AdvancedSettings { connection_pool_size: 5, cache_duration_minutes: 30, scene_validation_interval_hours: 24 }
}

impl Default for Settings {
    fn default() -> (settings: Self)
        ensures
            settings == default_settings(),
    {
        Settings {
            timeout_seconds: default_timeout(),
            retry_attempts: default_retry_attempts(),
            retry_delay_seconds: default_retry_delay(),
            verbose_logging: false,
            quiet_mode: false,
            auto_refresh_scenes: default_auto_refresh(),
            validate_scenes_on_startup: false,
        }
    }
}

impl Default for AdvancedSettings {
    fn default() -> (settings: Self)
        ensures
            settings == default_advanced_settings(),
    {
        AdvancedSettings {
            connection_pool_size: default_pool_size(),
            cache_duration_minutes: default_cache_duration(),
            scene_validation_interval_hours: default_validation_interval(),
        }
    }
}

/// Whether something that happened at `since` is, at `now`, more than
/// `limit_ms` milliseconds old.
pub open spec fn older_than(since: i64, now: i64, limit_ms: int) -> bool {
    now - since > limit_ms
}

impl Config {
    /// The configured scene of the kind `scene_type`: `success` or
    /// `failure`.
    pub open spec fn scene_of(&self, scene_type: Seq<char>) -> Option<SceneConfig> {
        if scene_type == "success"@ {
            Some(self.scenes.success)
        } else if scene_type == "failure"@ {
            Some(self.scenes.failure)
        } else {
            None
        }
    }

    /// A configuration of the latest version with default settings, whose
    /// bridge counts as verified now.
    pub fn new(bridge_ip: String, application_key: String, success_scene: SceneConfig, failure_scene: SceneConfig) -> (config:
        Self)
        ensures
            config.version == ConfigVersion::V1_2,
            config.bridge.ip == bridge_ip,
            config.bridge.application_key == application_key,
            config.bridge.capabilities_cache is None,
            0 <= config.bridge.last_verified,
            config.scenes.success == success_scene,
            config.scenes.failure == failure_scene,
            config.settings == default_settings(),
            config.advanced == default_advanced_settings(),
    {
        Config {
            version: ConfigVersion::default(),
            bridge: BridgeConfig {
                ip: bridge_ip,
                application_key,
                last_verified: current_time_millis(),
                capabilities_cache: None,
            },
            scenes: ScenesConfig { success: success_scene, failure: failure_scene },
            settings: Settings::default(),
            advanced: AdvancedSettings::default(),
        }
    }

    /// A scene configuration that has not been validated yet.
    pub fn create_scene_config(id: String, name: String, auto_created: bool) -> (scene: SceneConfig)
        ensures
            scene == (SceneConfig { id, name, auto_created, last_validated: None }),
    {
        SceneConfig { id, name, auto_created, last_validated: None }
    }

    /// The configured scene of the kind `scene_type`.
    pub fn get_scene(&self, scene_type: &str) -> (scene: Option<&SceneConfig>)
        ensures
            match scene {
                Some(found) => self.scene_of(scene_type@) == Some(*found),
                None => self.scene_of(scene_type@) is None,
            },
    {
        if same_text(scene_type, "success") {
            Some(&self.scenes.success)
        } else if same_text(scene_type, "failure") {
            Some(&self.scenes.failure)
        } else {
            None
        }
    }

    /// The configured scene of the kind `scene_type`, for changing it.
    pub fn get_scene_mut(&mut self, scene_type: &str) -> (scene: Option<&mut SceneConfig>)
        ensures
            match scene {
                Some(found) => old(self).scene_of(scene_type@) == Some(*found) && *final(self) == (
                if scene_type@ == "success"@ {
                    Config { scenes: ScenesConfig { success: *final(found), ..old(self).scenes }, ..*old(self) }
                } else {
                    Config { scenes: ScenesConfig { failure: *final(found), ..old(self).scenes }, ..*old(self) }
                }),
                None => old(self).scene_of(scene_type@) is None && *final(self) == *old(self),
            },
    {
        if same_text(scene_type, "success") {
            Some(&mut self.scenes.success)
        } else if same_text(scene_type, "failure") {
            Some(&mut self.scenes.failure)
        } else {
            None
        }
    }

    /// Records that the bridge was verified at `now`.
    pub fn update_last_verified_at(&mut self, now: i64)
        ensures
            *final(self) == (Config { bridge: BridgeConfig { last_verified: now, ..old(self).bridge }, ..*old(self) }),
    {
        self.bridge.last_verified = now;
    }

    /// Records that the bridge was verified now.
    pub fn update_last_verified(&mut self)
        ensures
            0 <= final(self).bridge.last_verified,
            *final(self) == (Config {
                bridge: BridgeConfig { last_verified: final(self).bridge.last_verified, ..old(self).bridge },
                ..*old(self)
            }),
    {
        let now = current_time_millis();
        self.update_last_verified_at(now);
    }

    /// Stores the capabilities that were read at `now`.
    pub fn update_capabilities_cache_at(&mut self, max_scenes: usize, lights_count: usize, now: i64)
        ensures
            *final(self) == (Config {
                bridge: BridgeConfig {
                    capabilities_cache: Some(CapabilitiesCache { max_scenes, lights_count, cached_at: now }),
                    ..old(self).bridge
                },
                ..*old(self)
            }),
    {
        self.bridge.capabilities_cache = Some(CapabilitiesCache { max_scenes, lights_count, cached_at: now });
    }

    /// Stores the capabilities that were read now.
    pub fn update_capabilities_cache(&mut self, max_scenes: usize, lights_count: usize)
        ensures
            final(self).bridge.capabilities_cache matches Some(cache) && cache.max_scenes == max_scenes
                && cache.lights_count == lights_count && 0 <= cache.cached_at,
            *final(self) == (Config {
                bridge: BridgeConfig {
                    capabilities_cache: final(self).bridge.capabilities_cache,
                    ..old(self).bridge
                },
                ..*old(self)
            }),
    {
        let now = current_time_millis();
        self.update_capabilities_cache_at(max_scenes, lights_count, now);
    }

    /// Whether, at `now`, the verification of the bridge is older than the
    /// validation interval.
    pub fn is_bridge_verification_stale_at(&self, now: i64) -> (stale: bool)
        ensures
            stale == older_than(
                self.bridge.last_verified,
                now,
                self.advanced.scene_validation_interval_hours * 3_600_000,
            ),
    {
        exceeds(self.bridge.last_verified, now, self.advanced.scene_validation_interval_hours, 3_600_000)
    }

    /// Whether, at `now`, the capabilities cache is missing or older than
    /// its life time.
    pub fn is_capabilities_cache_stale_at(&self, now: i64) -> (stale: bool)
        ensures
            stale == self.cache_stale_at(now),
    {
        match self.bridge.capabilities_cache {
            Some(cache) => exceeds(cache.cached_at, now, self.advanced.cache_duration_minutes, 60_000),
            None => true,
        }
    }

    /// Whether, at `now`, the validation of the scene of the kind
    /// `scene_type` is missing or older than the validation interval. A
    /// kind that does not exist counts as stale.
    pub fn is_scene_validation_stale_at(&self, scene_type: &str, now: i64) -> (stale: bool)
        ensures
            stale == self.scene_stale_at(scene_type@, now),
    {
        match self.get_scene(scene_type) {
            Some(scene) => match scene.last_validated {
                Some(validated) => exceeds(validated, now, self.advanced.scene_validation_interval_hours, 3_600_000),
                None => true,
            },
            None => true,
        }
    }

    /// Whether the verification of the bridge is stale by the wall clock.
    pub fn is_bridge_verification_stale(&self) -> (stale: bool)
        ensures
            exists|now: i64|
                0 <= now && stale == #[trigger] older_than(
                    self.bridge.last_verified,
                    now,
                    self.advanced.scene_validation_interval_hours * 3_600_000,
                ),
    {
        self.is_bridge_verification_stale_at(current_time_millis())
    }

    /// Whether the capabilities cache is stale by the wall clock.
    pub fn is_capabilities_cache_stale(&self) -> (stale: bool)
        ensures
            exists|now: i64| 0 <= now && stale == #[trigger] self.cache_stale_at(now),
    {
        self.is_capabilities_cache_stale_at(current_time_millis())
    }

    /// Checks the configuration, given whether the address of its bridge
    /// is well-formed.
    pub fn validate(&self, ip_is_well_formed: bool) -> (result: Result<()>)
        ensures
            validation::reports(result, validation::config_defect(*self, ip_is_well_formed)),
    {
        validation::validate_config(self, ip_is_well_formed)
    }

    /// Brings a configuration of an older version one version forward:
    /// from 1.0 to 1.1, retry settings of 0 get their defaults; from 1.1 to
    /// 1.2, the advanced settings get their defaults. The latest version
    /// is left as it is.
    pub fn migrate(&mut self) -> (result: Result<()>)
        ensures
            result is Ok,
            *final(self) == old(self).migrated(),
    {
        match self.version {
            ConfigVersion::V1_0 => {
                if self.settings.retry_attempts == 0 {
                    self.settings.retry_attempts = default_retry_attempts();
                }
                if self.settings.retry_delay_seconds == 0 {
                    self.settings.retry_delay_seconds = default_retry_delay();
                }
                self.version = ConfigVersion::V1_1;
            },
            ConfigVersion::V1_1 => {
                self.advanced = AdvancedSettings::default();
                self.version = ConfigVersion::V1_2;
            },
            ConfigVersion::V1_2 => {},
        }
        Ok(())
    }

    /// The configuration after one step of migration.
    pub open spec fn migrated(self) -> Config {
        match self.version {
            ConfigVersion::V1_0 => Config {
                version: ConfigVersion::V1_1,
                settings: Settings {
                    retry_attempts: if self.settings.retry_attempts == 0 {
                        3
                    } else {
                        self.settings.retry_attempts
                    },
                    retry_delay_seconds: if self.settings.retry_delay_seconds == 0 {
                        1
                    } else {
                        self.settings.retry_delay_seconds
                    },
                    ..self.settings
                },
                ..self
            },
            ConfigVersion::V1_1 => Config {
                version: ConfigVersion::V1_2,
                advanced: AdvancedSettings {
                    connection_pool_size: 5,
                    cache_duration_minutes: 30,
                    scene_validation_interval_hours: 24,
                },
                ..self
            },
            ConfigVersion::V1_2 => self,
        }
    }
}

/// Tells whether `now - since` exceeds `amount * unit_ms` milliseconds.
fn exceeds(since: i64, now: i64, amount: u64, unit_ms: u64) -> (yes: bool)
    requires
        unit_ms <= 3_600_000,
    ensures
        yes == older_than(since, now, amount * unit_ms),
{
    let age: i128 = now as i128 - since as i128;
    assert(amount * unit_ms <= 0xffff_ffff_ffff_ffff * 3_600_000) by (nonlinear_arith)
        requires
            amount <= 0xffff_ffff_ffff_ffff,
            unit_ms <= 3_600_000,
    ;
    let limit: i128 = amount as i128 * unit_ms as i128;
    age > limit
}

/// The values of the environment variables that override a configuration,
/// as far as they are set.
#[derive(Debug, Clone, PartialEq, Eq)]
pub struct EnvOverrides {
    /// `HUESTATUS_BRIDGE_IP`
    pub bridge_ip: Option<String>,
    /// `HUESTATUS_TIMEOUT`
    pub timeout: Option<String>,
    /// `HUESTATUS_VERBOSE`
    pub verbose: Option<String>,
    /// `HUESTATUS_QUIET`
    pub quiet: Option<String>,
}

/// The truth value of an override; text that is none counts as `false`.
pub open spec fn flag_of(text: Seq<char>) -> bool {
    parsed_bool(text) == Some(true)
}

impl Config {
    /// The configuration after the scene of the kind `scene_type` was
    /// validated at `now`. A kind that does not exist changes nothing.
    pub open spec fn validated_at(self, scene_type: Seq<char>, now: i64) -> Config {
        if scene_type == "success"@ {
            Config {
                scenes: ScenesConfig {
                    success: SceneConfig { last_validated: Some(now), ..self.scenes.success },
                    ..self.scenes
                },
                ..self
            }
        } else if scene_type == "failure"@ {
            Config {
                scenes: ScenesConfig {
                    failure: SceneConfig { last_validated: Some(now), ..self.scenes.failure },
                    ..self.scenes
                },
                ..self
            }
        } else {
            self
        }
    }

    /// Whether, at `now`, the capabilities cache is missing or older than
    /// its life time.
    pub open spec fn cache_stale_at(&self, now: i64) -> bool {
        match self.bridge.capabilities_cache {
            Some(cache) => older_than(cache.cached_at, now, self.advanced.cache_duration_minutes * 60_000),
            None => true,
        }
    }

    /// Whether, at `now`, the validation of the scene of the kind
    /// `scene_type` is missing or older than the validation interval.
    pub open spec fn scene_stale_at(&self, scene_type: Seq<char>, now: i64) -> bool {
        match self.scene_of(scene_type) {
            Some(scene) => match scene.last_validated {
                Some(validated) => older_than(
                    validated,
                    now,
                    self.advanced.scene_validation_interval_hours * 3_600_000,
                ),
                None => true,
            },
            None => true,
        }
    }

    /// Records that the scene of the kind `scene_type` was validated at
    /// `now`. A kind that does not exist changes nothing.
    pub fn update_scene_validation_at(&mut self, scene_type: &str, now: i64)
        ensures
            *final(self) == old(self).validated_at(scene_type@, now),
    {
        if same_text(scene_type, "success") {
            self.scenes.success.last_validated = Some(now);
        } else if same_text(scene_type, "failure") {
            self.scenes.failure.last_validated = Some(now);
        }
    }

    /// Records that the scene of the kind `scene_type` was validated now.
    pub fn update_scene_validation(&mut self, scene_type: &str)
        ensures
            exists|now: i64| 0 <= now && *final(self) == #[trigger] old(self).validated_at(scene_type@, now),
    {
        let now = current_time_millis();
        self.update_scene_validation_at(scene_type, now);
    }

    /// Whether the validation of the scene of the kind `scene_type` is
    /// stale by the wall clock.
    pub fn is_scene_validation_stale(&self, scene_type: &str) -> (stale: bool)
        ensures
            exists|now: i64| 0 <= now && stale == #[trigger] self.scene_stale_at(scene_type@, now),
    {
        self.is_scene_validation_stale_at(scene_type, current_time_millis())
    }

    /// Applies the overrides of the environment: the address of the bridge,
    /// the time limit, and the verbose and quiet flags. A time limit that
    /// is no number is an error, and nothing after it is applied; a flag
    /// that is no truth value counts as `false`.
    pub fn apply_env_overrides(&mut self, overrides: &EnvOverrides) -> (result: Result<()>)
        ensures
            final(self).version == old(self).version,
            final(self).scenes == old(self).scenes,
            final(self).advanced == old(self).advanced,
            final(self).bridge.application_key == old(self).bridge.application_key,
            final(self).bridge.last_verified == old(self).bridge.last_verified,
            final(self).bridge.capabilities_cache == old(self).bridge.capabilities_cache,
            final(self).bridge.ip == (match overrides.bridge_ip {
                Some(ip) => ip,
                None => old(self).bridge.ip,
            }),
            final(self).settings.retry_attempts == old(self).settings.retry_attempts,
            final(self).settings.retry_delay_seconds == old(self).settings.retry_delay_seconds,
            final(self).settings.auto_refresh_scenes == old(self).settings.auto_refresh_scenes,
            final(self).settings.validate_scenes_on_startup == old(self).settings.validate_scenes_on_startup,
            match result {
                Ok(()) => final(self).settings.timeout_seconds == (match overrides.timeout {
                    Some(text) => parsed_u64(text@)->0,
                    None => old(self).settings.timeout_seconds,
                }) && (overrides.timeout matches Some(text) ==> parsed_u64(text@) is Some)
                    && final(self).settings.verbose_logging == (match overrides.verbose {
                    Some(text) => flag_of(text@),
                    None => old(self).settings.verbose_logging,
                }) && final(self).settings.quiet_mode == (match overrides.quiet {
                    Some(text) => flag_of(text@),
                    None => old(self).settings.quiet_mode,
                }),
                Err(error) => overrides.timeout is Some && parsed_u64(overrides.timeout->0@) is None && error@ == (
                ErrorView::EnvironmentVariableError { var_name: "HUESTATUS_TIMEOUT"@ }) && final(self).settings
                    == old(self).settings,
            },
    {
        if let Some(ip) = &overrides.bridge_ip {
            self.bridge.ip = ip.clone();
        }
        if let Some(text) = &overrides.timeout {
            match parse_u64(text.as_str()) {
                Some(timeout) => {
                    self.settings.timeout_seconds = timeout;
                },
                None => {
                    return Err(
                        HueStatusError::EnvironmentVariableError { var_name: String::from_str("HUESTATUS_TIMEOUT") },
                    );
                },
            }
        }
        if let Some(text) = &overrides.verbose {
            self.settings.verbose_logging = match parse_bool(text.as_str()) {
                Some(flag) => flag,
                None => false,
            };
        }
        if let Some(text) = &overrides.quiet {
            self.settings.quiet_mode = match parse_bool(text.as_str()) {
                Some(flag) => flag,
                None => false,
            };
        }
        Ok(())
    }

    /// The time limit in effect: that of the environment where it is set
    /// to a number, and that of the settings otherwise.
    pub fn effective_timeout(&self, env_timeout: Option<&str>) -> (seconds: u64)
        ensures
            seconds == match env_timeout {
                Some(text) => match parsed_u64(text@) {
                    Some(n) => n,
                    None => self.settings.timeout_seconds,
                },
                None => self.settings.timeout_seconds,
            },
    {
        match env_timeout {
            Some(text) => match parse_u64(text) {
                Some(n) => n,
                None => self.settings.timeout_seconds,
            },
            None => self.settings.timeout_seconds,
        }
    }

    /// The verbose mode in effect: that of the environment where it is set
    /// to a truth value, and that of the settings otherwise.
    pub fn effective_verbose(&self, env_verbose: Option<&str>) -> (verbose: bool)
        ensures
            verbose == match env_verbose {
                Some(text) => match parsed_bool(text@) {
                    Some(flag) => flag,
                    None => self.settings.verbose_logging,
                },
                None => self.settings.verbose_logging,
            },
    {
        match env_verbose {
            Some(text) => match parse_bool(text) {
                Some(flag) => flag,
                None => self.settings.verbose_logging,
            },
            None => self.settings.verbose_logging,
        }
    }

    /// The quiet mode in effect: that of the environment where it is set
    /// to a truth value, and that of the settings otherwise.
    pub fn effective_quiet(&self, env_quiet: Option<&str>) -> (quiet: bool)
        ensures
            quiet == match env_quiet {
                Some(text) => match parsed_bool(text@) {
                    Some(flag) => flag,
                    None => self.settings.quiet_mode,
                },
                None => self.settings.quiet_mode,
            },
    {
        match env_quiet {
            Some(text) => match parse_bool(text) {
                Some(flag) => flag,
                None => self.settings.quiet_mode,
            },
            None => self.settings.quiet_mode,
        }
    }
}

/// The longest path that is accepted, in bytes.
pub const MAX_PATH_LENGTH: usize = 4096;

/// A path that is too long, shortened for a message: its first 50 bytes
/// and its last 47 bytes, with three dots between them. Where a cut would
/// fall inside a character, that character is left out.
pub open spec fn shortened(path: Seq<char>) -> Seq<char> {
    byte_prefix(path, 50) + "..."@ + byte_suffix(path, encode_utf8(path).len() - 47)
}

/// What is wrong with the length of a path: it must not be longer than
/// 4096 bytes.
pub open spec fn path_defect(path: Seq<char>) -> Option<ErrorView> {
    if encode_utf8(path).len() > MAX_PATH_LENGTH {
        Some(ErrorView::PathTooLong { path: shortened(path) })
    } else {
        None
    }
}

/// Checks the length of a path.
pub fn validate_path_length(path: &str) -> (result: Result<()>)
    ensures
        match result {
            Ok(()) => path_defect(path@) is None,
            Err(error) => path_defect(path@) == Some(error@),
        },
{
    let length = path.as_bytes().len();
    if length > MAX_PATH_LENGTH {
        let head = prefix_of(path, 50);
        let tail = suffix_of(path, length - 47);
        Err(HueStatusError::PathTooLong { path: concat3(head, "...", tail) })
    } else {
        Ok(())
    }
}

/// Passes a path on if it was found and is not too long.
pub fn safe_path_to_string(path_result: Result<String>) -> (result: Result<String>)
    ensures
        match path_result {
            Ok(path) => match result {
                Ok(passed) => passed == path && path_defect(path@) is None,
                Err(error) => path_defect(path@) == Some(error@),
            },
            Err(error) => result == Err::<String, HueStatusError>(error),
        },
{
    match path_result {
        Ok(path) => match validate_path_length(path.as_str()) {
            Ok(()) => Ok(path),
            Err(error) => Err(error),
        },
        Err(error) => Err(error),
    }
}

/// The path as text, or a stand-in: `huestatus-config-fallback` for a path
/// that is too long, and `unknown` for a path that could not be had for
/// another reason.
pub fn safe_path_to_string_fallback(path_result: Result<String>) -> (text: String)
    ensures
        match path_result {
            Ok(path) => if path_defect(path@) is None {
                text == path
            } else {
                text@ == "huestatus-config-fallback"@
            },
            Err(error) => if error is PathTooLong {
                text@ == "huestatus-config-fallback"@
            } else {
                text@ == "unknown"@
            },
        },
{
    match path_result {
        Ok(path) => match validate_path_length(path.as_str()) {
            Ok(()) => path,
            Err(_) => String::from_str("huestatus-config-fallback"),
        },
        Err(HueStatusError::PathTooLong { path }) => String::from_str("huestatus-config-fallback"),
        Err(_) => String::from_str("unknown"),
    }
}

} // verus!
