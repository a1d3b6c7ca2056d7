//! The rules that a configuration must meet.

use crate::config::{older_than, Config, SceneConfig};
use crate::clock::current_time_millis;
use crate::error::{ErrorView, HueStatusError, Result};
use crate::text::{concat2, contains_char, starts_with};
use vstd::prelude::*;
use vstd::string::*;
use vstd::utf8::*;

verus! {

/// What `char::is_alphanumeric` of the standard library returns for `c`.
pub uninterp spec fn is_alphanumeric_char(c: char) -> bool;

/// Calls `char::is_alphanumeric`, which tells whether a character is
/// alphabetic or numeric by its Unicode properties. The contract names the
/// result and claims nothing more.
#[verifier::external_body]
fn is_alphanumeric(c: char) -> (yes: bool)
    ensures
        yes == is_alphanumeric_char(c),
{
    c.is_alphanumeric()
}

/// The length of a text in bytes.
pub fn byte_length(text: &str) -> (n: usize)
    ensures
        n == encode_utf8(text@).len(),
{
    text.as_bytes().len()
}

/// The error that tells that a configuration is invalid for `reason`.
pub open spec fn invalid(reason: Seq<char>) -> Option<ErrorView> {
    Some(ErrorView::InvalidConfig { reason })
}

/// Whether `result` passes where `defect` is nothing, and fails with
/// `defect` otherwise.
pub open spec fn reports(result: Result<()>, defect: Option<ErrorView>) -> bool {
    match result {
        Ok(()) => defect is None,
        Err(error) => defect == Some(error@),
    }
}

fn refuse(reason: &str) -> (result: Result<()>)
    ensures
        reports(result, invalid(reason@)),
{
    Err(HueStatusError::InvalidConfig { reason: String::from_str(reason) })
}

/// Whether a character may not occur in a scene name: a line feed, a
/// carriage return or a tab.
pub open spec fn has_control_character(name: Seq<char>) -> bool {
    name.contains('\n') || name.contains('\r') || name.contains('\t')
}

/// What is wrong with a scene name, if anything. It must not be empty, not
/// be longer than 32 bytes, hold no line feed, carriage return or tab, and
/// not begin with `hue_` or `Hue_`.
pub open spec fn scene_name_defect(name: Seq<char>) -> Option<ErrorView> {
    if name.len() == 0 {
        invalid("Scene name cannot be empty"@)
    } else if encode_utf8(name).len() > 32 {
        invalid("Scene name is too long (max 32 characters)"@)
    } else if has_control_character(name) {
        invalid("Scene name contains invalid characters"@)
    } else if "hue_"@.is_prefix_of(name) || "Hue_"@.is_prefix_of(name) {
        invalid("Scene name cannot start with 'hue_' or 'Hue_' (reserved)"@)
    } else {
        None
    }
}

/// Whether a character may occur in an application key.
pub open spec fn is_key_character(c: char) -> bool {
    is_alphanumeric_char(c) || c == '-'
}

/// Whether every character of `key` may occur in an application key.
pub open spec fn is_key_text(key: Seq<char>) -> bool {
    forall|i: int| 0 <= i < key.len() ==> is_key_character(#[trigger] key[i])
}

/// What is wrong with an application key, given whether all of its
/// characters are allowed. It must not be empty, and be from 10 to 100
/// bytes long.
pub open spec fn application_key_defect(key: Seq<char>, allowed: bool) -> Option<ErrorView> {
    if key.len() == 0 {
        invalid("Application key cannot be empty"@)
    } else if encode_utf8(key).len() < 10 {
        invalid("Application key is too short (min 10 characters)"@)
    } else if encode_utf8(key).len() > 100 {
        invalid("Application key is too long (max 100 characters)"@)
    } else if !allowed {
        invalid("Application key contains invalid characters"@)
    } else {
        None
    }
}

/// What is wrong with a time limit in seconds: it must be from 1 to 300.
pub open spec fn timeout_defect(timeout: u64) -> Option<ErrorView> {
    if timeout == 0 {
        invalid("Timeout cannot be zero"@)
    } else if timeout > 300 {
        invalid("Timeout is too large (max 300 seconds)"@)
    } else {
        None
    }
}

/// What is wrong with a number of attempts: it must be from 1 to 10.
pub open spec fn retry_attempts_defect(attempts: usize) -> Option<ErrorView> {
    if attempts == 0 {
        invalid("Retry attempts cannot be zero"@)
    } else if attempts > 10 {
        invalid("Too many retry attempts (max 10)"@)
    } else {
        None
    }
}

/// What is wrong with a pause in seconds: it must be from 1 to 60.
pub open spec fn retry_delay_defect(delay: u64) -> Option<ErrorView> {
    if delay == 0 {
        invalid("Retry delay cannot be zero"@)
    } else if delay > 60 {
        invalid("Retry delay is too large (max 60 seconds)"@)
    } else {
        None
    }
}

/// Checks an address, given whether it is well-formed. Whether it is
/// well-formed is for the caller to find out.
pub fn validate_ip_address(ip: &str, is_well_formed: bool) -> (result: Result<()>)
    ensures
        reports(
            result,
            if is_well_formed {
                None
            } else {
                invalid("Invalid IP address: "@ + ip@)
            },
        ),
{
    if is_well_formed {
        Ok(())
    } else {
        Err(HueStatusError::InvalidConfig { reason: concat2("Invalid IP address: ", ip) })
    }
}

/// Checks a scene name.
pub fn validate_scene_name(name: &str) -> (result: Result<()>)
    ensures
        reports(result, scene_name_defect(name@)),
{
    if name.is_empty() {
        return refuse("Scene name cannot be empty");
    }
    if byte_length(name) > 32 {
        return refuse("Scene name is too long (max 32 characters)");
    }
    if contains_char(name, '\n') || contains_char(name, '\r') || contains_char(name, '\t') {
        return refuse("Scene name contains invalid characters");
    }
    if starts_with(name, "hue_") || starts_with(name, "Hue_") {
        return refuse("Scene name cannot start with 'hue_' or 'Hue_' (reserved)");
    }
    Ok(())
}

/// Tells whether every character of `key` may occur in an application
/// key: it is alphanumeric or a hyphen.
pub fn has_key_characters(key: &str) -> (yes: bool)
    ensures
        yes == is_key_text(key@),
{
    let n = key.unicode_len();
    let mut i: usize = 0;
    while i < n
        invariant
            i <= n,
            n == key@.len(),
            forall|j: int| 0 <= j < i ==> is_key_character(#[trigger] key@[j]),
        decreases n - i,
    {
        let c = key.get_char(i);
        if !(is_alphanumeric(c) || c == '-') {
            assert(!is_key_character(key@[i as int]));
            return false;
        }
        i += 1;
    }
    true
}

/// Checks an application key.
pub fn validate_application_key(key: &str) -> (result: Result<()>)
    ensures
        reports(result, application_key_defect(key@, is_key_text(key@))),
{
    if key.is_empty() {
        return refuse("Application key cannot be empty");
    }
    if byte_length(key) < 10 {
        return refuse("Application key is too short (min 10 characters)");
    }
    if byte_length(key) > 100 {
        return refuse("Application key is too long (max 100 characters)");
    }
    if !has_key_characters(key) {
        return refuse("Application key contains invalid characters");
    }
    Ok(())
}

/// Checks a time limit in seconds.
pub fn validate_timeout(timeout: u64) -> (result: Result<()>)
    ensures
        reports(result, timeout_defect(timeout)),
{
    if timeout == 0 {
        return refuse("Timeout cannot be zero");
    }
    if timeout > 300 {
        return refuse("Timeout is too large (max 300 seconds)");
    }
    Ok(())
}

/// Checks a number of attempts.
pub fn validate_retry_attempts(attempts: usize) -> (result: Result<()>)
    ensures
        reports(result, retry_attempts_defect(attempts)),
{
    if attempts == 0 {
        return refuse("Retry attempts cannot be zero");
    }
    if attempts > 10 {
        return refuse("Too many retry attempts (max 10)");
    }
    Ok(())
}

/// Checks a pause in seconds.
pub fn validate_retry_delay(delay: u64) -> (result: Result<()>)
    ensures
        reports(result, retry_delay_defect(delay)),
{
    if delay == 0 {
        return refuse("Retry delay cannot be zero");
    }
    if delay > 60 {
        return refuse("Retry delay is too large (max 60 seconds)");
    }
    Ok(())
}

/// The first of two defects.
pub open spec fn first_of(a: Option<ErrorView>, b: Option<ErrorView>) -> Option<ErrorView> {
    if a is Some {
        a
    } else {
        b
    }
}

/// What is wrong with the bridge part of a configuration, given whether
/// the address is well-formed.
pub open spec fn bridge_defect(config: Config, ip_is_well_formed: bool) -> Option<ErrorView> {
    if config.bridge.ip@.len() == 0 {
        invalid("Bridge IP address is empty"@)
    } else if !ip_is_well_formed {
        invalid("Invalid bridge IP address: "@ + config.bridge.ip@)
    } else if config.bridge.application_key@.len() == 0 {
        invalid("Application key is empty"@)
    } else if encode_utf8(config.bridge.application_key@).len() < 10 {
        invalid("Application key is too short"@)
    } else if config.bridge.capabilities_cache matches Some(cache) && cache.max_scenes == 0 {
        invalid("Capabilities cache has zero max_scenes"@)
    } else {
        None
    }
}

/// What is wrong with one configured scene; `scene_type` names it in the
/// message.
pub open spec fn scene_config_defect(scene: SceneConfig, scene_type: Seq<char>) -> Option<ErrorView> {
    if scene.id@.len() == 0 {
        invalid(scene_type + " scene ID is empty"@)
    } else if scene.name@.len() == 0 {
        invalid(scene_type + " scene name is empty"@)
    } else if has_control_character(scene.name@) {
        invalid(scene_type + " scene name contains invalid characters"@)
    } else if encode_utf8(scene.name@).len() > 32 {
        invalid(scene_type + " scene name is too long (max 32 characters)"@)
    } else {
        None
    }
}

/// What is wrong with the two configured scenes: with either of them, or
/// with both having the same identifier or the same name.
pub open spec fn scenes_defect(config: Config) -> Option<ErrorView> {
    first_of(
        scene_config_defect(config.scenes.success, "success"@),
        first_of(
            scene_config_defect(config.scenes.failure, "failure"@),
            if config.scenes.success.id@ == config.scenes.failure.id@ {
                invalid("Success and failure scenes have the same ID"@)
            } else if config.scenes.success.name@ == config.scenes.failure.name@ {
                invalid("Success and failure scenes have the same name"@)
            } else {
                None
            },
        ),
    )
}

/// What is wrong with the settings.
pub open spec fn settings_defect(config: Config) -> Option<ErrorView> {
    first_of(
        timeout_defect(config.settings.timeout_seconds),
        first_of(
            retry_attempts_defect(config.settings.retry_attempts),
            first_of(
                retry_delay_defect(config.settings.retry_delay_seconds),
                if config.settings.verbose_logging && config.settings.quiet_mode {
                    invalid("Cannot enable both verbose logging and quiet mode"@)
                } else {
                    None
                },
            ),
        ),
    )
}

/// What is wrong with the advanced settings.
pub open spec fn advanced_defect(config: Config) -> Option<ErrorView> {
    if config.advanced.connection_pool_size == 0 {
        invalid("Connection pool size cannot be zero"@)
    } else if config.advanced.connection_pool_size > 100 {
        invalid("Connection pool size is too large (max 100)"@)
    } else if config.advanced.cache_duration_minutes == 0 {
        invalid("Cache duration cannot be zero"@)
    } else if config.advanced.cache_duration_minutes > 1440 {
        invalid("Cache duration is too large (max 24 hours)"@)
    } else if config.advanced.scene_validation_interval_hours == 0 {
        invalid("Scene validation interval cannot be zero"@)
    } else if config.advanced.scene_validation_interval_hours > 8760 {
        invalid("Scene validation interval is too large (max 365 days)"@)
    } else {
        None
    }
}

/// What is wrong with a configuration: the first defect of its bridge, its
/// scenes, its settings and its advanced settings, in this order.
pub open spec fn config_defect(config: Config, ip_is_well_formed: bool) -> Option<ErrorView> {
    first_of(
        bridge_defect(config, ip_is_well_formed),
        first_of(scenes_defect(config), first_of(settings_defect(config), advanced_defect(config))),
    )
}

/// Checks the bridge part of a configuration.
pub fn validate_bridge_config(config: &Config, ip_is_well_formed: bool) -> (result: Result<()>)
    ensures
        reports(result, bridge_defect(*config, ip_is_well_formed)),
{
    if config.bridge.ip.as_str().is_empty() {
        return refuse("Bridge IP address is empty");
    }
    if !ip_is_well_formed {
        return Err(
            HueStatusError::InvalidConfig { reason: concat2("Invalid bridge IP address: ", config.bridge.ip.as_str()) },
        );
    }
    if config.bridge.application_key.as_str().is_empty() {
        return refuse("Application key is empty");
    }
    if byte_length(config.bridge.application_key.as_str()) < 10 {
        return refuse("Application key is too short");
    }
    if let Some(cache) = config.bridge.capabilities_cache {
        if cache.max_scenes == 0 {
            return refuse("Capabilities cache has zero max_scenes");
        }
    }
    Ok(())
}

/// Checks one configured scene; `scene_type` names it in the message.
pub fn validate_scene_config(scene: &SceneConfig, scene_type: &str) -> (result: Result<()>)
    ensures
        reports(result, scene_config_defect(*scene, scene_type@)),
{
    if scene.id.as_str().is_empty() {
        return Err(HueStatusError::InvalidConfig { reason: concat2(scene_type, " scene ID is empty") });
    }
    let name = scene.name.as_str();
    if name.is_empty() {
        return Err(HueStatusError::InvalidConfig { reason: concat2(scene_type, " scene name is empty") });
    }
    if contains_char(name, '\n') || contains_char(name, '\r') || contains_char(name, '\t') {
        return Err(
            HueStatusError::InvalidConfig { reason: concat2(scene_type, " scene name contains invalid characters") },
        );
    }
    if byte_length(name) > 32 {
        return Err(
            HueStatusError::InvalidConfig {
                reason: concat2(scene_type, " scene name is too long (max 32 characters)"),
            },
        );
    }
    Ok(())
}

/// Checks the two configured scenes.
pub fn validate_scenes_config(config: &Config) -> (result: Result<()>)
    ensures
        reports(result, scenes_defect(*config)),
{
    validate_scene_config(&config.scenes.success, "success")?;
    validate_scene_config(&config.scenes.failure, "failure")?;
    if config.scenes.success.id == config.scenes.failure.id {
        return refuse("Success and failure scenes have the same ID");
    }
    if config.scenes.success.name == config.scenes.failure.name {
        return refuse("Success and failure scenes have the same name");
    }
    Ok(())
}

/// Checks the settings.
pub fn validate_settings(config: &Config) -> (result: Result<()>)
    ensures
        reports(result, settings_defect(*config)),
{
    validate_timeout(config.settings.timeout_seconds)?;
    validate_retry_attempts(config.settings.retry_attempts)?;
    validate_retry_delay(config.settings.retry_delay_seconds)?;
    if config.settings.verbose_logging && config.settings.quiet_mode {
        return refuse("Cannot enable both verbose logging and quiet mode");
    }
    Ok(())
}

/// Checks the advanced settings.
pub fn validate_advanced_settings(config: &Config) -> (result: Result<()>)
    ensures
        reports(result, advanced_defect(*config)),
{
    if config.advanced.connection_pool_size == 0 {
        return refuse("Connection pool size cannot be zero");
    }
    if config.advanced.connection_pool_size > 100 {
        return refuse("Connection pool size is too large (max 100)");
    }
    if config.advanced.cache_duration_minutes == 0 {
        return refuse("Cache duration cannot be zero");
    }
    if config.advanced.cache_duration_minutes > 1440 {
        return refuse("Cache duration is too large (max 24 hours)");
    }
    if config.advanced.scene_validation_interval_hours == 0 {
        return refuse("Scene validation interval cannot be zero");
    }
    if config.advanced.scene_validation_interval_hours > 8760 {
        return refuse("Scene validation interval is too large (max 365 days)");
    }
    Ok(())
}

/// Checks a whole configuration, given whether the address of its bridge
/// is well-formed.
pub fn validate_config(config: &Config, ip_is_well_formed: bool) -> (result: Result<()>)
    ensures
        reports(result, config_defect(*config, ip_is_well_formed)),
{
    if !config.version.is_compatible() {
        return Err(HueStatusError::ConfigVersionIncompatible);
    }
    validate_bridge_config(config, ip_is_well_formed)?;
    validate_scenes_config(config)?;
    validate_settings(config)?;
    validate_advanced_settings(config)?;
    Ok(())
}

/// Whether the settings of a configuration are within the usual ranges.
pub open spec fn reasonable(config: Config) -> bool {
    &&& 5 <= config.settings.timeout_seconds <= 30
    &&& 1 <= config.settings.retry_attempts <= 5
    &&& 1 <= config.settings.retry_delay_seconds <= 10
    &&& 1 <= config.advanced.connection_pool_size <= 20
    &&& 10 <= config.advanced.cache_duration_minutes <= 240
    &&& 1 <= config.advanced.scene_validation_interval_hours <= 168
}

/// Tells whether the settings of a configuration are within the usual
/// ranges.
pub fn has_reasonable_defaults(config: &Config) -> (yes: bool)
    ensures
        yes == reasonable(*config),
{
    5 <= config.settings.timeout_seconds && config.settings.timeout_seconds <= 30 && 1
        <= config.settings.retry_attempts && config.settings.retry_attempts <= 5 && 1
        <= config.settings.retry_delay_seconds && config.settings.retry_delay_seconds <= 10 && 1
        <= config.advanced.connection_pool_size && config.advanced.connection_pool_size <= 20 && 10
        <= config.advanced.cache_duration_minutes && config.advanced.cache_duration_minutes <= 240 && 1
        <= config.advanced.scene_validation_interval_hours && config.advanced.scene_validation_interval_hours
        <= 168
}

/// The health of a configuration at `now` on a scale from 0 to 100: 100,
/// less 10 for each of the time limit, the attempts and the pause that is
/// outside its best range, less 15 without a capabilities cache, less 20
/// for a stale verification, less 10 for a stale cache, less 25 for
/// conflicting output settings.
pub open spec fn health(config: Config, now: i64) -> int {
    100 - (if config.settings.timeout_seconds < 5 || config.settings.timeout_seconds > 30 {
        10int
    } else {
        0int
    }) - (if config.settings.retry_attempts < 2 || config.settings.retry_attempts > 5 {
        10int
    } else {
        0int
    }) - (if config.settings.retry_delay_seconds < 1 || config.settings.retry_delay_seconds > 5 {
        10int
    } else {
        0int
    }) - (if config.bridge.capabilities_cache is None {
        15int
    } else {
        0int
    }) - (if older_than(
        config.bridge.last_verified,
        now,
        config.advanced.scene_validation_interval_hours * 3_600_000,
    ) {
        20int
    } else {
        0int
    }) - (if config.cache_stale_at(now) {
        10int
    } else {
        0int
    }) - (if config.settings.verbose_logging && config.settings.quiet_mode {
        25int
    } else {
        0int
    })
}

/// The health of a configuration at `now`.
pub fn get_config_health_score_at(config: &Config, now: i64) -> (score: u8)
    ensures
        score == health(*config, now),
        0 <= score <= 100,
{
    let mut score: u8 = 100;
    if config.settings.timeout_seconds < 5 || config.settings.timeout_seconds > 30 {
        score = score - 10;
    }
    if config.settings.retry_attempts < 2 || config.settings.retry_attempts > 5 {
        score = score - 10;
    }
    if config.settings.retry_delay_seconds < 1 || config.settings.retry_delay_seconds > 5 {
        score = score - 10;
    }
    if config.bridge.capabilities_cache.is_none() {
        score = score - 15;
    }
    if config.is_bridge_verification_stale_at(now) {
        score = score - 20;
    }
    if config.is_capabilities_cache_stale_at(now) {
        score = score - 10;
    }
    if config.settings.verbose_logging && config.settings.quiet_mode {
        score = score - 25;
    }
    score
}

/// The health of a configuration by the wall clock.
pub fn get_config_health_score(config: &Config) -> (score: u8)
    ensures
        exists|now: i64| 0 <= now && score == #[trigger] health(*config, now),
{
    get_config_health_score_at(config, current_time_millis())
}

} // verus!
