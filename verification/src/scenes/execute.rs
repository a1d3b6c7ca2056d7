//! The scene execution engine: validation before execution, a backup of
//! the lights' states, execution under a strategy with bounded retries, and
//! rollback to a fallback scene.
//!
//! The engine decides; its caller talks to the bridge. After each step the
//! engine tells its caller what to do next, and the caller reports back
//! what happened.

use crate::bridge::client::{is_ready, BridgeClient};
use crate::bridge::{Light, LightState, Scene};
use crate::config::Config;
use crate::error::{fails_with, ErrorView, HueStatusError, Result};
use crate::scenes::{LightStatus, SceneExecutionResult, SceneValidationResult};
use crate::string_map::StringMap;
use crate::seqs::{first_where, lemma_first_where_found, lemma_first_where_is_first, lemma_first_where_none};
use crate::text::{concat2, concat3, decimal, join, joined, u64_to_string, views};
use vstd::pervasive::unreached;
use vstd::prelude::*;
use vstd::string::*;

verus! {

/// The executor of scenes on one bridge.
#[derive(Debug, Clone, PartialEq, Eq)]
pub struct SceneExecutor {
    pub client: BridgeClient,
    pub verbose: bool,
    pub retry_attempts: usize,
    /// The pause between two attempts, in milliseconds.
    pub retry_delay_ms: u64,
}

/// The options of one execution.
#[derive(Debug, Clone, Copy, PartialEq, Eq)]
pub struct ExecutionOptions {
    pub validate_before_execution: bool,
    pub timeout_ms: u64,
    pub retry_on_failure: bool,
    pub max_retries: usize,
    pub retry_delay_ms: u64,
    pub measure_performance: bool,
    pub restore_previous_state: bool,
}

/// How a scene is applied.
#[derive(Debug, Clone, Copy, PartialEq, Eq)]
pub enum ExecutionStrategy {
    /// Apply the scene at once.
    Immediate,
    /// Pause for this many milliseconds, then apply the scene.
    Delayed(u64),
    /// Apply the scene with a time limit that is extended by the duration
    /// of the fade.
    Fade { duration_ms: u64 },
    /// Validate the scene again immediately before applying it.
    ValidatedExecution,
    /// Apply the scene; the backup is taken by the pipeline.
    BackupAndRestore,
}

/// The state of a light before a scene was applied.
#[derive(Debug, PartialEq, Eq)]
pub struct LightStateBackup {
    pub light_id: String,
    pub light_name: String,
    pub previous_state: LightState,
    /// When the state was captured, in milliseconds of the caller's clock.
    pub timestamp: u64,
}

impl Clone for LightStateBackup {
    fn clone(&self) -> (copy: Self)
        ensures
            copy == *self,
    {
        LightStateBackup {
            light_id: self.light_id.clone(),
            light_name: self.light_name.clone(),
            previous_state: self.previous_state.clone(),
            timestamp: self.timestamp,
        }
    }
}

/// What one execution is about.
#[derive(Debug, Clone, PartialEq, Eq)]
pub struct ExecutionContext {
    pub scene_id: String,
    pub scene_name: String,
    pub strategy: ExecutionStrategy,
    pub options: ExecutionOptions,
    pub backup_states: Vec<LightStateBackup>,
}

/// What one execution cost.
#[derive(Debug, Clone, Copy, PartialEq, Eq)]
pub struct ExecutionMetrics {
    pub total_time_ms: u64,
    pub validation_time_ms: u64,
    pub execution_time_ms: u64,
    pub backup_time_ms: u64,
    pub lights_affected: usize,
    pub retry_count: usize,
    pub success: bool,
}

/// The default options: no validation, a time limit of 5 seconds, up to 3
/// attempts with a pause of 1 second, no backup.
pub open spec fn default_options() -> ExecutionOptions {
    ExecutionOptions {
        validate_before_execution: false,
        timeout_ms: 5000,
        retry_on_failure: true,
        max_retries: 3,
        retry_delay_ms: 1000,
        measure_performance: true,
        restore_previous_state: false,
    }
}

impl Default for ExecutionOptions {
    fn default() -> (options: Self)
        ensures
            options == default_options(),
    {
        ExecutionOptions {
            validate_before_execution: false,
            timeout_ms: 5000,
            retry_on_failure: true,
            max_retries: 3,
            retry_delay_ms: 1000,
            measure_performance: true,
            restore_previous_state: false,
        }
    }
}

impl ExecutionOptions {
    /// The number of attempts that the options allow: the configured
    /// number, at least one, where retries are wanted, and one otherwise.
    pub open spec fn attempts(&self) -> usize {
        if self.retry_on_failure && self.max_retries > 1 {
            self.max_retries
        } else {
            1
        }
    }

    /// Options for a fast execution: one attempt within 2 seconds.
    pub fn fast() -> (options: Self)
        ensures
            options == (ExecutionOptions {
                validate_before_execution: false,
                timeout_ms: 2000,
                retry_on_failure: false,
                max_retries: 1,
                retry_delay_ms: 500,
                measure_performance: false,
                restore_previous_state: false,
            }),
    {
        ExecutionOptions {
            validate_before_execution: false,
            timeout_ms: 2000,
            retry_on_failure: false,
            max_retries: 1,
            retry_delay_ms: 500,
            measure_performance: false,
            restore_previous_state: false,
        }
    }

    /// Options for a reliable execution: validation, a backup, and up to 5
    /// attempts.
    pub fn reliable() -> (options: Self)
        ensures
            options == (ExecutionOptions {
                validate_before_execution: true,
                timeout_ms: 10000,
                retry_on_failure: true,
                max_retries: 5,
                retry_delay_ms: 2000,
                measure_performance: true,
                restore_previous_state: true,
            }),
    {
        ExecutionOptions {
            validate_before_execution: true,
            timeout_ms: 10000,
            retry_on_failure: true,
            max_retries: 5,
            retry_delay_ms: 2000,
            measure_performance: true,
            restore_previous_state: true,
        }
    }

    /// Options for testing: validation and a backup, one attempt.
    pub fn testing() -> (options: Self)
        ensures
            options == (ExecutionOptions {
                validate_before_execution: true,
                timeout_ms: 15000,
                retry_on_failure: false,
                max_retries: 1,
                retry_delay_ms: 0,
                measure_performance: true,
                restore_previous_state: true,
            }),
    {
        ExecutionOptions {
            validate_before_execution: true,
            timeout_ms: 15000,
            retry_on_failure: false,
            max_retries: 1,
            retry_delay_ms: 0,
            measure_performance: true,
            restore_previous_state: true,
        }
    }

    /// The number of attempts that the options allow.
    pub fn max_attempts(&self) -> (attempts: usize)
        ensures
            attempts == self.attempts(),
            attempts >= 1,
    {
        if self.retry_on_failure && self.max_retries > 1 {
            self.max_retries
        } else {
            1
        }
    }
}

impl ExecutionMetrics {
    /// The score of the execution on a scale from 0 to 100: 0 where it
    /// failed; otherwise 100, less 30 for an execution above 2 seconds (15
    /// above 1 second, 5 above half a second), less 10 for every retry,
    /// less 10 for a validation above 1 second; never below 0.
    pub open spec fn score(&self) -> int {
        if !self.success {
            0
        } else {
            let after_time = 100 - (if self.execution_time_ms > 2000 {
                30int
            } else if self.execution_time_ms > 1000 {
                15int
            } else if self.execution_time_ms > 500 {
                5int
            } else {
                0int
            });
            let penalty = self.retry_count * 10;
            let after_retries = if after_time >= penalty {
                after_time - penalty
            } else {
                0
            };
            if self.validation_time_ms > 1000 {
                if after_retries >= 10 {
                    after_retries - 10
                } else {
                    0
                }
            } else {
                after_retries
            }
        }
    }

    /// The one-line summary of the metrics.
    pub open spec fn summary_text(&self) -> Seq<char> {
        "Execution: "@ + decimal(self.execution_time_ms as nat) + "ms, Total: "@ + decimal(
            self.total_time_ms as nat,
        ) + "ms, Retries: "@ + decimal(self.retry_count as nat) + ", Score: "@ + decimal(self.score() as nat)
    }

    /// The score of the execution on a scale from 0 to 100.
    pub fn performance_score(&self) -> (score: u8)
        ensures
            score == self.score(),
            score <= 100,
    {
        if !self.success {
            return 0;
        }
        let mut score: u8 = 100;
        if self.execution_time_ms > 2000 {
            score = score - 30;
        } else if self.execution_time_ms > 1000 {
            score = score - 15;
        } else if self.execution_time_ms > 500 {
            score = score - 5;
        }
        score = if self.retry_count >= 10 {
            0
        } else {
            let penalty: u8 = (self.retry_count * 10) as u8;
            if score >= penalty {
                score - penalty
            } else {
                0
            }
        };
        if self.validation_time_ms > 1000 {
            score = if score >= 10 {
                score - 10
            } else {
                0
            };
        }
        score
    }

    /// Whether the execution succeeded in less than 500 ms without a retry.
    pub fn is_fast_execution(&self) -> (yes: bool)
        ensures
            yes == (self.success && self.execution_time_ms < 500 && self.retry_count == 0),
    {
        self.success && self.execution_time_ms < 500 && self.retry_count == 0
    }

    /// Renders the one-line summary of the metrics.
    pub fn summary(&self) -> (text: String)
        ensures
            text@ == self.summary_text(),
    {
        let mut text = concat3("Execution: ", u64_to_string(self.execution_time_ms).as_str(), "ms, Total: ");
        text.append(u64_to_string(self.total_time_ms).as_str());
        text.append("ms, Retries: ");
        text.append(u64_to_string(self.retry_count as u64).as_str());
        text.append(", Score: ");
        text.append(u64_to_string(self.performance_score() as u64).as_str());
        text
    }
}

/// The names of the lights among the first `n` of a scene that are not
/// ready: the name of a light that is listed but unreachable, and the
/// identifier of a light that is not listed.
pub open spec fn unready_names(scene: Scene, lights: StringMap<Light>, n: int) -> Seq<Seq<char>>
    decreases n,
{
    if n <= 0 {
        Seq::empty()
    } else {
        let rest = unready_names(scene, lights, n - 1);
        match lights.value_of(scene.lights@[n - 1]@) {
            Some(light) => if light.reachable() {
                rest
            } else {
                rest.push(light.name@)
            },
            None => rest.push(scene.lights@[n - 1]@),
        }
    }
}

/// What keeps a scene from being executed, given the lights that the
/// bridge lists: the scene is locked or has no light, or some of its lights
/// are unreachable or not listed.
pub open spec fn execution_defect(scene: Scene, lights: StringMap<Light>) -> Option<ErrorView> {
    if !scene.suitable_for_status() {
        Some(ErrorView::ValidationFailed { reason: "Scene '"@ + scene.name@ + "' is not suitable for execution"@ })
    } else if unready_names(scene, lights, scene.lights@.len() as int).len() > 0 {
        Some(
            ErrorView::ValidationFailed {
                reason: "Unreachable lights: "@ + joined(
                    unready_names(scene, lights, scene.lights@.len() as int),
                    ", "@,
                ),
            },
        )
    } else {
        None
    }
}

/// A scene without a defect is unlocked and has a light, and each of its
/// lights is listed and reachable; and conversely.
pub proof fn lemma_execution_defect(scene: Scene, lights: StringMap<Light>)
    ensures
        execution_defect(scene, lights) is None <==> (!scene.locked && scene.lights@.len() > 0 && forall|i: int|
            0 <= i < scene.lights@.len() ==> is_ready(#[trigger] lights.value_of(scene.lights@[i]@))),
{
    lemma_unready_names(scene, lights, scene.lights@.len() as int);
}

/// No light among the first `n` is named exactly when all of them are
/// ready.
pub proof fn lemma_unready_names(scene: Scene, lights: StringMap<Light>, n: int)
    requires
        0 <= n <= scene.lights@.len(),
    ensures
        unready_names(scene, lights, n).len() == 0 <==> (forall|i: int|
            0 <= i < n ==> is_ready(#[trigger] lights.value_of(scene.lights@[i]@))),
    decreases n,
{
    if n > 0 {
        lemma_unready_names(scene, lights, n - 1);
        if unready_names(scene, lights, n).len() == 0 {
            assert(is_ready(lights.value_of(scene.lights@[n - 1]@)));
        } else if unready_names(scene, lights, n - 1).len() == 0 {
            assert(!is_ready(lights.value_of(scene.lights@[n - 1]@)));
        }
    }
}

/// Whether the light at an index of a scene is missing from the listing.
pub open spec fn unlisted_at(scene: Scene, lights: StringMap<Light>) -> spec_fn(int) -> bool {
    |i: int| lights.value_of(scene.lights@[i]@) is None
}

/// Whether `backup` is the backup, taken at `now`, of the light `light_id`
/// as it was found in the listing.
pub open spec fn is_backup_of(backup: LightStateBackup, light_id: String, found: Option<Light>, now: u64) -> bool {
    found matches Some(light) && backup == (LightStateBackup {
        light_id,
        light_name: light.name,
        previous_state: light.state,
        timestamp: now,
    })
}

/// Whether `backups` is the backup of a scene, taken at `now` from the
/// lights that the bridge lists: one entry for every light of the scene, in
/// the order of the scene, each with the state that the listing shows.
pub open spec fn is_backup(backups: Seq<LightStateBackup>, scene: Scene, lights: StringMap<Light>, now: u64) -> bool {
    &&& backups.len() == scene.lights@.len()
    &&& forall|i: int|
        0 <= i < backups.len() ==> is_backup_of(
            #[trigger] backups[i],
            scene.lights@[i],
            lights.value_of(scene.lights@[i]@),
            now,
        )
}

/// What keeps a scene from being backed up: a light of the scene that the
/// bridge does not list. The first such light, in the order of the scene,
/// is named.
pub open spec fn backup_defect(scene: Scene, lights: StringMap<Light>) -> Option<ErrorView> {
    match first_where(unlisted_at(scene, lights), scene.lights@.len() as int) {
        Some(i) => Some(
            ErrorView::ValidationFailed {
                reason: "Light '"@ + scene.lights@[i]@ + "' in scene '"@ + scene.name@ + "' not found"@,
            },
        ),
        None => None,
    }
}

/// Whether `result` is what backing up a scene yields: the complete backup
/// where every light of the scene is listed, and the defect otherwise. A
/// backup that lacks a light of the scene is never returned.
pub open spec fn is_backup_outcome(
    result: Result<Vec<LightStateBackup>>,
    scene: Scene,
    lights: StringMap<Light>,
    now: u64,
) -> bool {
    match result {
        Ok(backups) => backup_defect(scene, lights) is None && is_backup(backups@, scene, lights, now),
        Err(error) => backup_defect(scene, lights) == Some(error@),
    }
}

/// The backup of a scene whose every light is listed.
pub open spec fn backup_of(scene: Scene, lights: StringMap<Light>, now: u64) -> Seq<LightStateBackup> {
    Seq::new(
        scene.lights@.len(),
        |i: int|
            LightStateBackup {
                light_id: scene.lights@[i],
                light_name: lights.value_of(scene.lights@[i]@)->0.name,
                previous_state: lights.value_of(scene.lights@[i]@)->0.state,
                timestamp: now,
            },
    )
}

/// Where a scene has no backup defect, every light of the scene is listed,
/// and its backup holds, at the place of each light, the state that the
/// listing shows for that light; there is no other backup of the scene.
pub proof fn lemma_backup_is_listing(scene: Scene, lights: StringMap<Light>, now: u64)
    requires
        backup_defect(scene, lights) is None,
    ensures
        forall|i: int| 0 <= i < scene.lights@.len() ==> (#[trigger] lights.value_of(scene.lights@[i]@)) is Some,
        is_backup(backup_of(scene, lights, now), scene, lights, now),
        forall|backups: Seq<LightStateBackup>| #[trigger]
            is_backup(backups, scene, lights, now) ==> backups == backup_of(scene, lights, now),
{
    let unlisted = unlisted_at(scene, lights);
    lemma_first_where_is_first(unlisted, scene.lights@.len() as int);
    assert forall|i: int| 0 <= i < scene.lights@.len() implies (#[trigger] lights.value_of(
        scene.lights@[i]@,
    )) is Some by {
        assert(!unlisted(i));
    }
    assert forall|backups: Seq<LightStateBackup>| #[trigger]
        is_backup(backups, scene, lights, now) implies backups == backup_of(scene, lights, now) by {
        assert(backups =~= backup_of(scene, lights, now));
    }
}

/// How an attempt to apply a scene ended.
#[derive(Debug, PartialEq, Eq)]
pub enum ApplyOutcome {
    /// The time limit of the execution passed.
    TimedOut,
    /// The request to the bridge finished with this result.
    Replied(Result<()>),
}

/// What an attempt to apply the scene `scene_id` means: nothing where it
/// succeeded, a timeout that names the scene, or a failed execution whose
/// reason is the description of the request's error.
pub open spec fn application(scene_id: Seq<char>, outcome: ApplyOutcome) -> Option<ErrorView> {
    match outcome {
        ApplyOutcome::TimedOut => Some(ErrorView::TimeoutError { operation: "Scene execution for "@ + scene_id }),
        ApplyOutcome::Replied(Ok(())) => None,
        ApplyOutcome::Replied(Err(error)) => Some(
            ErrorView::SceneExecutionFailed { reason: error@.description() },
        ),
    }
}

/// Whether `result` passes where `defect` is nothing, and fails with
/// `defect` otherwise.
pub open spec fn reports(result: Result<()>, defect: Option<ErrorView>) -> bool {
    match result {
        Ok(()) => defect is None,
        Err(error) => defect == Some(error@),
    }
}

/// The issues that a dry run finds with a scene and its first `n` lights:
/// a scene that is locked or has no light, a light that is not reachable,
/// and a light that the bridge does not list.
pub open spec fn dry_run_issues(scene: Scene, lights: StringMap<Light>, n: int) -> Seq<Seq<char>>
    decreases n,
{
    if n <= 0 {
        if scene.suitable_for_status() {
            Seq::empty()
        } else {
            seq!["Scene is not suitable for status indication"@]
        }
    } else {
        let rest = dry_run_issues(scene, lights, n - 1);
        match lights.value_of(scene.lights@[n - 1]@) {
            Some(light) => if light.reachable() {
                rest
            } else {
                rest.push("Light '"@ + light.name@ + "' is not reachable"@)
            },
            None => rest.push("Light '"@ + scene.lights@[n - 1]@ + "' not found"@),
        }
    }
}

/// The status of each of the first `n` lights of a scene that the bridge
/// lists.
pub open spec fn dry_run_statuses(scene: Scene, lights: StringMap<Light>, n: int) -> Seq<LightStatus>
    decreases n,
{
    if n <= 0 {
        Seq::empty()
    } else {
        let rest = dry_run_statuses(scene, lights, n - 1);
        match lights.value_of(scene.lights@[n - 1]@) {
            Some(light) => rest.push(
                LightStatus {
                    light_id: scene.lights@[n - 1],
                    light_name: light.name,
                    is_reachable: light.reachable(),
                    supports_color: light.has_color(),
                    current_state: Some(light.state),
                },
            ),
            None => rest,
        }
    }
}

impl SceneExecutor {
    /// An executor with up to 3 attempts and a pause of 1 second.
    pub fn new(client: BridgeClient) -> (executor: Self)
        ensures
            executor == (SceneExecutor { client, verbose: false, retry_attempts: 3, retry_delay_ms: 1000 }),
    {
        SceneExecutor { client, verbose: false, retry_attempts: 3, retry_delay_ms: 1000 }
    }

    /// The executor with the given settings.
    pub fn with_config(self, retry_attempts: usize, retry_delay_ms: u64, verbose: bool) -> (executor: Self)
        ensures
            executor == (SceneExecutor { retry_attempts, retry_delay_ms, verbose, ..self }),
    {
        SceneExecutor { client: self.client, verbose, retry_attempts, retry_delay_ms }
    }

    /// The context for the execution of the status scene of the kind
    /// `scene_type` with `options`: the scene is applied at once.
    pub fn status_scene_context(scene_type: &str, config: &Config, options: &ExecutionOptions) -> (context: Result<
        ExecutionContext,
    >)
        ensures
            match config.scene_of(scene_type@) {
                Some(scene) => context matches Ok(c) && c.scene_id == scene.id && c.scene_name == scene.name
                    && c.strategy == ExecutionStrategy::Immediate && c.options == *options
                    && c.backup_states@.len() == 0,
                None => fails_with(context, ErrorView::SceneNotFound { scene_name: scene_type@ }),
            },
    {
        match config.get_scene(scene_type) {
            Some(scene) => Ok(
                ExecutionContext {
                    scene_id: scene.id.clone(),
                    scene_name: scene.name.clone(),
                    strategy: ExecutionStrategy::Immediate,
                    options: *options,
                    backup_states: Vec::new(),
                },
            ),
            None => Err(HueStatusError::SceneNotFound { scene_name: String::from_str(scene_type) }),
        }
    }

    /// Checks that `scene` can be executed, given the lights that the
    /// bridge lists: the scene is unlocked and has a light, and each of its
    /// lights is listed and reachable. All lights that are not are named.
    pub fn validate_scene_execution(&self, scene: &Scene, lights: &StringMap<Light>) -> (result: Result<()>)
        ensures
            reports(result, execution_defect(*scene, *lights)),
    {
        if !scene.is_suitable_for_status() {
            return Err(
                HueStatusError::ValidationFailed {
                    reason: concat3("Scene '", scene.name.as_str(), "' is not suitable for execution"),
                },
            );
        }
        let mut names: Vec<String> = Vec::new();
        let mut i: usize = 0;
        while i < scene.lights.len()
            invariant
                i <= scene.lights.len(),
                views(names@) == unready_names(*scene, *lights, i as int),
            decreases scene.lights.len() - i,
        {
            let ghost before = views(names@);
            match lights.get(scene.lights[i].as_str()) {
                Some(light) => {
                    if !light.is_reachable() {
                        names.push(light.name.clone());
                        assert(views(names@) =~= before.push(light.name@));
                    }
                },
                None => {
                    names.push(scene.lights[i].clone());
                    assert(views(names@) =~= before.push(scene.lights@[i as int]@));
                },
            }
            i += 1;
        }
        if names.len() > 0 {
            let list = join(&names, ", ");
            return Err(HueStatusError::ValidationFailed { reason: concat2("Unreachable lights: ", list.as_str()) });
        }
        Ok(())
    }

    /// Captures, at `now`, the state of every light of `scene`, in the
    /// order of the scene, from the lights that the bridge lists. A light
    /// that the bridge does not list cannot be backed up: the backup fails
    /// and names that light.
    pub fn backup_current_states(&self, scene: &Scene, lights: &StringMap<Light>, now: u64) -> (result: Result<
        Vec<LightStateBackup>,
    >)
        ensures
            is_backup_outcome(result, *scene, *lights, now),
    {
        let ghost unlisted = unlisted_at(*scene, *lights);
        let mut backups: Vec<LightStateBackup> = Vec::new();
        let mut i: usize = 0;
        while i < scene.lights.len()
            invariant
                i <= scene.lights.len(),
                unlisted == unlisted_at(*scene, *lights),
                backups@.len() == i,
                forall|j: int| 0 <= j < i ==> !#[trigger] unlisted(j),
                forall|j: int|
                    0 <= j < i ==> is_backup_of(
                        #[trigger] backups@[j],
                        scene.lights@[j],
                        lights.value_of(scene.lights@[j]@),
                        now,
                    ),
            decreases scene.lights.len() - i,
        {
            match lights.get(scene.lights[i].as_str()) {
                Some(light) => {
                    assert(!unlisted(i as int));
                    backups.push(
                        LightStateBackup {
                            light_id: scene.lights[i].clone(),
                            light_name: light.name.clone(),
                            previous_state: light.state.clone(),
                            timestamp: now,
                        },
                    );
                },
                None => {
                    proof {
                        assert(unlisted(i as int));
                        lemma_first_where_found(unlisted, scene.lights@.len() as int, i as int);
                    }
                    let mut reason = concat3("Light '", scene.lights[i].as_str(), "' in scene '");
                    reason.append(scene.name.as_str());
                    reason.append("' not found");
                    return Err(HueStatusError::ValidationFailed { reason });
                },
            }
            i += 1;
        }
        proof {
            lemma_first_where_none(unlisted, scene.lights@.len() as int);
        }
        Ok(backups)
    }

    /// Restores the states of a backup. The states are not written back to
    /// the lights: this is a known limitation, and the call succeeds
    /// without effect.
    pub fn restore_states(&self, backups: &Vec<LightStateBackup>) -> (result: Result<()>)
        ensures
            result is Ok,
    {
        Ok(())
    }

    /// Interprets how an attempt to apply the scene `scene_id` ended.
    pub fn execute_immediate(&self, scene_id: &str, outcome: ApplyOutcome) -> (result: Result<()>)
        ensures
            reports(result, application(scene_id@, outcome)),
    {
        match outcome {
            ApplyOutcome::TimedOut => Err(
                HueStatusError::TimeoutError { operation: concat2("Scene execution for ", scene_id) },
            ),
            ApplyOutcome::Replied(Ok(())) => Ok(()),
            ApplyOutcome::Replied(Err(error)) => Err(
                HueStatusError::SceneExecutionFailed { reason: error.to_string() },
            ),
        }
    }

    /// The report of a dry run of a scene that could not be fetched.
    pub fn test_execution_without_scene(&self, scene_id: &str) -> (report: SceneValidationResult)
        ensures
            report.scene_id@ == scene_id@,
            report.scene_name@ == "Unknown"@,
            !report.is_valid,
            views(report.issues@) == seq!["Scene not found"@],
            report.lights_status@.len() == 0,
    {
        let mut issues: Vec<String> = Vec::new();
        issues.push(String::from_str("Scene not found"));
        assert(views(issues@) =~= seq!["Scene not found"@]);
        SceneValidationResult {
            scene_id: String::from_str(scene_id),
            scene_name: String::from_str("Unknown"),
            is_valid: false,
            issues,
            lights_status: Vec::new(),
        }
    }

    /// The report of a dry run of `scene`, given the lights that the bridge
    /// lists: the checks of a validation, and the status of each light,
    /// without applying the scene. Problems of single lights are reported
    /// as issues; the run itself does not fail.
    pub fn test_execution(&self, scene_id: &str, scene: &Scene, lights: &StringMap<Light>) -> (report:
        SceneValidationResult)
        ensures
            report.scene_id@ == scene_id@,
            report.scene_name == scene.name,
            views(report.issues@) == dry_run_issues(*scene, *lights, scene.lights@.len() as int),
            report.lights_status@ == dry_run_statuses(*scene, *lights, scene.lights@.len() as int),
            report.is_valid == (report.issues@.len() == 0),
    {
        let mut issues: Vec<String> = Vec::new();
        let mut lights_status: Vec<LightStatus> = Vec::new();
        if !scene.is_suitable_for_status() {
            issues.push(String::from_str("Scene is not suitable for status indication"));
        }
        assert(views(issues@) =~= dry_run_issues(*scene, *lights, 0));
        let mut i: usize = 0;
        while i < scene.lights.len()
            invariant
                i <= scene.lights.len(),
                views(issues@) == dry_run_issues(*scene, *lights, i as int),
                lights_status@ == dry_run_statuses(*scene, *lights, i as int),
            decreases scene.lights.len() - i,
        {
            let ghost before = views(issues@);
            let light_id = &scene.lights[i];
            match lights.get(light_id.as_str()) {
                Some(light) => {
                    lights_status.push(
                        LightStatus {
                            light_id: light_id.clone(),
                            light_name: light.name.clone(),
                            is_reachable: light.is_reachable(),
                            supports_color: light.supports_color(),
                            current_state: Some(light.state.clone()),
                        },
                    );
                    if !light.is_reachable() {
                        issues.push(concat3("Light '", light.name.as_str(), "' is not reachable"));
                        assert(views(issues@) =~= before.push("Light '"@ + light.name@ + "' is not reachable"@));
                    }
                },
                None => {
                    issues.push(concat3("Light '", light_id.as_str(), "' not found"));
                    assert(views(issues@) =~= before.push("Light '"@ + light_id@ + "' not found"@));
                },
            }
            i += 1;
        }
        let is_valid = issues.len() == 0;
        SceneValidationResult {
            scene_id: String::from_str(scene_id),
            scene_name: scene.name.clone(),
            is_valid,
            issues,
            lights_status,
        }
    }

    /// The executions that were recorded. None are: the history is not
    /// kept.
    pub fn get_execution_history(&self) -> (history: Vec<SceneExecutionResult>)
        ensures
            history@.len() == 0,
    {
        Vec::new()
    }
}

/// What the bridge shows when asked for a scene and for its lights.
#[derive(Debug, Clone, PartialEq, Eq)]
pub struct BridgeSnapshot {
    pub scene: Scene,
    pub lights: StringMap<Light>,
}

/// Where an execution stands.
#[derive(Debug, Clone, Copy, PartialEq, Eq)]
pub enum Phase {
    /// The scene and its lights are being fetched for validation.
    Validating,
    /// The scene and its lights are being fetched for the backup.
    BackingUp,
    /// The delay of a delayed execution is being waited for.
    Delaying,
    /// The scene and its lights are being fetched for the validation that
    /// precedes an attempt.
    Revalidating,
    /// The scene is being applied.
    Applying,
    /// The pause before the next attempt is being waited for.
    Pausing,
    /// The execution has ended.
    Finished,
}

/// What the caller of an execution does next.
#[derive(Debug, PartialEq, Eq)]
pub enum ExecutionStep {
    /// Fetch the scene, then the lights, and report them or the first
    /// error.
    Fetch,
    /// Pause for this many milliseconds and report that it is over.
    Sleep(u64),
    /// Apply the scene within this many milliseconds and report how that
    /// ended.
    Apply { timeout_ms: u64 },
    /// Stop: the execution is finished with this result.
    Done(Result<SceneExecutionResult>),
}

/// What the caller of an execution reports.
#[derive(Debug, PartialEq, Eq)]
pub enum ExecutionEvent {
    /// The outcome of a fetch.
    Fetched(Result<BridgeSnapshot>),
    /// A pause is over.
    Slept,
    /// The outcome of applying the scene.
    Applied(ApplyOutcome),
}

/// An execution in progress.
#[derive(Debug, Clone, PartialEq, Eq)]
pub struct Execution {
    pub context: ExecutionContext,
    pub phase: Phase,
    /// The number of attempts that have ended.
    pub attempts_made: usize,
    pub metrics: ExecutionMetrics,
    /// The caller's clock when the execution began, in milliseconds.
    pub started_at: u64,
    /// The caller's clock when the current phase began.
    pub phase_started_at: u64,
    /// The caller's clock when the current attempt began.
    pub attempt_started_at: u64,
}

/// The mathematical value of an [`Execution`].
pub ghost struct ExecutionModel {
    pub scene_id: String,
    pub scene_name: String,
    pub strategy: ExecutionStrategy,
    pub options: ExecutionOptions,
    pub backups: Seq<LightStateBackup>,
    pub phase: Phase,
    pub attempts_made: usize,
    pub metrics: ExecutionMetrics,
    pub started_at: u64,
    pub phase_started_at: u64,
    pub attempt_started_at: u64,
}

/// The mathematical value of an [`ExecutionStep`].
pub ghost enum StepModel {
    Fetch,
    Sleep(u64),
    Apply { timeout_ms: u64 },
    Succeeded(SceneExecutionResult),
    Failed(ErrorView),
}

impl View for Execution {
    type V = ExecutionModel;

    open spec fn view(&self) -> ExecutionModel {
        ExecutionModel {
            scene_id: self.context.scene_id,
            scene_name: self.context.scene_name,
            strategy: self.context.strategy,
            options: self.context.options,
            backups: self.context.backup_states@,
            phase: self.phase,
            attempts_made: self.attempts_made,
            metrics: self.metrics,
            started_at: self.started_at,
            phase_started_at: self.phase_started_at,
            attempt_started_at: self.attempt_started_at,
        }
    }
}

impl View for ExecutionStep {
    type V = StepModel;

    open spec fn view(&self) -> StepModel {
        match self {
            ExecutionStep::Fetch => StepModel::Fetch,
            ExecutionStep::Sleep(ms) => StepModel::Sleep(*ms),
            ExecutionStep::Apply { timeout_ms } => StepModel::Apply { timeout_ms: *timeout_ms },
            ExecutionStep::Done(Ok(result)) => StepModel::Succeeded(*result),
            ExecutionStep::Done(Err(error)) => StepModel::Failed(error@),
        }
    }
}

/// The time from `since` to `now`, in milliseconds; none where the clock
/// went backwards.
pub open spec fn since(since: u64, now: u64) -> u64 {
    if now >= since {
        (now - since) as u64
    } else {
        0
    }
}

/// One more than `n`, as far as the machine can count.
pub open spec fn next_count(n: usize) -> usize {
    if n < usize::MAX {
        (n + 1) as usize
    } else {
        n
    }
}

/// The time limit of a fade of `duration_ms`: five seconds more than the
/// fade, as far as the machine can count.
pub open spec fn fade_limit(duration_ms: u64) -> u64 {
    if duration_ms + 5000 <= u64::MAX {
        (duration_ms + 5000) as u64
    } else {
        u64::MAX
    }
}

impl ExecutionModel {
    /// The execution when it begins at `now`: it validates first where that
    /// is wanted, takes a backup where that is wanted, and then makes its
    /// first attempt.
    pub open spec fn begun(context: ExecutionContext, now: u64) -> (ExecutionModel, StepModel) {
        let fresh = ExecutionModel {
            scene_id: context.scene_id,
            scene_name: context.scene_name,
            strategy: context.strategy,
            options: context.options,
            backups: context.backup_states@,
            phase: Phase::Validating,
            attempts_made: 0,
            metrics: ExecutionMetrics {
                total_time_ms: 0,
                validation_time_ms: 0,
                execution_time_ms: 0,
                backup_time_ms: 0,
                lights_affected: 0,
                retry_count: 0,
                success: false,
            },
            started_at: now,
            phase_started_at: now,
            attempt_started_at: now,
        };
        if context.options.validate_before_execution {
            (fresh, StepModel::Fetch)
        } else if context.options.restore_previous_state {
            (ExecutionModel { phase: Phase::BackingUp, ..fresh }, StepModel::Fetch)
        } else {
            fresh.attempt(now)
        }
    }

    /// The start of an attempt at `now`, by the strategy: a delayed
    /// execution pauses first, a validated execution fetches first, and any
    /// other applies the scene, a fade with an extended time limit.
    pub open spec fn attempt(self, now: u64) -> (ExecutionModel, StepModel) {
        let started = ExecutionModel { attempt_started_at: now, phase_started_at: now, ..self };
        match self.strategy {
            ExecutionStrategy::Delayed(delay_ms) => (
                ExecutionModel { phase: Phase::Delaying, ..started },
                StepModel::Sleep(delay_ms),
            ),
            ExecutionStrategy::ValidatedExecution => (
                ExecutionModel { phase: Phase::Revalidating, ..started },
                StepModel::Fetch,
            ),
            ExecutionStrategy::Fade { duration_ms } => (
                ExecutionModel { phase: Phase::Applying, ..started },
                StepModel::Apply { timeout_ms: fade_limit(duration_ms) },
            ),
            _ => (
                ExecutionModel { phase: Phase::Applying, ..started },
                StepModel::Apply { timeout_ms: self.options.timeout_ms },
            ),
        }
    }

    /// The end of the execution at `now` with the failure `error`.
    pub open spec fn failed(self, error: ErrorView, now: u64) -> (ExecutionModel, StepModel) {
        (
            ExecutionModel {
                phase: Phase::Finished,
                metrics: ExecutionMetrics {
                    total_time_ms: since(self.started_at, now),
                    success: false,
                    ..self.metrics
                },
                ..self
            },
            StepModel::Failed(error),
        )
    }

    /// The end of the execution at `now` with success.
    pub open spec fn succeeded(self, now: u64) -> (ExecutionModel, StepModel) {
        (
            ExecutionModel {
                phase: Phase::Finished,
                attempts_made: next_count(self.attempts_made),
                metrics: ExecutionMetrics {
                    total_time_ms: since(self.started_at, now),
                    execution_time_ms: since(self.attempt_started_at, now),
                    success: true,
                    ..self.metrics
                },
                ..self
            },
            StepModel::Succeeded(
                SceneExecutionResult {
                    scene_id: self.scene_id,
                    scene_name: self.scene_name,
                    execution_time_ms: since(self.attempt_started_at, now),
                    success: true,
                },
            ),
        )
    }

    /// What follows an attempt that failed with `error` at `now`: a pause
    /// and another attempt where one is left, and the end of the execution
    /// with that failure otherwise.
    pub open spec fn attempt_failed(self, error: ErrorView, now: u64) -> (ExecutionModel, StepModel) {
        let made = next_count(self.attempts_made);
        if made < self.options.attempts() {
            (
                ExecutionModel {
                    phase: Phase::Pausing,
                    attempts_made: made,
                    metrics: ExecutionMetrics { retry_count: next_count(self.metrics.retry_count), ..self.metrics },
                    ..self
                },
                StepModel::Sleep(self.options.retry_delay_ms),
            )
        } else {
            ExecutionModel { attempts_made: made, ..self }.failed(error, now)
        }
    }

    /// What follows a validation that passed at `now`: the backup where one
    /// is wanted, and the first attempt otherwise.
    pub open spec fn validated(self, now: u64) -> (ExecutionModel, StepModel) {
        let timed = ExecutionModel {
            metrics: ExecutionMetrics { validation_time_ms: since(self.phase_started_at, now), ..self.metrics },
            ..self
        };
        if self.options.restore_previous_state {
            (ExecutionModel { phase: Phase::BackingUp, phase_started_at: now, ..timed }, StepModel::Fetch)
        } else {
            timed.attempt(now)
        }
    }

    /// What follows the event `event` at `now`.
    ///
    /// A validation that fails ends the execution and is never retried; so
    /// do a fetch that fails before the first attempt and a backup that
    /// cannot hold every light of the scene. An attempt that fails is
    /// retried while attempts are left; a fetch that fails immediately
    /// before an attempt counts as a failed attempt if its error is one of
    /// connectivity, and ends the execution otherwise. An event that the current
    /// phase does not wait for ends nothing and is answered with a failure.
    pub open spec fn advanced(self, event: ExecutionEvent, now: u64) -> (ExecutionModel, StepModel) {
        match (self.phase, event) {
            (Phase::Validating, ExecutionEvent::Fetched(Err(error))) => self.failed(error@, now),
            (Phase::Validating, ExecutionEvent::Fetched(Ok(shown))) => match execution_defect(
                shown.scene,
                shown.lights,
            ) {
                Some(defect) => self.failed(defect, now),
                None => self.validated(now),
            },
            (Phase::BackingUp, ExecutionEvent::Fetched(Err(error))) => self.failed(error@, now),
            (Phase::BackingUp, ExecutionEvent::Fetched(Ok(shown))) => match backup_defect(
                shown.scene,
                shown.lights,
            ) {
                Some(defect) => self.failed(defect, now),
                None => ExecutionModel {
                    backups: backup_of(shown.scene, shown.lights, now),
                    metrics: ExecutionMetrics {
                        backup_time_ms: since(self.phase_started_at, now),
                        ..self.metrics
                    },
                    ..self
                }.attempt(now),
            },
            (Phase::Delaying, ExecutionEvent::Slept) => (
                ExecutionModel { phase: Phase::Applying, ..self },
                StepModel::Apply { timeout_ms: self.options.timeout_ms },
            ),
            (Phase::Revalidating, ExecutionEvent::Fetched(Err(error))) => if error@.connectivity() {
                self.attempt_failed(error@, now)
            } else {
                self.failed(error@, now)
            },
            (Phase::Revalidating, ExecutionEvent::Fetched(Ok(shown))) => match execution_defect(
                shown.scene,
                shown.lights,
            ) {
                Some(defect) => self.failed(defect, now),
                None => (
                    ExecutionModel { phase: Phase::Applying, ..self },
                    StepModel::Apply { timeout_ms: self.options.timeout_ms },
                ),
            },
            (Phase::Applying, ExecutionEvent::Applied(outcome)) => match application(self.scene_id@, outcome) {
                None => self.succeeded(now),
                Some(error) => self.attempt_failed(error, now),
            },
            (Phase::Pausing, ExecutionEvent::Slept) => self.attempt(now),
            _ => (self, StepModel::Failed(ErrorView::SceneExecutionFailed { reason: "Unexpected event"@ })),
        }
    }
}

fn elapsed(from: u64, now: u64) -> (ms: u64)
    ensures
        ms == since(from, now),
{
    if now >= from {
        now - from
    } else {
        0
    }
}

fn counted(n: usize) -> (next: usize)
    ensures
        next == next_count(n),
{
    if n < usize::MAX {
        n + 1
    } else {
        n
    }
}

fn start_attempt(state: Execution, now: u64) -> (next: (Execution, ExecutionStep))
    ensures
        (next.0@, next.1@) == state@.attempt(now),
{
    let mut state = state;
    state.attempt_started_at = now;
    state.phase_started_at = now;
    match state.context.strategy {
        ExecutionStrategy::Delayed(delay_ms) => {
            state.phase = Phase::Delaying;
            (state, ExecutionStep::Sleep(delay_ms))
        },
        ExecutionStrategy::ValidatedExecution => {
            state.phase = Phase::Revalidating;
            (state, ExecutionStep::Fetch)
        },
        ExecutionStrategy::Fade { duration_ms } => {
            state.phase = Phase::Applying;
            let timeout_ms = if duration_ms <= u64::MAX - 5000 {
                duration_ms + 5000
            } else {
                u64::MAX
            };
            (state, ExecutionStep::Apply { timeout_ms })
        },
        _ => {
            state.phase = Phase::Applying;
            let timeout_ms = state.context.options.timeout_ms;
            (state, ExecutionStep::Apply { timeout_ms })
        },
    }
}

fn finish_failed(state: Execution, error: HueStatusError, now: u64) -> (next: (Execution, ExecutionStep))
    ensures
        (next.0@, next.1@) == state@.failed(error@, now),
{
    let mut state = state;
    state.phase = Phase::Finished;
    state.metrics.total_time_ms = elapsed(state.started_at, now);
    state.metrics.success = false;
    (state, ExecutionStep::Done(Err(error)))
}

fn finish_succeeded(state: Execution, now: u64) -> (next: (Execution, ExecutionStep))
    ensures
        (next.0@, next.1@) == state@.succeeded(now),
{
    let mut state = state;
    let execution_time_ms = elapsed(state.attempt_started_at, now);
    state.phase = Phase::Finished;
    state.attempts_made = counted(state.attempts_made);
    state.metrics.total_time_ms = elapsed(state.started_at, now);
    state.metrics.execution_time_ms = execution_time_ms;
    state.metrics.success = true;
    let result = SceneExecutionResult {
        scene_id: state.context.scene_id.clone(),
        scene_name: state.context.scene_name.clone(),
        execution_time_ms,
        success: true,
    };
    (state, ExecutionStep::Done(Ok(result)))
}

fn fail_attempt(state: Execution, error: HueStatusError, now: u64) -> (next: (Execution, ExecutionStep))
    ensures
        (next.0@, next.1@) == state@.attempt_failed(error@, now),
{
    let mut state = state;
    let made = counted(state.attempts_made);
    state.attempts_made = made;
    if made < state.context.options.max_attempts() {
        state.phase = Phase::Pausing;
        state.metrics.retry_count = counted(state.metrics.retry_count);
        let pause = state.context.options.retry_delay_ms;
        (state, ExecutionStep::Sleep(pause))
    } else {
        finish_failed(state, error, now)
    }
}

fn after_validation(state: Execution, now: u64) -> (next: (Execution, ExecutionStep))
    ensures
        (next.0@, next.1@) == state@.validated(now),
{
    let mut state = state;
    state.metrics.validation_time_ms = elapsed(state.phase_started_at, now);
    if state.context.options.restore_previous_state {
        state.phase = Phase::BackingUp;
        state.phase_started_at = now;
        (state, ExecutionStep::Fetch)
    } else {
        start_attempt(state, now)
    }
}

impl SceneExecutor {
    /// Begins the execution of `context` at `now` on the caller's clock.
    pub fn begin_execution(&self, context: ExecutionContext, now: u64) -> (next: (Execution, ExecutionStep))
        ensures
            (next.0@, next.1@) == ExecutionModel::begun(context, now),
    {
        let validate = context.options.validate_before_execution;
        let backup = context.options.restore_previous_state;
        let mut state = Execution {
            context,
            phase: Phase::Validating,
            attempts_made: 0,
            metrics: ExecutionMetrics {
                total_time_ms: 0,
                validation_time_ms: 0,
                execution_time_ms: 0,
                backup_time_ms: 0,
                lights_affected: 0,
                retry_count: 0,
                success: false,
            },
            started_at: now,
            phase_started_at: now,
            attempt_started_at: now,
        };
        if validate {
            (state, ExecutionStep::Fetch)
        } else if backup {
            state.phase = Phase::BackingUp;
            (state, ExecutionStep::Fetch)
        } else {
            start_attempt(state, now)
        }
    }

    /// Decides what follows the event `event`, reported at `now` on the
    /// caller's clock.
    pub fn advance(&self, state: Execution, event: ExecutionEvent, now: u64) -> (next: (Execution, ExecutionStep))
        ensures
            (next.0@, next.1@) == state@.advanced(event, now),
    {
        let mut state = state;
        match (state.phase, event) {
            (Phase::Validating, ExecutionEvent::Fetched(Err(error))) => finish_failed(state, error, now),
            (Phase::Validating, ExecutionEvent::Fetched(Ok(shown))) => {
                match self.validate_scene_execution(&shown.scene, &shown.lights) {
                    Err(defect) => finish_failed(state, defect, now),
                    Ok(()) => after_validation(state, now),
                }
            },
            (Phase::BackingUp, ExecutionEvent::Fetched(Err(error))) => finish_failed(state, error, now),
            (Phase::BackingUp, ExecutionEvent::Fetched(Ok(shown))) => {
                match self.backup_current_states(&shown.scene, &shown.lights, now) {
                    Err(defect) => finish_failed(state, defect, now),
                    Ok(backups) => {
                        proof {
                            lemma_backup_is_listing(shown.scene, shown.lights, now);
                        }
                        state.context.backup_states = backups;
                        state.metrics.backup_time_ms = elapsed(state.phase_started_at, now);
                        start_attempt(state, now)
                    },
                }
            },
            (Phase::Delaying, ExecutionEvent::Slept) => {
                state.phase = Phase::Applying;
                let timeout_ms = state.context.options.timeout_ms;
                (state, ExecutionStep::Apply { timeout_ms })
            },
            (Phase::Revalidating, ExecutionEvent::Fetched(Err(error))) => {
                if error.is_connectivity() {
                    fail_attempt(state, error, now)
                } else {
                    finish_failed(state, error, now)
                }
            },
            (Phase::Revalidating, ExecutionEvent::Fetched(Ok(shown))) => {
                match self.validate_scene_execution(&shown.scene, &shown.lights) {
                    Err(defect) => finish_failed(state, defect, now),
                    Ok(()) => {
                        state.phase = Phase::Applying;
                        let timeout_ms = state.context.options.timeout_ms;
                        (state, ExecutionStep::Apply { timeout_ms })
                    },
                }
            },
            (Phase::Applying, ExecutionEvent::Applied(outcome)) => {
                match self.execute_immediate(state.context.scene_id.as_str(), outcome) {
                    Ok(()) => finish_succeeded(state, now),
                    Err(error) => fail_attempt(state, error, now),
                }
            },
            (Phase::Pausing, ExecutionEvent::Slept) => start_attempt(state, now),
            _ => (
                state,
                ExecutionStep::Done(
                    Err(HueStatusError::SceneExecutionFailed { reason: String::from_str("Unexpected event") }),
                ),
            ),
        }
    }
}

/// An event, and the caller's clock when it is reported.
#[derive(Debug, PartialEq, Eq)]
pub struct TimedEvent {
    pub event: ExecutionEvent,
    /// The caller's clock, in milliseconds.
    pub at: u64,
}

/// Whether a step ends the execution.
pub open spec fn is_final(step: StepModel) -> bool {
    step is Succeeded || step is Failed
}

/// The execution after the events from number `k` on have been reported,
/// one after the other, until it ends or the events run out.
pub open spec fn ran(state: ExecutionModel, step: StepModel, events: Seq<TimedEvent>, k: int) -> (
    ExecutionModel,
    StepModel,
)
    decreases events.len() - k,
{
    if k < 0 || k >= events.len() || is_final(step) {
        (state, step)
    } else {
        let next = state.advanced(events[k].event, events[k].at);
        ran(next.0, next.1, events, k + 1)
    }
}

/// A validation that fails ends the execution with its failure, before the
/// first attempt and before any later one: it is never retried.
pub proof fn lemma_validation_failure_is_final(state: ExecutionModel, shown: BridgeSnapshot, now: u64)
    requires
        state.phase == Phase::Validating || state.phase == Phase::Revalidating,
        execution_defect(shown.scene, shown.lights) is Some,
    ensures
        state.advanced(ExecutionEvent::Fetched(Ok(shown)), now).1 == StepModel::Failed(
            execution_defect(shown.scene, shown.lights)->0,
        ),
        state.advanced(ExecutionEvent::Fetched(Ok(shown)), now).0.attempts_made == state.attempts_made,
        state.advanced(ExecutionEvent::Fetched(Ok(shown)), now).0.metrics.retry_count
            == state.metrics.retry_count,
{
}

/// The backup that an execution holds after its backup phase has one entry
/// for every light of the scene, with the state that the bridge showed for
/// that light; where a light of the scene is not listed, the execution ends
/// with the defect before any attempt.
pub proof fn lemma_backup_precedes_execution(state: ExecutionModel, shown: BridgeSnapshot, now: u64)
    requires
        state.phase == Phase::BackingUp,
    ensures
        state.advanced(ExecutionEvent::Fetched(Ok(shown)), now).0.attempts_made == state.attempts_made,
        match backup_defect(shown.scene, shown.lights) {
            Some(defect) => state.advanced(ExecutionEvent::Fetched(Ok(shown)), now).1 == StepModel::Failed(defect),
            None => is_backup(
                state.advanced(ExecutionEvent::Fetched(Ok(shown)), now).0.backups,
                shown.scene,
                shown.lights,
                now,
            ),
        },
{
    if backup_defect(shown.scene, shown.lights) is None {
        lemma_backup_is_listing(shown.scene, shown.lights, now);
    }
}

/// Whether an execution that still validates or takes its backup has made
/// no attempt yet.
pub open spec fn prepares_before_attempts(state: ExecutionModel) -> bool {
    state.phase == Phase::Validating || state.phase == Phase::BackingUp ==> state.attempts_made == 0
        && state.metrics.retry_count == 0
}

/// The validation and the backup of an execution come before its first
/// attempt: an execution begins so, and every step keeps it so.
pub proof fn lemma_preparation_precedes_attempts(
    context: ExecutionContext,
    state: ExecutionModel,
    event: ExecutionEvent,
    now: u64,
)
    ensures
        prepares_before_attempts(ExecutionModel::begun(context, now).0),
        prepares_before_attempts(state) ==> prepares_before_attempts(state.advanced(event, now).0),
{
}

/// Whether an execution has made no more attempts than its options allow,
/// and, while it has not ended, has an attempt left.
pub open spec fn within_attempts(state: ExecutionModel) -> bool {
    if state.phase == Phase::Finished {
        state.attempts_made <= state.options.attempts()
    } else {
        state.attempts_made < state.options.attempts()
    }
}

/// Every step keeps the execution within its attempts.
pub proof fn lemma_attempts_are_bounded(state: ExecutionModel, event: ExecutionEvent, now: u64)
    requires
        within_attempts(state),
    ensures
        within_attempts(state.advanced(event, now).0),
        state.advanced(event, now).0.options == state.options,
{
}

/// An execution begins within its attempts.
pub proof fn lemma_begins_within_attempts(context: ExecutionContext, now: u64)
    ensures
        within_attempts(ExecutionModel::begun(context, now).0),
{
}

impl SceneExecutor {
    /// Runs the execution of `context` against scripted events: after each
    /// step the next event of `events` is reported, until the execution
    /// ends or the events run out. Returns the execution as it then stands,
    /// and its last step.
    pub fn execute_with_context(&self, context: ExecutionContext, now: u64, events: Vec<TimedEvent>) -> (end: (
        Execution,
        ExecutionStep,
    ))
        ensures
            (end.0@, end.1@) == ran(
                ExecutionModel::begun(context, now).0,
                ExecutionModel::begun(context, now).1,
                events@,
                0,
            ),
    {
        let (state, step) = self.begin_execution(context, now);
        let mut state = state;
        let mut step = step;
        let mut remaining = events;
        let total = remaining.len();
        let mut k: usize = 0;
        loop
            invariant_except_break
                k <= events@.len() <= usize::MAX,
                remaining@ == events@.skip(k as int),
                ran(state@, step@, events@, k as int) == ran(
                    ExecutionModel::begun(context, now).0,
                    ExecutionModel::begun(context, now).1,
                    events@,
                    0,
                ),
            ensures
                (state@, step@) == ran(
                    ExecutionModel::begun(context, now).0,
                    ExecutionModel::begun(context, now).1,
                    events@,
                    0,
                ),
            decreases remaining@.len(),
        {
            if let ExecutionStep::Done(_) = step {
                break;
            }
            if remaining.len() == 0 {
                break;
            }
            let timed = remaining.remove(0);
            assert(timed == events@[k as int]);
            let (next_state, next_step) = self.advance(state, timed.event, timed.at);
            state = next_state;
            step = next_step;
            k = k + 1;
            assert(remaining@ =~= events@.skip(k as int));
        }
        (state, step)
    }
}

/// What the caller of an execution with rollback does next.
#[derive(Debug, PartialEq, Eq)]
pub enum RollbackStep {
    /// Apply the primary scene and report how that ended.
    ApplyPrimary { timeout_ms: u64 },
    /// Apply the rollback scene and report how that ended; `original` is
    /// the failure of the primary scene.
    ApplyRollback { timeout_ms: u64, original: HueStatusError },
    /// Stop: the execution is finished with this result.
    Done(Result<SceneExecutionResult>),
}

/// A finished execution with rollback.
#[derive(Debug, PartialEq, Eq)]
pub struct RollbackRun {
    /// What the caller of the execution sees.
    pub result: Result<SceneExecutionResult>,
    /// How often the rollback scene was applied.
    pub rollback_invocations: usize,
}

/// Whether `result` is the success of the scene `scene_id` after
/// `elapsed_ms` milliseconds.
pub open spec fn is_applied(result: Result<SceneExecutionResult>, scene_id: Seq<char>, elapsed_ms: u64) -> bool {
    result matches Ok(applied) && applied.scene_id@ == scene_id && applied.scene_name@ == "Unknown"@
        && applied.execution_time_ms == elapsed_ms && applied.success
}

impl SceneExecutor {
    /// The first step of an execution with rollback: the primary scene is
    /// applied.
    pub fn execute_with_rollback_begin(&self, timeout_ms: u64) -> (step: RollbackStep)
        ensures
            step == (RollbackStep::ApplyPrimary { timeout_ms }),
    {
        RollbackStep::ApplyPrimary { timeout_ms }
    }

    /// Decides what follows the primary scene: its success ends the
    /// execution; its failure calls for the rollback scene.
    pub fn after_primary(&self, scene_id: &str, timeout_ms: u64, outcome: ApplyOutcome, elapsed_ms: u64) -> (step:
        RollbackStep)
        ensures
            match application(scene_id@, outcome) {
                None => step matches RollbackStep::Done(result) && is_applied(result, scene_id@, elapsed_ms),
                Some(failure) => step matches RollbackStep::ApplyRollback { timeout_ms: limit, original }
                    && limit == timeout_ms && original@ == failure,
            },
    {
        match self.execute_immediate(scene_id, outcome) {
            Ok(()) => RollbackStep::Done(
                Ok(
                    SceneExecutionResult {
                        scene_id: String::from_str(scene_id),
                        scene_name: String::from_str("Unknown"),
                        execution_time_ms: elapsed_ms,
                        success: true,
                    },
                ),
            ),
            Err(original) => RollbackStep::ApplyRollback { timeout_ms, original },
        }
    }

    /// Decides what follows the rollback scene: the execution ends with
    /// the failure of the primary scene, however the rollback ended.
    pub fn after_rollback(&self, original: HueStatusError, outcome: ApplyOutcome) -> (step: RollbackStep)
        ensures
            step == RollbackStep::Done(Err(original)),
    {
        RollbackStep::Done(Err(original))
    }

    /// Runs an execution with rollback against scripted outcomes: applying
    /// the primary scene ends with `primary` after `elapsed_ms`
    /// milliseconds, and applying the rollback scene, if it comes to that,
    /// ends with `rollback`.
    ///
    /// Where the primary scene fails, the rollback scene is applied exactly
    /// once, and the failure of the primary scene is returned whether the
    /// rollback succeeds or not.
    pub fn execute_with_rollback(
        &self,
        scene_id: &str,
        rollback_scene_id: &str,
        timeout_ms: u64,
        primary: ApplyOutcome,
        rollback: ApplyOutcome,
        elapsed_ms: u64,
    ) -> (run: RollbackRun)
        ensures
            match application(scene_id@, primary) {
                None => run.rollback_invocations == 0 && is_applied(run.result, scene_id@, elapsed_ms),
                Some(failure) => run.rollback_invocations == 1 && fails_with(run.result, failure),
            },
    {
        let first = self.execute_with_rollback_begin(timeout_ms);
        match self.after_primary(scene_id, timeout_ms, primary, elapsed_ms) {
            RollbackStep::Done(result) => RollbackRun { result, rollback_invocations: 0 },
            RollbackStep::ApplyRollback { timeout_ms, original } => {
                match self.after_rollback(original, rollback) {
                    RollbackStep::Done(result) => RollbackRun { result, rollback_invocations: 1 },
                    _ => unreached(),
                }
            },
            RollbackStep::ApplyPrimary { .. } => unreached(),
        }
    }
}

} // verus!
