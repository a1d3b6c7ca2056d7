//! Status scenes: their colours, and the results of creating, validating
//! and executing them.

use crate::bridge::client::{ActionResponse, BridgeClient, CreateSceneResponse};
use crate::bridge::{
    color_state, uniform_states, CreateSceneRequest, Light, LightState, LightStateView, Scene, XyColor,
    FAILURE_HUE, SUCCESS_HUE,
};
use crate::seqs::count_where;
use crate::config::Config;
use crate::error::{fails_with, ErrorView, HueStatusError, Result};
use crate::string_map::StringMap;
use crate::text::{concat3, decimal, join, joined, u64_to_string, views};
use vstd::prelude::*;
use vstd::string::*;

pub mod create;
pub mod execute;

pub use create::{
    ColorPresets, LightSelectionCriteria, SceneBuilder, SceneCreationOptions, SceneCreator,
};
pub use execute::{
    ExecutionContext, ExecutionMetrics, ExecutionOptions, ExecutionStrategy, LightStateBackup,
    SceneExecutor,
};

verus! {

/// The manager of the two status scenes of one bridge.
#[derive(Debug, Clone, PartialEq, Eq)]
pub struct SceneManager {
    pub client: BridgeClient,
    pub verbose: bool,
}

/// What the creation of the status scenes yielded.
#[derive(Debug, Clone, PartialEq, Eq)]
pub struct SceneCreationResult {
    pub success_scene_id: String,
    pub failure_scene_id: String,
    pub lights_used: Vec<String>,
    pub scenes_created: usize,
}

/// What the execution of a scene yielded.
#[derive(Debug, Clone, PartialEq, Eq)]
pub struct SceneExecutionResult {
    pub scene_id: String,
    pub scene_name: String,
    pub execution_time_ms: u64,
    pub success: bool,
}

/// What the validation of a scene found.
#[derive(Debug, Clone, PartialEq, Eq)]
pub struct SceneValidationResult {
    pub scene_id: String,
    pub scene_name: String,
    pub is_valid: bool,
    pub issues: Vec<String>,
    pub lights_status: Vec<LightStatus>,
}

/// The status of one light of a scene.
#[derive(Debug, PartialEq, Eq)]
pub struct LightStatus {
    pub light_id: String,
    pub light_name: String,
    pub is_reachable: bool,
    pub supports_color: bool,
    pub current_state: Option<LightState>,
}

impl Clone for LightStatus {
    fn clone(&self) -> (copy: Self)
        ensures
            copy == *self,
    {
        LightStatus {
            light_id: self.light_id.clone(),
            light_name: self.light_name.clone(),
            is_reachable: self.is_reachable,
            supports_color: self.supports_color,
            current_state: self.current_state.clone(),
        }
    }
}

/// A colour, as hue, saturation and brightness, and as a chromaticity
/// where that is known.
#[derive(Debug, Clone, PartialEq, Eq)]
pub struct ColorDefinition {
    pub hue: u16,
    pub saturation: u8,
    pub brightness: u8,
    pub xy: Option<XyColor>,
    pub name: String,
}

/// The colours of the two status scenes.
#[derive(Debug, Clone, PartialEq, Eq)]
pub struct StatusColors {
    pub success: ColorDefinition,
    pub failure: ColorDefinition,
}

impl SceneCreationResult {
    /// The one-line summary of the result.
    pub open spec fn summary_text(&self) -> Seq<char> {
        "Created "@ + decimal(self.scenes_created as nat) + " scenes using "@ + decimal(
            self.lights_used@.len(),
        ) + " lights (Success: "@ + self.success_scene_id@ + ", Failure: "@ + self.failure_scene_id@ + ")"@
    }

    /// Renders the one-line summary of the result.
    pub fn summary(&self) -> (text: String)
        ensures
            text@ == self.summary_text(),
    {
        let mut text = concat3("Created ", u64_to_string(self.scenes_created as u64).as_str(), " scenes using ");
        text.append(u64_to_string(self.lights_used.len() as u64).as_str());
        text.append(" lights (Success: ");
        text.append(self.success_scene_id.as_str());
        text.append(", Failure: ");
        text.append(self.failure_scene_id.as_str());
        text.append(")");
        text
    }

    /// Whether both scenes were created and have identifiers.
    pub fn is_successful(&self) -> (yes: bool)
        ensures
            yes == (self.scenes_created == 2 && self.success_scene_id@.len() > 0 && self.failure_scene_id@.len()
                > 0),
    {
        self.scenes_created == 2 && !self.success_scene_id.as_str().is_empty()
            && !self.failure_scene_id.as_str().is_empty()
    }
}

impl SceneExecutionResult {
    /// The rating of the execution: `Failed` where it failed, and by its
    /// duration otherwise: `Excellent` below 500 ms, `Good` below 1000 ms,
    /// `Fair` below 2000 ms, `Poor` from there.
    pub open spec fn rating(&self) -> Seq<char> {
        if !self.success {
            "Failed"@
        } else if self.execution_time_ms < 500 {
            "Excellent"@
        } else if self.execution_time_ms < 1000 {
            "Good"@
        } else if self.execution_time_ms < 2000 {
            "Fair"@
        } else {
            "Poor"@
        }
    }

    /// The one-line summary of the result.
    pub open spec fn summary_text(&self) -> Seq<char> {
        "Scene '"@ + self.scene_name@ + "' executed in "@ + decimal(self.execution_time_ms as nat) + "ms ("@
            + self.rating() + ")"@
    }

    /// Whether the execution took less than 500 ms.
    pub fn is_fast(&self) -> (yes: bool)
        ensures
            yes == (self.execution_time_ms < 500),
    {
        self.execution_time_ms < 500
    }

    /// Whether the execution took more than 2 seconds.
    pub fn is_slow(&self) -> (yes: bool)
        ensures
            yes == (self.execution_time_ms > 2000),
    {
        self.execution_time_ms > 2000
    }

    /// The rating of the execution.
    pub fn performance_rating(&self) -> (rating: &'static str)
        ensures
            rating@ == self.rating(),
    {
        if !self.success {
            "Failed"
        } else if self.is_fast() {
            "Excellent"
        } else if self.execution_time_ms < 1000 {
            "Good"
        } else if self.execution_time_ms < 2000 {
            "Fair"
        } else {
            "Poor"
        }
    }

    /// Renders the one-line summary of the result.
    pub fn summary(&self) -> (text: String)
        ensures
            text@ == self.summary_text(),
    {
        let mut text = concat3("Scene '", self.scene_name.as_str(), "' executed in ");
        text.append(u64_to_string(self.execution_time_ms).as_str());
        text.append("ms (");
        text.append(self.performance_rating());
        text.append(")");
        text
    }
}

impl LightStatus {
    /// How a summary names the status of the light.
    pub open spec fn label(&self) -> Seq<char> {
        if self.is_reachable && self.supports_color {
            "Suitable"@
        } else if !self.is_reachable {
            "Unreachable"@
        } else {
            "No color support"@
        }
    }

    /// Whether the light is reachable and supports colour.
    pub fn is_suitable(&self) -> (yes: bool)
        ensures
            yes == (self.is_reachable && self.supports_color),
    {
        self.is_reachable && self.supports_color
    }

    /// Renders the one-line summary of the status.
    pub fn summary(&self) -> (text: String)
        ensures
            text@ == self.light_name@ + " ("@ + self.light_id@ + "): "@ + self.label(),
    {
        let status = if self.is_suitable() {
            "Suitable"
        } else if !self.is_reachable {
            "Unreachable"
        } else {
            "No color support"
        };
        let mut text = concat3(self.light_name.as_str(), " (", self.light_id.as_str());
        text.append("): ");
        text.append(status);
        text
    }
}

/// The state that shows a colour definition.
pub open spec fn state_of(color: ColorDefinition) -> LightStateView {
    LightStateView {
        on: true,
        bri: Some(color.brightness),
        hue: Some(color.hue),
        sat: Some(color.saturation),
        effect: None,
        xy: color.xy,
        ct: None,
        alert: None,
        colormode: Some("hs"@),
        mode: None,
        reachable: None,
    }
}

impl ColorDefinition {
    /// A colour without a chromaticity.
    pub fn new(name: String, hue: u16, saturation: u8, brightness: u8) -> (color: Self)
        ensures
            color == (ColorDefinition { hue, saturation, brightness, xy: None, name }),
    {
        ColorDefinition { hue, saturation, brightness, xy: None, name }
    }

    /// The colour with the chromaticity `xy`.
    pub fn with_xy(self, xy: XyColor) -> (color: Self)
        ensures
            color == (ColorDefinition { xy: Some(xy), ..self }),
    {
        ColorDefinition { hue: self.hue, saturation: self.saturation, brightness: self.brightness, xy: Some(xy), name: self.name }
    }

    /// The state of a light that shows the colour.
    pub fn to_light_state(&self) -> (state: LightState)
        ensures
            state@ == state_of(*self),
    {
        LightState {
            on: true,
            bri: Some(self.brightness),
            hue: Some(self.hue),
            sat: Some(self.saturation),
            effect: None,
            xy: self.xy,
            ct: None,
            alert: None,
            colormode: Some(String::from_str("hs")),
            mode: None,
            reachable: None,
        }
    }

    /// Renders the one-line summary of the colour.
    pub fn summary(&self) -> (text: String)
        ensures
            text@ == self.name@ + ": H:"@ + decimal(self.hue as nat) + " S:"@ + decimal(self.saturation as nat)
                + " B:"@ + decimal(self.brightness as nat),
    {
        let mut text = concat3(self.name.as_str(), ": H:", u64_to_string(self.hue as u64).as_str());
        text.append(" S:");
        text.append(u64_to_string(self.saturation as u64).as_str());
        text.append(" B:");
        text.append(u64_to_string(self.brightness as u64).as_str());
        text
    }
}

/// Whether the status at an index is that of a reachable light.
pub open spec fn reachable_status_at(statuses: Seq<LightStatus>) -> spec_fn(int) -> bool {
    |i: int| statuses[i].is_reachable
}

/// Whether the status at an index is that of a light that supports colour.
pub open spec fn color_status_at(statuses: Seq<LightStatus>) -> spec_fn(int) -> bool {
    |i: int| statuses[i].supports_color
}

impl SceneValidationResult {
    /// The one-line summary of the validation.
    pub open spec fn summary_text(&self) -> Seq<char> {
        if self.is_valid {
            "Scene '"@ + self.scene_name@ + "' is valid"@
        } else {
            "Scene '"@ + self.scene_name@ + "' has "@ + decimal(self.issues@.len()) + " issue(s): "@ + joined(
                views(self.issues@),
                ", "@,
            )
        }
    }

    /// Renders the one-line summary of the validation.
    pub fn summary(&self) -> (text: String)
        ensures
            text@ == self.summary_text(),
    {
        if self.is_valid {
            concat3("Scene '", self.scene_name.as_str(), "' is valid")
        } else {
            let mut text = concat3("Scene '", self.scene_name.as_str(), "' has ");
            text.append(u64_to_string(self.issues.len() as u64).as_str());
            text.append(" issue(s): ");
            text.append(join(&self.issues, ", ").as_str());
            text
        }
    }

    /// The number of lights that are reachable.
    pub fn reachable_lights_count(&self) -> (n: usize)
        ensures
            n == count_where(reachable_status_at(self.lights_status@), self.lights_status@.len() as int),
    {
        let mut n: usize = 0;
        let mut i: usize = 0;
        while i < self.lights_status.len()
            invariant
                i <= self.lights_status.len(),
                n <= i,
                n == count_where(reachable_status_at(self.lights_status@), i as int),
            decreases self.lights_status.len() - i,
        {
            if self.lights_status[i].is_reachable {
                n += 1;
            }
            i += 1;
        }
        n
    }

    /// The number of lights that support colour.
    pub fn color_capable_lights_count(&self) -> (n: usize)
        ensures
            n == count_where(color_status_at(self.lights_status@), self.lights_status@.len() as int),
    {
        let mut n: usize = 0;
        let mut i: usize = 0;
        while i < self.lights_status.len()
            invariant
                i <= self.lights_status.len(),
                n <= i,
                n == count_where(color_status_at(self.lights_status@), i as int),
            decreases self.lights_status.len() - i,
        {
            if self.lights_status[i].supports_color {
                n += 1;
            }
            i += 1;
        }
        n
    }
}

/// The issues that the validation of a status scene finds with the scene
/// and its first `n` lights: a scene that is locked or has no light, a
/// light that is not reachable, a light that does not support colour, and
/// a light that the bridge does not list.
pub open spec fn validation_issues(scene: Scene, lights: StringMap<Light>, n: int) -> Seq<Seq<char>>
    decreases n,
{
    if n <= 0 {
        if scene.suitable_for_status() {
            Seq::empty()
        } else {
            seq!["Scene is not suitable for status indication"@]
        }
    } else {
        let rest = validation_issues(scene, lights, n - 1);
        match lights.value_of(scene.lights@[n - 1]@) {
            Some(light) => {
                let rest = if light.reachable() {
                    rest
                } else {
                    rest.push("Light '"@ + light.name@ + "' is not reachable"@)
                };
                if light.has_color() {
                    rest
                } else {
                    rest.push("Light '"@ + light.name@ + "' does not support color"@)
                }
            },
            None => rest.push("Light '"@ + scene.lights@[n - 1]@ + "' not found"@),
        }
    }
}

/// Whether a status scene and its first `n` lights are valid: the scene is
/// unlocked and has a light, and each of the lights is listed and
/// reachable. A light without colour is reported, but does not make the
/// scene invalid.
pub open spec fn validation_passes(scene: Scene, lights: StringMap<Light>, n: int) -> bool
    decreases n,
{
    if n <= 0 {
        scene.suitable_for_status()
    } else {
        validation_passes(scene, lights, n - 1) && crate::bridge::client::is_ready(
            lights.value_of(scene.lights@[n - 1]@),
        )
    }
}

/// The issues of those of the first `n` validations that found their scene
/// not valid, in order.
pub open spec fn issues_of_invalid(results: Seq<SceneValidationResult>, n: int) -> Seq<Seq<char>>
    decreases n,
{
    if n <= 0 {
        Seq::empty()
    } else {
        issues_of_invalid(results, n - 1) + (if results[n - 1].is_valid {
            Seq::<Seq<char>>::empty()
        } else {
            views(results[n - 1].issues@)
        })
    }
}

/// The identifiers of lights.
pub open spec fn ids_of(lights: Seq<(String, Light)>) -> Seq<String> {
    lights.map_values(|entry: (String, Light)| entry.0)
}

/// Whether `result` is the identifier that the bridge gave to a scene, read
/// from the first element of its answer.
pub open spec fn is_created_id(result: Result<String>, response: Seq<CreateSceneResponse>) -> bool {
    if response.len() > 0 {
        result == Ok::<String, HueStatusError>(response[0].success.id)
    } else {
        fails_with(result, ErrorView::SceneExecutionFailed { reason: "No response from scene creation"@ })
    }
}

impl SceneManager {
    /// A manager that uses `client`.
    pub fn new(client: BridgeClient) -> (manager: Self)
        ensures
            manager == (SceneManager { client, verbose: false }),
    {
        SceneManager { client, verbose: false }
    }

    /// The manager with verbose mode set.
    pub fn with_verbose(self, verbose: bool) -> (manager: Self)
        ensures
            manager == (SceneManager { verbose, ..self }),
    {
        SceneManager { client: self.client, verbose }
    }

    /// The identifiers of `lights`, in order.
    pub fn light_ids(lights: &Vec<(String, Light)>) -> (ids: Vec<String>)
        ensures
            ids@ == ids_of(lights@),
    {
        let mut ids: Vec<String> = Vec::new();
        let mut i: usize = 0;
        while i < lights.len()
            invariant
                i <= lights.len(),
                ids@ == ids_of(lights@.take(i as int)),
            decreases lights.len() - i,
        {
            ids.push(lights[i].0.clone());
            assert(ids@ =~= ids_of(lights@.take(i as int + 1)));
            i += 1;
        }
        assert(lights@.take(lights@.len() as int) =~= lights@);
        ids
    }

    /// The request that creates the success scene for `light_ids`: every
    /// light green, under the name `huestatus-success`.
    pub fn success_scene_request(light_ids: Vec<String>) -> (request: CreateSceneRequest)
        ensures
            request.name@ == "huestatus-success"@,
            request.lights == light_ids,
            request.recycle,
            uniform_states(request.lightstates, light_ids@, color_state(SUCCESS_HUE, 254, 254)),
    {
        CreateSceneRequest::new_success_scene(String::from_str("huestatus-success"), light_ids)
    }

    /// The request that creates the failure scene for `light_ids`: every
    /// light red, under the name `huestatus-failure`.
    pub fn failure_scene_request(light_ids: Vec<String>) -> (request: CreateSceneRequest)
        ensures
            request.name@ == "huestatus-failure"@,
            request.lights == light_ids,
            request.recycle,
            uniform_states(request.lightstates, light_ids@, color_state(FAILURE_HUE, 254, 254)),
    {
        CreateSceneRequest::new_failure_scene(String::from_str("huestatus-failure"), light_ids)
    }

    /// Reads the identifier of a new scene from the bridge's answer.
    pub fn created_scene_id(response: &Vec<CreateSceneResponse>) -> (id: Result<String>)
        ensures
            is_created_id(id, response@),
    {
        if response.len() > 0 {
            Ok(response[0].success.id.clone())
        } else {
            Err(
                HueStatusError::SceneExecutionFailed { reason: String::from_str("No response from scene creation") },
            )
        }
    }

    /// Records the two status scenes that were created for `light_ids` in
    /// the configuration, from the bridge's answers to their creation. The
    /// configuration is changed only if both answers hold an identifier.
    pub fn create_status_scenes(
        &self,
        config: &mut Config,
        light_ids: Vec<String>,
        success_response: &Vec<CreateSceneResponse>,
        failure_response: &Vec<CreateSceneResponse>,
    ) -> (result: Result<SceneCreationResult>)
        ensures
            match result {
                Ok(created) => success_response@.len() > 0 && failure_response@.len() > 0
                    && created.success_scene_id == success_response@[0].success.id && created.failure_scene_id
                    == failure_response@[0].success.id && created.lights_used == light_ids
                    && created.scenes_created == 2 && final(config).scenes.success.id
                    == created.success_scene_id && final(config).scenes.success.name@ == "huestatus-success"@
                    && final(config).scenes.success.auto_created && final(config).scenes.failure.id
                    == created.failure_scene_id && final(config).scenes.failure.name@ == "huestatus-failure"@
                    && final(config).scenes.failure.auto_created && final(config).scenes.success.last_validated
                    == old(config).scenes.success.last_validated && final(config).scenes.failure.last_validated
                    == old(config).scenes.failure.last_validated && final(config).bridge == old(config).bridge
                    && final(config).settings == old(config).settings && final(config).advanced == old(
                    config,
                ).advanced && final(config).version == old(config).version,
                Err(error) => (success_response@.len() == 0 || failure_response@.len() == 0) && error@ == (
                ErrorView::SceneExecutionFailed { reason: "No response from scene creation"@ }) && *final(config)
                    == *old(config),
            },
    {
        let success_scene_id = match Self::created_scene_id(success_response) {
            Ok(id) => id,
            Err(error) => { return Err(error); },
        };
        let failure_scene_id = match Self::created_scene_id(failure_response) {
            Ok(id) => id,
            Err(error) => { return Err(error); },
        };
        config.scenes.success.id = success_scene_id.clone();
        config.scenes.success.name = String::from_str("huestatus-success");
        config.scenes.success.auto_created = true;
        config.scenes.failure.id = failure_scene_id.clone();
        config.scenes.failure.name = String::from_str("huestatus-failure");
        config.scenes.failure.auto_created = true;
        Ok(SceneCreationResult { success_scene_id, failure_scene_id, lights_used: light_ids, scenes_created: 2 })
    }

    /// The result of executing the status scene of the kind `scene_type`,
    /// from the bridge's answer and the time that the request took. The
    /// execution counts as a success where the answer is not empty.
    pub fn execute_status_scene(
        &self,
        scene_type: &str,
        config: &Config,
        response: &Vec<ActionResponse>,
        elapsed_ms: u64,
    ) -> (result: Result<SceneExecutionResult>)
        ensures
            match config.scene_of(scene_type@) {
                Some(scene) => result == Ok::<SceneExecutionResult, HueStatusError>(
                    SceneExecutionResult {
                        scene_id: scene.id,
                        scene_name: scene.name,
                        execution_time_ms: elapsed_ms,
                        success: response@.len() > 0,
                    },
                ),
                None => fails_with(result, ErrorView::SceneNotFound { scene_name: scene_type@ }),
            },
    {
        match config.get_scene(scene_type) {
            Some(scene) => Ok(
                SceneExecutionResult {
                    scene_id: scene.id.clone(),
                    scene_name: scene.name.clone(),
                    execution_time_ms: elapsed_ms,
                    success: response.len() > 0,
                },
            ),
            None => Err(HueStatusError::SceneNotFound { scene_name: String::from_str(scene_type) }),
        }
    }

    /// The report of the validation of a status scene that could not be
    /// fetched.
    pub fn validate_missing_scene(&self, scene_id: &str, scene_name: &str) -> (report: SceneValidationResult)
        ensures
            report.scene_id@ == scene_id@,
            report.scene_name@ == scene_name@,
            !report.is_valid,
            views(report.issues@) == seq!["Scene '"@ + scene_name@ + "' not found"@],
            report.lights_status@.len() == 0,
    {
        let mut issues: Vec<String> = Vec::new();
        issues.push(concat3("Scene '", scene_name, "' not found"));
        assert(views(issues@) =~= seq!["Scene '"@ + scene_name@ + "' not found"@]);
        SceneValidationResult {
            scene_id: String::from_str(scene_id),
            scene_name: String::from_str(scene_name),
            is_valid: false,
            issues,
            lights_status: Vec::new(),
        }
    }

    /// The report of the validation of the status scene `scene`, given the
    /// lights that the bridge lists.
    pub fn validate_scene(&self, scene_id: &str, scene_name: &str, scene: &Scene, lights: &StringMap<Light>) -> (report:
        SceneValidationResult)
        ensures
            report.scene_id@ == scene_id@,
            report.scene_name@ == scene_name@,
            views(report.issues@) == validation_issues(*scene, *lights, scene.lights@.len() as int),
            report.lights_status@ == execute::dry_run_statuses(*scene, *lights, scene.lights@.len() as int),
            report.is_valid == validation_passes(*scene, *lights, scene.lights@.len() as int),
    {
        let mut issues: Vec<String> = Vec::new();
        let mut lights_status: Vec<LightStatus> = Vec::new();
        let mut is_valid = true;
        if !scene.is_suitable_for_status() {
            issues.push(String::from_str("Scene is not suitable for status indication"));
            is_valid = false;
        }
        assert(views(issues@) =~= validation_issues(*scene, *lights, 0));
        let mut i: usize = 0;
        while i < scene.lights.len()
            invariant
                i <= scene.lights.len(),
                views(issues@) == validation_issues(*scene, *lights, i as int),
                lights_status@ == execute::dry_run_statuses(*scene, *lights, i as int),
                is_valid == validation_passes(*scene, *lights, i as int),
            decreases scene.lights.len() - i,
        {
            let ghost before = views(issues@);
            let light_id = &scene.lights[i];
            match lights.get(light_id.as_str()) {
                Some(light) => {
                    lights_status.push(
                        LightStatus {
                            light_id: light_id.clone(),
                            light_name: light.name.clone(),
                            is_reachable: light.is_reachable(),
                            supports_color: light.supports_color(),
                            current_state: Some(light.state.clone()),
                        },
                    );
                    if !light.is_reachable() {
                        issues.push(concat3("Light '", light.name.as_str(), "' is not reachable"));
                        is_valid = false;
                    }
                    let ghost middle = views(issues@);
                    assert(middle =~= if light.reachable() {
                        before
                    } else {
                        before.push("Light '"@ + light.name@ + "' is not reachable"@)
                    });
                    if !light.supports_color() {
                        issues.push(concat3("Light '", light.name.as_str(), "' does not support color"));
                        assert(views(issues@) =~= middle.push("Light '"@ + light.name@ + "' does not support color"@));
                    }
                },
                None => {
                    issues.push(concat3("Light '", light_id.as_str(), "' not found"));
                    assert(views(issues@) =~= before.push("Light '"@ + light_id@ + "' not found"@));
                    is_valid = false;
                },
            }
            i += 1;
        }
        SceneValidationResult {
            scene_id: String::from_str(scene_id),
            scene_name: String::from_str(scene_name),
            is_valid,
            issues,
            lights_status,
        }
    }

    /// The warnings that the validations of the status scenes give rise to:
    /// the issues of every scene that is not valid, in order.
    pub fn validation_warnings(&self, results: &Vec<SceneValidationResult>) -> (warnings: Vec<String>)
        ensures
            views(warnings@) == issues_of_invalid(results@, results@.len() as int),
    {
        let mut warnings: Vec<String> = Vec::new();
        assert(views(warnings@) =~= Seq::<Seq<char>>::empty());
        let mut i: usize = 0;
        while i < results.len()
            invariant
                i <= results.len(),
                views(warnings@) == issues_of_invalid(results@, i as int),
            decreases results.len() - i,
        {
            if !results[i].is_valid {
                let issues = &results[i].issues;
                let ghost before = views(warnings@);
                let mut k: usize = 0;
                while k < issues.len()
                    invariant
                        k <= issues.len(),
                        views(warnings@) == before + views(issues@).take(k as int),
                    decreases issues.len() - k,
                {
                    let ghost prior = views(warnings@);
                    warnings.push(issues[k].clone());
                    assert(views(warnings@) =~= prior.push(issues@[k as int]@));
                    assert(views(issues@).take(k as int + 1) =~= views(issues@).take(k as int).push(
                        issues@[k as int]@,
                    ));
                    assert(views(warnings@) =~= before + views(issues@).take(k as int + 1));
                    k += 1;
                }
                assert(views(issues@).take(issues@.len() as int) =~= views(issues@));
            } else {
                assert(views(warnings@) =~= views(warnings@) + Seq::<Seq<char>>::empty());
            }
            i += 1;
        }
        warnings
    }

    /// Whether a scene can be executed, from the outcome of fetching it.
    pub fn test_scene_execution(&self, fetched: Result<Scene>) -> (result: Result<bool>)
        ensures
            result == match fetched {
                Ok(_) => Ok::<bool, HueStatusError>(true),
                Err(error) => Err::<bool, HueStatusError>(error),
            },
    {
        match fetched {
            Ok(_) => Ok(true),
            Err(error) => Err(error),
        }
    }

    /// The identifiers of the status scenes that are to be deleted: those
    /// that this tool created, the success scene first.
    pub fn delete_status_scenes(&self, config: &Config) -> (ids: Vec<String>)
        ensures
            ids@ == (if config.scenes.success.auto_created {
                seq![config.scenes.success.id]
            } else {
                Seq::<String>::empty()
            }) + (if config.scenes.failure.auto_created {
                seq![config.scenes.failure.id]
            } else {
                Seq::<String>::empty()
            }),
    {
        let mut ids: Vec<String> = Vec::new();
        if config.scenes.success.auto_created {
            ids.push(config.scenes.success.id.clone());
        }
        let ghost first = ids@;
        if config.scenes.failure.auto_created {
            ids.push(config.scenes.failure.id.clone());
        }
        assert(ids@ =~= first + (if config.scenes.failure.auto_created {
            seq![config.scenes.failure.id]
        } else {
            Seq::<String>::empty()
        }));
        assert(first =~= (if config.scenes.success.auto_created {
            seq![config.scenes.success.id]
        } else {
            Seq::<String>::empty()
        }));
        ids
    }

    /// The colours of the two status scenes: green for success, red for
    /// failure.
    pub fn get_status_colors() -> (colors: StatusColors)
        ensures
            colors.success.hue == SUCCESS_HUE,
            colors.success.saturation == 254,
            colors.success.brightness == 254,
            colors.success.xy == Some(XyColor { x_bits: 0x3fda2d0e56041893, y_bits: 0x3fe09374bc6a7efa }),
            colors.success.name@ == "Green"@,
            colors.failure.hue == FAILURE_HUE,
            colors.failure.saturation == 254,
            colors.failure.brightness == 254,
            colors.failure.xy == Some(XyColor { x_bits: 0x3fe599999999999a, y_bits: 0x3fd49ba5e353f7cf }),
            colors.failure.name@ == "Red"@,
    {
        StatusColors {
            success: ColorDefinition {
                hue: SUCCESS_HUE,
                saturation: 254,
                brightness: 254,
                xy: Some(XyColor { x_bits: 0x3fda2d0e56041893, y_bits: 0x3fe09374bc6a7efa }),
                name: String::from_str("Green"),
            },
            failure: ColorDefinition {
                hue: FAILURE_HUE,
                saturation: 254,
                brightness: 254,
                xy: Some(XyColor { x_bits: 0x3fe599999999999a, y_bits: 0x3fd49ba5e353f7cf }),
                name: String::from_str("Red"),
            },
        }
    }

    /// The request for a scene that gives every light of `lights` the
    /// colour `color`.
    pub fn create_custom_scene(&self, name: String, lights: Vec<String>, color: &ColorDefinition) -> (request:
        CreateSceneRequest)
        ensures
            request.name == name,
            request.lights == lights,
            request.recycle,
            uniform_states(
                request.lightstates,
                lights@,
                color_state(color.hue, color.saturation, color.brightness),
            ),
    {
        CreateSceneRequest::new_custom_scene(name, lights, color.hue, color.saturation, color.brightness)
    }

    /// The lights of a listing that can be used for status scenes.
    pub fn get_available_lights(&self, lights: &StringMap<Light>) -> (suitable: Result<Vec<(String, Light)>>)
        ensures
            match suitable {
                Ok(found) => found@.len() > 0 && found@ == crate::seqs::kept(
                    lights.entries@,
                    crate::bridge::client::suitable_entry(),
                    lights.entries@.len() as int,
                ),
                Err(error) => error@ == ErrorView::NoLightsFound && crate::seqs::kept(
                    lights.entries@,
                    crate::bridge::client::suitable_entry(),
                    lights.entries@.len() as int,
                ).len() == 0,
            },
    {
        self.client.get_suitable_lights(lights)
    }

    /// The executions that were recorded. None are: the history is not
    /// kept.
    pub fn get_execution_history(&self) -> (history: Vec<SceneExecutionResult>)
        ensures
            history@.len() == 0,
    {
        Vec::new()
    }
}

} // verus!
