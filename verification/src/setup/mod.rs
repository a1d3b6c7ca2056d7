//! The setup process: its options, its steps and its result.

use crate::bridge::{BridgeCapabilities, Light};
use crate::error::{ErrorView, HueStatusError, Result};
use crate::text::{concat2, concat3, views};
use vstd::prelude::*;
use vstd::string::*;

verus! {

/// The options of a setup.
#[derive(Debug, Clone, Copy, PartialEq, Eq)]
pub struct SetupOptions {
    pub force: bool,
    pub interactive: bool,
    pub verbose: bool,
    pub timeout_seconds: u64,
    pub retry_attempts: usize,
    pub skip_validation: bool,
    pub backup_existing: bool,
    pub test_scenes: bool,
}

/// The result of a setup.
#[derive(Debug, Clone, PartialEq, Eq)]
pub struct SetupResult {
    pub success: bool,
    pub bridge_ip: String,
    pub bridge_name: String,
    pub username: String,
    pub scenes_created: usize,
    pub lights_configured: usize,
    pub config_path: String,
    pub duration_ms: u64,
    pub warnings: Vec<String>,
}

/// The steps of a setup.
#[derive(Debug, Clone, Copy, PartialEq, Eq)]
pub enum SetupStep {
    Initialize,
    DiscoverBridge,
    AuthenticateBridge,
    DiscoverLights,
    CreateScenes,
    ValidateSetup,
    SaveConfiguration,
    Complete,
}

/// Where a setup stands.
#[derive(Debug, Clone, PartialEq, Eq)]
pub struct SetupStatus {
    pub current_step: SetupStep,
    pub total_steps: usize,
    pub completed_steps: usize,
    pub message: String,
    pub error: Option<String>,
}

/// The checks that follow a setup.
#[derive(Debug, Clone, Copy, PartialEq, Eq)]
pub struct SetupValidator {
    pub verbose: bool,
}

/// The default options: interactive, with a time limit of 30 seconds and 3
/// attempts, with validation and a backup of an existing configuration.
pub open spec fn default_options() -> SetupOptions {
    SetupOptions {
        force: false,
        interactive: true,
        verbose: false,
        timeout_seconds: 30,
        retry_attempts: 3,
        skip_validation: false,
        backup_existing: true,
        test_scenes: false,
    }
}

impl Default for SetupOptions {
    fn default() -> (options: Self)
        ensures
            options == default_options(),
    {
        SetupOptions {
            force: false,
            interactive: true,
            verbose: false,
            timeout_seconds: 30,
            retry_attempts: 3,
            skip_validation: false,
            backup_existing: true,
            test_scenes: false,
        }
    }
}

impl SetupOptions {
    /// The default options without interaction.
    pub fn non_interactive() -> (options: Self)
        ensures
            options == (SetupOptions { interactive: false, ..default_options() }),
    {
        let mut options = SetupOptions::default();
        options.interactive = false;
        options
    }

    /// Options for a quick setup: 15 seconds, without validation.
    pub fn quick() -> (options: Self)
        ensures
            options == (SetupOptions {
                timeout_seconds: 15,
                skip_validation: true,
                test_scenes: false,
                ..default_options()
            }),
    {
        let mut options = SetupOptions::default();
        options.timeout_seconds = 15;
        options.skip_validation = true;
        options.test_scenes = false;
        options
    }

    /// Options for a thorough setup: 60 seconds, verbose, with validation
    /// and a test of the scenes.
    pub fn thorough() -> (options: Self)
        ensures
            options == (SetupOptions {
                timeout_seconds: 60,
                skip_validation: false,
                test_scenes: true,
                backup_existing: true,
                verbose: true,
                ..default_options()
            }),
    {
        let mut options = SetupOptions::default();
        options.timeout_seconds = 60;
        options.skip_validation = false;
        options.test_scenes = true;
        options.backup_existing = true;
        options.verbose = true;
        options
    }
}

impl SetupResult {
    /// The quality of the setup on a scale from 0 to 100: 100, less 10 for
    /// every warning, less 10 for a setup above 60 seconds (5 above 30
    /// seconds), less 15 for fewer than two lights; never below 0.
    pub open spec fn quality(&self) -> int {
        let penalty = self.warnings@.len() * 10;
        let after_warnings = if 100 >= penalty {
            100 - penalty
        } else {
            0
        };
        let slow = if self.duration_ms > 60000 {
            10int
        } else if self.duration_ms > 30000 {
            5int
        } else {
            0int
        };
        let after_time = if after_warnings >= slow {
            after_warnings - slow
        } else {
            0
        };
        if self.lights_configured < 2 {
            if after_time >= 15 {
                after_time - 15
            } else {
                0
            }
        } else {
            after_time
        }
    }

    /// Whether the setup has warnings.
    pub fn has_warnings(&self) -> (yes: bool)
        ensures
            yes == (self.warnings@.len() > 0),
    {
        self.warnings.len() > 0
    }

    /// The quality of the setup on a scale from 0 to 100.
    pub fn quality_score(&self) -> (score: u8)
        ensures
            score == self.quality(),
            score <= 100,
    {
        let count = self.warnings.len();
        let mut score: u8 = if count >= 10 {
            0
        } else {
            100 - (count * 10) as u8
        };
        let slow: u8 = if self.duration_ms > 60000 {
            10
        } else if self.duration_ms > 30000 {
            5
        } else {
            0
        };
        score = if score >= slow {
            score - slow
        } else {
            0
        };
        if self.lights_configured < 2 {
            score = if score >= 15 {
                score - 15
            } else {
                0
            };
        }
        score
    }
}

/// The warnings that the capabilities of a bridge give rise to: little
/// room for scenes, and very few lights.
pub open spec fn capability_warnings(capabilities: BridgeCapabilities) -> Seq<Seq<char>> {
    let warnings = Seq::<Seq<char>>::empty();
    let warnings = if capabilities.scenes.available < 10 {
        warnings.push("Bridge is running low on scene storage"@)
    } else {
        warnings
    };
    if capabilities.lights.total < 2 {
        warnings.push("Bridge has very few lights connected"@)
    } else {
        warnings
    }
}

impl SetupValidator {
    /// A validator.
    pub fn new(verbose: bool) -> (validator: Self)
        ensures
            validator.verbose == verbose,
    {
        SetupValidator { verbose }
    }

    /// The warnings that the capabilities of the bridge give rise to, from
    /// the outcome of fetching them. A failure to fetch them is a warning
    /// itself.
    pub fn check_bridge_capabilities(&self, capabilities: &Result<BridgeCapabilities>) -> (warnings: Result<
        Vec<String>,
    >)
        ensures
            warnings matches Ok(list) && views(list@) == match capabilities {
                Ok(found) => capability_warnings(*found),
                Err(error) => seq!["Could not check bridge capabilities: "@ + error@.description()],
            },
    {
        let mut warnings: Vec<String> = Vec::new();
        assert(views(warnings@) =~= Seq::<Seq<char>>::empty());
        match capabilities {
            Ok(found) => {
                if found.scenes.available < 10 {
                    warnings.push(String::from_str("Bridge is running low on scene storage"));
                }
                let ghost first = views(warnings@);
                assert(first =~= if found.scenes.available < 10 {
                    seq!["Bridge is running low on scene storage"@]
                } else {
                    Seq::<Seq<char>>::empty()
                });
                if found.lights.total < 2 {
                    warnings.push(String::from_str("Bridge has very few lights connected"));
                    assert(views(warnings@) =~= first.push("Bridge has very few lights connected"@));
                }
                assert(views(warnings@) =~= capability_warnings(*found));
            },
            Err(error) => {
                let text = error.to_string();
                warnings.push(concat2("Could not check bridge capabilities: ", text.as_str()));
                assert(views(warnings@) =~= seq!["Could not check bridge capabilities: "@ + error@.description()]);
            },
        }
        Ok(warnings)
    }
}

/// The steps of a setup with `options`, in order. The validation is left
/// out where the options skip it.
pub open spec fn planned_steps(options: SetupOptions) -> Seq<SetupStep> {
    let first = seq![
        SetupStep::Initialize,
        SetupStep::DiscoverBridge,
        SetupStep::AuthenticateBridge,
        SetupStep::DiscoverLights,
        SetupStep::CreateScenes,
    ];
    let checked = if options.skip_validation {
        first
    } else {
        first.push(SetupStep::ValidateSetup)
    };
    checked.push(SetupStep::SaveConfiguration).push(SetupStep::Complete)
}

impl SetupOptions {
    /// Plans a setup: its steps in order, or the refusal to touch a
    /// configuration that exists already unless the setup is forced.
    pub fn plan(&self, config_exists: bool) -> (steps: Result<Vec<SetupStep>>)
        ensures
            match steps {
                Ok(planned) => (self.force || !config_exists) && planned@ == planned_steps(*self),
                Err(error) => !self.force && config_exists && error@ == (ErrorView::SetupFailed {
                    reason: "Configuration already exists"@,
                }),
            },
    {
        if !self.force && config_exists {
            return Err(HueStatusError::SetupFailed { reason: String::from_str("Configuration already exists") });
        }
        let mut steps: Vec<SetupStep> = Vec::new();
        steps.push(SetupStep::Initialize);
        steps.push(SetupStep::DiscoverBridge);
        steps.push(SetupStep::AuthenticateBridge);
        steps.push(SetupStep::DiscoverLights);
        steps.push(SetupStep::CreateScenes);
        if !self.skip_validation {
            steps.push(SetupStep::ValidateSetup);
        }
        steps.push(SetupStep::SaveConfiguration);
        steps.push(SetupStep::Complete);
        assert(steps@ =~= planned_steps(*self));
        Ok(steps)
    }
}

/// One status scene of a setup: its name, and the outcome of fetching it
/// from the bridge.
#[derive(Debug, PartialEq, Eq)]
pub struct SceneCheck {
    pub scene_name: String,
    pub fetched: Result<()>,
}

/// The warning that the outcome of the connection test gives rise to.
pub open spec fn connection_warnings(connection: Result<()>) -> Seq<Seq<char>> {
    match connection {
        Ok(()) => Seq::empty(),
        Err(error) => seq!["Bridge connection issue: "@ + error@.description()],
    }
}

/// The warning that the outcome of looking for suitable lights gives rise
/// to: none were found, only one was found, or the lights could not be
/// had.
pub open spec fn light_warnings(lights: Result<Vec<(String, Light)>>) -> Seq<Seq<char>> {
    match lights {
        Ok(found) => if found@.len() == 0 {
            seq!["No suitable lights found for status indication"@]
        } else if found@.len() < 2 {
            seq!["Only one suitable light found - consider adding more for better visibility"@]
        } else {
            Seq::empty()
        },
        Err(error) => seq!["Failed to get lights: "@ + error@.description()],
    }
}

/// The warnings that the first `n` scene checks give rise to: one for
/// every scene that could not be fetched.
pub open spec fn scene_warnings(scenes: Seq<SceneCheck>, n: int) -> Seq<Seq<char>>
    decreases n,
{
    if n <= 0 {
        Seq::empty()
    } else {
        let rest = scene_warnings(scenes, n - 1);
        match scenes[n - 1].fetched {
            Ok(()) => rest,
            Err(error) => rest.push(
                "Scene '"@ + scenes[n - 1].scene_name@ + "' not found: "@ + error@.description(),
            ),
        }
    }
}

/// The warnings of a setup: those of the connection, then those of the
/// lights, then those of the scenes.
pub open spec fn setup_warnings(
    connection: Result<()>,
    lights: Result<Vec<(String, Light)>>,
    scenes: Seq<SceneCheck>,
) -> Seq<Seq<char>> {
    connection_warnings(connection) + light_warnings(lights) + scene_warnings(scenes, scenes.len() as int)
}

impl SetupValidator {
    /// The warnings of a setup, from the outcome of the connection test,
    /// the outcome of looking for suitable lights, and the outcome of
    /// fetching each status scene.
    pub fn validate_setup(
        &self,
        connection: &Result<()>,
        lights: &Result<Vec<(String, Light)>>,
        scenes: &Vec<SceneCheck>,
    ) -> (warnings: Vec<String>)
        ensures
            views(warnings@) == setup_warnings(*connection, *lights, scenes@),
    {
        let mut warnings: Vec<String> = Vec::new();
        assert(views(warnings@) =~= Seq::<Seq<char>>::empty());
        if let Err(error) = connection {
            warnings.push(concat2("Bridge connection issue: ", error.to_string().as_str()));
        }
        assert(views(warnings@) =~= connection_warnings(*connection));
        let ghost first = views(warnings@);
        match lights {
            Ok(found) => {
                if found.len() == 0 {
                    warnings.push(String::from_str("No suitable lights found for status indication"));
                } else if found.len() < 2 {
                    warnings.push(
                        String::from_str("Only one suitable light found - consider adding more for better visibility"),
                    );
                }
            },
            Err(error) => {
                warnings.push(concat2("Failed to get lights: ", error.to_string().as_str()));
            },
        }
        assert(views(warnings@) =~= first + light_warnings(*lights));
        let ghost second = views(warnings@);
        let mut i: usize = 0;
        while i < scenes.len()
            invariant
                i <= scenes.len(),
                second == connection_warnings(*connection) + light_warnings(*lights),
                views(warnings@) == second + scene_warnings(scenes@, i as int),
            decreases scenes.len() - i,
        {
            let ghost before = views(warnings@);
            if let Err(error) = &scenes[i].fetched {
                let mut warning = concat3("Scene '", scenes[i].scene_name.as_str(), "' not found: ");
                warning.append(error.to_string().as_str());
                warnings.push(warning);
                assert(views(warnings@) =~= before.push(
                    "Scene '"@ + scenes@[i as int].scene_name@ + "' not found: "@ + error@.description(),
                ));
            }
            assert(views(warnings@) =~= second + scene_warnings(scenes@, i as int + 1));
            i += 1;
        }
        warnings
    }
}

} // verus!
