//! Building scenes: the builder, the criteria by which lights are selected,
//! and colour presets.

use crate::bridge::client::BridgeClient;
use crate::bridge::{CreateSceneRequest, Light, LightState, LightStateView, Scene, XyColor};
use crate::error::{ErrorView, HueStatusError, Result};
use crate::scenes::{ids_of, state_of, ColorDefinition, SceneManager};
use crate::seqs::kept;
use crate::string_map::{distinct_keys, StringMap};
use crate::text::{concat2, concat3, decimal, join, joined, same_text, u64_to_string, views};
use vstd::prelude::*;
use vstd::string::*;

verus! {

/// A builder of scene requests.
#[derive(Debug, Clone, PartialEq, Eq)]
pub struct SceneBuilder {
    pub name: String,
    pub lights: Vec<String>,
    pub color: Option<ColorDefinition>,
    pub brightness: Option<u8>,
    pub recyclable: bool,
    pub custom_states: StringMap<LightState>,
}

/// The options of the creation of a scene.
#[derive(Debug, Clone, Copy, PartialEq, Eq)]
pub struct SceneCreationOptions {
    pub brightness: u8,
    pub use_xy_color: bool,
    pub validate_lights: bool,
    pub test_execution: bool,
    pub backup_existing: bool,
}

/// The criteria by which lights are selected for a scene.
#[derive(Debug, Clone, PartialEq, Eq)]
pub struct LightSelectionCriteria {
    pub require_color_support: bool,
    pub require_reachable: bool,
    pub exclude_light_types: Vec<String>,
    pub include_only_light_types: Vec<String>,
    pub min_brightness_support: Option<u8>,
    pub room_filter: Option<Vec<String>>,
}

/// Colour presets.
#[derive(Debug, Clone, Copy, PartialEq, Eq)]
pub struct ColorPresets;

/// The creator of scenes on one bridge.
#[derive(Debug, Clone, PartialEq, Eq)]
pub struct SceneCreator {
    pub client: BridgeClient,
    pub verbose: bool,
}

impl Default for SceneCreationOptions {
    fn default() -> (options: Self)
        ensures
            options == (SceneCreationOptions {
                brightness: 254,
                use_xy_color: false,
                validate_lights: true,
                test_execution: false,
                backup_existing: false,
            }),
    {
        SceneCreationOptions {
            brightness: 254,
            use_xy_color: false,
            validate_lights: true,
            test_execution: false,
            backup_existing: false,
        }
    }
}

/// Whether `list` holds the text `text`.
pub open spec fn lists_text(list: Seq<String>, text: Seq<char>) -> bool {
    exists|i: int| 0 <= i < list.len() && (#[trigger] list[i])@ == text
}

/// Tells whether `list` holds the text `text`.
pub fn contains_text(list: &Vec<String>, text: &str) -> (found: bool)
    ensures
        found == lists_text(list@, text@),
{
    let mut i: usize = 0;
    while i < list.len()
        invariant
            i <= list.len(),
            forall|j: int| 0 <= j < i ==> (#[trigger] list@[j])@ != text@,
        decreases list.len() - i,
    {
        if same_text(list[i].as_str(), text) {
            return true;
        }
        i += 1;
    }
    false
}

/// The state of a white light at a colour temperature of 366 mired.
pub open spec fn white_state(brightness: Option<u8>) -> LightStateView {
    LightStateView {
        on: true,
        bri: match brightness {
            Some(b) => Some(b),
            None => Some(254u8),
        },
        hue: None,
        sat: None,
        effect: None,
        xy: None,
        ct: Some(366u16),
        alert: None,
        colormode: Some("ct"@),
        mode: None,
        reachable: None,
    }
}

impl SceneBuilder {
    /// The state that the builder gives to the light `light_id`: its custom
    /// state where it has one; otherwise the builder's colour, at the
    /// builder's brightness where one is set; otherwise white.
    pub open spec fn state_for(&self, light_id: Seq<char>) -> LightStateView {
        match self.custom_states.value_of(light_id) {
            Some(custom) => custom@,
            None => match self.color {
                Some(color) => match self.brightness {
                    Some(b) => LightStateView { bri: Some(b), ..state_of(color) },
                    None => state_of(color),
                },
                None => white_state(self.brightness),
            },
        }
    }

    /// What keeps the builder from building: no name, or no light.
    pub open spec fn defect(&self) -> Option<ErrorView> {
        if self.name@.len() == 0 {
            Some(ErrorView::InvalidSceneData { reason: "Scene name cannot be empty"@ })
        } else if self.lights@.len() == 0 {
            Some(ErrorView::InvalidSceneData { reason: "Scene must have at least one light"@ })
        } else {
            None
        }
    }

    /// Whether `request` is what the builder builds.
    pub open spec fn builds(&self, request: CreateSceneRequest) -> bool {
        &&& request.name == self.name
        &&& request.lights == self.lights
        &&& request.recycle == self.recyclable
        &&& distinct_keys(request.lightstates.entries@)
        &&& forall|i: int|
            0 <= i < self.lights@.len() ==> is_built(
                #[trigger] request.lightstates.value_of(self.lights@[i]@),
                self.state_for(self.lights@[i]@),
            )
        &&& forall|k: Seq<char>| #[trigger]
            request.lightstates.has(k) ==> exists|i: int| 0 <= i < self.lights@.len() && (
            #[trigger] self.lights@[i])@ == k
    }

    /// A builder for a scene named `name`, without lights.
    pub fn new(name: String) -> (builder: Self)
        ensures
            builder.name == name,
            builder.lights@.len() == 0,
            builder.color is None,
            builder.brightness is None,
            builder.recyclable,
            builder.custom_states.entries@.len() == 0,
    {
        SceneBuilder {
            name,
            lights: Vec::new(),
            color: None,
            brightness: None,
            recyclable: true,
            custom_states: StringMap::new(),
        }
    }

    /// The builder with the lights `lights`.
    pub fn with_lights(self, lights: Vec<String>) -> (builder: Self)
        ensures
            builder == (SceneBuilder { lights, ..self }),
    {
        let mut builder = self;
        builder.lights = lights;
        builder
    }

    /// The builder with the colour `color` for all lights.
    pub fn with_color(self, color: ColorDefinition) -> (builder: Self)
        ensures
            builder == (SceneBuilder { color: Some(color), ..self }),
    {
        let mut builder = self;
        builder.color = Some(color);
        builder
    }

    /// The builder with the brightness `brightness` for all lights.
    pub fn with_brightness(self, brightness: u8) -> (builder: Self)
        ensures
            builder == (SceneBuilder { brightness: Some(brightness), ..self }),
    {
        let mut builder = self;
        builder.brightness = Some(brightness);
        builder
    }

    /// The builder for a scene that the bridge may or may not delete when
    /// it needs room.
    pub fn recyclable(self, recyclable: bool) -> (builder: Self)
        ensures
            builder == (SceneBuilder { recyclable, ..self }),
    {
        let mut builder = self;
        builder.recyclable = recyclable;
        builder
    }

    /// The builder with the custom state `state` for the light `light_id`.
    pub fn with_light_state(self, light_id: String, state: LightState) -> (builder: Self)
        ensures
            builder.name == self.name,
            builder.lights == self.lights,
            builder.color == self.color,
            builder.brightness == self.brightness,
            builder.recyclable == self.recyclable,
            builder.custom_states.value_of(light_id@) == Some(state),
            forall|other: Seq<char>|
                other != light_id@ ==> #[trigger] builder.custom_states.value_of(other)
                    == self.custom_states.value_of(other),
    {
        let mut builder = self;
        builder.custom_states.insert(light_id, state);
        builder
    }

    fn state_of_light(&self, light_id: &str) -> (state: LightState)
        ensures
            state@ == self.state_for(light_id@),
    {
        match self.custom_states.get(light_id) {
            Some(custom) => custom.clone(),
            None => match &self.color {
                Some(color) => {
                    let mut state = color.to_light_state();
                    if let Some(brightness) = self.brightness {
                        state.bri = Some(brightness);
                    }
                    state
                },
                None => LightState {
                    on: true,
                    bri: match self.brightness {
                        Some(b) => Some(b),
                        None => Some(254),
                    },
                    hue: None,
                    sat: None,
                    effect: None,
                    xy: None,
                    ct: Some(366),
                    alert: None,
                    colormode: Some(String::from_str("ct")),
                    mode: None,
                    reachable: None,
                },
            },
        }
    }

    /// Builds the scene request: every light gets its state.
    pub fn build(self) -> (result: Result<CreateSceneRequest>)
        ensures
            match result {
                Ok(request) => self.defect() is None && self.builds(request),
                Err(error) => self.defect() == Some(error@),
            },
    {
        if self.name.as_str().is_empty() {
            return Err(HueStatusError::InvalidSceneData { reason: String::from_str("Scene name cannot be empty") });
        }
        if self.lights.len() == 0 {
            return Err(
                HueStatusError::InvalidSceneData { reason: String::from_str("Scene must have at least one light") },
            );
        }
        let mut lightstates: StringMap<LightState> = StringMap::new();
        let mut i: usize = 0;
        while i < self.lights.len()
            invariant
                i <= self.lights.len(),
                distinct_keys(lightstates.entries@),
                forall|j: int|
                    0 <= j < i ==> is_built(
                        #[trigger] lightstates.value_of(self.lights@[j]@),
                        self.state_for(self.lights@[j]@),
                    ),
                forall|k: Seq<char>| #[trigger]
                    lightstates.has(k) ==> exists|j: int| 0 <= j < i && (#[trigger] self.lights@[j])@ == k,
            decreases self.lights.len() - i,
        {
            let ghost before = lightstates;
            let state = self.state_of_light(self.lights[i].as_str());
            lightstates.insert(self.lights[i].clone(), state);
            proof {
                let key = self.lights@[i as int]@;
                assert forall|j: int| 0 <= j < i + 1 implies is_built(
                    #[trigger] lightstates.value_of(self.lights@[j]@),
                    self.state_for(self.lights@[j]@),
                ) by {
                    if self.lights@[j]@ != key {
                        assert(is_built(before.value_of(self.lights@[j]@), self.state_for(self.lights@[j]@)));
                    }
                }
                assert forall|k: Seq<char>| #[trigger] lightstates.has(k) implies exists|j: int|
                    0 <= j < i + 1 && (#[trigger] self.lights@[j])@ == k by {
                    if k == key {
                        assert(self.lights@[i as int]@ == k);
                    } else {
                        assert(before.has(k));
                        let j = choose|j: int| 0 <= j < i && (#[trigger] self.lights@[j])@ == k;
                        assert(0 <= j < i + 1);
                    }
                }
            }
            i += 1;
        }
        Ok(CreateSceneRequest { name: self.name, lights: self.lights, recycle: self.recyclable, lightstates })
    }

    /// Builds the scene request and checks it.
    pub fn build_validated(self) -> (result: Result<CreateSceneRequest>)
        ensures
            match result {
                Ok(request) => self.defect() is None && self.builds(request) && request.defect() is None,
                Err(error) => self.defect() == Some(error@) || (self.defect() is None && exists|
                    request: CreateSceneRequest,
                |
                    self.builds(request) && #[trigger] request.defect() == Some(error@)),
            },
    {
        let request = self.build()?;
        match request.validate() {
            Ok(()) => Ok(request),
            Err(error) => Err(error),
        }
    }
}

/// Whether `found` is a state whose value is `state`.
pub open spec fn is_built(found: Option<LightState>, state: LightStateView) -> bool {
    found matches Some(s) && s@ == state
}

impl Default for LightSelectionCriteria {
    fn default() -> (criteria: Self)
        ensures
            criteria.require_color_support,
            criteria.require_reachable,
            criteria.exclude_light_types@.len() == 0,
            criteria.include_only_light_types@.len() == 0,
            criteria.min_brightness_support is None,
            criteria.room_filter is None,
    {
        LightSelectionCriteria {
            require_color_support: true,
            require_reachable: true,
            exclude_light_types: Vec::new(),
            include_only_light_types: Vec::new(),
            min_brightness_support: None,
            room_filter: None,
        }
    }
}

impl LightSelectionCriteria {
    /// Whether `light` meets the criteria: it is reachable and supports
    /// colour where that is required, its type is not excluded, its type is
    /// among the included types where any are given, and it is at least as
    /// bright as required.
    pub open spec fn admits(&self, light: Light) -> bool {
        &&& self.require_reachable ==> light.reachable()
        &&& self.require_color_support ==> light.has_color()
        &&& !lists_text(self.exclude_light_types@, light.light_type@)
        &&& self.include_only_light_types@.len() > 0 ==> lists_text(
            self.include_only_light_types@,
            light.light_type@,
        )
        &&& self.min_brightness_support matches Some(min) ==> (match light.state.bri {
            Some(b) => b,
            None => 0u8,
        }) >= min
    }

    /// Whether an entry of a listing is a light that meets the criteria.
    pub open spec fn admits_entry(&self) -> spec_fn((String, Light)) -> bool {
        |entry: (String, Light)| self.admits(entry.1)
    }

    /// The parts of the summary of the criteria.
    pub open spec fn summary_parts(&self) -> Seq<Seq<char>> {
        let parts = Seq::<Seq<char>>::empty();
        let parts = if self.require_reachable {
            parts.push("reachable"@)
        } else {
            parts
        };
        let parts = if self.require_color_support {
            parts.push("color-capable"@)
        } else {
            parts
        };
        let parts = if self.exclude_light_types@.len() > 0 {
            parts.push("excluding: "@ + joined(views(self.exclude_light_types@), ", "@))
        } else {
            parts
        };
        let parts = if self.include_only_light_types@.len() > 0 {
            parts.push("only: "@ + joined(views(self.include_only_light_types@), ", "@))
        } else {
            parts
        };
        match self.min_brightness_support {
            Some(min) => parts.push("min brightness: "@ + decimal(min as nat)),
            None => parts,
        }
    }

    /// The summary of the criteria: their parts, separated by commas, or
    /// `any lights` where there is none.
    pub open spec fn summary_text(&self) -> Seq<char> {
        if self.summary_parts().len() == 0 {
            "any lights"@
        } else {
            joined(self.summary_parts(), ", "@)
        }
    }

    /// The criteria for status scenes: reachable lights with colour, no
    /// sensors, with a brightness of at least 1.
    pub fn for_status_scenes() -> (criteria: Self)
        ensures
            criteria.require_color_support,
            criteria.require_reachable,
            views(criteria.exclude_light_types@) == seq!["Motion sensor"@, "Daylight"@],
            criteria.include_only_light_types@.len() == 0,
            criteria.min_brightness_support == Some(1u8),
            criteria.room_filter is None,
    {
        let mut exclude: Vec<String> = Vec::new();
        exclude.push(String::from_str("Motion sensor"));
        exclude.push(String::from_str("Daylight"));
        assert(views(exclude@) =~= seq!["Motion sensor"@, "Daylight"@]);
        LightSelectionCriteria {
            require_color_support: true,
            require_reachable: true,
            exclude_light_types: exclude,
            include_only_light_types: Vec::new(),
            min_brightness_support: Some(1),
            room_filter: None,
        }
    }

    /// Criteria that admit every light.
    pub fn permissive() -> (criteria: Self)
        ensures
            !criteria.require_color_support,
            !criteria.require_reachable,
            criteria.exclude_light_types@.len() == 0,
            criteria.include_only_light_types@.len() == 0,
            criteria.min_brightness_support is None,
            criteria.room_filter is None,
            forall|light: Light| #[trigger] criteria.admits(light),
    {
        let criteria = LightSelectionCriteria {
            require_color_support: false,
            require_reachable: false,
            exclude_light_types: Vec::new(),
            include_only_light_types: Vec::new(),
            min_brightness_support: None,
            room_filter: None,
        };
        assert forall|light: Light| #[trigger] criteria.admits(light) by {
            assert(!lists_text(criteria.exclude_light_types@, light.light_type@));
        }
        criteria
    }

    /// Tells whether `light` meets the criteria.
    pub fn matches_criteria(&self, light: &Light) -> (yes: bool)
        ensures
            yes == self.admits(*light),
    {
        if self.require_reachable && !light.is_reachable() {
            return false;
        }
        if self.require_color_support && !light.supports_color() {
            return false;
        }
        if contains_text(&self.exclude_light_types, light.light_type.as_str()) {
            return false;
        }
        if self.include_only_light_types.len() > 0 && !contains_text(
            &self.include_only_light_types,
            light.light_type.as_str(),
        ) {
            return false;
        }
        if let Some(min) = self.min_brightness_support {
            if light.brightness() < min {
                return false;
            }
        }
        true
    }

    /// The lights of `lights` that meet the criteria, in order.
    pub fn filter_lights(&self, lights: &Vec<(String, Light)>) -> (selected: Vec<(String, Light)>)
        ensures
            selected@ == kept(lights@, self.admits_entry(), lights@.len() as int),
    {
        let mut selected: Vec<(String, Light)> = Vec::new();
        let mut i: usize = 0;
        while i < lights.len()
            invariant
                i <= lights.len(),
                selected@ == kept(lights@, self.admits_entry(), i as int),
            decreases lights.len() - i,
        {
            if self.matches_criteria(&lights[i].1) {
                selected.push((lights[i].0.clone(), lights[i].1.clone()));
            }
            i += 1;
        }
        selected
    }

    /// Renders the summary of the criteria.
    pub fn summary(&self) -> (text: String)
        ensures
            text@ == self.summary_text(),
    {
        let mut parts: Vec<String> = Vec::new();
        let ghost mut expected = Seq::<Seq<char>>::empty();
        assert(views(parts@) =~= expected);
        if self.require_reachable {
            parts.push(String::from_str("reachable"));
            proof {
                expected = expected.push("reachable"@);
            }
        }
        assert(views(parts@) =~= expected);
        if self.require_color_support {
            parts.push(String::from_str("color-capable"));
            proof {
                expected = expected.push("color-capable"@);
            }
        }
        assert(views(parts@) =~= expected);
        if self.exclude_light_types.len() > 0 {
            let list = join(&self.exclude_light_types, ", ");
            parts.push(concat2("excluding: ", list.as_str()));
            proof {
                expected = expected.push("excluding: "@ + joined(views(self.exclude_light_types@), ", "@));
            }
        }
        assert(views(parts@) =~= expected);
        if self.include_only_light_types.len() > 0 {
            let list = join(&self.include_only_light_types, ", ");
            parts.push(concat2("only: ", list.as_str()));
            proof {
                expected = expected.push("only: "@ + joined(views(self.include_only_light_types@), ", "@));
            }
        }
        assert(views(parts@) =~= expected);
        if let Some(min) = self.min_brightness_support {
            parts.push(concat2("min brightness: ", u64_to_string(min as u64).as_str()));
            proof {
                expected = expected.push("min brightness: "@ + decimal(min as nat));
            }
        }
        assert(views(parts@) =~= expected);
        if parts.len() == 0 {
            String::from_str("any lights")
        } else {
            join(&parts, ", ")
        }
    }
}

fn preset(name: &str, hue: u16, saturation: u8, x_bits: u64, y_bits: u64) -> (color: ColorDefinition)
    ensures
        color.name@ == name@,
        color.hue == hue,
        color.saturation == saturation,
        color.brightness == 254,
        color.xy == Some(XyColor { x_bits, y_bits }),
{
    ColorDefinition {
        hue,
        saturation,
        brightness: 254,
        xy: Some(XyColor { x_bits, y_bits }),
        name: String::from_str(name),
    }
}

impl ColorPresets {
    /// Warm white: no saturation, at the chromaticity (0.448, 0.407).
    pub fn warm_white() -> (color: ColorDefinition)
        ensures
            color.name@ == "Warm White"@,
            color.hue == 0,
            color.saturation == 0,
            color.brightness == 254,
            color.xy == Some(XyColor { x_bits: 0x3fdcac083126e979, y_bits: 0x3fda0c49ba5e353f }),
    {
        preset("Warm White", 0, 0, 0x3fdcac083126e979, 0x3fda0c49ba5e353f)
    }

    /// Cool white: no saturation, at the chromaticity (0.313, 0.329).
    pub fn cool_white() -> (color: ColorDefinition)
        ensures
            color.name@ == "Cool White"@,
            color.hue == 0,
            color.saturation == 0,
            color.brightness == 254,
            color.xy == Some(XyColor { x_bits: 0x3fd4083126e978d5, y_bits: 0x3fd50e5604189375 }),
    {
        preset("Cool White", 0, 0, 0x3fd4083126e978d5, 0x3fd50e5604189375)
    }

    /// Blue: a hue of 240 degrees, at the chromaticity (0.167, 0.040).
    pub fn blue() -> (color: ColorDefinition)
        ensures
            color.name@ == "Blue"@,
            color.hue == 43690,
            color.saturation == 254,
            color.brightness == 254,
            color.xy == Some(XyColor { x_bits: 0x3fc5604189374bc7, y_bits: 0x3fa47ae147ae147b }),
    {
        preset("Blue", 43690, 254, 0x3fc5604189374bc7, 0x3fa47ae147ae147b)
    }

    /// Orange: a hue of 30 degrees, at the chromaticity (0.592, 0.382).
    pub fn orange() -> (color: ColorDefinition)
        ensures
            color.name@ == "Orange"@,
            color.hue == 5461,
            color.saturation == 254,
            color.brightness == 254,
            color.xy == Some(XyColor { x_bits: 0x3fe2f1a9fbe76c8b, y_bits: 0x3fd872b020c49ba6 }),
    {
        preset("Orange", 5461, 254, 0x3fe2f1a9fbe76c8b, 0x3fd872b020c49ba6)
    }

    /// Purple: a hue of 270 degrees, at the chromaticity (0.245, 0.098).
    pub fn purple() -> (color: ColorDefinition)
        ensures
            color.name@ == "Purple"@,
            color.hue == 49151,
            color.saturation == 254,
            color.brightness == 254,
            color.xy == Some(XyColor { x_bits: 0x3fcf5c28f5c28f5c, y_bits: 0x3fb916872b020c4a }),
    {
        preset("Purple", 49151, 254, 0x3fcf5c28f5c28f5c, 0x3fb916872b020c4a)
    }

    /// All presets: warm white, cool white, blue, orange and purple.
    pub fn all_presets() -> (colors: Vec<ColorDefinition>)
        ensures
            colors@.len() == 5,
            colors@[0].name@ == "Warm White"@,
            colors@[1].name@ == "Cool White"@,
            colors@[2].name@ == "Blue"@,
            colors@[3].name@ == "Orange"@,
            colors@[4].name@ == "Purple"@,
    {
        let mut colors: Vec<ColorDefinition> = Vec::new();
        colors.push(Self::warm_white());
        colors.push(Self::cool_white());
        colors.push(Self::blue());
        colors.push(Self::orange());
        colors.push(Self::purple());
        colors
    }
}

/// The issues that the validation of the first `n` selected lights finds:
/// a light that is not reachable, and a light that supports neither colour
/// nor colour temperature.
pub open spec fn light_issues(lights: Seq<(String, Light)>, n: int) -> Seq<Seq<char>>
    decreases n,
{
    if n <= 0 {
        Seq::empty()
    } else {
        let rest = light_issues(lights, n - 1);
        let (id, light) = lights[n - 1];
        let rest = if light.reachable() {
            rest
        } else {
            rest.push("Light '"@ + light.name@ + "' ("@ + id@ + ") is not reachable"@)
        };
        if light.has_color() || light.has_color_temperature() {
            rest
        } else {
            rest.push(
                "Light '"@ + light.name@ + "' ("@ + id@ + ") does not support color or color temperature"@,
            )
        }
    }
}

/// What is wrong with the selected lights, if anything.
pub open spec fn lights_defect(lights: Seq<(String, Light)>) -> Option<ErrorView> {
    if light_issues(lights, lights.len() as int).len() > 0 {
        Some(
            ErrorView::ValidationFailed {
                reason: "Light validation failed: "@ + joined(light_issues(lights, lights.len() as int), ", "@),
            },
        )
    } else {
        None
    }
}

/// The last index below `n` at which `lights` holds the identifier `key`,
/// or -1 where there is none.
pub open spec fn last_of(lights: Seq<String>, n: int, key: Seq<char>) -> int
    decreases n,
{
    if n <= 0 {
        -1
    } else if lights[n - 1]@ == key {
        n - 1
    } else {
        last_of(lights, n - 1, key)
    }
}

/// Where an identifier occurs, its last occurrence is an index at which it
/// stands.
pub proof fn lemma_last_of(lights: Seq<String>, n: int, key: Seq<char>)
    requires
        0 <= n <= lights.len(),
    ensures
        -1 <= last_of(lights, n, key) < n,
        last_of(lights, n, key) >= 0 ==> lights[last_of(lights, n, key)]@ == key,
        forall|i: int| 0 <= i < n && lights[i]@ == key ==> i <= last_of(lights, n, key),
    decreases n,
{
    if n > 0 {
        lemma_last_of(lights, n - 1, key);
    }
}

/// Whether `found` is the state that the last of the first `n` lights with
/// the identifier `key` gets from `states`, or nothing where no light has
/// that identifier.
pub open spec fn is_assigned(found: Option<LightState>, lights: Seq<String>, states: Seq<LightState>, n: int, key: Seq<
    char,
>) -> bool {
    if last_of(lights, n, key) >= 0 {
        found == Some(states[last_of(lights, n, key)])
    } else {
        found is None
    }
}

/// Gives the light number `i` of the builder the custom state number `i`
/// of `states`. Where a light occurs more than once, its last state counts.
fn with_states(builder: SceneBuilder, states: Vec<LightState>) -> (assigned: SceneBuilder)
    requires
        states@.len() == builder.lights@.len(),
        builder.custom_states.entries@.len() == 0,
    ensures
        assigned.name == builder.name,
        assigned.lights == builder.lights,
        assigned.color == builder.color,
        assigned.brightness == builder.brightness,
        assigned.recyclable == builder.recyclable,
        forall|key: Seq<char>|
            is_assigned(
                #[trigger] assigned.custom_states.value_of(key),
                builder.lights@,
                states@,
                builder.lights@.len() as int,
                key,
            ),
{
    let mut assigned = builder;
    let mut remaining = states;
    let mut i: usize = 0;
    assert forall|key: Seq<char>|
        is_assigned(#[trigger] assigned.custom_states.value_of(key), builder.lights@, states@, 0, key) by {
        assert(!crate::string_map::has_key(assigned.custom_states.entries@, key));
    }
    while i < assigned.lights.len()
        invariant
            i <= assigned.lights.len(),
            states@.len() == builder.lights@.len(),
            assigned.name == builder.name,
            assigned.lights == builder.lights,
            assigned.color == builder.color,
            assigned.brightness == builder.brightness,
            assigned.recyclable == builder.recyclable,
            remaining@ == states@.skip(i as int),
            forall|key: Seq<char>|
                is_assigned(
                    #[trigger] assigned.custom_states.value_of(key),
                    builder.lights@,
                    states@,
                    i as int,
                    key,
                ),
        decreases assigned.lights.len() - i,
    {
        let ghost before = assigned.custom_states;
        let state = remaining.remove(0);
        assert(state == states@[i as int]);
        let light_id = assigned.lights[i].clone();
        assigned.custom_states.insert(light_id, state);
        proof {
            assert forall|key: Seq<char>|
                is_assigned(
                    #[trigger] assigned.custom_states.value_of(key),
                    builder.lights@,
                    states@,
                    i as int + 1,
                    key,
                ) by {
                if key != builder.lights@[i as int]@ {
                    assert(is_assigned(before.value_of(key), builder.lights@, states@, i as int, key));
                }
            }
            assert(remaining@ =~= states@.skip(i as int + 1));
        }
        i += 1;
    }
    assigned
}

/// The state of a colour at a given brightness.
pub open spec fn dimmed(color: ColorDefinition, brightness: u8) -> LightStateView {
    LightStateView { bri: Some(brightness), ..state_of(color) }
}

fn dimmed_state(color: &ColorDefinition, brightness: u8) -> (state: LightState)
    ensures
        state@ == dimmed(*color, brightness),
{
    let mut state = color.to_light_state();
    state.bri = Some(brightness);
    state
}

/// What keeps a gradient scene from being created.
pub open spec fn gradient_defect(name: Seq<char>, lights: int, colors: int) -> Option<ErrorView> {
    if lights == 0 {
        Some(ErrorView::InvalidSceneData { reason: "No lights specified for gradient scene"@ })
    } else if colors == 0 {
        Some(ErrorView::InvalidSceneData { reason: "No colors specified for gradient scene"@ })
    } else if name.len() == 0 {
        Some(ErrorView::InvalidSceneData { reason: "Scene name cannot be empty"@ })
    } else {
        None
    }
}

/// What keeps a breathing scene from being created.
pub open spec fn breathing_defect(name: Seq<char>, lights: int, min_brightness: u8, max_brightness: u8) -> Option<
    ErrorView,
> {
    if min_brightness >= max_brightness {
        Some(
            ErrorView::InvalidSceneData {
                reason: "Minimum brightness must be less than maximum brightness"@,
            },
        )
    } else if name.len() == 0 {
        Some(ErrorView::InvalidSceneData { reason: "Scene name cannot be empty"@ })
    } else if lights == 0 {
        Some(ErrorView::InvalidSceneData { reason: "Scene must have at least one light"@ })
    } else {
        None
    }
}

/// Whether `request` is the scene `name` over `lights` in which the light
/// at each index has the state that `state_at` gives for the last index at
/// which the same light stands.
pub open spec fn is_patterned(request: CreateSceneRequest, name: String, lights: Vec<String>, state_at: spec_fn(
    int,
) -> LightStateView) -> bool {
    &&& request.name == name
    &&& request.lights == lights
    &&& request.recycle
    &&& forall|i: int|
        0 <= i < lights@.len() ==> is_built(
            #[trigger] request.lightstates.value_of(lights@[i]@),
            state_at(last_of(lights@, lights@.len() as int, lights@[i]@)),
        )
}

/// The state of the light at an index of a gradient: the colours are
/// handed out in turn.
pub open spec fn gradient_at(colors: Seq<ColorDefinition>, brightness: u8) -> spec_fn(int) -> LightStateView {
    |i: int| dimmed(colors[i % (colors.len() as int)], brightness)
}

/// The state of the light at an index of a breathing scene: the maximum
/// brightness at even indices, the minimum at odd ones.
pub open spec fn breathing_at(color: ColorDefinition, min_brightness: u8, max_brightness: u8) -> spec_fn(
    int,
) -> LightStateView {
    |i: int|
        dimmed(
            color,
            if i % 2 == 0 {
                max_brightness
            } else {
                min_brightness
            },
        )
}

fn finish_pattern(
    name: String,
    lights: Vec<String>,
    states: Vec<LightState>,
    Ghost(state_at): Ghost<spec_fn(int) -> LightStateView>,
) -> (result: Result<CreateSceneRequest>)
    requires
        states@.len() == lights@.len(),
        forall|i: int| 0 <= i < states@.len() ==> (#[trigger] states@[i])@ == state_at(i),
    ensures
        match result {
            Ok(request) => name@.len() > 0 && lights@.len() > 0 && is_patterned(request, name, lights, state_at),
            Err(error) => if name@.len() == 0 {
                error@ == (ErrorView::InvalidSceneData { reason: "Scene name cannot be empty"@ })
            } else {
                lights@.len() == 0 && error@ == (ErrorView::InvalidSceneData {
                    reason: "Scene must have at least one light"@,
                })
            },
        },
{
    let builder = with_states(SceneBuilder::new(name).with_lights(lights), states);
    match builder.build() {
        Ok(request) => {
            proof {
                assert forall|i: int| 0 <= i < lights@.len() implies is_built(
                    #[trigger] request.lightstates.value_of(lights@[i]@),
                    state_at(last_of(lights@, lights@.len() as int, lights@[i]@)),
                ) by {
                    let key = lights@[i]@;
                    lemma_last_of(lights@, lights@.len() as int, key);
                    assert(is_assigned(
                        builder.custom_states.value_of(key),
                        lights@,
                        states@,
                        lights@.len() as int,
                        key,
                    ));
                    assert(is_built(request.lightstates.value_of(builder.lights@[i]@), builder.state_for(key)));
                }
            }
            Ok(request)
        },
        Err(error) => Err(error),
    }
}

impl SceneCreator {
    /// A creator that uses `client`.
    pub fn new(client: BridgeClient) -> (creator: Self)
        ensures
            creator == (SceneCreator { client, verbose: false }),
    {
        SceneCreator { client, verbose: false }
    }

    /// The creator with verbose mode set.
    pub fn with_verbose(self, verbose: bool) -> (creator: Self)
        ensures
            creator == (SceneCreator { verbose, ..self }),
    {
        SceneCreator { client: self.client, verbose }
    }

    /// Checks the selected lights: each is reachable and supports colour or
    /// colour temperature. All issues are named.
    pub fn validate_lights(&self, lights: &Vec<(String, Light)>) -> (result: Result<()>)
        ensures
            match result {
                Ok(()) => lights_defect(lights@) is None,
                Err(error) => lights_defect(lights@) == Some(error@),
            },
    {
        let mut issues: Vec<String> = Vec::new();
        let mut i: usize = 0;
        assert(views(issues@) =~= light_issues(lights@, 0));
        while i < lights.len()
            invariant
                i <= lights.len(),
                views(issues@) == light_issues(lights@, i as int),
            decreases lights.len() - i,
        {
            let ghost before = views(issues@);
            let id = lights[i].0.as_str();
            let light = &lights[i].1;
            if !light.is_reachable() {
                let mut issue = concat3("Light '", light.name.as_str(), "' (");
                issue.append(id);
                issue.append(") is not reachable");
                issues.push(issue);
            }
            let ghost middle = views(issues@);
            assert(middle =~= if light.reachable() {
                before
            } else {
                before.push("Light '"@ + light.name@ + "' ("@ + id@ + ") is not reachable"@)
            });
            if !light.supports_color() && !light.supports_color_temperature() {
                let mut issue = concat3("Light '", light.name.as_str(), "' (");
                issue.append(id);
                issue.append(") does not support color or color temperature");
                issues.push(issue);
                assert(views(issues@) =~= middle.push(
                    "Light '"@ + light.name@ + "' ("@ + id@ + ") does not support color or color temperature"@,
                ));
            }
            i += 1;
        }
        if issues.len() > 0 {
            let list = join(&issues, ", ");
            return Err(HueStatusError::ValidationFailed { reason: concat2("Light validation failed: ", list.as_str()) });
        }
        Ok(())
    }

    /// Checks that a scene that was created can be executed: it is
    /// unlocked and has a light.
    pub fn test_scene_execution(&self, scene: &Scene) -> (result: Result<()>)
        ensures
            match result {
                Ok(()) => scene.suitable_for_status(),
                Err(error) => !scene.suitable_for_status() && error@ == (ErrorView::ValidationFailed {
                    reason: "Scene is not suitable for execution"@,
                }),
            },
    {
        if !scene.is_suitable_for_status() {
            return Err(
                HueStatusError::ValidationFailed { reason: String::from_str("Scene is not suitable for execution") },
            );
        }
        Ok(())
    }

    /// The request for a gradient scene: the colours are handed out to the
    /// lights in turn, at the brightness of the options.
    pub fn create_gradient_scene(
        &self,
        name: String,
        lights: Vec<String>,
        colors: &Vec<ColorDefinition>,
        options: &SceneCreationOptions,
    ) -> (result: Result<CreateSceneRequest>)
        ensures
            match result {
                Ok(request) => gradient_defect(name@, lights@.len() as int, colors@.len() as int) is None
                    && is_patterned(request, name, lights, gradient_at(colors@, options.brightness)),
                Err(error) => gradient_defect(name@, lights@.len() as int, colors@.len() as int) == Some(error@),
            },
    {
        if lights.len() == 0 {
            return Err(
                HueStatusError::InvalidSceneData { reason: String::from_str("No lights specified for gradient scene") },
            );
        }
        if colors.len() == 0 {
            return Err(
                HueStatusError::InvalidSceneData { reason: String::from_str("No colors specified for gradient scene") },
            );
        }
        let mut states: Vec<LightState> = Vec::new();
        let mut i: usize = 0;
        while i < lights.len()
            invariant
                i <= lights.len(),
                colors@.len() > 0,
                states@.len() == i,
                forall|j: int|
                    0 <= j < i ==> (#[trigger] states@[j])@ == gradient_at(colors@, options.brightness)(j),
            decreases lights.len() - i,
        {
            states.push(dimmed_state(&colors[i % colors.len()], options.brightness));
            i += 1;
        }
        finish_pattern(name, lights, states, Ghost(gradient_at(colors@, options.brightness)))
    }

    /// The request for a breathing scene: the lights alternate between the
    /// maximum and the minimum brightness.
    pub fn create_breathing_scene(
        &self,
        name: String,
        lights: Vec<String>,
        base_color: &ColorDefinition,
        min_brightness: u8,
        max_brightness: u8,
    ) -> (result: Result<CreateSceneRequest>)
        ensures
            match result {
                Ok(request) => breathing_defect(name@, lights@.len() as int, min_brightness, max_brightness) is None
                    && is_patterned(request, name, lights, breathing_at(*base_color, min_brightness, max_brightness)),
                Err(error) => breathing_defect(name@, lights@.len() as int, min_brightness, max_brightness) == Some(
                    error@,
                ),
            },
    {
        if min_brightness >= max_brightness {
            return Err(
                HueStatusError::InvalidSceneData {
                    reason: String::from_str("Minimum brightness must be less than maximum brightness"),
                },
            );
        }
        let mut states: Vec<LightState> = Vec::new();
        let mut i: usize = 0;
        while i < lights.len()
            invariant
                i <= lights.len(),
                states@.len() == i,
                forall|j: int|
                    0 <= j < i ==> (#[trigger] states@[j])@ == breathing_at(
                        *base_color,
                        min_brightness,
                        max_brightness,
                    )(j),
            decreases lights.len() - i,
        {
            let brightness = if i % 2 == 0 {
                max_brightness
            } else {
                min_brightness
            };
            states.push(dimmed_state(base_color, brightness));
            i += 1;
        }
        finish_pattern(name, lights, states, Ghost(breathing_at(*base_color, min_brightness, max_brightness)))
    }
}

/// The state that a clone of `source` gives to the light `key`: the state
/// that the source has for it, or its modification where there is one; a
/// light without a state in the source becomes white.
pub open spec fn clone_state(source: Scene, modifications: Option<StringMap<LightState>>, key: Seq<char>) -> LightStateView {
    match source.lightstates {
        Some(states) => match states.value_of(key) {
            Some(original) => match modifications {
                Some(changed) => match changed.value_of(key) {
                    Some(state) => state@,
                    None => original@,
                },
                None => original@,
            },
            None => white_state(None),
        },
        None => white_state(None),
    }
}

/// Whether `found` is the state that a clone takes over for an entry of
/// its source.
pub open spec fn is_taken_over(
    found: Option<LightState>,
    original: LightState,
    modifications: Option<StringMap<LightState>>,
    key: Seq<char>,
) -> bool {
    found matches Some(state) && state@ == (match modifications {
        Some(changed) => match changed.value_of(key) {
            Some(replaced) => replaced@,
            None => original@,
        },
        None => original@,
    })
}

/// What keeps a scene from being created for automatically selected
/// lights.
pub open spec fn selection_defect(
    name: Seq<char>,
    criteria: LightSelectionCriteria,
    options: SceneCreationOptions,
    all_lights: Seq<(String, Light)>,
) -> Option<ErrorView> {
    let selected = kept(all_lights, criteria.admits_entry(), all_lights.len() as int);
    if selected.len() == 0 {
        Some(ErrorView::NoLightsFound)
    } else if options.validate_lights && lights_defect(selected) is Some {
        lights_defect(selected)
    } else if name.len() == 0 {
        Some(ErrorView::InvalidSceneData { reason: "Scene name cannot be empty"@ })
    } else {
        None
    }
}

impl SceneCreator {
    /// The request for a scene of one colour over the lights of
    /// `all_lights` that meet `criteria`, at the brightness of the options.
    /// The selected lights are checked first where the options ask for it.
    pub fn create_with_auto_selection(
        &self,
        name: String,
        color: ColorDefinition,
        criteria: &LightSelectionCriteria,
        options: &SceneCreationOptions,
        all_lights: &Vec<(String, Light)>,
    ) -> (result: Result<CreateSceneRequest>)
        ensures
            match result {
                Ok(request) => selection_defect(name@, *criteria, *options, all_lights@) is None && request.name
                    == name && request.lights@ == ids_of(
                    kept(all_lights@, criteria.admits_entry(), all_lights@.len() as int),
                ) && request.recycle && forall|i: int|
                    0 <= i < request.lights@.len() ==> is_built(
                        #[trigger] request.lightstates.value_of(request.lights@[i]@),
                        dimmed(color, options.brightness),
                    ),
                Err(error) => selection_defect(name@, *criteria, *options, all_lights@) == Some(error@),
            },
    {
        let selected = criteria.filter_lights(all_lights);
        if selected.len() == 0 {
            return Err(HueStatusError::NoLightsFound);
        }
        if options.validate_lights {
            match self.validate_lights(&selected) {
                Ok(()) => {},
                Err(error) => { return Err(error); },
            }
        }
        let light_ids = SceneManager::light_ids(&selected);
        let builder = SceneBuilder::new(name).with_lights(light_ids).with_color(color).with_brightness(
            options.brightness,
        );
        match builder.build() {
            Ok(request) => {
                proof {
                    assert forall|i: int| 0 <= i < request.lights@.len() implies is_built(
                        #[trigger] request.lightstates.value_of(request.lights@[i]@),
                        dimmed(color, options.brightness),
                    ) by {
                        let key = builder.lights@[i]@;
                        assert(!crate::string_map::has_key(builder.custom_states.entries@, key));
                        assert(is_built(request.lightstates.value_of(key), builder.state_for(key)));
                    }
                }
                Ok(request)
            },
            Err(error) => Err(error),
        }
    }

    /// The request for a clone of the scene `source` under the name
    /// `new_name`: the same lights, each with the state that the source has
    /// for it, or with its modification where `modifications` has one.
    pub fn clone_scene(&self, source: &Scene, new_name: String, modifications: Option<&StringMap<LightState>>) -> (result:
        Result<CreateSceneRequest>)
        requires
            source.lightstates matches Some(states) ==> distinct_keys(states.entries@),
        ensures
            match result {
                Ok(request) => new_name@.len() > 0 && source.lights@.len() > 0 && request.name == new_name
                    && request.lights@ == source.lights@ && request.recycle && forall|i: int|
                    0 <= i < source.lights@.len() ==> is_built(
                        #[trigger] request.lightstates.value_of(source.lights@[i]@),
                        clone_state(
                            *source,
                            match modifications {
                                Some(changed) => Some(*changed),
                                None => None,
                            },
                            source.lights@[i]@,
                        ),
                    ),
                Err(error) => if new_name@.len() == 0 {
                    error@ == (ErrorView::InvalidSceneData { reason: "Scene name cannot be empty"@ })
                } else {
                    source.lights@.len() == 0 && error@ == (ErrorView::InvalidSceneData {
                        reason: "Scene must have at least one light"@,
                    })
                },
            },
    {
        let ghost changes = match modifications {
            Some(changed) => Some(*changed),
            None => None,
        };
        let lights = source.lights.clone();
        assert(lights@ =~= source.lights@);
        let mut builder = SceneBuilder::new(new_name).with_lights(lights);
        if let Some(states) = &source.lightstates {
            let mut i: usize = 0;
            while i < states.entries.len()
                invariant
                    i <= states.entries.len(),
                    source.lightstates == Some(*states),
                    distinct_keys(states.entries@),
                    changes == (match modifications {
                        Some(changed) => Some(*changed),
                        None => None,
                    }),
                    builder.name == new_name,
                    builder.lights@ == source.lights@,
                    builder.color is None,
                    builder.brightness is None,
                    builder.recyclable,
                    forall|j: int|
                        0 <= j < i ==> is_taken_over(
                            #[trigger] builder.custom_states.value_of(states.entries@[j].0@),
                            states.entries@[j].1,
                            changes,
                            states.entries@[j].0@,
                        ),
                    forall|key: Seq<char>| #[trigger]
                        builder.custom_states.has(key) ==> exists|j: int|
                            0 <= j < i && (#[trigger] states.entries@[j]).0@ == key,
                decreases states.entries.len() - i,
            {
                let ghost before = builder.custom_states;
                let light_id = states.entries[i].0.clone();
                let original = &states.entries[i].1;
                let state = match modifications {
                    Some(changed) => match changed.get(light_id.as_str()) {
                        Some(replaced) => replaced.clone(),
                        None => original.clone(),
                    },
                    None => original.clone(),
                };
                builder = builder.with_light_state(light_id, state);
                proof {
                    let key = states.entries@[i as int].0@;
                    assert forall|j: int| 0 <= j < i + 1 implies is_taken_over(
                        #[trigger] builder.custom_states.value_of(states.entries@[j].0@),
                        states.entries@[j].1,
                        changes,
                        states.entries@[j].0@,
                    ) by {
                        if j < i {
                            assert(states.entries@[j].0@ != key);
                            assert(is_taken_over(
                                before.value_of(states.entries@[j].0@),
                                states.entries@[j].1,
                                changes,
                                states.entries@[j].0@,
                            ));
                        }
                    }
                    assert forall|other: Seq<char>| #[trigger] builder.custom_states.has(other) implies exists|
                        j: int,
                    |
                        0 <= j < i + 1 && (#[trigger] states.entries@[j]).0@ == other by {
                        if other == key {
                            assert(states.entries@[i as int].0@ == other);
                        } else {
                            assert(builder.custom_states.value_of(other) == before.value_of(other));
                            assert(before.has(other));
                            let j = choose|j: int| 0 <= j < i && (#[trigger] states.entries@[j]).0@ == other;
                            assert(0 <= j < i + 1);
                        }
                    }
                }
                i += 1;
            }
        }
        match builder.build() {
            Ok(request) => {
                proof {
                    assert forall|i: int| 0 <= i < source.lights@.len() implies is_built(
                        #[trigger] request.lightstates.value_of(source.lights@[i]@),
                        clone_state(*source, changes, source.lights@[i]@),
                    ) by {
                        let key = source.lights@[i]@;
                        assert(builder.lights@[i]@ == key);
                        assert(is_built(request.lightstates.value_of(builder.lights@[i]@), builder.state_for(key)));
                        match source.lightstates {
                            Some(states) => {
                                if states.has(key) {
                                    crate::string_map::lemma_has_first_match(states.entries@, key);
                                    let j = crate::string_map::first_match(states.entries@, key);
                                    assert(is_taken_over(
                                        builder.custom_states.value_of(states.entries@[j].0@),
                                        states.entries@[j].1,
                                        changes,
                                        states.entries@[j].0@,
                                    ));
                                } else {
                                    if builder.custom_states.has(key) {
                                        let j = choose|j: int|
                                            0 <= j < states.entries@.len() && (#[trigger] states.entries@[j]).0@
                                                == key;
                                        assert(crate::string_map::has_key(states.entries@, key));
                                    }
                                }
                            },
                            None => {
                                assert(!crate::string_map::has_key(builder.custom_states.entries@, key));
                            },
                        }
                    }
                }
                Ok(request)
            },
            Err(error) => Err(error),
        }
    }
}

} // verus!
