//! The values exchanged with a bridge, and the table that turns the errors
//! a bridge reports into typed errors.

use crate::error::{ErrorView, HueStatusError, Result};
use crate::string_map::{distinct_keys, StringMap};
use crate::text::{concat2, concat3, decimal, same_text, u64_to_string};
use vstd::prelude::*;
use vstd::string::*;

pub mod auth;
pub mod client;
pub mod discovery;

pub use auth::{AuthRequest, AuthResponse, AuthResult, AuthStatus, AuthSuccess, BridgeAuth};
pub use client::{
    ActionResponse, BridgeClient, BridgeStatus, CreateSceneResponse, CreateSceneSuccess,
    DeleteResponse,
};
pub use discovery::{BridgeDiscovery, DiscoveredBridge, DiscoveryMethod, DiscoveryResult};

verus! {

/// The text of an optional string.
pub open spec fn text_of(s: Option<String>) -> Option<Seq<char>> {
    match s {
        Some(s) => Some(s@),
        None => None,
    }
}

/// An answer of the bridge: the expected value, one error, or a list of
/// errors.
#[derive(Debug, Clone, PartialEq, Eq)]
pub enum HueResponse<T> {
    Success(T),
    Error(HueError),
    ErrorArray(Vec<HueError>),
}

/// An error that the bridge reports, in its envelope.
#[derive(Debug, PartialEq, Eq)]
pub struct HueError {
    pub error: HueErrorDetails,
}

impl Clone for HueError {
    fn clone(&self) -> (copy: Self)
        ensures
            copy == *self,
    {
        HueError { error: self.error.clone() }
    }
}

/// The body of an error that the bridge reports.
#[derive(Debug, PartialEq, Eq)]
pub struct HueErrorDetails {
    /// The bridge's numeric error code (`type` on the wire).
    pub error_type: u16,
    /// The resource that the error is about.
    pub address: String,
    /// The bridge's description of the error.
    pub description: String,
}

impl Clone for HueErrorDetails {
    fn clone(&self) -> (copy: Self)
        ensures
            copy == *self,
    {
        HueErrorDetails {
            error_type: self.error_type,
            address: self.address.clone(),
            description: self.description.clone(),
        }
    }
}

/// A bridge as the discovery record describes it.
#[derive(Debug, PartialEq, Eq)]
pub struct BridgeInfo {
    pub id: String,
    pub internalipaddress: String,
    pub port: Option<u16>,
    pub name: Option<String>,
    pub modelid: Option<String>,
    pub swversion: Option<String>,
}

impl Clone for BridgeInfo {
    fn clone(&self) -> (copy: Self)
        ensures
            copy == *self,
    {
        BridgeInfo {
            id: self.id.clone(),
            internalipaddress: self.internalipaddress.clone(),
            port: self.port,
            name: self.name.clone(),
            modelid: self.modelid.clone(),
            swversion: self.swversion.clone(),
        }
    }
}

/// How much of a resource the bridge has left, and how much in all.
#[derive(Debug, Clone, Copy, PartialEq, Eq)]
pub struct CapabilityLimits {
    pub available: usize,
    pub total: usize,
}

/// The bridge's streaming limits.
#[derive(Debug, Clone, Copy, PartialEq, Eq)]
pub struct StreamingCapabilities {
    pub available: usize,
    pub total: usize,
    pub channels: usize,
}

/// The resource limits of a bridge.
#[derive(Debug, Clone, PartialEq, Eq)]
pub struct BridgeCapabilities {
    pub lights: CapabilityLimits,
    pub sensors: CapabilityLimits,
    pub groups: CapabilityLimits,
    pub scenes: CapabilityLimits,
    pub rules: CapabilityLimits,
    pub schedules: CapabilityLimits,
    pub resourcelinks: CapabilityLimits,
    pub streaming: Option<StreamingCapabilities>,
    pub timezones: Vec<String>,
}

/// A chromaticity in the CIE 1931 colour space. Each coordinate is kept as the
/// IEEE 754 bit pattern of its double-precision value, so that it passes
/// through the library unchanged.
#[derive(Debug, Clone, Copy, PartialEq, Eq)]
pub struct XyColor {
    pub x_bits: u64,
    pub y_bits: u64,
}

/// The three corners of the colour triangle that a light can show.
#[derive(Debug, Clone, Copy, PartialEq, Eq)]
pub struct ColorGamut {
    pub red: XyColor,
    pub green: XyColor,
    pub blue: XyColor,
}

/// The state of a light, as read from the bridge or as a scene sets it.
#[derive(Debug, PartialEq, Eq)]
pub struct LightState {
    pub on: bool,
    pub bri: Option<u8>,
    pub hue: Option<u16>,
    pub sat: Option<u8>,
    pub effect: Option<String>,
    pub xy: Option<XyColor>,
    pub ct: Option<u16>,
    pub alert: Option<String>,
    pub colormode: Option<String>,
    pub mode: Option<String>,
    pub reachable: Option<bool>,
}

impl Clone for LightState {
    fn clone(&self) -> (copy: Self)
        ensures
            copy == *self,
    {
        LightState {
            on: self.on,
            bri: self.bri,
            hue: self.hue,
            sat: self.sat,
            effect: self.effect.clone(),
            xy: self.xy,
            ct: self.ct,
            alert: self.alert.clone(),
            colormode: self.colormode.clone(),
            mode: self.mode.clone(),
            reachable: self.reachable,
        }
    }
}

/// The mathematical value of a [`LightState`], with texts as character sequences.
pub ghost struct LightStateView {
    pub on: bool,
    pub bri: Option<u8>,
    pub hue: Option<u16>,
    pub sat: Option<u8>,
    pub effect: Option<Seq<char>>,
    pub xy: Option<XyColor>,
    pub ct: Option<u16>,
    pub alert: Option<Seq<char>>,
    pub colormode: Option<Seq<char>>,
    pub mode: Option<Seq<char>>,
    pub reachable: Option<bool>,
}

impl View for LightState {
    type V = LightStateView;

    open spec fn view(&self) -> LightStateView {
        LightStateView {
            on: self.on,
            bri: self.bri,
            hue: self.hue,
            sat: self.sat,
            effect: text_of(self.effect),
            xy: self.xy,
            ct: self.ct,
            alert: text_of(self.alert),
            colormode: text_of(self.colormode),
            mode: text_of(self.mode),
            reachable: self.reachable,
        }
    }
}

/// The range of colour temperatures that a light can show.
#[derive(Debug, Clone, Copy, PartialEq, Eq)]
pub struct ColorTemperatureCapability {
    pub min: u16,
    pub max: u16,
}

/// Whether a light can take part in streaming.
#[derive(Debug, Clone, Copy, PartialEq, Eq)]
pub struct StreamingCapability {
    pub renderer: bool,
    pub proxy: bool,
}

/// What can be controlled on a light.
#[derive(Debug, PartialEq, Eq)]
pub struct LightControl {
    pub mindimlevel: Option<u16>,
    pub maxlumen: Option<u16>,
    pub colorgamuttype: Option<String>,
    pub colorgamut: Option<ColorGamut>,
    pub ct: Option<ColorTemperatureCapability>,
}

impl Clone for LightControl {
    fn clone(&self) -> (copy: Self)
        ensures
            copy == *self,
    {
        LightControl {
            mindimlevel: self.mindimlevel,
            maxlumen: self.maxlumen,
            colorgamuttype: self.colorgamuttype.clone(),
            colorgamut: self.colorgamut,
            ct: self.ct.clone(),
        }
    }
}

/// The capabilities of a light.
#[derive(Debug, PartialEq, Eq)]
pub struct LightCapabilities {
    pub certified: bool,
    pub control: LightControl,
    pub streaming: Option<StreamingCapability>,
}

impl Clone for LightCapabilities {
    fn clone(&self) -> (copy: Self)
        ensures
            copy == *self,
    {
        LightCapabilities {
            certified: self.certified,
            control: self.control.clone(),
            streaming: self.streaming.clone(),
        }
    }
}

/// How a light behaves when it is powered on.
#[derive(Debug, PartialEq, Eq)]
pub struct StartupConfig {
    pub mode: String,
    pub configured: bool,
    /// Custom settings, as JSON text.
    pub customsettings: Option<String>,
}

impl Clone for StartupConfig {
    fn clone(&self) -> (copy: Self)
        ensures
            copy == *self,
    {
        StartupConfig {
            mode: self.mode.clone(),
            configured: self.configured,
            customsettings: self.customsettings.clone(),
        }
    }
}

/// The configuration of a light.
#[derive(Debug, PartialEq, Eq)]
pub struct LightConfig {
    pub archetype: String,
    pub function: String,
    pub direction: String,
    pub startup: Option<StartupConfig>,
}

impl Clone for LightConfig {
    fn clone(&self) -> (copy: Self)
        ensures
            copy == *self,
    {
        LightConfig {
            archetype: self.archetype.clone(),
            function: self.function.clone(),
            direction: self.direction.clone(),
            startup: self.startup.clone(),
        }
    }
}

/// A light that the bridge knows.
#[derive(Debug, PartialEq, Eq)]
pub struct Light {
    pub name: String,
    pub state: LightState,
    /// The kind of light (`type` on the wire).
    pub light_type: String,
    pub modelid: String,
    pub manufacturername: String,
    pub productname: Option<String>,
    pub capabilities: Option<LightCapabilities>,
    pub config: Option<LightConfig>,
    pub swversion: Option<String>,
    pub swconfigid: Option<String>,
    pub productid: Option<String>,
}

impl Clone for Light {
    fn clone(&self) -> (copy: Self)
        ensures
            copy == *self,
    {
        Light {
            name: self.name.clone(),
            state: self.state.clone(),
            light_type: self.light_type.clone(),
            modelid: self.modelid.clone(),
            manufacturername: self.manufacturername.clone(),
            productname: self.productname.clone(),
            capabilities: self.capabilities.clone(),
            config: self.config.clone(),
            swversion: self.swversion.clone(),
            swconfigid: self.swconfigid.clone(),
            productid: self.productid.clone(),
        }
    }
}

/// A scene stored on the bridge.
#[derive(Debug, Clone, PartialEq, Eq)]
pub struct Scene {
    pub name: String,
    pub lights: Vec<String>,
    pub owner: String,
    pub recycle: bool,
    pub locked: bool,
    /// Application data, as JSON text.
    pub appdata: Option<String>,
    pub picture: Option<String>,
    pub image: Option<String>,
    pub lastupdated: String,
    pub version: u8,
    pub lightstates: Option<StringMap<LightState>>,
}

/// The request that creates a scene.
#[derive(Debug, Clone, PartialEq, Eq)]
pub struct CreateSceneRequest {
    pub name: String,
    pub lights: Vec<String>,
    pub recycle: bool,
    pub lightstates: StringMap<LightState>,
}

/// The request that applies a scene to a group.
#[derive(Debug, PartialEq, Eq)]
pub struct SceneActionRequest {
    /// The identifier of the scene to apply.
    pub scene: String,
}

impl Clone for SceneActionRequest {
    fn clone(&self) -> (copy: Self)
        ensures
            copy == *self,
    {
        SceneActionRequest {
            scene: self.scene.clone(),
        }
    }
}

/// Whether the lights of a group are on.
#[derive(Debug, Clone, Copy, PartialEq, Eq)]
pub struct GroupState {
    pub all_on: bool,
    pub any_on: bool,
}

/// The state that was last applied to a group.
#[derive(Debug, PartialEq, Eq)]
pub struct GroupAction {
    pub on: Option<bool>,
    pub bri: Option<u8>,
    pub hue: Option<u16>,
    pub sat: Option<u8>,
    pub effect: Option<String>,
    pub xy: Option<XyColor>,
    pub ct: Option<u16>,
    pub alert: Option<String>,
    pub colormode: Option<String>,
    pub scene: Option<String>,
}

impl Clone for GroupAction {
    fn clone(&self) -> (copy: Self)
        ensures
            copy == *self,
    {
        GroupAction {
            on: self.on,
            bri: self.bri,
            hue: self.hue,
            sat: self.sat,
            effect: self.effect.clone(),
            xy: self.xy,
            ct: self.ct,
            alert: self.alert.clone(),
            colormode: self.colormode.clone(),
            scene: self.scene.clone(),
        }
    }
}

/// A group of lights.
#[derive(Debug, Clone, PartialEq, Eq)]
pub struct Group {
    pub name: String,
    pub lights: Vec<String>,
    /// The kind of group (`type` on the wire).
    pub group_type: String,
    pub state: GroupState,
    pub recycle: bool,
    pub action: GroupAction,
    pub sensors: Option<Vec<String>>,
}

/// The device types that an update concerns.
#[derive(Debug, Clone, PartialEq, Eq)]
pub struct DeviceTypes {
    pub bridge: bool,
    pub lights: Vec<String>,
    pub sensors: Vec<String>,
}

/// The state of the bridge's software update.
#[derive(Debug, Clone, PartialEq, Eq)]
pub struct SwUpdate {
    pub updatestate: u8,
    pub checkforupdate: bool,
    pub devicetypes: DeviceTypes,
    pub url: String,
    pub text: String,
    pub notify: bool,
}

/// The update state of the bridge itself.
#[derive(Debug, PartialEq, Eq)]
pub struct BridgeUpdateInfo {
    pub state: String,
    pub lastinstall: String,
}

impl Clone for BridgeUpdateInfo {
    fn clone(&self) -> (copy: Self)
        ensures
            copy == *self,
    {
        BridgeUpdateInfo {
            state: self.state.clone(),
            lastinstall: self.lastinstall.clone(),
        }
    }
}

/// Whether and when updates install themselves.
#[derive(Debug, PartialEq, Eq)]
pub struct AutoInstall {
    pub updatetime: String,
    pub on: bool,
}

impl Clone for AutoInstall {
    fn clone(&self) -> (copy: Self)
        ensures
            copy == *self,
    {
        AutoInstall {
            updatetime: self.updatetime.clone(),
            on: self.on,
        }
    }
}

/// The state of the bridge's software update, in its later form.
#[derive(Debug, PartialEq, Eq)]
pub struct SwUpdate2 {
    pub checkforupdate: bool,
    pub lastchange: String,
    pub bridge: BridgeUpdateInfo,
    pub state: String,
    pub autoinstall: AutoInstall,
}

impl Clone for SwUpdate2 {
    fn clone(&self) -> (copy: Self)
        ensures
            copy == *self,
    {
        SwUpdate2 {
            checkforupdate: self.checkforupdate,
            lastchange: self.lastchange.clone(),
            bridge: self.bridge.clone(),
            state: self.state.clone(),
            autoinstall: self.autoinstall.clone(),
        }
    }
}

/// The state of the connection to the portal.
#[derive(Debug, PartialEq, Eq)]
pub struct PortalState {
    pub signedon: bool,
    pub incoming: bool,
    pub outgoing: bool,
    pub communication: String,
}

impl Clone for PortalState {
    fn clone(&self) -> (copy: Self)
        ensures
            copy == *self,
    {
        PortalState {
            signedon: self.signedon,
            incoming: self.incoming,
            outgoing: self.outgoing,
            communication: self.communication.clone(),
        }
    }
}

/// The state of the bridge's internet services.
#[derive(Debug, PartialEq, Eq)]
pub struct InternetServices {
    pub internet: String,
    pub remoteaccess: String,
    pub time: String,
    pub swupdate: String,
}

impl Clone for InternetServices {
    fn clone(&self) -> (copy: Self)
        ensures
            copy == *self,
    {
        InternetServices {
            internet: self.internet.clone(),
            remoteaccess: self.remoteaccess.clone(),
            time: self.time.clone(),
            swupdate: self.swupdate.clone(),
        }
    }
}

/// The state of a bridge backup.
#[derive(Debug, PartialEq, Eq)]
pub struct Backup {
    pub status: String,
    pub errorcode: u8,
}

impl Clone for Backup {
    fn clone(&self) -> (copy: Self)
        ensures
            copy == *self,
    {
        Backup {
            status: self.status.clone(),
            errorcode: self.errorcode,
        }
    }
}

/// An application that the bridge has issued a credential to.
#[derive(Debug, PartialEq, Eq)]
pub struct WhitelistEntry {
    /// `last use date` on the wire.
    pub last_use_date: String,
    /// `create date` on the wire.
    pub create_date: String,
    pub name: String,
}

impl Clone for WhitelistEntry {
    fn clone(&self) -> (copy: Self)
        ensures
            copy == *self,
    {
        WhitelistEntry {
            last_use_date: self.last_use_date.clone(),
            create_date: self.create_date.clone(),
            name: self.name.clone(),
        }
    }
}

/// The configuration of a bridge.
#[derive(Debug, Clone, PartialEq, Eq)]
pub struct BridgeConfiguration {
    pub name: String,
    pub zigbeechannel: u8,
    pub bridgeid: String,
    pub mac: String,
    pub dhcp: bool,
    pub ipaddress: String,
    pub netmask: String,
    pub gateway: String,
    pub proxyaddress: String,
    pub proxyport: u16,
    /// `UTC` on the wire.
    pub utc: String,
    pub localtime: String,
    pub timezone: String,
    pub modelid: String,
    pub datastoreversion: String,
    pub swversion: String,
    pub apiversion: String,
    pub swupdate: SwUpdate,
    pub swupdate2: SwUpdate2,
    pub linkbutton: bool,
    pub portalservices: bool,
    pub portalconnection: String,
    pub portalstate: PortalState,
    pub internetservices: InternetServices,
    pub factorynew: bool,
    pub replacesbridgeid: Option<String>,
    pub backup: Backup,
    pub starterkitid: String,
    pub whitelist: StringMap<WhitelistEntry>,
}

/// The table that turns a bridge's numeric error code, with the bridge's
/// description, into a typed error.
pub open spec fn bridge_error(code: u16, description: Seq<char>) -> ErrorView {
    if code == 1 {
        ErrorView::AuthenticationFailed
    } else if code == 101 {
        ErrorView::LinkButtonNotPressed
    } else if code == 3 {
        ErrorView::InvalidConfig { reason: "Resource not available: "@ + description }
    } else if code == 4 {
        ErrorView::InvalidConfig { reason: "Method not available: "@ + description }
    } else if code == 5 {
        ErrorView::InvalidConfig { reason: "Missing parameter: "@ + description }
    } else if code == 6 {
        ErrorView::InvalidConfig { reason: "Parameter not available: "@ + description }
    } else if code == 7 {
        ErrorView::InvalidConfig { reason: "Invalid value: "@ + description }
    } else if code == 8 {
        ErrorView::InvalidConfig { reason: "Parameter not modifiable: "@ + description }
    } else if code == 11 {
        ErrorView::ApiError { message: "Too many items in list"@ }
    } else if code == 12 {
        ErrorView::ApiError { message: "Portal connection required"@ }
    } else {
        ErrorView::ApiError { message: "API error "@ + decimal(code as nat) + ": "@ + description }
    }
}

/// The message that explains a bridge's numeric error code to a user.
pub open spec fn bridge_error_text(code: u16, description: Seq<char>) -> Seq<char> {
    if code == 1 {
        "Authentication failed. Please run 'huestatus --setup' to re-authenticate."@
    } else if code == 101 {
        "Link button not pressed. Press the button on your Hue bridge and try again."@
    } else if code == 3 {
        "Resource not available: "@ + description
    } else if code == 4 {
        "Method not available: "@ + description
    } else if code == 5 {
        "Missing parameter: "@ + description
    } else if code == 6 {
        "Parameter not available: "@ + description
    } else if code == 7 {
        "Invalid value: "@ + description
    } else if code == 8 {
        "Parameter not modifiable: "@ + description
    } else if code == 11 {
        "Too many items in list"@
    } else if code == 12 {
        "Portal connection required"@
    } else {
        "API error "@ + decimal(code as nat) + ": "@ + description
    }
}

fn unknown_code_text(code: u16, description: &str) -> (text: String)
    ensures
        text@ == "API error "@ + decimal(code as nat) + ": "@ + description@,
{
    let number = u64_to_string(code as u64);
    let mut text = concat3("API error ", number.as_str(), ": ");
    text.append(description);
    text
}

impl HueError {
    /// The typed error that the reported error stands for.
    pub open spec fn classified(&self) -> ErrorView {
        bridge_error(self.error.error_type, self.error.description@)
    }

    /// Whether the error concerns authentication.
    pub fn is_auth_error(&self) -> (yes: bool)
        ensures
            yes == (self.error.error_type == 1 || self.error.error_type == 101),
    {
        self.error.error_type == 1 || self.error.error_type == 101
    }

    /// Whether the bridge is waiting for its link button.
    pub fn is_link_button_error(&self) -> (yes: bool)
        ensures
            yes == (self.error.error_type == 101),
    {
        self.error.error_type == 101
    }

    /// Whether the caller can recover from the error by trying again.
    pub fn is_recoverable(&self) -> (yes: bool)
        ensures
            yes == (self.error.error_type == 101 || self.error.error_type == 11),
    {
        self.error.error_type == 101 || self.error.error_type == 11
    }

    /// Renders the message that explains the error to a user.
    pub fn user_message(&self) -> (text: String)
        ensures
            text@ == bridge_error_text(self.error.error_type, self.error.description@),
    {
        let code = self.error.error_type;
        let description = self.error.description.as_str();
        if code == 1 {
            String::from_str("Authentication failed. Please run 'huestatus --setup' to re-authenticate.")
        } else if code == 101 {
            String::from_str("Link button not pressed. Press the button on your Hue bridge and try again.")
        } else if code == 3 {
            concat2("Resource not available: ", description)
        } else if code == 4 {
            concat2("Method not available: ", description)
        } else if code == 5 {
            concat2("Missing parameter: ", description)
        } else if code == 6 {
            concat2("Parameter not available: ", description)
        } else if code == 7 {
            concat2("Invalid value: ", description)
        } else if code == 8 {
            concat2("Parameter not modifiable: ", description)
        } else if code == 11 {
            String::from_str("Too many items in list")
        } else if code == 12 {
            String::from_str("Portal connection required")
        } else {
            unknown_code_text(code, description)
        }
    }
}

impl HueStatusError {
    /// Turns an error that the bridge reports into a typed error, by the
    /// table of the bridge's numeric codes.
    pub fn from_bridge_error(error: HueError) -> (typed: Self)
        ensures
            typed@ == error.classified(),
    {
        let code = error.error.error_type;
        let description = error.error.description.as_str();
        if code == 1 {
            HueStatusError::AuthenticationFailed
        } else if code == 101 {
            HueStatusError::LinkButtonNotPressed
        } else if code == 3 {
            HueStatusError::InvalidConfig { reason: concat2("Resource not available: ", description) }
        } else if code == 4 {
            HueStatusError::InvalidConfig { reason: concat2("Method not available: ", description) }
        } else if code == 5 {
            HueStatusError::InvalidConfig { reason: concat2("Missing parameter: ", description) }
        } else if code == 6 {
            HueStatusError::InvalidConfig { reason: concat2("Parameter not available: ", description) }
        } else if code == 7 {
            HueStatusError::InvalidConfig { reason: concat2("Invalid value: ", description) }
        } else if code == 8 {
            HueStatusError::InvalidConfig { reason: concat2("Parameter not modifiable: ", description) }
        } else if code == 11 {
            HueStatusError::ApiError { message: String::from_str("Too many items in list") }
        } else if code == 12 {
            portal_connection_required_error()
        } else {
            HueStatusError::ApiError { message: unknown_code_text(code, description) }
        }
    }
}

impl From<HueError> for HueStatusError {
    /// Turns an error that the bridge reports into a typed error, by the
    /// table of the bridge's numeric codes.
    fn from(error: HueError) -> (typed: Self)
        ensures
            typed@ == error.classified(),
    {
        HueStatusError::from_bridge_error(error)
    }
}

impl vstd::std_specs::convert::FromSpecImpl<HueError> for HueStatusError {
    /// The conversion is stated by its value, in the `ensures` of `from`:
    /// the texts of the result are built, so that no one result can be
    /// named here.
    open spec fn obeys_from_spec() -> bool {
        false
    }

    /// Some error whose value is the one that the table gives.
    open spec fn from_spec(error: HueError) -> Self {
        choose|typed: HueStatusError| typed@ == error.classified()
    }
}

/// The error that tells that the bridge needs its portal connection.
pub fn portal_connection_required_error() -> (error: HueStatusError)
    ensures
        error@ == (ErrorView::ApiError { message: "Portal connection required"@ }),
{
    HueStatusError::ApiError { message: String::from_str("Portal connection required") }
}

impl<T> HueResponse<T> {
    /// The result that the answer stands for: the value, or the typed error
    /// of the first error reported. An empty list of errors stands for an
    /// unknown error.
    pub open spec fn outcome(self) -> core::result::Result<T, ErrorView> {
        match self {
            HueResponse::Success(value) => Ok(value),
            HueResponse::Error(error) => Err(error.classified()),
            HueResponse::ErrorArray(errors) => if errors@.len() > 0 {
                Err(errors@[0].classified())
            } else {
                Err(ErrorView::ApiError { message: "Unknown API error"@ })
            },
        }
    }

    /// The first error that the answer reports.
    pub open spec fn first_error(self) -> Option<HueError> {
        match self {
            HueResponse::Success(_) => None,
            HueResponse::Error(error) => Some(error),
            HueResponse::ErrorArray(errors) => if errors@.len() > 0 {
                Some(errors@[0])
            } else {
                None
            },
        }
    }

    /// Whether the answer holds the expected value.
    pub fn is_success(&self) -> (yes: bool)
        ensures
            yes == (self is Success),
    {
        match self {
            HueResponse::Success(_) => true,
            _ => false,
        }
    }

    /// Whether the answer reports an error.
    pub fn is_error(&self) -> (yes: bool)
        ensures
            yes == !(self is Success),
    {
        match self {
            HueResponse::Success(_) => false,
            _ => true,
        }
    }

    /// Extracts the value, or turns the first reported error into a typed
    /// error.
    pub fn into_result(self) -> (result: Result<T>)
        ensures
            match result {
                Ok(value) => self.outcome() == Ok::<T, ErrorView>(value),
                Err(error) => self.outcome() == Err::<T, ErrorView>(error@),
            },
    {
        match self {
            HueResponse::Success(value) => Ok(value),
            HueResponse::Error(error) => Err(HueStatusError::from_bridge_error(error)),
            HueResponse::ErrorArray(errors) => {
                let mut errors = errors;
                if errors.len() > 0 {
                    let first = errors.remove(0);
                    Err(HueStatusError::from_bridge_error(first))
                } else {
                    Err(HueStatusError::ApiError { message: String::from_str("Unknown API error") })
                }
            },
        }
    }

    /// Extracts the value, if the answer holds it.
    pub fn success(self) -> (value: Option<T>)
        ensures
            value == match self {
                HueResponse::Success(v) => Some(v),
                _ => None,
            },
    {
        match self {
            HueResponse::Success(v) => Some(v),
            _ => None,
        }
    }

    /// Extracts the first error, if the answer reports one.
    pub fn error(self) -> (first: Option<HueError>)
        ensures
            first == self.first_error(),
    {
        match self {
            HueResponse::Success(_) => None,
            HueResponse::Error(error) => Some(error),
            HueResponse::ErrorArray(errors) => {
                let mut errors = errors;
                if errors.len() > 0 {
                    Some(errors.remove(0))
                } else {
                    None
                }
            },
        }
    }
}

impl Light {
    /// Whether the light has a colour gamut.
    pub open spec fn has_color(&self) -> bool {
        self.capabilities matches Some(c) && c.control.colorgamut is Some
    }

    /// Whether the light has a colour temperature range.
    pub open spec fn has_color_temperature(&self) -> bool {
        self.capabilities matches Some(c) && c.control.ct is Some
    }

    /// Whether the bridge reports the light as reachable.
    pub open spec fn reachable(&self) -> bool {
        self.state.reachable == Some(true)
    }

    /// Whether the light can indicate a status: it is reachable and shows
    /// colour or colour temperature.
    pub open spec fn suitable_for_status(&self) -> bool {
        self.reachable() && (self.has_color() || self.has_color_temperature())
    }

    /// Whether the light supports colour.
    pub fn supports_color(&self) -> (yes: bool)
        ensures
            yes == self.has_color(),
    {
        match &self.capabilities {
            Some(c) => c.control.colorgamut.is_some(),
            None => false,
        }
    }

    /// Whether the light supports colour temperature.
    pub fn supports_color_temperature(&self) -> (yes: bool)
        ensures
            yes == self.has_color_temperature(),
    {
        match &self.capabilities {
            Some(c) => c.control.ct.is_some(),
            None => false,
        }
    }

    /// Whether the light is reachable. A light whose reachability is unknown
    /// counts as unreachable.
    pub fn is_reachable(&self) -> (yes: bool)
        ensures
            yes == self.reachable(),
    {
        match self.state.reachable {
            Some(r) => r,
            None => false,
        }
    }

    /// Whether the light is on.
    pub fn is_on(&self) -> (yes: bool)
        ensures
            yes == self.state.on,
    {
        self.state.on
    }

    /// The brightness of the light (0 to 254); 0 where it is unknown.
    pub fn brightness(&self) -> (bri: u8)
        ensures
            bri == match self.state.bri {
                Some(b) => b,
                None => 0,
            },
    {
        match self.state.bri {
            Some(b) => b,
            None => 0,
        }
    }

    /// The hue of the light (0 to 65535); 0 where it is unknown.
    pub fn hue(&self) -> (hue: u16)
        ensures
            hue == match self.state.hue {
                Some(h) => h,
                None => 0,
            },
    {
        match self.state.hue {
            Some(h) => h,
            None => 0,
        }
    }

    /// The saturation of the light (0 to 254); 0 where it is unknown.
    pub fn saturation(&self) -> (sat: u8)
        ensures
            sat == match self.state.sat {
                Some(s) => s,
                None => 0,
            },
    {
        match self.state.sat {
            Some(s) => s,
            None => 0,
        }
    }

    /// The chromaticity of the light.
    pub fn xy(&self) -> (xy: Option<XyColor>)
        ensures
            xy == self.state.xy,
    {
        self.state.xy
    }

    /// The colour temperature of the light.
    pub fn color_temperature(&self) -> (ct: Option<u16>)
        ensures
            ct == self.state.ct,
    {
        self.state.ct
    }

    /// Whether the light can indicate a status.
    pub fn is_suitable_for_status(&self) -> (yes: bool)
        ensures
            yes == self.suitable_for_status(),
    {
        self.is_reachable() && (self.supports_color() || self.supports_color_temperature())
    }

    /// Whether the light supports `effect`: a light with known capabilities
    /// supports `none`, and `colorloop` where it supports colour.
    pub fn supports_effect(&self, effect: &str) -> (yes: bool)
        ensures
            yes == (self.capabilities is Some && (effect@ == "none"@ || (effect@ == "colorloop"@
                && self.has_color()))),
    {
        proof {
            reveal_strlit("none");
            reveal_strlit("colorloop");
            assert("none"@.len() != "colorloop"@.len());
        }
        if self.capabilities.is_some() {
            if same_text(effect, "colorloop") {
                self.supports_color()
            } else {
                same_text(effect, "none")
            }
        } else {
            false
        }
    }
}

impl Scene {
    /// Whether the scene can indicate a status: it is not locked and has a
    /// light.
    pub open spec fn suitable_for_status(&self) -> bool {
        !self.locked && self.lights@.len() > 0
    }

    /// Whether the bridge may delete the scene when it needs room.
    pub fn is_recyclable(&self) -> (yes: bool)
        ensures
            yes == self.recycle,
    {
        self.recycle
    }

    /// Whether the scene is locked.
    pub fn is_locked(&self) -> (yes: bool)
        ensures
            yes == self.locked,
    {
        self.locked
    }

    /// The number of lights in the scene.
    pub fn light_count(&self) -> (n: usize)
        ensures
            n == self.lights@.len(),
    {
        self.lights.len()
    }

    /// Whether the scene carries the states of its lights.
    pub fn has_lightstates(&self) -> (yes: bool)
        ensures
            yes == (self.lightstates is Some),
    {
        self.lightstates.is_some()
    }

    /// The states of the scene's lights.
    pub fn get_lightstates(&self) -> (states: Option<&StringMap<LightState>>)
        ensures
            match states {
                Some(m) => self.lightstates == Some(*m),
                None => self.lightstates is None,
            },
    {
        self.lightstates.as_ref()
    }

    /// Whether the scene can indicate a status.
    pub fn is_suitable_for_status(&self) -> (yes: bool)
        ensures
            yes == self.suitable_for_status(),
    {
        !self.is_locked() && self.light_count() > 0
    }
}

/// The state that shows a colour at a given hue, saturation and brightness.
pub open spec fn color_state(hue: u16, sat: u8, bri: u8) -> LightStateView {
    LightStateView {
        on: true,
        bri: Some(bri),
        hue: Some(hue),
        sat: Some(sat),
        effect: None,
        xy: None,
        ct: None,
        alert: None,
        colormode: Some("hs"@),
        mode: None,
        reachable: None,
    }
}

/// The hue of the colour that stands for success: green.
pub const SUCCESS_HUE: u16 = 21845;

/// The hue of the colour that stands for failure: red.
pub const FAILURE_HUE: u16 = 0;

impl LightState {
    /// What is wrong with the state, if anything: a brightness of 0, or a
    /// saturation above 254.
    pub open spec fn defect(&self) -> Option<ErrorView> {
        if self.bri == Some(0u8) {
            Some(ErrorView::InvalidSceneData { reason: "Brightness cannot be 0 (use on: false instead)"@ })
        } else if self.sat matches Some(s) && s > 254 {
            Some(ErrorView::InvalidSceneData { reason: "Saturation value must be between 0 and 254"@ })
        } else {
            None
        }
    }

    /// The state that stands for success: green at full brightness.
    pub fn new_success_state() -> (state: Self)
        ensures
            state@ == color_state(SUCCESS_HUE, 254, 254),
    {
        Self::new_custom_state(SUCCESS_HUE, 254, 254)
    }

    /// The state that stands for failure: red at full brightness.
    pub fn new_failure_state() -> (state: Self)
        ensures
            state@ == color_state(FAILURE_HUE, 254, 254),
    {
        Self::new_custom_state(FAILURE_HUE, 254, 254)
    }

    /// A state that shows the given colour.
    pub fn new_custom_state(hue: u16, sat: u8, bri: u8) -> (state: Self)
        ensures
            state@ == color_state(hue, sat, bri),
    {
        LightState {
            on: true,
            bri: Some(bri),
            hue: Some(hue),
            sat: Some(sat),
            effect: None,
            xy: None,
            ct: None,
            alert: None,
            colormode: Some(String::from_str("hs")),
            mode: None,
            reachable: None,
        }
    }

    /// Checks the state: the brightness is not 0 and the saturation is at
    /// most 254.
    pub fn validate(&self) -> (result: Result<()>)
        ensures
            match result {
                Ok(()) => self.defect() is None,
                Err(error) => self.defect() == Some(error@),
            },
    {
        if let Some(bri) = self.bri {
            if bri == 0 {
                return Err(
                    HueStatusError::InvalidSceneData {
                        reason: String::from_str("Brightness cannot be 0 (use on: false instead)"),
                    },
                );
            }
        }
        if let Some(sat) = self.sat {
            if sat > 254 {
                return Err(
                    HueStatusError::InvalidSceneData {
                        reason: String::from_str("Saturation value must be between 0 and 254"),
                    },
                );
            }
        }
        Ok(())
    }
}

/// Whether `found` is a state whose value is `state`.
pub open spec fn is_state(found: Option<LightState>, state: LightStateView) -> bool {
    found matches Some(s) && s@ == state
}

/// Whether `states` gives every light of `lights` the state `state`, and
/// holds nothing else.
pub open spec fn uniform_states(states: StringMap<LightState>, lights: Seq<String>, state: LightStateView) -> bool {
    &&& distinct_keys(states.entries@)
    &&& forall|j: int| 0 <= j < lights.len() ==> is_state(#[trigger] states.value_of(lights[j]@), state)
    &&& forall|k: Seq<char>| #[trigger]
        states.has(k) ==> exists|j: int| 0 <= j < lights.len() && (#[trigger] lights[j])@ == k
}

impl CreateSceneRequest {
    /// Whether `i` is the first light of the request that has no state.
    pub open spec fn first_without_state(&self, i: int) -> bool {
        &&& 0 <= i < self.lights@.len()
        &&& !self.lightstates.has(self.lights@[i]@)
        &&& forall|j: int| 0 <= j < i ==> self.lightstates.has((#[trigger] self.lights@[j])@)
    }

    /// What is wrong with the request, if anything. The checks come in this
    /// order: the name, the lights, the states, and a state for every light.
    pub open spec fn defect(&self) -> Option<ErrorView> {
        if self.name@.len() == 0 {
            Some(ErrorView::InvalidSceneData { reason: "Scene name cannot be empty"@ })
        } else if self.lights@.len() == 0 {
            Some(ErrorView::InvalidSceneData { reason: "Scene must have at least one light"@ })
        } else if self.lightstates.entries@.len() == 0 {
            Some(ErrorView::InvalidSceneData { reason: "Scene must have light states"@ })
        } else if exists|i: int| self.first_without_state(i) {
            let i = choose|i: int| self.first_without_state(i);
            Some(
                ErrorView::InvalidSceneData {
                    reason: "Light "@ + self.lights@[i]@ + " has no corresponding light state"@,
                },
            )
        } else {
            None
        }
    }

    /// A request for the scene that stands for success: every light green.
    pub fn new_success_scene(name: String, lights: Vec<String>) -> (request: Self)
        ensures
            request.name == name,
            request.lights == lights,
            request.recycle,
            uniform_states(request.lightstates, lights@, color_state(SUCCESS_HUE, 254, 254)),
    {
        Self::new_custom_scene(name, lights, SUCCESS_HUE, 254, 254)
    }

    /// A request for the scene that stands for failure: every light red.
    pub fn new_failure_scene(name: String, lights: Vec<String>) -> (request: Self)
        ensures
            request.name == name,
            request.lights == lights,
            request.recycle,
            uniform_states(request.lightstates, lights@, color_state(FAILURE_HUE, 254, 254)),
    {
        Self::new_custom_scene(name, lights, FAILURE_HUE, 254, 254)
    }

    /// A request for a scene that gives every light the same colour.
    pub fn new_custom_scene(name: String, lights: Vec<String>, hue: u16, sat: u8, bri: u8) -> (request: Self)
        ensures
            request.name == name,
            request.lights == lights,
            request.recycle,
            uniform_states(request.lightstates, lights@, color_state(hue, sat, bri)),
    {
        let mut lightstates: StringMap<LightState> = StringMap::new();
        let mut i: usize = 0;
        while i < lights.len()
            invariant
                i <= lights.len(),
                uniform_states(lightstates, lights@.take(i as int), color_state(hue, sat, bri)),
            decreases lights.len() - i,
        {
            let ghost before = lightstates;
            let ghost done = lights@.take(i as int);
            let ghost next = lights@.take(i as int + 1);
            let state = LightState::new_custom_state(hue, sat, bri);
            lightstates.insert(lights[i].clone(), state);
            proof {
                let key = lights@[i as int]@;
                assert(next[i as int] == lights@[i as int]);
                assert forall|j: int| 0 <= j < next.len() implies is_state(
                    #[trigger] lightstates.value_of(next[j]@),
                    color_state(hue, sat, bri),
                ) by {
                    if j < i {
                        assert(next[j] == done[j]);
                        assert(is_state(before.value_of(done[j]@), color_state(hue, sat, bri)));
                    }
                }
                assert forall|k: Seq<char>| #[trigger] lightstates.has(k) implies exists|j: int|
                    0 <= j < next.len() && (#[trigger] next[j])@ == k by {
                    if k == key {
                        assert(next[i as int]@ == k);
                    } else {
                        assert(before.has(k));
                        let j = choose|j: int| 0 <= j < done.len() && (#[trigger] done[j])@ == k;
                        assert(next[j] == done[j]);
                    }
                }
            }
            i += 1;
        }
        proof {
            assert(lights@.take(lights@.len() as int) =~= lights@);
        }
        CreateSceneRequest { name, lights, recycle: true, lightstates }
    }

    /// Checks the request: it has a name, a light, and a state for every
    /// light.
    pub fn validate(&self) -> (result: Result<()>)
        ensures
            match result {
                Ok(()) => self.defect() is None,
                Err(error) => self.defect() == Some(error@),
            },
    {
        if self.name.as_str().is_empty() {
            return Err(HueStatusError::InvalidSceneData { reason: String::from_str("Scene name cannot be empty") });
        }
        if self.lights.len() == 0 {
            return Err(
                HueStatusError::InvalidSceneData { reason: String::from_str("Scene must have at least one light") },
            );
        }
        if self.lightstates.is_empty() {
            return Err(HueStatusError::InvalidSceneData { reason: String::from_str("Scene must have light states") });
        }
        let mut i: usize = 0;
        while i < self.lights.len()
            invariant
                i <= self.lights.len(),
                self.name@.len() != 0,
                self.lightstates.entries@.len() != 0,
                forall|j: int| 0 <= j < i ==> self.lightstates.has((#[trigger] self.lights@[j])@),
            decreases self.lights.len() - i,
        {
            if !self.lightstates.contains_key(self.lights[i].as_str()) {
                proof {
                    assert(self.first_without_state(i as int));
                    let c = choose|c: int| self.first_without_state(c);
                    if c < i {
                        assert(self.lightstates.has(self.lights@[c]@));
                    } else if i < c {
                        assert(self.lightstates.has(self.lights@[i as int]@));
                    }
                }
                return Err(
                    HueStatusError::InvalidSceneData {
                        reason: concat3("Light ", self.lights[i].as_str(), " has no corresponding light state"),
                    },
                );
            }
            i += 1;
        }
        proof {
            if exists|c: int| self.first_without_state(c) {
                let c = choose|c: int| self.first_without_state(c);
                assert(self.lightstates.has(self.lights@[c]@));
            }
        }
        Ok(())
    }
}

impl SceneActionRequest {
    /// The request that applies the scene `scene_id`.
    pub fn new(scene_id: String) -> (request: Self)
        ensures
            request.scene == scene_id,
    {
        SceneActionRequest { scene: scene_id }
    }
}

} // verus!
