//! The typed error that every failure path of the library produces.

use crate::text::{concat2, concat3, decimal, u64_to_string};
use vstd::prelude::*;
use vstd::string::*;

verus! {

/// A failure of the bridge-communication layer: a closed classification
/// with a human-readable reason.
///
/// Failures that originate in the transport, the file system or the JSON
/// decoder carry that component's own description as text.
#[derive(Debug, Clone, PartialEq, Eq)]
pub enum HueStatusError {
    /// No configuration file exists yet.
    ConfigNotFound,
    /// The configuration, or a request built from it, is malformed.
    InvalidConfig { reason: String },
    /// The configuration file is not well-formed JSON.
    ConfigCorrupted,
    /// The configuration was written by an incompatible version.
    ConfigVersionIncompatible,
    /// No bridge answered any discovery method.
    BridgeNotFound,
    /// The bridge could not be reached or did not answer as a bridge.
    BridgeConnectionFailed { reason: String },
    /// The bridge refused the credential, or none is set.
    AuthenticationFailed,
    /// The bridge is waiting for its link button to be pressed.
    LinkButtonNotPressed,
    /// The named status scene is not configured.
    SceneNotFound { scene_name: String },
    /// Applying a scene failed.
    SceneExecutionFailed { reason: String },
    /// The transport failed; `source` is the transport's own description.
    NetworkError { source: String },
    /// The bridge reported an error outside the known table, or answered unexpectedly.
    ApiError { message: String },
    /// An operation ran past its time limit.
    TimeoutError { operation: String },
    /// A file operation failed; `source` is the system's description.
    IoError { source: String },
    /// A body could not be decoded; `source` is the decoder's description.
    JsonError { source: String },
    /// The bridge has no light suitable for status indication.
    NoLightsFound,
    /// The bridge's capabilities could not be checked.
    CapabilityCheckFailed { reason: String },
    /// The setup process failed.
    SetupFailed { reason: String },
    /// A scene or light is not ready for execution.
    ValidationFailed { reason: String },
    /// The operating system denied access.
    PermissionDenied { reason: String },
    /// The cloud discovery service could not be used.
    DiscoveryServiceUnreachable { reason: String },
    /// Local service advertisement discovery failed.
    MdnsDiscoveryFailed { reason: String },
    /// The bridge cannot store more scenes.
    SceneStorageLimitExceeded { max_scenes: usize },
    /// A scene request is malformed.
    InvalidSceneData { reason: String },
    /// A colour could not be converted.
    ColorConversionError { reason: String },
    /// The configuration directory could not be created.
    ConfigDirectoryCreationFailed { path: String },
    /// The platform is not supported.
    UnsupportedPlatform { platform: String },
    /// An environment variable holds an unusable value.
    EnvironmentVariableError { var_name: String },
    /// A path exceeds the supported length.
    PathTooLong { path: String },
    /// A buffer would have grown past its capacity.
    CapacityOverflow { operation: String },
}

/// Result type used throughout the library.
pub type Result<T> = core::result::Result<T, HueStatusError>;

/// The mathematical value of a [`HueStatusError`]: the same classification,
/// with texts as character sequences and counts as natural numbers.
pub ghost enum ErrorView {
    ConfigNotFound,
    InvalidConfig { reason: Seq<char> },
    ConfigCorrupted,
    ConfigVersionIncompatible,
    BridgeNotFound,
    BridgeConnectionFailed { reason: Seq<char> },
    AuthenticationFailed,
    LinkButtonNotPressed,
    SceneNotFound { scene_name: Seq<char> },
    SceneExecutionFailed { reason: Seq<char> },
    NetworkError { source: Seq<char> },
    ApiError { message: Seq<char> },
    TimeoutError { operation: Seq<char> },
    IoError { source: Seq<char> },
    JsonError { source: Seq<char> },
    NoLightsFound,
    CapabilityCheckFailed { reason: Seq<char> },
    SetupFailed { reason: Seq<char> },
    ValidationFailed { reason: Seq<char> },
    PermissionDenied { reason: Seq<char> },
    DiscoveryServiceUnreachable { reason: Seq<char> },
    MdnsDiscoveryFailed { reason: Seq<char> },
    SceneStorageLimitExceeded { max_scenes: nat },
    InvalidSceneData { reason: Seq<char> },
    ColorConversionError { reason: Seq<char> },
    ConfigDirectoryCreationFailed { path: Seq<char> },
    UnsupportedPlatform { platform: Seq<char> },
    EnvironmentVariableError { var_name: Seq<char> },
    PathTooLong { path: Seq<char> },
    CapacityOverflow { operation: Seq<char> },
}

impl View for HueStatusError {
    type V = ErrorView;

    open spec fn view(&self) -> ErrorView {
        match self {
            HueStatusError::ConfigNotFound => ErrorView::ConfigNotFound,
            HueStatusError::InvalidConfig { reason } => ErrorView::InvalidConfig { reason: reason@ },
            HueStatusError::ConfigCorrupted => ErrorView::ConfigCorrupted,
            HueStatusError::ConfigVersionIncompatible => ErrorView::ConfigVersionIncompatible,
            HueStatusError::BridgeNotFound => ErrorView::BridgeNotFound,
            HueStatusError::BridgeConnectionFailed { reason } => ErrorView::BridgeConnectionFailed { reason: reason@ },
            HueStatusError::AuthenticationFailed => ErrorView::AuthenticationFailed,
            HueStatusError::LinkButtonNotPressed => ErrorView::LinkButtonNotPressed,
            HueStatusError::SceneNotFound { scene_name } => ErrorView::SceneNotFound { scene_name: scene_name@ },
            HueStatusError::SceneExecutionFailed { reason } => ErrorView::SceneExecutionFailed { reason: reason@ },
            HueStatusError::NetworkError { source } => ErrorView::NetworkError { source: source@ },
            HueStatusError::ApiError { message } => ErrorView::ApiError { message: message@ },
            HueStatusError::TimeoutError { operation } => ErrorView::TimeoutError { operation: operation@ },
            HueStatusError::IoError { source } => ErrorView::IoError { source: source@ },
            HueStatusError::JsonError { source } => ErrorView::JsonError { source: source@ },
            HueStatusError::NoLightsFound => ErrorView::NoLightsFound,
            HueStatusError::CapabilityCheckFailed { reason } => ErrorView::CapabilityCheckFailed { reason: reason@ },
            HueStatusError::SetupFailed { reason } => ErrorView::SetupFailed { reason: reason@ },
            HueStatusError::ValidationFailed { reason } => ErrorView::ValidationFailed { reason: reason@ },
            HueStatusError::PermissionDenied { reason } => ErrorView::PermissionDenied { reason: reason@ },
            HueStatusError::DiscoveryServiceUnreachable { reason } => ErrorView::DiscoveryServiceUnreachable { reason: reason@ },
            HueStatusError::MdnsDiscoveryFailed { reason } => ErrorView::MdnsDiscoveryFailed { reason: reason@ },
            HueStatusError::SceneStorageLimitExceeded { max_scenes } => ErrorView::SceneStorageLimitExceeded { max_scenes: *max_scenes as nat },
            HueStatusError::InvalidSceneData { reason } => ErrorView::InvalidSceneData { reason: reason@ },
            HueStatusError::ColorConversionError { reason } => ErrorView::ColorConversionError { reason: reason@ },
            HueStatusError::ConfigDirectoryCreationFailed { path } => ErrorView::ConfigDirectoryCreationFailed { path: path@ },
            HueStatusError::UnsupportedPlatform { platform } => ErrorView::UnsupportedPlatform { platform: platform@ },
            HueStatusError::EnvironmentVariableError { var_name } => ErrorView::EnvironmentVariableError { var_name: var_name@ },
            HueStatusError::PathTooLong { path } => ErrorView::PathTooLong { path: path@ },
            HueStatusError::CapacityOverflow { operation } => ErrorView::CapacityOverflow { operation: operation@ },
        }
    }
}

/// Whether `result` is what `expected` describes: the same value, or an
/// error with the expected value.
pub open spec fn agrees<T>(result: Result<T>, expected: core::result::Result<T, ErrorView>) -> bool {
    match result {
        Ok(value) => expected == Ok::<T, ErrorView>(value),
        Err(error) => expected == Err::<T, ErrorView>(error@),
    }
}

/// Whether `result` is a failure with the value `expected`.
pub open spec fn fails_with<T>(result: Result<T>, expected: ErrorView) -> bool {
    result matches Err(error) && error@ == expected
}

impl ErrorView {
    /// The one-line description of the error.
    pub open spec fn description(self) -> Seq<char> {
        match self {
            ErrorView::ConfigNotFound => "Configuration file not found. Run 'huestatus --setup' to configure."@,
            ErrorView::InvalidConfig { reason } => "Invalid configuration: "@ + reason,
            ErrorView::ConfigCorrupted => "Configuration file corrupted. Run 'huestatus --setup' to reconfigure."@,
            ErrorView::ConfigVersionIncompatible => "Configuration version incompatible. Run 'huestatus --setup' to update."@,
            ErrorView::BridgeNotFound => "Bridge not found. Check network connection and try again."@,
            ErrorView::BridgeConnectionFailed { reason } => "Bridge connection failed: "@ + reason,
            ErrorView::AuthenticationFailed => "Authentication failed. Run 'huestatus --setup' to re-authenticate."@,
            ErrorView::LinkButtonNotPressed => "Link button not pressed. Press the link button on your Hue bridge and try again."@,
            ErrorView::SceneNotFound { scene_name } => "Scene '"@ + scene_name + "' not found. Run 'huestatus --setup' to recreate scenes."@,
            ErrorView::SceneExecutionFailed { reason } => "Scene execution failed: "@ + reason,
            ErrorView::NetworkError { source } => "Network error: "@ + source,
            ErrorView::ApiError { message } => "API error: "@ + message,
            ErrorView::TimeoutError { operation } => "Timeout error: "@ + operation,
            ErrorView::IoError { source } => "IO error: "@ + source,
            ErrorView::JsonError { source } => "JSON parsing error: "@ + source,
            ErrorView::NoLightsFound => "No lights found. Ensure your Hue bridge has lights connected."@,
            ErrorView::CapabilityCheckFailed { reason } => "Bridge capability check failed: "@ + reason,
            ErrorView::SetupFailed { reason } => "Setup process failed: "@ + reason,
            ErrorView::ValidationFailed { reason } => "Validation failed: "@ + reason,
            ErrorView::PermissionDenied { reason } => "Permission denied: "@ + reason,
            ErrorView::DiscoveryServiceUnreachable { reason } => "Discovery service unreachable: "@ + reason,
            ErrorView::MdnsDiscoveryFailed { reason } => "mDNS discovery failed: "@ + reason,
            ErrorView::SceneStorageLimitExceeded { max_scenes } => "Scene storage limit exceeded. Bridge can store maximum "@ + decimal(max_scenes) + " scenes."@,
            ErrorView::InvalidSceneData { reason } => "Invalid scene data: "@ + reason,
            ErrorView::ColorConversionError { reason } => "Color conversion error: "@ + reason,
            ErrorView::ConfigDirectoryCreationFailed { path } => "Configuration directory creation failed: "@ + path,
            ErrorView::UnsupportedPlatform { platform } => "Unsupported platform: "@ + platform,
            ErrorView::EnvironmentVariableError { var_name } => "Environment variable error: "@ + var_name,
            ErrorView::PathTooLong { path } => "Path too long: "@ + path,
            ErrorView::CapacityOverflow { operation } => "Capacity overflow during "@ + operation,
        }
    }

    /// The message shown to a user, with a suggested action where one
    /// exists; other errors fall back to their description.
    pub open spec fn user_text(self) -> Seq<char> {
        match self {
            ErrorView::ConfigNotFound => "No configuration found. Run 'huestatus --setup' to get started."@,
            ErrorView::InvalidConfig { reason } => "Configuration invalid: "@ + reason + ". Run 'huestatus --setup' to fix."@,
            ErrorView::ConfigCorrupted => "Configuration file is corrupted. Run 'huestatus --setup' to recreate."@,
            ErrorView::ConfigVersionIncompatible => "Configuration version is incompatible. Run 'huestatus --setup' to update."@,
            ErrorView::BridgeNotFound => "Hue bridge not found. Check that your bridge is connected and on the same network."@,
            ErrorView::BridgeConnectionFailed { reason } => "Cannot connect to bridge: "@ + reason + ". Check network connection."@,
            ErrorView::AuthenticationFailed => "Authentication failed. Run 'huestatus --setup' to re-authenticate."@,
            ErrorView::LinkButtonNotPressed => "Link button not pressed. Press the button on your Hue bridge and try again."@,
            ErrorView::SceneNotFound { scene_name } => "Scene '"@ + scene_name + "' not found. Run 'huestatus --setup' to recreate scenes."@,
            ErrorView::SceneExecutionFailed { reason } => "Scene execution failed: "@ + reason + ". Check bridge connection."@,
            ErrorView::TimeoutError { operation } => "Operation timed out: "@ + operation + ". Check network connection and try again."@,
            ErrorView::NoLightsFound => "No lights found. Ensure your Hue bridge has lights connected and they are turned on."@,
            ErrorView::SetupFailed { reason } => "Setup failed: "@ + reason + ". Please try again."@,
            ErrorView::ValidationFailed { reason } => "Validation failed: "@ + reason + ". Run 'huestatus --setup' to fix."@,
            ErrorView::PermissionDenied { reason } => "Permission denied: "@ + reason + ". Check file permissions."@,
            ErrorView::DiscoveryServiceUnreachable { reason } => "Cannot reach Philips discovery service: "@ + reason + ". Check internet connection."@,
            ErrorView::MdnsDiscoveryFailed { reason } => "mDNS discovery failed: "@ + reason + ". Try manual bridge IP entry."@,
            ErrorView::SceneStorageLimitExceeded { max_scenes } => "Bridge scene storage full (max: "@ + decimal(max_scenes) + "). Delete some scenes and try again."@,
            ErrorView::UnsupportedPlatform { platform } => "Platform '"@ + platform + "' is not supported."@,
            ErrorView::EnvironmentVariableError { var_name } => "Environment variable '"@ + var_name + "' is invalid or missing."@,
            ErrorView::PathTooLong { path } => "Configuration path is too long: "@ + path + ". Try using a shorter path or set HUESTATUS_CONFIG_DIR environment variable."@,
            ErrorView::CapacityOverflow { operation } => "Memory capacity overflow during "@ + operation + ". This may be caused by extremely long file paths in WSL environment."@,
            _ => self.description(),
        }
    }

    /// The process exit code that stands for the error's category:
    /// 1 configuration, 2 connectivity, 3 authentication, 4 scene,
    /// 5 file system and encoding, 6 everything else.
    pub open spec fn exit_status(self) -> i32 {
        match self {
            ErrorView::ConfigNotFound
            | ErrorView::InvalidConfig { .. }
            | ErrorView::ConfigCorrupted
            | ErrorView::ConfigVersionIncompatible => 1,
            ErrorView::BridgeNotFound
            | ErrorView::BridgeConnectionFailed { .. }
            | ErrorView::NetworkError { .. }
            | ErrorView::ApiError { .. }
            | ErrorView::TimeoutError { .. }
            | ErrorView::DiscoveryServiceUnreachable { .. }
            | ErrorView::MdnsDiscoveryFailed { .. } => 2,
            ErrorView::AuthenticationFailed
            | ErrorView::LinkButtonNotPressed => 3,
            ErrorView::SceneNotFound { .. }
            | ErrorView::SceneExecutionFailed { .. }
            | ErrorView::SceneStorageLimitExceeded { .. }
            | ErrorView::InvalidSceneData { .. } => 4,
            ErrorView::IoError { .. }
            | ErrorView::JsonError { .. }
            | ErrorView::PermissionDenied { .. }
            | ErrorView::ConfigDirectoryCreationFailed { .. } => 5,
            _ => 6,
        }
    }

    /// Whether running the setup again can resolve the error.
    pub open spec fn recoverable_with_setup(self) -> bool {
        match self {
            ErrorView::ConfigNotFound
            | ErrorView::InvalidConfig { .. }
            | ErrorView::ConfigCorrupted
            | ErrorView::ConfigVersionIncompatible
            | ErrorView::AuthenticationFailed
            | ErrorView::SceneNotFound { .. }
            | ErrorView::NoLightsFound
            | ErrorView::ValidationFailed { .. }
            | ErrorView::PathTooLong { .. } => true,
            _ => false,
        }
    }

    /// Whether the error arises from network connectivity.
    pub open spec fn needs_network(self) -> bool {
        match self {
            ErrorView::BridgeNotFound
            | ErrorView::BridgeConnectionFailed { .. }
            | ErrorView::NetworkError { .. }
            | ErrorView::TimeoutError { .. }
            | ErrorView::ApiError { .. }
            | ErrorView::DiscoveryServiceUnreachable { .. }
            | ErrorView::MdnsDiscoveryFailed { .. } => true,
            _ => false,
        }
    }

    /// Whether the error is one of connectivity: the bridge was not found,
    /// the connection failed, the transport failed, or the time ran out.
    /// These are the errors after which a request is attempted again.
    pub open spec fn connectivity(self) -> bool {
        match self {
            ErrorView::BridgeNotFound
            | ErrorView::BridgeConnectionFailed { .. }
            | ErrorView::NetworkError { .. }
            | ErrorView::TimeoutError { .. } => true,
            _ => false,
        }
    }

    /// Whether the error is transient, so that a retry may succeed.
    pub open spec fn retryable(self) -> bool {
        match self {
            ErrorView::NetworkError { .. }
            | ErrorView::TimeoutError { .. }
            | ErrorView::BridgeConnectionFailed { .. }
            | ErrorView::SceneExecutionFailed { .. }
            | ErrorView::DiscoveryServiceUnreachable { .. } => true,
            _ => false,
        }
    }

}

impl HueStatusError {
    /// Renders the one-line description of the error.
    pub fn to_string(&self) -> (text: String)
        ensures
            text@ == self@.description(),
    {
        match self {
            HueStatusError::ConfigNotFound => String::from_str("Configuration file not found. Run 'huestatus --setup' to configure."),
            HueStatusError::InvalidConfig { reason } => concat2("Invalid configuration: ", reason.as_str()),
            HueStatusError::ConfigCorrupted => String::from_str("Configuration file corrupted. Run 'huestatus --setup' to reconfigure."),
            HueStatusError::ConfigVersionIncompatible => String::from_str("Configuration version incompatible. Run 'huestatus --setup' to update."),
            HueStatusError::BridgeNotFound => String::from_str("Bridge not found. Check network connection and try again."),
            HueStatusError::BridgeConnectionFailed { reason } => concat2("Bridge connection failed: ", reason.as_str()),
            HueStatusError::AuthenticationFailed => String::from_str("Authentication failed. Run 'huestatus --setup' to re-authenticate."),
            HueStatusError::LinkButtonNotPressed => String::from_str("Link button not pressed. Press the link button on your Hue bridge and try again."),
            HueStatusError::SceneNotFound { scene_name } => concat3("Scene '", scene_name.as_str(), "' not found. Run 'huestatus --setup' to recreate scenes."),
            HueStatusError::SceneExecutionFailed { reason } => concat2("Scene execution failed: ", reason.as_str()),
            HueStatusError::NetworkError { source } => concat2("Network error: ", source.as_str()),
            HueStatusError::ApiError { message } => concat2("API error: ", message.as_str()),
            HueStatusError::TimeoutError { operation } => concat2("Timeout error: ", operation.as_str()),
            HueStatusError::IoError { source } => concat2("IO error: ", source.as_str()),
            HueStatusError::JsonError { source } => concat2("JSON parsing error: ", source.as_str()),
            HueStatusError::NoLightsFound => String::from_str("No lights found. Ensure your Hue bridge has lights connected."),
            HueStatusError::CapabilityCheckFailed { reason } => concat2("Bridge capability check failed: ", reason.as_str()),
            HueStatusError::SetupFailed { reason } => concat2("Setup process failed: ", reason.as_str()),
            HueStatusError::ValidationFailed { reason } => concat2("Validation failed: ", reason.as_str()),
            HueStatusError::PermissionDenied { reason } => concat2("Permission denied: ", reason.as_str()),
            HueStatusError::DiscoveryServiceUnreachable { reason } => concat2("Discovery service unreachable: ", reason.as_str()),
            HueStatusError::MdnsDiscoveryFailed { reason } => concat2("mDNS discovery failed: ", reason.as_str()),
            HueStatusError::SceneStorageLimitExceeded { max_scenes } => {
                let number = u64_to_string(*max_scenes as u64);
                concat3("Scene storage limit exceeded. Bridge can store maximum ", number.as_str(), " scenes.")
            },
            HueStatusError::InvalidSceneData { reason } => concat2("Invalid scene data: ", reason.as_str()),
            HueStatusError::ColorConversionError { reason } => concat2("Color conversion error: ", reason.as_str()),
            HueStatusError::ConfigDirectoryCreationFailed { path } => concat2("Configuration directory creation failed: ", path.as_str()),
            HueStatusError::UnsupportedPlatform { platform } => concat2("Unsupported platform: ", platform.as_str()),
            HueStatusError::EnvironmentVariableError { var_name } => concat2("Environment variable error: ", var_name.as_str()),
            HueStatusError::PathTooLong { path } => concat2("Path too long: ", path.as_str()),
            HueStatusError::CapacityOverflow { operation } => concat2("Capacity overflow during ", operation.as_str()),
        }
    }

    /// Renders the message shown to a user, with a suggested action where
    /// one exists.
    pub fn user_message(&self) -> (text: String)
        ensures
            text@ == self@.user_text(),
    {
        match self {
            HueStatusError::ConfigNotFound => String::from_str("No configuration found. Run 'huestatus --setup' to get started."),
            HueStatusError::InvalidConfig { reason } => concat3("Configuration invalid: ", reason.as_str(), ". Run 'huestatus --setup' to fix."),
            HueStatusError::ConfigCorrupted => String::from_str("Configuration file is corrupted. Run 'huestatus --setup' to recreate."),
            HueStatusError::ConfigVersionIncompatible => String::from_str("Configuration version is incompatible. Run 'huestatus --setup' to update."),
            HueStatusError::BridgeNotFound => String::from_str("Hue bridge not found. Check that your bridge is connected and on the same network."),
            HueStatusError::BridgeConnectionFailed { reason } => concat3("Cannot connect to bridge: ", reason.as_str(), ". Check network connection."),
            HueStatusError::AuthenticationFailed => String::from_str("Authentication failed. Run 'huestatus --setup' to re-authenticate."),
            HueStatusError::LinkButtonNotPressed => String::from_str("Link button not pressed. Press the button on your Hue bridge and try again."),
            HueStatusError::SceneNotFound { scene_name } => concat3("Scene '", scene_name.as_str(), "' not found. Run 'huestatus --setup' to recreate scenes."),
            HueStatusError::SceneExecutionFailed { reason } => concat3("Scene execution failed: ", reason.as_str(), ". Check bridge connection."),
            HueStatusError::TimeoutError { operation } => concat3("Operation timed out: ", operation.as_str(), ". Check network connection and try again."),
            HueStatusError::NoLightsFound => String::from_str("No lights found. Ensure your Hue bridge has lights connected and they are turned on."),
            HueStatusError::SetupFailed { reason } => concat3("Setup failed: ", reason.as_str(), ". Please try again."),
            HueStatusError::ValidationFailed { reason } => concat3("Validation failed: ", reason.as_str(), ". Run 'huestatus --setup' to fix."),
            HueStatusError::PermissionDenied { reason } => concat3("Permission denied: ", reason.as_str(), ". Check file permissions."),
            HueStatusError::DiscoveryServiceUnreachable { reason } => concat3("Cannot reach Philips discovery service: ", reason.as_str(), ". Check internet connection."),
            HueStatusError::MdnsDiscoveryFailed { reason } => concat3("mDNS discovery failed: ", reason.as_str(), ". Try manual bridge IP entry."),
            HueStatusError::SceneStorageLimitExceeded { max_scenes } => {
                let number = u64_to_string(*max_scenes as u64);
                concat3("Bridge scene storage full (max: ", number.as_str(), "). Delete some scenes and try again.")
            },
            HueStatusError::UnsupportedPlatform { platform } => concat3("Platform '", platform.as_str(), "' is not supported."),
            HueStatusError::EnvironmentVariableError { var_name } => concat3("Environment variable '", var_name.as_str(), "' is invalid or missing."),
            HueStatusError::PathTooLong { path } => concat3("Configuration path is too long: ", path.as_str(), ". Try using a shorter path or set HUESTATUS_CONFIG_DIR environment variable."),
            HueStatusError::CapacityOverflow { operation } => concat3("Memory capacity overflow during ", operation.as_str(), ". This may be caused by extremely long file paths in WSL environment."),
            _ => self.to_string(),
        }
    }

    /// Converts the error to its process exit code.
    pub fn exit_code(&self) -> (code: i32)
        ensures
            code == self@.exit_status(),
            1 <= code <= 6,
    {
        match self {
            HueStatusError::ConfigNotFound
            | HueStatusError::InvalidConfig { .. }
            | HueStatusError::ConfigCorrupted
            | HueStatusError::ConfigVersionIncompatible => 1,
            HueStatusError::BridgeNotFound
            | HueStatusError::BridgeConnectionFailed { .. }
            | HueStatusError::NetworkError { .. }
            | HueStatusError::ApiError { .. }
            | HueStatusError::TimeoutError { .. }
            | HueStatusError::DiscoveryServiceUnreachable { .. }
            | HueStatusError::MdnsDiscoveryFailed { .. } => 2,
            HueStatusError::AuthenticationFailed
            | HueStatusError::LinkButtonNotPressed => 3,
            HueStatusError::SceneNotFound { .. }
            | HueStatusError::SceneExecutionFailed { .. }
            | HueStatusError::SceneStorageLimitExceeded { .. }
            | HueStatusError::InvalidSceneData { .. } => 4,
            HueStatusError::IoError { .. }
            | HueStatusError::JsonError { .. }
            | HueStatusError::PermissionDenied { .. }
            | HueStatusError::ConfigDirectoryCreationFailed { .. } => 5,
            HueStatusError::NoLightsFound
            | HueStatusError::CapabilityCheckFailed { .. }
            | HueStatusError::SetupFailed { .. }
            | HueStatusError::ValidationFailed { .. }
            | HueStatusError::ColorConversionError { .. }
            | HueStatusError::UnsupportedPlatform { .. }
            | HueStatusError::EnvironmentVariableError { .. }
            | HueStatusError::PathTooLong { .. }
            | HueStatusError::CapacityOverflow { .. } => 6,
        }
    }

    /// Whether running the setup again can resolve the error.
    pub fn is_recoverable_with_setup(&self) -> (yes: bool)
        ensures
            yes == self@.recoverable_with_setup(),
    {
        match self {
            HueStatusError::ConfigNotFound
            | HueStatusError::InvalidConfig { .. }
            | HueStatusError::ConfigCorrupted
            | HueStatusError::ConfigVersionIncompatible
            | HueStatusError::AuthenticationFailed
            | HueStatusError::SceneNotFound { .. }
            | HueStatusError::NoLightsFound
            | HueStatusError::ValidationFailed { .. }
            | HueStatusError::PathTooLong { .. } => true,
            _ => false,
        }
    }

    /// Whether the error arises from network connectivity.
    pub fn requires_network(&self) -> (yes: bool)
        ensures
            yes == self@.needs_network(),
    {
        match self {
            HueStatusError::BridgeNotFound
            | HueStatusError::BridgeConnectionFailed { .. }
            | HueStatusError::NetworkError { .. }
            | HueStatusError::TimeoutError { .. }
            | HueStatusError::ApiError { .. }
            | HueStatusError::DiscoveryServiceUnreachable { .. }
            | HueStatusError::MdnsDiscoveryFailed { .. } => true,
            _ => false,
        }
    }

    /// Whether the error is one of connectivity, after which a request is
    /// attempted again.
    pub fn is_connectivity(&self) -> (yes: bool)
        ensures
            yes == self@.connectivity(),
    {
        match self {
            HueStatusError::BridgeNotFound
            | HueStatusError::BridgeConnectionFailed { .. }
            | HueStatusError::NetworkError { .. }
            | HueStatusError::TimeoutError { .. } => true,
            _ => false,
        }
    }

    /// Whether the error is transient, so that a retry may succeed.
    pub fn is_retryable(&self) -> (yes: bool)
        ensures
            yes == self@.retryable(),
    {
        match self {
            HueStatusError::NetworkError { .. }
            | HueStatusError::TimeoutError { .. }
            | HueStatusError::BridgeConnectionFailed { .. }
            | HueStatusError::SceneExecutionFailed { .. }
            | HueStatusError::DiscoveryServiceUnreachable { .. } => true,
            _ => false,
        }
    }

    /// An independent copy of the error.
    pub fn duplicate(&self) -> (copy: Self)
        ensures
            copy == *self,
    {
        match self {
            HueStatusError::ConfigNotFound => HueStatusError::ConfigNotFound,
            HueStatusError::InvalidConfig { reason } => HueStatusError::InvalidConfig { reason: reason.clone() },
            HueStatusError::ConfigCorrupted => HueStatusError::ConfigCorrupted,
            HueStatusError::ConfigVersionIncompatible => HueStatusError::ConfigVersionIncompatible,
            HueStatusError::BridgeNotFound => HueStatusError::BridgeNotFound,
            HueStatusError::BridgeConnectionFailed { reason } => HueStatusError::BridgeConnectionFailed { reason: reason.clone() },
            HueStatusError::AuthenticationFailed => HueStatusError::AuthenticationFailed,
            HueStatusError::LinkButtonNotPressed => HueStatusError::LinkButtonNotPressed,
            HueStatusError::SceneNotFound { scene_name } => HueStatusError::SceneNotFound { scene_name: scene_name.clone() },
            HueStatusError::SceneExecutionFailed { reason } => HueStatusError::SceneExecutionFailed { reason: reason.clone() },
            HueStatusError::NetworkError { source } => HueStatusError::NetworkError { source: source.clone() },
            HueStatusError::ApiError { message } => HueStatusError::ApiError { message: message.clone() },
            HueStatusError::TimeoutError { operation } => HueStatusError::TimeoutError { operation: operation.clone() },
            HueStatusError::IoError { source } => HueStatusError::IoError { source: source.clone() },
            HueStatusError::JsonError { source } => HueStatusError::JsonError { source: source.clone() },
            HueStatusError::NoLightsFound => HueStatusError::NoLightsFound,
            HueStatusError::CapabilityCheckFailed { reason } => HueStatusError::CapabilityCheckFailed { reason: reason.clone() },
            HueStatusError::SetupFailed { reason } => HueStatusError::SetupFailed { reason: reason.clone() },
            HueStatusError::ValidationFailed { reason } => HueStatusError::ValidationFailed { reason: reason.clone() },
            HueStatusError::PermissionDenied { reason } => HueStatusError::PermissionDenied { reason: reason.clone() },
            HueStatusError::DiscoveryServiceUnreachable { reason } => HueStatusError::DiscoveryServiceUnreachable { reason: reason.clone() },
            HueStatusError::MdnsDiscoveryFailed { reason } => HueStatusError::MdnsDiscoveryFailed { reason: reason.clone() },
            HueStatusError::SceneStorageLimitExceeded { max_scenes } => HueStatusError::SceneStorageLimitExceeded { max_scenes: *max_scenes },
            HueStatusError::InvalidSceneData { reason } => HueStatusError::InvalidSceneData { reason: reason.clone() },
            HueStatusError::ColorConversionError { reason } => HueStatusError::ColorConversionError { reason: reason.clone() },
            HueStatusError::ConfigDirectoryCreationFailed { path } => HueStatusError::ConfigDirectoryCreationFailed { path: path.clone() },
            HueStatusError::UnsupportedPlatform { platform } => HueStatusError::UnsupportedPlatform { platform: platform.clone() },
            HueStatusError::EnvironmentVariableError { var_name } => HueStatusError::EnvironmentVariableError { var_name: var_name.clone() },
            HueStatusError::PathTooLong { path } => HueStatusError::PathTooLong { path: path.clone() },
            HueStatusError::CapacityOverflow { operation } => HueStatusError::CapacityOverflow { operation: operation.clone() },
        }
    }
}

/// How a file operation failed, as far as the classification reads it.
#[derive(Debug, Clone, Copy, PartialEq, Eq)]
pub enum IoFailureKind {
    /// The file or directory does not exist.
    NotFound,
    /// The operating system denied access.
    PermissionDenied,
    /// Any other failure.
    Other,
}

/// What [`network_error`] makes of a transport failure.
pub open spec fn network_failure(is_timeout: bool, is_connect: bool, source: Seq<char>) -> ErrorView {
    if is_timeout {
        ErrorView::TimeoutError { operation: "HTTP request"@ }
    } else if is_connect {
        ErrorView::BridgeConnectionFailed { reason: "Connection refused"@ }
    } else {
        ErrorView::NetworkError { source }
    }
}

/// Classifies a transport failure: a timeout, a refused connection, or any
/// other failure, which keeps the transport's description `source`.
pub fn network_error(is_timeout: bool, is_connect: bool, source: String) -> (error: HueStatusError)
    ensures
        error@ == network_failure(is_timeout, is_connect, source@),
{
    if is_timeout {
        HueStatusError::TimeoutError { operation: String::from_str("HTTP request") }
    } else if is_connect {
        HueStatusError::BridgeConnectionFailed { reason: String::from_str("Connection refused") }
    } else {
        HueStatusError::NetworkError { source }
    }
}

/// What [`io_error`] makes of a file-system failure.
pub open spec fn io_failure(kind: IoFailureKind, source: Seq<char>) -> ErrorView {
    match kind {
        IoFailureKind::NotFound => ErrorView::ConfigNotFound,
        IoFailureKind::PermissionDenied => ErrorView::PermissionDenied {
            reason: "File access denied"@,
        },
        IoFailureKind::Other => ErrorView::IoError { source },
    }
}

/// Classifies a file-system failure; `source` is the system's description.
pub fn io_error(kind: IoFailureKind, source: String) -> (error: HueStatusError)
    ensures
        error@ == io_failure(kind, source@),
{
    match kind {
        IoFailureKind::NotFound => HueStatusError::ConfigNotFound,
        IoFailureKind::PermissionDenied => HueStatusError::PermissionDenied {
            reason: String::from_str("File access denied"),
        },
        IoFailureKind::Other => HueStatusError::IoError { source },
    }
}

} // verus!
