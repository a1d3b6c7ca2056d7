use huestatus::bridge::{
    portal_connection_required_error, CreateSceneRequest, HueError, HueErrorDetails, HueResponse, LightState,
    SceneActionRequest,
};
use huestatus::HueStatusError;

fn hue_error(code: u16, description: &str) -> HueError {
    HueError {
        error: HueErrorDetails {
            error_type: code,
            address: "/test".to_string(),
            description: description.to_string(),
        },
    }
}

#[test]
fn test_hue_response_success() {
    let response: HueResponse<String> = HueResponse::Success("test".to_string());
    assert!(response.is_success());
    assert!(!response.is_error());
    assert_eq!(response.success(), Some("test".to_string()));
}

#[test]
fn test_hue_response_error() {
    let error = HueError {
        error: HueErrorDetails {
            error_type: 1,
            address: "/test".to_string(),
            description: "Test error".to_string(),
        },
    };
    let response: HueResponse<String> = HueResponse::Error(error);
    assert!(!response.is_success());
    assert!(response.is_error());
    assert!(response.error().is_some());
}

#[test]
fn test_create_scene_request_success() {
    let lights = vec!["1".to_string(), "2".to_string()];
    let scene = CreateSceneRequest::new_success_scene("test-scene".to_string(), lights.clone());

    assert_eq!(scene.name, "test-scene");
    assert_eq!(scene.lights, lights);
    assert!(scene.recycle);
    assert_eq!(scene.lightstates.len(), 2);

    // Check that all lights have green color
    for light_id in &lights {
        let state = scene.lightstates.get(light_id).unwrap();
        assert_eq!(state.hue, Some(21845)); // Green
        assert_eq!(state.sat, Some(254));
        assert_eq!(state.bri, Some(254));
        assert!(state.on);
    }
}

#[test]
fn test_create_scene_request_failure() {
    let lights = vec!["1".to_string(), "2".to_string()];
    let scene = CreateSceneRequest::new_failure_scene("test-scene".to_string(), lights.clone());

    assert_eq!(scene.name, "test-scene");
    assert_eq!(scene.lights, lights);
    assert!(scene.recycle);
    assert_eq!(scene.lightstates.len(), 2);

    // Check that all lights have red color
    for light_id in &lights {
        let state = scene.lightstates.get(light_id).unwrap();
        assert_eq!(state.hue, Some(0)); // Red
        assert_eq!(state.sat, Some(254));
        assert_eq!(state.bri, Some(254));
        assert!(state.on);
    }
}

#[test]
fn test_light_state_validation() {
    let mut state = LightState::new_success_state();
    assert!(state.validate().is_ok());

    state.bri = Some(0);
    assert!(state.validate().is_err());

    state.bri = Some(254);
    state.hue = Some(65535);
    assert!(state.validate().is_ok());

    state.hue = Some(0);
    state.sat = Some(255);
    assert!(state.validate().is_err());
}

#[test]
fn test_scene_request_validation() {
    let lights = vec!["1".to_string()];
    let scene = CreateSceneRequest::new_success_scene("test".to_string(), lights);
    assert!(scene.validate().is_ok());

    let empty_scene = CreateSceneRequest::new_success_scene("".to_string(), vec![]);
    assert!(empty_scene.validate().is_err());
}

#[test]
fn test_hue_error_types() {
    let auth_error = HueError {
        error: HueErrorDetails {
            error_type: 1,
            address: "/test".to_string(),
            description: "Unauthorized".to_string(),
        },
    };
    assert!(auth_error.is_auth_error());

    let button_error = HueError {
        error: HueErrorDetails {
            error_type: 101,
            address: "/test".to_string(),
            description: "Link button not pressed".to_string(),
        },
    };
    assert!(button_error.is_link_button_error());
    assert!(button_error.is_recoverable());
}

#[test]
fn test_bridge_error_table() {
    let invalid = |prefix: &str| HueStatusError::InvalidConfig { reason: format!("{}: d", prefix) };
    assert_eq!(HueStatusError::from(hue_error(1, "d")), HueStatusError::AuthenticationFailed);
    assert_eq!(HueStatusError::from(hue_error(101, "d")), HueStatusError::LinkButtonNotPressed);
    assert_eq!(HueStatusError::from(hue_error(3, "d")), invalid("Resource not available"));
    assert_eq!(HueStatusError::from(hue_error(4, "d")), invalid("Method not available"));
    assert_eq!(HueStatusError::from(hue_error(5, "d")), invalid("Missing parameter"));
    assert_eq!(HueStatusError::from(hue_error(6, "d")), invalid("Parameter not available"));
    assert_eq!(HueStatusError::from(hue_error(7, "d")), invalid("Invalid value"));
    assert_eq!(HueStatusError::from(hue_error(8, "d")), invalid("Parameter not modifiable"));
    assert_eq!(
        HueStatusError::from(hue_error(11, "d")),
        HueStatusError::ApiError { message: "Too many items in list".to_string() }
    );
    assert_eq!(HueStatusError::from(hue_error(12, "d")), portal_connection_required_error());
    assert_eq!(
        portal_connection_required_error(),
        HueStatusError::ApiError { message: "Portal connection required".to_string() }
    );
    assert_eq!(
        HueStatusError::from_bridge_error(hue_error(901, "internal error")),
        HueStatusError::ApiError { message: "API error 901: internal error".to_string() }
    );
    assert_eq!(
        HueStatusError::from_bridge_error(hue_error(0, "")),
        HueStatusError::ApiError { message: "API error 0: ".to_string() }
    );
    assert_eq!(
        HueStatusError::from_bridge_error(hue_error(2, "x")),
        HueStatusError::ApiError { message: "API error 2: x".to_string() }
    );
}

#[test]
fn test_hue_error_user_messages() {
    assert_eq!(
        hue_error(1, "d").user_message(),
        "Authentication failed. Please run 'huestatus --setup' to re-authenticate."
    );
    assert_eq!(
        hue_error(101, "d").user_message(),
        "Link button not pressed. Press the button on your Hue bridge and try again."
    );
    assert_eq!(hue_error(7, "d").user_message(), "Invalid value: d");
    assert_eq!(hue_error(11, "d").user_message(), "Too many items in list");
    assert_eq!(hue_error(12, "d").user_message(), "Portal connection required");
    assert_eq!(hue_error(500, "d").user_message(), "API error 500: d");
    assert!(!hue_error(3, "d").is_auth_error());
    assert!(hue_error(101, "d").is_auth_error());
    assert!(hue_error(11, "d").is_recoverable());
    assert!(!hue_error(1, "d").is_recoverable());
}

#[test]
fn test_hue_response_into_result() {
    assert_eq!(HueResponse::Success(5u8).into_result(), Ok(5));
    assert_eq!(
        HueResponse::<u8>::Error(hue_error(1, "d")).into_result(),
        Err(HueStatusError::AuthenticationFailed)
    );
    assert_eq!(
        HueResponse::<u8>::ErrorArray(vec![hue_error(101, "a"), hue_error(1, "b")]).into_result(),
        Err(HueStatusError::LinkButtonNotPressed)
    );
    assert_eq!(
        HueResponse::<u8>::ErrorArray(vec![]).into_result(),
        Err(HueStatusError::ApiError { message: "Unknown API error".to_string() })
    );
    assert_eq!(
        HueResponse::<u8>::ErrorArray(vec![hue_error(7, "a"), hue_error(1, "b")]).error(),
        Some(hue_error(7, "a"))
    );
    assert_eq!(HueResponse::<u8>::ErrorArray(vec![]).error(), None);
    assert_eq!(HueResponse::Success(5u8).error(), None);
    assert_eq!(HueResponse::<u8>::Error(hue_error(1, "d")).success(), None);
    assert!(HueResponse::<u8>::ErrorArray(vec![]).is_error());
}

#[test]
fn test_scene_request_defects() {
    let reason = |r: &str| Err(HueStatusError::InvalidSceneData { reason: r.to_string() });
    let named = CreateSceneRequest::new_success_scene("n".to_string(), vec![]);
    assert_eq!(named.validate(), reason("Scene must have at least one light"));
    let unnamed = CreateSceneRequest::new_success_scene(String::new(), vec!["1".to_string()]);
    assert_eq!(unnamed.validate(), reason("Scene name cannot be empty"));
    let mut request = CreateSceneRequest::new_custom_scene("n".to_string(), vec!["1".to_string()], 100, 50, 25);
    assert_eq!(request.lightstates.get("1").unwrap().hue, Some(100));
    assert_eq!(request.lightstates.get("1").unwrap().sat, Some(50));
    assert_eq!(request.lightstates.get("1").unwrap().bri, Some(25));
    assert_eq!(request.lightstates.get("1").unwrap().colormode, Some("hs".to_string()));
    request.lights.push("2".to_string());
    request.lights.push("3".to_string());
    assert_eq!(request.validate(), reason("Light 2 has no corresponding light state"));
    request.lights.clear();
    request.lights.push("1".to_string());
    request.lightstates = huestatus::string_map::StringMap::new();
    assert_eq!(request.validate(), reason("Scene must have light states"));
    // A light that is named twice gets one state.
    let twice = CreateSceneRequest::new_failure_scene("n".to_string(), vec!["1".to_string(), "1".to_string()]);
    assert_eq!(twice.lightstates.len(), 1);
    assert_eq!(twice.validate(), Ok(()));
    assert_eq!(SceneActionRequest::new("abc".to_string()).scene, "abc");
}

#[test]
fn test_light_state_defects() {
    let mut state = LightState::new_custom_state(1, 2, 3);
    assert_eq!((state.hue, state.sat, state.bri, state.on), (Some(1), Some(2), Some(3), true));
    assert_eq!(LightState::new_failure_state().hue, Some(0));
    state.bri = Some(0);
    state.sat = Some(255);
    assert_eq!(
        state.validate(),
        Err(HueStatusError::InvalidSceneData {
            reason: "Brightness cannot be 0 (use on: false instead)".to_string()
        })
    );
    state.bri = None;
    assert_eq!(
        state.validate(),
        Err(HueStatusError::InvalidSceneData { reason: "Saturation value must be between 0 and 254".to_string() })
    );
    state.sat = Some(254);
    assert_eq!(state.validate(), Ok(()));
}
