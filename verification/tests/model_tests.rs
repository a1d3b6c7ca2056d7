use huestatus::bridge::{
    AutoInstall, Backup, BridgeCapabilities, BridgeClient, BridgeConfiguration, BridgeUpdateInfo, CapabilityLimits,
    ColorGamut, ColorTemperatureCapability, DeviceTypes, InternetServices, Light, LightCapabilities, LightControl,
    LightState, PortalState, Scene, SwUpdate, SwUpdate2, XyColor,
};
use huestatus::string_map::StringMap;

fn light(reachable: Option<bool>, gamut: bool, ct: bool, capabilities: bool) -> Light {
    let corner = XyColor { x_bits: 1, y_bits: 2 };
    Light {
        name: "L".to_string(),
        state: LightState {
            on: false,
            bri: None,
            hue: Some(7),
            sat: None,
            effect: None,
            xy: Some(corner),
            ct: Some(300),
            alert: None,
            colormode: None,
            mode: None,
            reachable,
        },
        light_type: "t".to_string(),
        modelid: "m".to_string(),
        manufacturername: "p".to_string(),
        productname: None,
        capabilities: if capabilities {
            Some(LightCapabilities {
                certified: true,
                control: LightControl {
                    mindimlevel: None,
                    maxlumen: None,
                    colorgamuttype: None,
                    colorgamut: if gamut { Some(ColorGamut { red: corner, green: corner, blue: corner }) } else { None },
                    ct: if ct { Some(ColorTemperatureCapability { min: 153, max: 500 }) } else { None },
                },
                streaming: None,
            })
        } else {
            None
        },
        config: None,
        swversion: None,
        swconfigid: None,
        productid: None,
    }
}

fn configuration() -> BridgeConfiguration {
    let s = || "x".to_string();
    BridgeConfiguration {
        name: "Hue".to_string(),
        zigbeechannel: 11,
        bridgeid: "B1".to_string(),
        mac: s(),
        dhcp: true,
        ipaddress: s(),
        netmask: s(),
        gateway: s(),
        proxyaddress: s(),
        proxyport: 0,
        utc: s(),
        localtime: s(),
        timezone: s(),
        modelid: s(),
        datastoreversion: s(),
        swversion: "1954".to_string(),
        apiversion: "1.54.0".to_string(),
        swupdate: SwUpdate {
            updatestate: 0,
            checkforupdate: false,
            devicetypes: DeviceTypes { bridge: false, lights: vec![], sensors: vec![] },
            url: s(),
            text: s(),
            notify: false,
        },
        swupdate2: SwUpdate2 {
            checkforupdate: false,
            lastchange: s(),
            bridge: BridgeUpdateInfo { state: s(), lastinstall: s() },
            state: s(),
            autoinstall: AutoInstall { updatetime: s(), on: false },
        },
        linkbutton: false,
        portalservices: false,
        portalconnection: s(),
        portalstate: PortalState { signedon: false, incoming: false, outgoing: false, communication: s() },
        internetservices: InternetServices { internet: s(), remoteaccess: s(), time: s(), swupdate: s() },
        factorynew: false,
        replacesbridgeid: None,
        backup: Backup { status: s(), errorcode: 0 },
        starterkitid: s(),
        whitelist: StringMap::new(),
    }
}

#[test]
fn test_light_queries() {
    let full = light(Some(true), true, false, true);
    assert!(full.supports_color());
    assert!(!full.supports_color_temperature());
    assert!(full.is_reachable());
    assert!(full.is_suitable_for_status());
    assert!(!full.is_on());
    assert_eq!((full.brightness(), full.hue(), full.saturation()), (0, 7, 0));
    assert_eq!(full.xy(), Some(XyColor { x_bits: 1, y_bits: 2 }));
    assert_eq!(full.color_temperature(), Some(300));
    assert!(full.supports_effect("colorloop"));
    assert!(full.supports_effect("none"));
    assert!(!full.supports_effect("blink"));
    let white = light(Some(true), false, true, true);
    assert!(white.is_suitable_for_status());
    assert!(!white.supports_effect("colorloop"));
    assert!(white.supports_effect("none"));
    let bare = light(Some(true), false, false, false);
    assert!(!bare.is_suitable_for_status());
    assert!(!bare.supports_effect("none"));
    assert!(!light(None, true, true, true).is_reachable());
    assert!(!light(Some(false), true, true, true).is_suitable_for_status());
    assert_eq!(full.clone(), full);
}

#[test]
fn test_scene_queries() {
    let mut scene = Scene {
        name: "s".to_string(),
        lights: vec!["1".to_string()],
        owner: "o".to_string(),
        recycle: true,
        locked: false,
        appdata: None,
        picture: None,
        image: None,
        lastupdated: String::new(),
        version: 2,
        lightstates: None,
    };
    assert!(scene.is_recyclable());
    assert!(!scene.is_locked());
    assert_eq!(scene.light_count(), 1);
    assert!(!scene.has_lightstates());
    assert!(scene.get_lightstates().is_none());
    assert!(scene.is_suitable_for_status());
    scene.locked = true;
    assert!(!scene.is_suitable_for_status());
    scene.locked = false;
    scene.lights.clear();
    assert!(!scene.is_suitable_for_status());
    scene.lightstates = Some(StringMap::new());
    assert!(scene.has_lightstates());
    assert_eq!(scene.get_lightstates().map(|m| m.len()), Some(0));
}

#[test]
fn test_bridge_status_from_listings() {
    let client = BridgeClient::new("h".to_string()).unwrap();
    let limits = |available: usize, total: usize| CapabilityLimits { available, total };
    let capabilities = BridgeCapabilities {
        lights: limits(40, 63),
        sensors: limits(0, 0),
        groups: limits(0, 0),
        scenes: limits(190, 200),
        rules: limits(0, 0),
        schedules: limits(0, 0),
        resourcelinks: limits(0, 0),
        streaming: None,
        timezones: vec![],
    };
    let mut lights = StringMap::new();
    lights.insert("1".to_string(), light(Some(true), true, false, true));
    lights.insert("2".to_string(), light(Some(true), false, false, true));
    lights.insert("3".to_string(), light(Some(false), true, true, true));
    lights.insert("4".to_string(), light(None, true, true, true));
    let mut scenes = StringMap::new();
    scenes.insert(
        "a".to_string(),
        Scene {
            name: "s".to_string(),
            lights: vec![],
            owner: String::new(),
            recycle: false,
            locked: false,
            appdata: None,
            picture: None,
            image: None,
            lastupdated: String::new(),
            version: 2,
            lightstates: None,
        },
    );
    let status = client.get_bridge_status(&configuration(), &capabilities, &lights, &scenes);
    assert_eq!(status.bridge_name, "Hue");
    assert_eq!(status.bridge_id, "B1");
    assert_eq!(status.api_version, "1.54.0");
    assert_eq!(status.sw_version, "1954");
    assert_eq!((status.total_lights, status.reachable_lights, status.suitable_lights), (4, 2, 1));
    assert_eq!((status.total_scenes, status.available_scenes, status.max_scenes), (1, 190, 200));
    assert!(status.is_healthy());
    assert_eq!(status.health_score(), 90);
}

#[test]
fn test_string_map() {
    let mut map: StringMap<u32> = StringMap::new();
    assert!(map.is_empty());
    assert_eq!(map.get("a"), None);
    map.insert("a".to_string(), 1);
    map.insert("b".to_string(), 2);
    map.insert("a".to_string(), 3);
    assert_eq!(map.len(), 2);
    assert_eq!(map.get("a"), Some(&3));
    assert_eq!(map.get("b"), Some(&2));
    assert_eq!(map.position("b"), Some(1));
    assert_eq!(map.position("c"), None);
    assert!(map.contains_key("a"));
    assert!(!map.contains_key(""));
    assert_eq!(map.entries, vec![("a".to_string(), 3), ("b".to_string(), 2)]);
    // The first entry counts where a key stands twice.
    let twice = StringMap { entries: vec![("k".to_string(), 1), ("k".to_string(), 2)] };
    assert_eq!(twice.get("k"), Some(&1));
}
