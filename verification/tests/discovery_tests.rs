use huestatus::bridge::client::{Exchange, HttpMethod};
use huestatus::bridge::discovery::{decode_records, DiscoveryStep, PhilipsDiscoveryResponse};
use huestatus::bridge::{BridgeDiscovery, DiscoveredBridge, DiscoveryMethod, DiscoveryResult};
use huestatus::json::JsonValue;
use huestatus::HueStatusError;

fn bridge(ip: &str) -> DiscoveredBridge {
    DiscoveredBridge { ip: ip.to_string(), id: None, name: None, model: None, version: None, port: None }
}

fn outcome(method: DiscoveryMethod, ips: &[&str]) -> DiscoveryResult {
    DiscoveryResult { bridges: ips.iter().map(|ip| bridge(ip)).collect(), method }
}

fn answered(status: u16, body: &str) -> Exchange {
    Exchange::Answered { status, status_text: format!("{} Text", status), body: body.to_string() }
}

#[test]
fn test_bridge_discovery_creation() {
    let discovery = BridgeDiscovery::new();
    assert!(discovery.is_ok());
}

#[test]
fn test_discovery_method_priority() {
    // This would be tested in integration tests with actual discovery
    assert_eq!(DiscoveryMethod::PhilipsService, DiscoveryMethod::PhilipsService);
}

#[test]
fn test_discovered_bridge_display_name() {
    let bridge = DiscoveredBridge {
        ip: "192.168.1.100".to_string(),
        id: Some("001788fffe23456".to_string()),
        name: Some("Philips hue".to_string()),
        model: Some("BSB002".to_string()),
        version: Some("1.54.0".to_string()),
        port: Some(80),
    };

    assert_eq!(bridge.display_name(), "Philips hue (192.168.1.100)");
}

#[test]
fn test_discovered_bridge_summary() {
    let bridge = DiscoveredBridge {
        ip: "192.168.1.100".to_string(),
        id: Some("001788fffe23456".to_string()),
        name: Some("Philips hue".to_string()),
        model: Some("BSB002".to_string()),
        version: Some("1.54.0".to_string()),
        port: Some(80),
    };

    let summary = bridge.summary();
    assert!(summary.contains("192.168.1.100"));
    assert!(summary.contains("001788fffe23456"));
    assert!(summary.contains("Philips hue"));
}

#[test]
fn test_discovery_result_methods() {
    let bridge = DiscoveredBridge {
        ip: "192.168.1.100".to_string(),
        id: Some("test".to_string()),
        name: Some("Test Bridge".to_string()),
        model: None,
        version: None,
        port: None,
    };

    let result = DiscoveryResult { bridges: vec![bridge], method: DiscoveryMethod::PhilipsService };

    assert!(result.has_bridges());
    assert_eq!(result.bridge_count(), 1);
    assert!(result.first_bridge().is_some());
}

#[test]
fn test_bridge_completeness() {
    let complete_bridge = DiscoveredBridge {
        ip: "192.168.1.100".to_string(),
        id: Some("test".to_string()),
        name: Some("Test Bridge".to_string()),
        model: None,
        version: None,
        port: None,
    };

    let incomplete_bridge = DiscoveredBridge {
        ip: "192.168.1.100".to_string(),
        id: None,
        name: Some("Test Bridge".to_string()),
        model: None,
        version: None,
        port: None,
    };

    assert!(complete_bridge.is_complete());
    assert!(!incomplete_bridge.is_complete());
}

#[test]
fn test_display_name_forms() {
    let mut b = bridge("10.0.0.9");
    assert_eq!(b.display_name(), "Bridge at 10.0.0.9");
    b.id = Some("001788fffe23456".to_string());
    assert_eq!(b.display_name(), "Bridge 001788ff (10.0.0.9)");
    b.id = Some("12345678".to_string());
    assert_eq!(b.display_name(), "Bridge 12345678 (10.0.0.9)");
    b.id = Some("äöü1234".to_string());
    assert_eq!(b.display_name(), "Bridge äöü12 (10.0.0.9)");
    // An identifier of fewer than eight bytes is shown whole.
    b.id = Some("test".to_string());
    assert_eq!(b.display_name(), "Bridge test (10.0.0.9)");
    b.id = Some(String::new());
    assert_eq!(b.display_name(), "Bridge  (10.0.0.9)");
    // An identifier is never cut inside a character.
    b.id = Some("1234567äö".to_string());
    assert_eq!(b.display_name(), "Bridge 1234567 (10.0.0.9)");
    b.id = Some("日本語ブリッジ".to_string());
    assert_eq!(b.display_name(), "Bridge 日本 (10.0.0.9)");
}

#[test]
fn test_summary_exact() {
    let mut b = bridge("10.0.0.9");
    assert_eq!(b.summary(), "IP: 10.0.0.9");
    b.model = Some("BSB002".to_string());
    b.version = Some("1.54.0".to_string());
    assert_eq!(b.summary(), "IP: 10.0.0.9, Model: BSB002, API: 1.54.0");
    b.id = Some("i".to_string());
    b.name = Some("n".to_string());
    assert_eq!(b.summary(), "IP: 10.0.0.9, ID: i, Name: n, Model: BSB002, API: 1.54.0");
    assert_eq!(outcome(DiscoveryMethod::Mdns, &["a", "b"]).summary(), "Found 2 bridge(s) via mDNS");
    assert_eq!(outcome(DiscoveryMethod::PhilipsService, &[]).summary(), "Found 0 bridge(s) via Philips service");
    assert_eq!(outcome(DiscoveryMethod::Manual, &["a"]).summary(), "Found 1 bridge(s) via manual entry");
    assert_eq!(outcome(DiscoveryMethod::NetworkScan, &["a"]).summary(), "Found 1 bridge(s) via network scan");
    assert!(outcome(DiscoveryMethod::Manual, &[]).first_bridge().is_none());
}

#[test]
fn test_bridge_record_keeps_every_field() {
    let found = DiscoveredBridge {
        ip: "192.168.1.100".to_string(),
        id: Some("001788fffe23456".to_string()),
        name: Some("Philips hue".to_string()),
        model: Some("BSB002".to_string()),
        version: Some("1.54.0".to_string()),
        port: Some(8080),
    };
    let info = found.to_bridge_info();
    assert_eq!(info.internalipaddress, "192.168.1.100");
    assert_eq!(info.id, "001788fffe23456");
    assert_eq!(info.name, Some("Philips hue".to_string()));
    assert_eq!(info.modelid, Some("BSB002".to_string()));
    assert_eq!(info.swversion, Some("1.54.0".to_string()));
    assert_eq!(info.port, Some(8080));
    let bare = bridge("10.0.0.1").to_bridge_info();
    assert_eq!(bare.id, "");
    assert_eq!((bare.name, bare.modelid, bare.swversion, bare.port), (None, None, None, None));
}

#[test]
fn test_select_best_bridge_prefers_cloud_service() {
    let results = vec![
        outcome(DiscoveryMethod::NetworkScan, &["10.0.1.5"]),
        outcome(DiscoveryMethod::PhilipsService, &["192.168.1.2", "192.168.1.3"]),
    ];
    assert_eq!(BridgeDiscovery::select_best_bridge(&results).unwrap().ip, "192.168.1.2");
    let reversed = vec![
        outcome(DiscoveryMethod::PhilipsService, &["192.168.1.2"]),
        outcome(DiscoveryMethod::NetworkScan, &["10.0.1.5"]),
    ];
    assert_eq!(BridgeDiscovery::select_best_bridge(&reversed).unwrap().ip, "192.168.1.2");
}

#[test]
fn test_select_best_bridge_order() {
    let all = vec![
        outcome(DiscoveryMethod::NetworkScan, &["scan"]),
        outcome(DiscoveryMethod::Mdns, &["mdns"]),
        outcome(DiscoveryMethod::Manual, &["manual"]),
        outcome(DiscoveryMethod::PhilipsService, &[]),
    ];
    assert_eq!(BridgeDiscovery::select_best_bridge(&all).unwrap().ip, "manual");
    assert_eq!(BridgeDiscovery::select_best_bridge(&all[..2]).unwrap().ip, "mdns");
    assert_eq!(BridgeDiscovery::select_best_bridge(&all[..1]).unwrap().ip, "scan");
    assert!(BridgeDiscovery::select_best_bridge(&all[3..]).is_none());
    assert!(BridgeDiscovery::select_best_bridge(&[]).is_none());
    // Among outcomes of the same method the last one counts.
    let ties = vec![
        outcome(DiscoveryMethod::Mdns, &["first"]),
        outcome(DiscoveryMethod::Mdns, &["second"]),
        outcome(DiscoveryMethod::Mdns, &[]),
    ];
    assert_eq!(BridgeDiscovery::select_best_bridge(&ties).unwrap().ip, "second");
    assert_eq!(DiscoveryMethod::PhilipsService.rank(), 4);
    assert_eq!(DiscoveryMethod::Manual.rank(), 3);
    assert_eq!(DiscoveryMethod::Mdns.rank(), 2);
    assert_eq!(DiscoveryMethod::NetworkScan.rank(), 1);
}

// The cloud service cannot be reached, local advertisement finds nothing, the scan finds one bridge.
#[test]
fn test_discover_all_falls_through_to_scan() {
    let discovery = BridgeDiscovery::new().unwrap();
    let cloud = discovery
        .philips_service_records(Exchange::Failed { description: "dns error".to_string() })
        .map(|records| discovery.discover_via_philips_service(&records, &vec![]));
    assert_eq!(cloud, Err(HueStatusError::DiscoveryServiceUnreachable { reason: "dns error".to_string() }));
    let addresses = BridgeDiscovery::mdns_discovery_blocking().unwrap();
    let local = Ok(discovery.discover_via_mdns(&addresses, &vec![]));
    let targets = discovery.scan_targets("10.0.1");
    let probes: Vec<Option<DiscoveredBridge>> = targets
        .iter()
        .map(|ip| {
            let exchange = if ip == "10.0.1.5" {
                answered(200, r#"{"bridgeid":"001788FFFE100000","name":"Hue","modelid":"BSB002","apiversion":"1.50.0"}"#)
            } else {
                Exchange::TimedOut
            };
            BridgeDiscovery::test_bridge_at_ip(ip, &exchange)
        })
        .collect();
    let scan = Ok(discovery.discover_via_network_scan(&vec![discovery.scan_network_range(&probes)]));
    let result = discovery.discover_all(cloud, local, scan).unwrap();
    assert_eq!(result.method, DiscoveryMethod::NetworkScan);
    assert_eq!(result.bridges.len(), 1);
    assert_eq!(result.bridges[0].ip, "10.0.1.5");
    assert_eq!(result.bridges[0].id, Some("001788FFFE100000".to_string()));
    assert_eq!(result.bridges[0].port, Some(80));
}

#[test]
fn test_discover_all_order() {
    let discovery = BridgeDiscovery::new().unwrap();
    let cloud = outcome(DiscoveryMethod::PhilipsService, &["c"]);
    let local = outcome(DiscoveryMethod::Mdns, &["l"]);
    let scan = outcome(DiscoveryMethod::NetworkScan, &["s"]);
    let empty = outcome(DiscoveryMethod::PhilipsService, &[]);
    assert_eq!(discovery.discover_all(Ok(cloud.clone()), Ok(local.clone()), Ok(scan.clone())), Ok(cloud));
    assert_eq!(discovery.discover_all(Ok(empty.clone()), Ok(local.clone()), Ok(scan.clone())), Ok(local));
    assert_eq!(
        discovery.discover_all(Err(HueStatusError::BridgeNotFound), Err(HueStatusError::NoLightsFound), Ok(scan.clone())),
        Ok(scan)
    );
    assert_eq!(
        discovery.discover_all(Ok(empty.clone()), Ok(empty.clone()), Err(HueStatusError::NoLightsFound)),
        Err(HueStatusError::BridgeNotFound)
    );
    assert_eq!(discovery.discover_all_begin(), DiscoveryStep::Run(DiscoveryMethod::PhilipsService));
    assert_eq!(
        discovery.discover_all_next(DiscoveryMethod::PhilipsService, Ok(empty.clone())),
        DiscoveryStep::Run(DiscoveryMethod::Mdns)
    );
    assert_eq!(
        discovery.discover_all_next(DiscoveryMethod::Mdns, Err(HueStatusError::BridgeNotFound)),
        DiscoveryStep::Run(DiscoveryMethod::NetworkScan)
    );
    assert_eq!(
        discovery.discover_all_next(DiscoveryMethod::NetworkScan, Ok(empty)),
        DiscoveryStep::Done(Err(HueStatusError::BridgeNotFound))
    );
}

#[test]
fn test_cloud_records() {
    let discovery = BridgeDiscovery::new().unwrap();
    assert_eq!(discovery.philips_service_request().url, "https://discovery.meethue.com/");
    assert_eq!(discovery.philips_service_request().method, HttpMethod::Get);
    let body = r#"[{"id":"a","internalipaddress":"192.168.1.2","port":443},
                   {"id":"b","internalipaddress":"192.168.1.3"},
                   {"id":"c","internalipaddress":"192.168.1.4","port":null,"more":1}]"#;
    let records = discovery.philips_service_records(answered(200, body)).unwrap();
    assert_eq!(
        records,
        vec![
            PhilipsDiscoveryResponse { id: "a".to_string(), internalipaddress: "192.168.1.2".to_string(), port: Some(443) },
            PhilipsDiscoveryResponse { id: "b".to_string(), internalipaddress: "192.168.1.3".to_string(), port: None },
            PhilipsDiscoveryResponse { id: "c".to_string(), internalipaddress: "192.168.1.4".to_string(), port: None },
        ]
    );
    let enriched = DiscoveredBridge {
        ip: "192.168.1.2".to_string(),
        id: Some("a".to_string()),
        name: Some("Hue".to_string()),
        model: None,
        version: None,
        port: Some(80),
    };
    let result = discovery.discover_via_philips_service(
        &records,
        &vec![Ok(enriched.clone()), Err(HueStatusError::BridgeNotFound)],
    );
    assert_eq!(result.method, DiscoveryMethod::PhilipsService);
    assert_eq!(result.bridges.len(), 3);
    assert_eq!(result.bridges[0], enriched);
    assert_eq!(result.bridges[1].ip, "192.168.1.3");
    assert_eq!(result.bridges[1].id, Some("b".to_string()));
    assert_eq!(result.bridges[1].name, None);
    assert_eq!(result.bridges[2].port, None);
    assert_eq!(discovery.philips_service_records(answered(200, "[]")), Ok(vec![]));
    let unreachable = |reason: &str| Err(HueStatusError::DiscoveryServiceUnreachable { reason: reason.to_string() });
    assert_eq!(discovery.philips_service_records(answered(503, "[]")), unreachable("HTTP 503 Text"));
    assert_eq!(
        discovery.philips_service_records(Exchange::TimedOut),
        Err(HueStatusError::TimeoutError { operation: "Philips discovery service".to_string() })
    );
    for body in [r#"{"id":"a"}"#, r#"[{"id":"a"}]"#, r#"[{"id":"a","internalipaddress":"x","port":70000}]"#, r#"[{"id":1,"internalipaddress":"x"}]"#] {
        assert_eq!(
            discovery.philips_service_records(answered(200, body)),
            unreachable("Invalid JSON response: not a list of bridge records")
        );
        assert!(decode_records(&JsonValue::parse(body).unwrap()).is_err());
    }
    assert!(matches!(
        discovery.philips_service_records(answered(200, "<html>")),
        Err(HueStatusError::DiscoveryServiceUnreachable { reason }) if reason.starts_with("Invalid JSON response: ")
    ));
}

#[test]
fn test_enrichment_and_probe() {
    let discovery = BridgeDiscovery::new().unwrap().with_timeout(3).with_verbose(true);
    assert_eq!((discovery.timeout_seconds, discovery.verbose), (3, true));
    assert_eq!(discovery.identity_request("10.0.0.9").url, "http://10.0.0.9/api/0/config");
    let config = r#"{"bridgeid":"B","name":"N","modelid":"M","apiversion":"1.2.3","mac":5}"#;
    let found = discovery.enrich_bridge_info("10.0.0.9", None, answered(200, config)).unwrap();
    assert_eq!(
        found,
        DiscoveredBridge {
            ip: "10.0.0.9".to_string(),
            id: Some("B".to_string()),
            name: Some("N".to_string()),
            model: Some("M".to_string()),
            version: Some("1.2.3".to_string()),
            port: Some(80),
        }
    );
    let known = discovery.enrich_bridge_info("10.0.0.9", Some("K".to_string()), answered(200, config)).unwrap();
    assert_eq!(known.id, Some("K".to_string()));
    let sparse = discovery.enrich_bridge_info("10.0.0.9", None, answered(200, r#"{"name":7}"#)).unwrap();
    assert_eq!((sparse.id, sparse.name, sparse.port), (None, None, Some(80)));
    assert_eq!(
        discovery.enrich_bridge_info("10.0.0.9", None, answered(404, config)),
        Err(HueStatusError::BridgeConnectionFailed { reason: "HTTP 404 Text".to_string() })
    );
    assert_eq!(
        discovery.enrich_bridge_info("10.0.0.9", None, Exchange::TimedOut),
        Err(HueStatusError::TimeoutError { operation: "Bridge info query for 10.0.0.9".to_string() })
    );
    assert!(matches!(
        discovery.enrich_bridge_info("10.0.0.9", None, answered(200, "nothing")),
        Err(HueStatusError::NetworkError { .. })
    ));
    assert_eq!(BridgeDiscovery::test_bridge_at_ip("10.0.0.9", &answered(200, config)), Some(found));
    assert_eq!(BridgeDiscovery::test_bridge_at_ip("10.0.0.9", &answered(200, r#"{"name":"N"}"#)), None);
    assert_eq!(BridgeDiscovery::test_bridge_at_ip("10.0.0.9", &answered(500, config)), None);
    assert_eq!(BridgeDiscovery::test_bridge_at_ip("10.0.0.9", &answered(200, "x")), None);
    assert_eq!(BridgeDiscovery::test_bridge_at_ip("10.0.0.9", &Exchange::TimedOut), None);
    let numbered = BridgeDiscovery::test_bridge_at_ip("10.0.0.9", &answered(200, r#"{"bridgeid":5}"#)).unwrap();
    assert_eq!(numbered.id, None);
}

#[test]
fn test_scan_plan() {
    let discovery = BridgeDiscovery::new().unwrap();
    let targets = discovery.scan_targets("192.168.7");
    assert_eq!(targets.len(), 254);
    assert_eq!(targets[0], "192.168.7.1");
    assert_eq!(targets[99], "192.168.7.100");
    assert_eq!(targets[253], "192.168.7.254");
    assert_eq!(
        discovery.get_local_network_ranges(&vec![]),
        vec!["192.168.1", "192.168.0", "10.0.1", "172.16.0"]
    );
    assert_eq!(
        discovery.get_local_network_ranges(&vec![(10, 0, 255, 17), (127, 0, 0, 1)]),
        vec!["10.0.255", "127.0.0"]
    );
    let probes = vec![None, Some(bridge("a")), None, Some(bridge("b"))];
    assert_eq!(discovery.scan_network_range(&probes), vec![bridge("a"), bridge("b")]);
    let result = discovery.discover_via_network_scan(&vec![vec![bridge("a")], vec![], vec![bridge("b"), bridge("c")]]);
    assert_eq!(result.method, DiscoveryMethod::NetworkScan);
    assert_eq!(result.bridges, vec![bridge("a"), bridge("b"), bridge("c")]);
    let local = discovery.discover_via_mdns(&vec!["x".to_string(), "y".to_string()], &vec![Ok(bridge("z"))]);
    assert_eq!(local.method, DiscoveryMethod::Mdns);
    assert_eq!(local.bridges, vec![bridge("z"), bridge("y")]);
}

#[test]
fn test_manual_discovery_and_validation() {
    let discovery = BridgeDiscovery::new().unwrap();
    assert_eq!(
        discovery.discover_manual_request("not an address", false),
        Err(HueStatusError::InvalidConfig { reason: "Invalid IP address: not an address".to_string() })
    );
    assert_eq!(discovery.discover_manual_request("10.0.0.9", true).unwrap().url, "http://10.0.0.9/api/0/config");
    let found = discovery.discover_manual(Ok(bridge("10.0.0.9"))).unwrap();
    assert_eq!(found.method, DiscoveryMethod::Manual);
    assert_eq!(found.bridges, vec![bridge("10.0.0.9")]);
    assert_eq!(
        discovery.discover_manual(Err(HueStatusError::TimeoutError { operation: "x".to_string() })),
        Err(HueStatusError::BridgeNotFound)
    );
    let b = bridge("10.0.0.9");
    let failed = |reason: &str| Err(HueStatusError::BridgeConnectionFailed { reason: reason.to_string() });
    assert_eq!(discovery.validate_bridge(&b, answered(200, r#"{"bridgeid":"B"}"#)), Ok(()));
    assert_eq!(discovery.validate_bridge(&b, answered(200, r#"{"name":"B"}"#)), failed("Not a Hue bridge"));
    assert_eq!(discovery.validate_bridge(&b, answered(401, r#"{"bridgeid":"B"}"#)), failed("HTTP 401 Text"));
    assert_eq!(
        discovery.validate_bridge(&b, Exchange::Failed { description: "refused".to_string() }),
        failed("refused")
    );
    assert_eq!(
        discovery.validate_bridge(&b, Exchange::TimedOut),
        Err(HueStatusError::TimeoutError { operation: "Bridge validation for 10.0.0.9".to_string() })
    );
    assert!(matches!(
        discovery.validate_bridge(&b, answered(200, "{")),
        Err(HueStatusError::BridgeConnectionFailed { reason }) if reason.starts_with("Invalid response: ")
    ));
}
