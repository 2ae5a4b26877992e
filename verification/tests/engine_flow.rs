use prefsuite::engine::{Engine, EngineStep};
use prefsuite::outcome::{
    FactValue, InvocationError, InvocationErrorKind, ProbeError, ProbeOutcome,
};
use prefsuite::probe::{LogicalFact, ProbeCall, RawProbeOutput};
use prefsuite::version::SemanticVersion;

fn not_found() -> InvocationError {
    InvocationError::new(
        InvocationErrorKind::ExecutableNotFound,
        "no such executable".to_string(),
    )
}

#[test]
fn fallback_order_first_success_wins() {
    // Three routes exist for the nearby networks. The first fails, the
    // second succeeds: the outcome is the second's value and the third
    // is never asked for.
    let mut engine = Engine::new(Some(SemanticVersion::new(13, 0, 0)));
    let step = engine.get_or_probe(LogicalFact::NearbyNetworkSet);
    assert_eq!(step, EngineStep::AwaitProbe(ProbeCall::AirportScan));
    let step = engine.feed(Err(not_found()));
    assert_eq!(step, EngineStep::AwaitProbe(ProbeCall::NativeScanSsids));
    let step = engine.feed(Ok(RawProbeOutput::ScanEntries(vec![
        Some("Net1".to_string()),
        Some("Net2".to_string()),
    ])));
    assert_eq!(step, EngineStep::Ready);
    match engine.lookup(LogicalFact::NearbyNetworkSet) {
        Some(ProbeOutcome::Success(FactValue::Networks(names))) => {
            assert_eq!(names, &vec!["Net1".to_string(), "Net2".to_string()]);
        },
        other => panic!("expected the second route's value, got {:?}", other),
    }
}

#[test]
fn cache_answers_second_request_without_probing() {
    let mut engine = Engine::new(Some(SemanticVersion::new(13, 0, 0)));
    // First request runs the chain to completion.
    assert_eq!(
        engine.get_or_probe(LogicalFact::WirelessPower),
        EngineStep::AwaitProbe(ProbeCall::AirportPowerQuery)
    );
    let step = engine.feed(Ok(RawProbeOutput::Text("Wi-Fi Power (en0): On\n".to_string())));
    assert_eq!(step, EngineStep::Ready);
    // Second request: answered from the cache, no invocation requested.
    assert_eq!(engine.get_or_probe(LogicalFact::WirelessPower), EngineStep::Ready);
    assert!(matches!(
        engine.lookup(LogicalFact::WirelessPower),
        Some(ProbeOutcome::Success(FactValue::Power(true)))
    ));
    // After invalidation the chain runs again.
    engine.invalidate(LogicalFact::WirelessPower);
    assert!(engine.lookup(LogicalFact::WirelessPower).is_none());
    assert_eq!(
        engine.get_or_probe(LogicalFact::WirelessPower),
        EngineStep::AwaitProbe(ProbeCall::AirportPowerQuery)
    );
    let step = engine.feed(Ok(RawProbeOutput::Text("Wi-Fi Power (en0): Off\n".to_string())));
    assert_eq!(step, EngineStep::Ready);
    assert!(matches!(
        engine.lookup(LogicalFact::WirelessPower),
        Some(ProbeOutcome::Success(FactValue::Power(false)))
    ));
}

#[test]
fn named_queries_and_reload() {
    let mut engine = Engine::new(Some(SemanticVersion::new(13, 0, 0)));
    assert_eq!(
        engine.wireless_power(),
        EngineStep::AwaitProbe(ProbeCall::AirportPowerQuery)
    );
    engine.feed(Ok(RawProbeOutput::Text("Wi-Fi Power (en0): On\n".to_string())));
    assert_eq!(engine.wireless_power(), EngineStep::Ready);
    // Reload drops the cached answer and probes afresh.
    assert_eq!(
        engine.reload(LogicalFact::WirelessPower),
        EngineStep::AwaitProbe(ProbeCall::AirportPowerQuery)
    );
    engine.feed(Ok(RawProbeOutput::Text("Wi-Fi Power (en0): Off\n".to_string())));
    assert!(matches!(
        engine.lookup(LogicalFact::WirelessPower),
        Some(ProbeOutcome::Success(FactValue::Power(false)))
    ));
    assert_eq!(
        engine.current_network_name(),
        EngineStep::AwaitProbe(ProbeCall::AirportNetworkQuery)
    );
    engine.feed(Ok(RawProbeOutput::Text(
        "Current Wi-Fi Network: HomeNet\n".to_string(),
    )));
    assert_eq!(
        engine.nearby_networks(),
        EngineStep::AwaitProbe(ProbeCall::AirportScan)
    );
    engine.feed(Ok(RawProbeOutput::Text("SSID BSSID\nHome  aa:bb\n".to_string())));
    assert_eq!(
        engine.security_config_bits(),
        EngineStep::AwaitProbe(ProbeCall::NativeSecurityConfig)
    );
    engine.feed(Ok(RawProbeOutput::ConfigWord { code: 0, value: 0 }));
    assert!(matches!(
        engine.lookup(LogicalFact::SecurityConfigBits),
        Some(ProbeOutcome::Success(FactValue::ConfigBits(0)))
    ));
}

#[test]
fn invalidation_is_per_fact() {
    let mut engine = Engine::new(Some(SemanticVersion::new(13, 0, 0)));
    assert_eq!(
        engine.get_or_probe(LogicalFact::WirelessPower),
        EngineStep::AwaitProbe(ProbeCall::AirportPowerQuery)
    );
    engine.feed(Ok(RawProbeOutput::Text("Wi-Fi Power (en0): On\n".to_string())));
    engine.invalidate(LogicalFact::NearbyNetworkSet);
    // The power entry is untouched by the other fact's invalidation.
    assert_eq!(engine.get_or_probe(LogicalFact::WirelessPower), EngineStep::Ready);
}

#[test]
fn all_strategies_failing_aggregates_two_causes() {
    // At this version the status-command route is gated out, leaving
    // two routes to the current network. Both fail with invocation
    // errors: the outcome is a failure carrying both causes, in order -
    // not an unsupported fact.
    let mut engine = Engine::new(Some(SemanticVersion::new(15, 0, 0)));
    let step = engine.get_or_probe(LogicalFact::CurrentNetworkName);
    assert_eq!(step, EngineStep::AwaitProbe(ProbeCall::NativeCurrentSsid));
    let step = engine.feed(Err(not_found()));
    assert_eq!(step, EngineStep::AwaitProbe(ProbeCall::AirportDataReport));
    let step = engine.feed(Err(InvocationError::new(
        InvocationErrorKind::SpawnFailed,
        "could not start".to_string(),
    )));
    assert_eq!(step, EngineStep::Ready);
    match engine.lookup(LogicalFact::CurrentNetworkName) {
        Some(ProbeOutcome::Failure(causes)) => {
            assert_eq!(causes.len(), 2);
            assert!(matches!(
                &causes[0],
                ProbeError::Invocation(e) if e.kind == InvocationErrorKind::ExecutableNotFound
            ));
            assert!(matches!(
                &causes[1],
                ProbeError::Invocation(e) if e.kind == InvocationErrorKind::SpawnFailed
            ));
        },
        other => panic!("expected an aggregated failure, got {:?}", other),
    }
}

#[test]
fn unknown_version_makes_gated_facts_unsupported() {
    // With the version unknown, the only (gated) route to the security
    // bits is disqualified rather than guessed at.
    let mut engine = Engine::new(None);
    assert_eq!(engine.get_or_probe(LogicalFact::SecurityConfigBits), EngineStep::Ready);
    assert!(matches!(
        engine.lookup(LogicalFact::SecurityConfigBits),
        Some(ProbeOutcome::Unsupported)
    ));
    // Ungated routes still run with the version unknown.
    assert_eq!(
        engine.get_or_probe(LogicalFact::WirelessPower),
        EngineStep::AwaitProbe(ProbeCall::AirportPowerQuery)
    );
}

#[test]
fn old_version_makes_security_bits_unsupported() {
    let mut engine = Engine::new(Some(SemanticVersion::new(10, 10, 0)));
    assert_eq!(engine.get_or_probe(LogicalFact::SecurityConfigBits), EngineStep::Ready);
    assert!(matches!(
        engine.lookup(LogicalFact::SecurityConfigBits),
        Some(ProbeOutcome::Unsupported)
    ));
}

#[test]
fn security_bits_flow_checks_the_code() {
    let mut engine = Engine::new(Some(SemanticVersion::new(11, 0, 0)));
    let step = engine.get_or_probe(LogicalFact::SecurityConfigBits);
    assert_eq!(step, EngineStep::AwaitProbe(ProbeCall::NativeSecurityConfig));
    let step = engine.feed(Ok(RawProbeOutput::ConfigWord { code: 0, value: 239 }));
    assert_eq!(step, EngineStep::Ready);
    assert!(matches!(
        engine.lookup(LogicalFact::SecurityConfigBits),
        Some(ProbeOutcome::Success(FactValue::ConfigBits(239)))
    ));
    // A nonzero status code is a failure even though the call returned.
    engine.invalidate(LogicalFact::SecurityConfigBits);
    engine.get_or_probe(LogicalFact::SecurityConfigBits);
    let step = engine.feed(Ok(RawProbeOutput::ConfigWord { code: 1, value: 239 }));
    assert_eq!(step, EngineStep::Ready);
    match engine.lookup(LogicalFact::SecurityConfigBits) {
        Some(ProbeOutcome::Failure(causes)) => {
            assert_eq!(causes.len(), 1);
            assert!(matches!(
                &causes[0],
                ProbeError::Invocation(e) if e.kind == InvocationErrorKind::NativeCallFailed
            ));
        },
        other => panic!("expected a failure on a nonzero code, got {:?}", other),
    }
}

#[test]
fn profiler_route_parses_structured_text() {
    // Drive the current-network fact to its structured-report fallback:
    // this exercises the real text-to-document parse end to end.
    let mut engine = Engine::new(Some(SemanticVersion::new(15, 0, 0)));
    let step = engine.get_or_probe(LogicalFact::CurrentNetworkName);
    assert_eq!(step, EngineStep::AwaitProbe(ProbeCall::NativeCurrentSsid));
    let step = engine.feed(Ok(RawProbeOutput::CurrentSsid(None)));
    assert_eq!(step, EngineStep::AwaitProbe(ProbeCall::AirportDataReport));
    let report = "{\"SPAirPortDataType\":[{\"spairport_airport_interfaces\":[{\
\"spairport_current_network_information\":{\"_name\":\"HomeNet\"}}]}]}";
    let step = engine.feed(Ok(RawProbeOutput::Text(report.to_string())));
    assert_eq!(step, EngineStep::Ready);
    match engine.lookup(LogicalFact::CurrentNetworkName) {
        Some(ProbeOutcome::Success(FactValue::NetworkName(name))) => {
            assert_eq!(name, "HomeNet");
        },
        other => panic!("expected the report's network name, got {:?}", other),
    }
}

#[test]
fn parse_failures_are_distinct_causes() {
    // The tabular route's output lacks the header token: a parse error,
    // not an invocation error; then an unreadable scan; then a report
    // that is not structured text at all.
    let mut engine = Engine::new(Some(SemanticVersion::new(13, 0, 0)));
    engine.get_or_probe(LogicalFact::NearbyNetworkSet);
    let step = engine.feed(Ok(RawProbeOutput::Text("SSID RSSI\nHome -40\n".to_string())));
    assert_eq!(step, EngineStep::AwaitProbe(ProbeCall::NativeScanSsids));
    let step = engine.feed(Ok(RawProbeOutput::ScanEntries(vec![None])));
    assert_eq!(step, EngineStep::AwaitProbe(ProbeCall::AirportDataReport));
    let step = engine.feed(Ok(RawProbeOutput::Text("not structured".to_string())));
    assert_eq!(step, EngineStep::Ready);
    match engine.lookup(LogicalFact::NearbyNetworkSet) {
        Some(ProbeOutcome::Failure(causes)) => {
            assert_eq!(causes.len(), 3);
            assert!(causes.iter().all(|c| matches!(c, ProbeError::Parse(_))));
        },
        other => panic!("expected three parse causes, got {:?}", other),
    }
}
