use prefsuite::doc::{walk, DocNode, PathStep};
use prefsuite::outcome::ParseError;
use prefsuite::sound::{get_volume, set_volume};
use prefsuite::text::{
    find_substring, has_digit_run, parse_u8_decimal, split_str, str_eq_str, strip_prefix_str,
    strip_suffix_str, trim_str, u8_to_decimal,
};
use prefsuite::version::SemanticVersion;
use prefsuite::wifi::{
    current_network_from_doc, get_current_wifi_ffi, get_current_wifi_heuristic,
    get_current_wifi_networksetup, get_nearby_wifi_airport, get_nearby_wifi_ffi,
    get_nearby_wifi_heuristic, get_wifi_info_heuristic, is_wifi_on, join_network,
    nearby_networks_from_doc, set_wifi, SsidLookup,
};

fn names_of(v: &[String]) -> Vec<&str> {
    v.iter().map(|s| s.as_str()).collect()
}

#[test]
fn text_helpers_behave() {
    assert_eq!(trim_str("  a b \t\n"), "a b");
    assert_eq!(split_str("a:b:c", ':'), vec!["a", "b", "c"]);
    assert_eq!(split_str("no-colon", ':'), vec!["no-colon"]);
    assert_eq!(split_str(":x:", ':'), vec!["", "x", ""]);
    assert_eq!(find_substring("SSID BSSID RSSI", "BSSID"), Some(5));
    assert_eq!(find_substring("SSID", "BSSID"), None);
    assert!(str_eq_str("abc", "abc"));
    assert!(!str_eq_str("abc", "abd"));
    assert_eq!(strip_prefix_str("Current: X", "Current: "), Some("X".to_string()));
    assert_eq!(strip_prefix_str("Other: X", "Current: "), None);
    assert_eq!(strip_suffix_str("line\n", "\n"), Some("line".to_string()));
    assert_eq!(strip_suffix_str("line", "\n"), None);
}

#[test]
fn decimal_parsing_and_rendering() {
    assert_eq!(parse_u8_decimal("0"), Some(0));
    assert_eq!(parse_u8_decimal("57"), Some(57));
    assert_eq!(parse_u8_decimal("255"), Some(255));
    assert_eq!(parse_u8_decimal("256"), None);
    assert_eq!(parse_u8_decimal(""), None);
    assert_eq!(parse_u8_decimal("5x"), None);
    assert_eq!(u8_to_decimal(0), "0");
    assert_eq!(u8_to_decimal(57), "57");
    assert_eq!(u8_to_decimal(100), "100");
    assert_eq!(u8_to_decimal(255), "255");
}

#[test]
fn wifi_power_parses_on_and_off() {
    assert_eq!(is_wifi_on("Wi-Fi Power (en0): On\n").unwrap(), true);
    assert_eq!(is_wifi_on("Wi-Fi Power (en0): Off\n").unwrap(), false);
}

#[test]
fn wifi_power_rejects_odd_values() {
    match is_wifi_on("Wi-Fi Power (en0): Maybe\n") {
        Err(ParseError::UnexpectedToken(t)) => assert_eq!(t, "Maybe"),
        other => panic!("expected an unexpected-token error, got {:?}", other),
    }
    assert!(matches!(is_wifi_on("no delimiter here"), Err(ParseError::MissingField)));
}

#[test]
fn airport_scenario_yields_home_and_work() {
    let input = "SSID BSSID RSSI\nHome     aa:bb  -40\nWork     cc:dd  -55\n";
    let names = get_nearby_wifi_airport(input).unwrap();
    let mut names = names_of(&names);
    names.sort();
    assert_eq!(names, vec!["Home", "Work"]);
}

#[test]
fn airport_without_header_token_fails() {
    assert!(get_nearby_wifi_airport("SSID RSSI\nHome  -40\n").is_none());
}

#[test]
fn airport_takes_lines_exactly_as_wide_as_the_column() {
    // "BSSID" sits at offset 5; the data line is exactly 5 characters
    // long, so its whole (trimmed) text is the name.
    let names = get_nearby_wifi_airport("SSID BSSID RSSI\nHome \n").unwrap();
    assert_eq!(names_of(&names), vec!["Home"]);
}

#[test]
fn airport_header_only_is_a_valid_empty_set() {
    // Zero results is not the same as unparseable output.
    let names = get_nearby_wifi_airport("SSID BSSID RSSI\n").unwrap();
    assert!(names.is_empty());
}

#[test]
fn airport_skips_short_lines_and_collapses_duplicates() {
    let input = "SSID BSSID\nHome  aa:bb\nHo\nHome  cc:dd\n";
    let names = get_nearby_wifi_airport(input).unwrap();
    assert_eq!(names_of(&names), vec!["Home"]);
}

#[test]
fn current_network_text_parses() {
    assert_eq!(
        prefsuite::wifi::parse_current_network("Current Wi-Fi Network: HomeNet\n").unwrap(),
        "HomeNet"
    );
    assert_eq!(
        prefsuite::wifi::parse_current_network(
            "You are not associated with an AirPort network.\n"
        )
        .unwrap(),
        "Not connected"
    );
    assert!(matches!(
        prefsuite::wifi::parse_current_network("something else"),
        Err(ParseError::MissingField)
    ));
}

#[test]
fn networksetup_route_is_version_gated() {
    let old = SemanticVersion::new(14, 0, 0);
    let new = SemanticVersion::new(15, 0, 0);
    let output = "Current Wi-Fi Network: HomeNet\n";
    assert_eq!(get_current_wifi_networksetup(&old, output), Some("HomeNet".to_string()));
    assert_eq!(get_current_wifi_networksetup(&new, output), None);
}

#[test]
fn native_lookup_decisions() {
    assert_eq!(get_current_wifi_ffi(SsidLookup::Ssid("Net".to_string())), Some("Net".to_string()));
    assert_eq!(get_current_wifi_ffi(SsidLookup::NoSsid), None);
    assert_eq!(get_current_wifi_ffi(SsidLookup::NoInterface), None);
}

#[test]
fn native_scan_distinguishes_empty_from_unreadable() {
    // Readable names collapse to a distinct set, in first-occurrence order.
    let scan = vec![
        Some("A".to_string()),
        None,
        Some("A".to_string()),
        Some("B".to_string()),
    ];
    let names = get_nearby_wifi_ffi(&scan).unwrap();
    assert_eq!(names_of(&names), vec!["A", "B"]);
    // A scan with zero results and no errors is a valid empty set.
    assert_eq!(get_nearby_wifi_ffi(&vec![]).unwrap().len(), 0);
    // Only errors and no names at all is a failure.
    assert!(get_nearby_wifi_ffi(&vec![None, None]).is_none());
}

#[test]
fn heuristics_prefer_the_first_answer() {
    let a = Some(vec!["X".to_string()]);
    let b = Some(vec!["Y".to_string()]);
    assert_eq!(get_nearby_wifi_heuristic(a.clone(), b.clone()), a);
    assert_eq!(get_nearby_wifi_heuristic(None, b.clone()), b);
    assert_eq!(
        get_current_wifi_heuristic(Some("N".to_string()), Some("M".to_string())),
        Some("N".to_string())
    );
    assert_eq!(get_current_wifi_heuristic(None, Some("M".to_string())), Some("M".to_string()));
}

#[test]
fn command_builders_use_discrete_tokens() {
    let cmd = set_wifi(true);
    assert_eq!(cmd.program, "networksetup");
    assert_eq!(cmd.args, vec!["-setairportpower", "en0", "On"]);
    let cmd = set_wifi(false);
    assert_eq!(cmd.args, vec!["-setairportpower", "en0", "Off"]);
    let cmd = join_network("My Net; rm -rf /", "pass word");
    assert_eq!(cmd.program, "networksetup");
    assert_eq!(cmd.args, vec!["-setairportnetwork", "en0", "My Net; rm -rf /", "pass word"]);
}

#[test]
fn volume_parses_and_renders() {
    assert_eq!(get_volume("57\n").unwrap(), 57);
    assert!(matches!(get_volume("57"), Err(ParseError::MissingField)));
    assert!(matches!(get_volume("\n"), Err(ParseError::NotANumber)));
    assert!(matches!(get_volume("300\n"), Err(ParseError::NotANumber)));
    let cmd = set_volume(57);
    assert_eq!(cmd.program, "osascript");
    assert_eq!(cmd.args, vec!["-e", "set volume output volume 57"]);
}

fn sample_doc() -> DocNode {
    // The shape of the wireless report: one data entry, one interface,
    // a current network, and two nearby networks (one repeated).
    DocNode::Object(vec![(
        "SPAirPortDataType".to_string(),
        DocNode::List(vec![DocNode::Object(vec![(
            "spairport_airport_interfaces".to_string(),
            DocNode::List(vec![DocNode::Object(vec![
                (
                    "spairport_current_network_information".to_string(),
                    DocNode::Object(vec![(
                        "_name".to_string(),
                        DocNode::Text("HomeNet".to_string()),
                    )]),
                ),
                (
                    "spairport_airport_other_local_wireless_networks".to_string(),
                    DocNode::List(vec![
                        DocNode::Object(vec![(
                            "_name".to_string(),
                            DocNode::Text("CafeNet".to_string()),
                        )]),
                        DocNode::Object(vec![(
                            "_name".to_string(),
                            DocNode::Text("CafeNet".to_string()),
                        )]),
                        DocNode::Object(vec![(
                            "_name".to_string(),
                            DocNode::Text("Library".to_string()),
                        )]),
                    ]),
                ),
            ])]),
        )])]),
    )])
}

#[test]
fn document_walk_follows_the_path() {
    let doc = sample_doc();
    let path = vec![
        PathStep::Key("SPAirPortDataType".to_string()),
        PathStep::At(0),
        PathStep::Key("spairport_airport_interfaces".to_string()),
        PathStep::At(0),
        PathStep::Key("spairport_current_network_information".to_string()),
        PathStep::Key("_name".to_string()),
    ];
    match walk(&doc, &path) {
        Some(DocNode::Text(s)) => assert_eq!(s, "HomeNet"),
        other => panic!("expected the current network's name, got {:?}", other),
    }
    let missing = vec![PathStep::Key("absent".to_string())];
    assert!(walk(&doc, &missing).is_none());
}

#[test]
fn document_extraction_reads_the_report() {
    let doc = sample_doc();
    assert_eq!(current_network_from_doc(&doc), Some("HomeNet".to_string()));
    let nearby = nearby_networks_from_doc(&doc).unwrap();
    assert_eq!(names_of(&nearby), vec!["CafeNet", "Library"]);
}

#[test]
fn document_extraction_fails_hard_on_absence() {
    let empty = DocNode::Object(vec![]);
    assert!(current_network_from_doc(&empty).is_none());
    assert!(nearby_networks_from_doc(&empty).is_none());
    // A member without a text name poisons the whole extraction.
    let doc = DocNode::Object(vec![(
        "SPAirPortDataType".to_string(),
        DocNode::List(vec![DocNode::Object(vec![(
            "spairport_airport_interfaces".to_string(),
            DocNode::List(vec![DocNode::Object(vec![(
                "spairport_airport_other_local_wireless_networks".to_string(),
                DocNode::List(vec![DocNode::Object(vec![])]),
            )])]),
        )])]),
    )]);
    assert!(nearby_networks_from_doc(&doc).is_none());
}

const SAMPLE_JSON: &str = "{\"SPAirPortDataType\":[{\"spairport_airport_interfaces\":[{\
\"spairport_current_network_information\":{\"_name\":\"HomeNet\"},\
\"spairport_airport_other_local_wireless_networks\":[{\"_name\":\"CafeNet\"},{\"_name\":\"Library\"}]\
}]}]}";

#[test]
fn unparseable_report_fills_no_gaps() {
    let info = get_wifi_info_heuristic(None, None, Some("{not structured"));
    assert!(info.current.is_none());
    assert!(info.nearby.is_none());
}

#[test]
fn digit_run_scanning() {
    assert!(!has_digit_run("", 1));
    assert!(has_digit_run("a7b", 1));
    assert!(!has_digit_run("a7b8c", 2));
    assert!(has_digit_run("a78b", 2));
    assert!(has_digit_run("1234", 4));
    assert!(!has_digit_run("1234", 5));
}

#[test]
fn absurd_digit_runs_are_rejected_before_parsing() {
    // A number with a run past the bound is refused up front rather
    // than handed to the text-to-document parser.
    let long_run = format!("{{\"n\": 0.{}}}", "0".repeat(40000));
    let info = get_wifi_info_heuristic(None, None, Some(&long_run));
    assert!(info.current.is_none());
    assert!(info.nearby.is_none());
    // A merely long document with bounded runs still parses.
    let report = format!(
        "{{\"pad\": {}, \"SPAirPortDataType\":[{{\"spairport_airport_interfaces\":[{{\
\"spairport_current_network_information\":{{\"_name\":\"HomeNet\"}}}}]}}]}}",
        "0.123456789"
    );
    let info = get_wifi_info_heuristic(None, None, Some(&report));
    assert_eq!(info.current, Some("HomeNet".to_string()));
}

#[test]
fn wifi_info_heuristic_fills_gaps_from_the_report() {
    // Answers already present are kept.
    let info = get_wifi_info_heuristic(
        Some(vec!["Fast".to_string()]),
        Some("Kept".to_string()),
        Some(SAMPLE_JSON),
    );
    assert_eq!(info.current, Some("Kept".to_string()));
    assert_eq!(names_of(info.nearby.as_ref().unwrap()), vec!["Fast"]);
    // Gaps are filled from the report.
    let info = get_wifi_info_heuristic(None, None, Some(SAMPLE_JSON));
    assert_eq!(info.current, Some("HomeNet".to_string()));
    assert_eq!(names_of(info.nearby.as_ref().unwrap()), vec!["CafeNet", "Library"]);
    // With no report, gaps stay empty.
    let info = get_wifi_info_heuristic(None, Some("Kept".to_string()), None);
    assert_eq!(info.current, Some("Kept".to_string()));
    assert!(info.nearby.is_none());
}
