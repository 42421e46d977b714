//! Text matching, start-mode normalization, pruning, progress-file naming,
//! and the system query's JSON reading.

use progresso_service::clock::{new_progress_file_name, progress_file_name};
use progresso_service::pacing::should_report;
use progresso_service::sysquery::{
    normalize_start_mode, prune_targets, service_info_from_fields, services_from_json_bytes,
    targets_payload_within_limit, ServiceInfo,
};
use progresso_service::textmatch::{contains_str, str_eq, text_matches_token, text_reports_running};
use progresso_service::ServiceEntry;

#[test]
fn substring_search_finds_patterns_anywhere() {
    assert!(contains_str("hello world", "lo wo"));
    assert!(contains_str("hello", "hello"));
    assert!(contains_str("hello", ""));
    assert!(!contains_str("hello", "world"));
    assert!(!contains_str("", "x"));
    assert!(contains_str("aaab", "aab"));
}

#[test]
fn text_equality_goes_by_characters() {
    assert!(str_eq("Auto", "Auto"));
    assert!(!str_eq("Auto", "auto"));
    assert!(!str_eq("Auto", "Autom"));
}

#[test]
fn token_matching_folds_both_sides() {
    // If folding handed its input back unchanged, neither side would match.
    assert!(text_matches_token("mode: AUTOMATIC", "Automatic"));
    assert!(text_matches_token("mode: automatic", "AUTOMATIC"));
    assert!(!text_matches_token("mode: manual", "automatic"));
}

#[test]
fn running_report_is_case_insensitive() {
    assert!(text_reports_running("SERVICE_NAME: x  STATE : 4  RUNNING"));
    assert!(text_reports_running("state: running"));
    assert!(!text_reports_running("STATE : 1  STOPPED"));
    assert!(!text_reports_running(""));
}

#[test]
fn should_start_takes_any_text_containing_automatic() {
    let mut e = ServiceEntry {
        end_mode: Some("Automatic (Delayed Start)".to_string()),
        ..Default::default()
    };
    assert!(e.should_start());
    e.end_mode = Some("semi-AUTOMATIC profile".to_string());
    assert!(e.should_start());
    e.end_mode = Some("Disabled".to_string());
    assert!(!e.should_start());
    e.end_mode = None;
    assert!(!e.should_start());
}

#[test]
fn recording_checkpoints_fills_only_the_named_field() {
    let mut e = ServiceEntry::default();
    e.record_start_processing();
    assert!(e.start_processing_time.is_some());
    assert!(e.stop_time.is_none());
    e.record_stop();
    assert!(e.stop_time.is_some());
    e.record_end();
    assert!(e.end_time.is_some());
    e.record_cpu_responsive();
    assert!(e.cpu_responsive_time.is_some());
}

#[test]
fn start_modes_normalize_to_console_form() {
    assert_eq!(normalize_start_mode("Auto", true), "Automatic (Delayed Start)");
    assert_eq!(normalize_start_mode("Auto", false), "Automatic");
    assert_eq!(normalize_start_mode("Manual", false), "Manual");
    assert_eq!(normalize_start_mode("Manual", true), "Manual");
    assert_eq!(normalize_start_mode("Disabled", false), "Disabled");
    assert_eq!(normalize_start_mode("Boot", false), "Boot");
}

fn info(name: &str, start_mode: &str, end_mode: Option<&str>) -> ServiceInfo {
    ServiceInfo {
        name: name.to_string(),
        description: String::new(),
        status: String::new(),
        start_mode: start_mode.to_string(),
        end_mode: end_mode.map(|m| m.to_string()),
        log_on_as: String::new(),
        path: String::new(),
    }
}

#[test]
fn pruning_keeps_only_changed_targets() {
    let services = vec![
        info("same", "Manual", Some("Manual")),
        info("changed", "Manual", Some("Automatic")),
        info("undeclared", "Manual", None),
        info("also_changed", "Automatic", Some("Disabled")),
    ];
    let pruned = prune_targets(&services);
    let names: Vec<&str> = pruned.iter().map(|s| s.name.as_str()).collect();
    assert_eq!(names, vec!["changed", "also_changed"]);
}

#[test]
fn payload_limit_is_ten_thousand_entries() {
    let mut services: Vec<ServiceInfo> = Vec::new();
    for _ in 0..10_000 {
        services.push(info("x", "", None));
    }
    assert!(targets_payload_within_limit(&services));
    services.push(info("x", "", None));
    assert!(!targets_payload_within_limit(&services));
}

#[test]
fn built_service_info_normalizes_its_start_mode() {
    let s = service_info_from_fields(
        "Alpha".to_string(),
        "Alpha Svc".to_string(),
        "Running".to_string(),
        "Auto".to_string(),
        true,
        "LocalSystem".to_string(),
        "c:/alpha.exe".to_string(),
    );
    assert_eq!(s.name, "Alpha");
    assert_eq!(s.start_mode, "Automatic (Delayed Start)");
    assert!(s.end_mode.is_none());
    assert_eq!(s.path, "c:/alpha.exe");
}

#[test]
fn system_query_json_array_yields_one_service_per_element() {
    let bytes = br#"[
        {"Name":"Alpha","DisplayName":"Alpha Svc","State":"Running",
         "StartMode":"Auto","DelayedAutoStart":false,
         "StartName":"LocalSystem","PathName":"c:/alpha.exe"},
        {"Name":"Beta","DisplayName":"Beta Svc","State":"Stopped",
         "StartMode":"Manual","DelayedAutoStart":false,
         "StartName":"LocalService","PathName":"c:/beta.exe"}
    ]"#;
    let services = services_from_json_bytes(bytes).expect("valid JSON");
    assert_eq!(services.len(), 2);
    assert_eq!(services[0].name, "Alpha");
    assert_eq!(services[0].start_mode, "Automatic");
    assert!(services[0].end_mode.is_none());
    assert_eq!(services[1].name, "Beta");
    assert_eq!(services[1].start_mode, "Manual");
}

#[test]
fn system_query_json_lone_object_yields_one_service() {
    let bytes = br#"{"Name":"Solo","State":"Running","StartMode":"Disabled"}"#;
    let services = services_from_json_bytes(bytes).expect("valid JSON");
    assert_eq!(services.len(), 1);
    assert_eq!(services[0].name, "Solo");
    assert_eq!(services[0].start_mode, "Disabled");
    assert_eq!(services[0].description, "", "absent fields degrade to empty");
}

#[test]
fn system_query_rejects_or_empties_odd_documents() {
    assert!(services_from_json_bytes(b"not json").is_none());
    let services = services_from_json_bytes(b"\"just a string\"").expect("valid JSON");
    assert!(services.is_empty());
}

#[test]
fn progress_file_names_carry_the_run_stamp() {
    assert_eq!(
        progress_file_name("20250101.121314"),
        "progresso.20250101.121314.xml"
    );
    let fresh = new_progress_file_name();
    assert!(fresh.starts_with("progresso."));
    assert!(fresh.ends_with(".xml"));
    assert!(fresh.len() > "progresso..xml".len());
}

#[test]
fn load_reports_come_on_first_sample_and_big_moves() {
    assert!(should_report(None, 0));
    assert!(should_report(None, 1000));
    assert!(!should_report(Some(500), 549));
    assert!(should_report(Some(500), 550));
    assert!(!should_report(Some(500), 451));
    assert!(should_report(Some(500), 450));
}
