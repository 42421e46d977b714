//! Parsing and serialization of the document format.

use progresso_service::xml::progress_document_text;
use progresso_service::{
    parse_ordem, populate_test_timestamps, write_progress_xml, OrdemTargets, ServiceEntry,
};

/// Sample configuration with a single service entry containing all fields.
const SAMPLE_FULL_SERVICE: &str = r#"<?xml version="1.0" encoding="utf-8"?>
<OrdemTargets>
  <Service>
    <name>TestSvc</name>
    <description>Test Service</description>
    <status>Running</status>
    <start_mode>Manual</start_mode>
    <end_mode>Automatic</end_mode>
    <log_on_as>LocalSystem</log_on_as>
    <path>C:\Windows\system32\svchost.exe</path>
  </Service>
</OrdemTargets>"#;

#[test]
fn parse_and_serialize_roundtrip() {
    let mut ordem = parse_ordem(SAMPLE_FULL_SERVICE).expect("parse failed");
    assert_eq!(ordem.services.len(), 1, "Expected exactly one service");

    let service = &ordem.services[0];
    assert_eq!(service.name.as_deref(), Some("TestSvc"));
    assert_eq!(service.end_mode.as_deref(), Some("Automatic"));

    populate_test_timestamps(&mut ordem);

    let output = write_progress_xml(&ordem).expect("serialize failed");

    assert!(output.contains("TestSvc"), "Output should contain service name");
    assert!(
        output.contains("start_processing_time"),
        "Output should contain timestamp field"
    );
}

#[test]
fn empty_ordem_is_valid() {
    let xml = "<OrdemTargets></OrdemTargets>";
    let ordem = parse_ordem(xml).expect("parse empty failed");

    assert!(ordem.services.is_empty(), "Empty config should have no services");
    assert!(ordem.is_empty(), "is_empty() should return true");
    assert_eq!(ordem.len(), 0, "len() should return 0");
}

#[test]
fn self_closing_ordem_is_valid() {
    let xml = "<OrdemTargets/>";
    let ordem = parse_ordem(xml).expect("parse self-closing failed");

    assert!(ordem.is_empty());
}

#[test]
fn service_entry_helpers() {
    let mut entry = ServiceEntry {
        name: Some("TestService".to_string()),
        end_mode: Some("Automatic".to_string()),
        ..Default::default()
    };

    assert_eq!(entry.name(), Some("TestService"));

    assert!(entry.should_start(), "Automatic end_mode should start");

    entry.end_mode = Some("Manual".to_string());
    assert!(!entry.should_start(), "Manual end_mode should not start");

    entry.name = Some(String::new());
    assert_eq!(entry.name(), None, "Empty name should return None");
}

#[test]
fn ordem_with_capacity() {
    let ordem = OrdemTargets::with_capacity(10);

    assert!(ordem.is_empty());
    assert!(ordem.services.capacity() >= 10);
}

#[test]
fn parsed_fields_can_arrive_in_any_order() {
    let xml = "<OrdemTargets><Service><end_mode>Manual</end_mode><name>B</name></Service></OrdemTargets>";
    let ordem = parse_ordem(xml).expect("parse failed");
    assert_eq!(ordem.len(), 1);
    assert_eq!(ordem.services[0].name.as_deref(), Some("B"));
    assert_eq!(ordem.services[0].end_mode.as_deref(), Some("Manual"));
    assert_eq!(ordem.services[0].status, None);
}

#[test]
fn self_closing_service_has_all_fields_absent() {
    let ordem = parse_ordem("<OrdemTargets><Service/></OrdemTargets>").expect("parse failed");
    assert_eq!(ordem.len(), 1);
    let e = &ordem.services[0];
    assert!(e.name.is_none());
    assert!(e.end_mode.is_none());
    assert!(e.start_processing_time.is_none());
}

#[test]
fn self_closing_field_reads_as_empty_text() {
    let ordem =
        parse_ordem("<OrdemTargets><Service><name/></Service></OrdemTargets>").expect("parse");
    assert_eq!(ordem.services[0].name.as_deref(), Some(""));
}

#[test]
fn escaped_text_survives_a_round_trip() {
    let entry = ServiceEntry {
        name: Some("A & B <C> \"q\" 'a'".to_string()),
        description: Some("x > y".to_string()),
        ..Default::default()
    };
    let doc = OrdemTargets { services: vec![entry] };
    let xml = write_progress_xml(&doc).expect("serialize failed");
    assert!(xml.contains("&amp;"));
    assert!(xml.contains("&lt;"));
    let back = parse_ordem(&xml).expect("reparse failed");
    assert_eq!(back.services[0].name.as_deref(), Some("A & B <C> \"q\" 'a'"));
    assert_eq!(back.services[0].description.as_deref(), Some("x > y"));
}

#[test]
fn serialized_empty_document_is_self_closing_root() {
    let doc = OrdemTargets::new();
    let xml = write_progress_xml(&doc).expect("serialize failed");
    assert_eq!(xml, "<OrdemTargets/>");
}

#[test]
fn absent_fields_are_omitted_from_output() {
    let entry = ServiceEntry {
        name: Some("OnlyName".to_string()),
        ..Default::default()
    };
    let doc = OrdemTargets { services: vec![entry] };
    let xml = write_progress_xml(&doc).expect("serialize failed");
    assert_eq!(xml, "<OrdemTargets><Service><name>OnlyName</name></Service></OrdemTargets>");
}

#[test]
fn document_text_carries_the_standard_header() {
    let doc = OrdemTargets::new();
    let text = progress_document_text(&doc).expect("serialize failed");
    assert_eq!(
        text,
        "<?xml version=\"1.0\" encoding=\"utf-8\"?>\n<OrdemTargets/>"
    );
}

#[test]
fn malformed_documents_are_refused() {
    assert!(parse_ordem("garbage").is_err());
    assert!(parse_ordem("").is_err());
    assert!(parse_ordem("<OrdemTargets>").is_err());
    assert!(parse_ordem("<OrdemTargets><Service><name>x</name>").is_err());
    assert!(parse_ordem("<OrdemTargets><bogus/></OrdemTargets>").is_err());
    assert!(
        parse_ordem("<OrdemTargets><Service><bogus>y</bogus></Service></OrdemTargets>").is_err()
    );
    assert!(
        parse_ordem("<OrdemTargets><Service><name>a&x;b</name></Service></OrdemTargets>").is_err()
    );
    assert!(parse_ordem("<OrdemTargets/>junk").is_err());
}

#[test]
fn populate_preserves_existing_timestamps() {
    let entry = ServiceEntry {
        name: Some("K".to_string()),
        stop_time: Some("already-set".to_string()),
        ..Default::default()
    };
    let mut doc = OrdemTargets { services: vec![entry] };
    populate_test_timestamps(&mut doc);
    let e = &doc.services[0];
    assert_eq!(e.stop_time.as_deref(), Some("already-set"));
    assert!(e.start_processing_time.is_some());
    assert!(e.end_time.is_some());
    assert!(e.cpu_responsive_time.is_some());
}
