//! Schema-directed reconstruction on concrete streams.

use xcactivitylog::deser::{Deserializer, XActivityLogObject};
use xcactivitylog::log_class::{
    DVTDocumentLocation, IDEActivityLogSection,
};
use xcactivitylog::cli::OutputFile;
use xcactivitylog::parser::Parser;
use xcactivitylog::stream::DecodeError;
use xcactivitylog::token::Token;

fn decode_all(bytes: &[u8]) -> Vec<XActivityLogObject> {
    let mut deser = deserializer_for(bytes);
    let mut out = Vec::new();
    loop {
        match deser.next() {
            Ok(Some(obj)) => out.push(obj),
            Ok(None) => return out,
            Err(e) => panic!("decode error: {:?}", e),
        }
    }
}

fn deserializer_for(bytes: &[u8]) -> Deserializer {
    let parser = Parser::new(bytes.to_vec());
    let mut iter = parser.iter();
    let toks: Vec<Token> = iter.collect_tokens();
    Deserializer::new(toks)
}

/// The token bytes of a minimal section instance: every string empty, both
/// timestamps zero, every optional slot `Null`, no attachments.
fn minimal_section_bytes() -> Vec<u8> {
    let mut b = Vec::new();
    b.extend_from_slice(b"1@");  // class instance
    b.extend_from_slice(b"0#");  // section_type
    b.extend_from_slice(b"0\"0\"0\"");  // domain_type, title, signature
    b.extend_from_slice(b"0000000000000000^0000000000000000^");  // timestamps
    b.extend_from_slice(b"-");  // sub_sections size
    b.extend_from_slice(b"-");  // text
    b.extend_from_slice(b"-");  // messages size
    b.extend_from_slice(b"0#0#0#");  // was_cancelled, is_quiet, was_fetched_from_cache
    b.extend_from_slice(b"-");  // subtitle
    b.extend_from_slice(b"-");  // location
    b.extend_from_slice(b"----");  // command details, unique id, localized result, xcbuild
    b
}

fn expect_minimal_section(sec: &IDEActivityLogSection) {
    assert_eq!(sec.section_type, 0);
    assert_eq!(sec.domain_type, "");
    assert_eq!(sec.title, "");
    assert_eq!(sec.signature, "");
    assert_eq!(f64::from_bits(sec.time_started_recording), 0.0);
    assert_eq!(f64::from_bits(sec.time_stopped_recording), 0.0);
    assert_eq!(sec.sub_sections.len(), 0);
    assert_eq!(sec.text, None);
    assert_eq!(sec.messages.len(), 0);
    assert!(!sec.was_cancelled);
    assert!(!sec.is_quiet);
    assert!(!sec.was_fetched_from_cache);
    assert_eq!(sec.subtitle, None);
    assert_eq!(sec.location, None);
    assert_eq!(sec.attachments.len(), 0);
    assert_eq!(sec.unknown, None);
    assert!(!sec.unknown1);
    assert_eq!(sec.unknown9, None);
}

#[test]
fn minimal_section_decodes() {
    let mut bytes = b"SLF021%IDEActivityLogSection".to_vec();
    bytes.extend_from_slice(&minimal_section_bytes());
    let objs = decode_all(&bytes);
    assert_eq!(objs.len(), 1);
    match &objs[0] {
        XActivityLogObject::IDEActivityLogSection(sec) => expect_minimal_section(sec),
        other => panic!("expected a section, got {:?}", other),
    }
}

#[test]
fn nested_section_preserves_structure() {
    let mut bytes = b"SLF021%IDEActivityLogSection".to_vec();
    bytes.extend_from_slice(b"1@");
    bytes.extend_from_slice(b"0#");
    bytes.extend_from_slice(b"0\"0\"0\"");
    bytes.extend_from_slice(b"0000000000000000^0000000000000000^");
    bytes.extend_from_slice(b"1(");  // one sub-section follows
    bytes.extend_from_slice(&minimal_section_bytes());
    bytes.extend_from_slice(b"--0#0#0#------");
    // ^ text and messages size read the two `-`; then the flags, the
    // subtitle, the location and the four trailing optional strings.
    let mut deser = deserializer_for(&bytes);
    let outer = match deser.next().unwrap().unwrap() {
        XActivityLogObject::IDEActivityLogSection(sec) => sec,
        other => panic!("expected a section, got {:?}", other),
    };
    assert_eq!(deser.next(), Ok(None));
    assert_eq!(outer.sub_sections.len(), 1);
    expect_minimal_section(&outer.sub_sections[0]);
}

#[test]
fn sibling_sections_decode_independently() {
    // Probing for attachments must not consume the next instance.
    let mut bytes = b"SLF021%IDEActivityLogSection".to_vec();
    bytes.extend_from_slice(&minimal_section_bytes());
    bytes.extend_from_slice(&minimal_section_bytes());
    let objs = decode_all(&bytes);
    assert_eq!(objs.len(), 2);
    for obj in &objs {
        match obj {
            XActivityLogObject::IDEActivityLogSection(sec) => expect_minimal_section(sec),
            other => panic!("expected a section, got {:?}", other),
        }
    }
}

#[test]
fn empty_token_stream_yields_nothing() {
    let objs = decode_all(b"SLF0");
    assert_eq!(objs.len(), 0);
}

#[test]
fn section_with_attachments_and_trailing_fields() {
    let mut bytes = b"SLF021%IDEActivityLogSection".to_vec();
    bytes.extend_from_slice(b"1@0#0\"0\"0\"0000000000000000^0000000000000000^");
    bytes.extend_from_slice(b"---0#0#0#------");
    bytes.extend_from_slice(b"1(");  // attachments array header
    bytes.extend_from_slice(b"1@3\"att4#5#-");  // one attachment, no JSON blob
    bytes.extend_from_slice(b"7#1#");  // trailing: unknown = 7, unknown1 = true
    let objs = decode_all(&bytes);
    assert_eq!(objs.len(), 1);
    match &objs[0] {
        XActivityLogObject::IDEActivityLogSection(sec) => {
            assert_eq!(sec.attachments.len(), 1);
            assert_eq!(sec.attachments[0].identifier, "att");
            assert_eq!(sec.attachments[0].major_version, 4);
            assert_eq!(sec.attachments[0].minor_version, 5);
            assert_eq!(sec.attachments[0].extra, None);
            assert_eq!(sec.unknown, Some(7));
            assert!(sec.unknown1);
            assert!(!sec.unknown2);
            assert_eq!(sec.unknown5, None);
        },
        other => panic!("expected a section, got {:?}", other),
    }
}

#[test]
fn attachment_with_json_blob() {
    let mut bytes = b"SLF031%IDEActivityLogSectionAttachment".to_vec();
    bytes.extend_from_slice(b"1@3\"att1#2#");
    bytes.extend_from_slice(b"8*{\"k\": 1}");
    let objs = decode_all(&bytes);
    assert_eq!(objs.len(), 1);
    match &objs[0] {
        XActivityLogObject::IDEActivityLogSectionAttachment(att) => {
            assert_eq!(att.identifier, "att");
            assert_eq!(att.major_version, 1);
            assert_eq!(att.minor_version, 2);
            assert_eq!(att.extra, Some(String::from("{\"k\": 1}")));
        },
        other => panic!("expected an attachment, got {:?}", other),
    }
}

#[test]
fn attachment_with_malformed_json_fails() {
    let mut bytes = b"SLF031%IDEActivityLogSectionAttachment".to_vec();
    bytes.extend_from_slice(b"1@3\"att1#2#");
    bytes.extend_from_slice(b"8*not json");
    let mut deser = deserializer_for(&bytes);
    assert_eq!(deser.next(), Err(DecodeError::InvalidJson));
}

#[test]
fn message_decodes_field_by_field() {
    let mut bytes = b"SLF021%IDEActivityLogMessage".to_vec();
    bytes.extend_from_slice(b"1@");
    bytes.extend_from_slice(b"2\"hi");  // title
    bytes.extend_from_slice(b"-");  // short_title
    bytes.extend_from_slice(b"5#6#7#");  // time emitted, range end, range start
    bytes.extend_from_slice(b"-");  // sub-messages size
    bytes.extend_from_slice(b"1#");  // severity
    bytes.extend_from_slice(b"-");  // type
    bytes.extend_from_slice(b"-");  // location
    bytes.extend_from_slice(b"-");  // category
    bytes.extend_from_slice(b"-");  // secondary locations size
    bytes.extend_from_slice(b"-");  // additional description
    let objs = decode_all(&bytes);
    assert_eq!(objs.len(), 1);
    match &objs[0] {
        XActivityLogObject::IDEActivityLogMessage(msg) => {
            assert_eq!(msg.title, "hi");
            assert_eq!(msg.short_title, None);
            assert_eq!(msg.time_emitted, 5);
            assert_eq!(msg.range_end_in_section_text, 6);
            assert_eq!(msg.range_start_in_section_text, 7);
            assert_eq!(msg.sub_messages.len(), 0);
            assert_eq!(msg.severity, 1);
            assert_eq!(msg.message_type, None);
            assert_eq!(msg.location, None);
            assert_eq!(msg.secondary_locations.len(), 0);
            assert_eq!(msg.additional_description, None);
        },
        other => panic!("expected a message, got {:?}", other),
    }
}

#[test]
fn build_log_decodes() {
    let mut bytes = b"SLF022%IDECommandLineBuildLog".to_vec();
    bytes.extend_from_slice(b"1@0#0\"0\"0\"0000000000000000^0000000000000000^-");
    let objs = decode_all(&bytes);
    assert_eq!(objs.len(), 1);
    match &objs[0] {
        XActivityLogObject::IDECommandLineBuildLog(log) => {
            assert_eq!(log.sub_sections.len(), 0);
            assert_eq!(log.section_type, 0);
        },
        other => panic!("expected a build log, got {:?}", other),
    }
}

#[test]
fn base_document_location_keeps_url_and_timestamp() {
    let mut bytes = b"SLF019%DVTDocumentLocation".to_vec();
    bytes.extend_from_slice(b"1@4\"file000000000000f03f^");
    let objs = decode_all(&bytes);
    assert_eq!(objs.len(), 1);
    match &objs[0] {
        XActivityLogObject::DVTDocumentLocation(DVTDocumentLocation::Base(base)) => {
            assert_eq!(base.document_url_string, "file");
            assert_eq!(f64::from_bits(base.timestamp), 1.0);
        },
        other => panic!("expected a base location, got {:?}", other),
    }
}

#[test]
fn text_document_location_skips_seven_slots() {
    let mut bytes = b"SLF023%DVTTextDocumentLocation".to_vec();
    bytes.extend_from_slice(b"1@4\"file0000000000000000^");
    bytes.extend_from_slice(b"1#2#3#4#5#6#7#");  // the seven skipped slots
    bytes.extend_from_slice(b"9#");  // next top-level token (skipped as unknown)
    let objs = decode_all(&bytes);
    assert_eq!(objs.len(), 1);
    assert!(matches!(
        objs[0],
        XActivityLogObject::DVTDocumentLocation(DVTDocumentLocation::Text(_))
    ));
}

#[test]
fn member_document_location_skips_one_slot() {
    let mut bytes = b"SLF025%DVTMemberDocumentLocation".to_vec();
    bytes.extend_from_slice(b"1@4\"file0000000000000000^6\"member");
    let objs = decode_all(&bytes);
    assert_eq!(objs.len(), 1);
    assert!(matches!(
        objs[0],
        XActivityLogObject::DVTDocumentLocation(DVTDocumentLocation::Member(_))
    ));
}

#[test]
fn unit_test_section_consumes_six_slots() {
    let mut bytes = b"SLF029%IDEActivityLogUnitTestSection".to_vec();
    bytes.extend_from_slice(b"1@1\"a2\"ab3#4#5#6#");
    let objs = decode_all(&bytes);
    assert_eq!(objs.len(), 1);
    match &objs[0] {
        XActivityLogObject::IDEActivityLogUnitTestSection(s) => {
            assert_eq!(s.tests_passed_string, "");
            assert_eq!(s.suite_name, "");
        },
        other => panic!("expected a unit-test section, got {:?}", other),
    }
}

#[test]
fn class_instance_before_declaration_is_rejected() {
    let mut deser = deserializer_for(b"SLF05@");
    assert_eq!(deser.next(), Err(DecodeError::ClassIndexOutOfRange(5)));
}

#[test]
fn unknown_class_name_is_rejected() {
    let mut deser = deserializer_for(b"SLF03%Foo1@");
    assert_eq!(deser.next(), Err(DecodeError::UnknownClass(String::from("Foo"))));
}

#[test]
fn null_in_required_slot_is_a_schema_error() {
    // `section_type` must be an integer; `Null` is not accepted there.
    let mut bytes = b"SLF021%IDEActivityLogSection".to_vec();
    bytes.extend_from_slice(b"1@-");
    let mut deser = deserializer_for(&bytes);
    assert!(matches!(deser.next(), Err(DecodeError::Conversion(_))));
}

#[test]
fn nesting_deeper_than_the_limit_is_rejected() {
    let mut bytes = b"SLF021%IDEActivityLogSection".to_vec();
    bytes.extend_from_slice(b"1@0#0\"0\"0\"0000000000000000^0000000000000000^1(");
    bytes.extend_from_slice(&minimal_section_bytes());
    bytes.extend_from_slice(b"--0#0#0#------");
    let parser = Parser::new(bytes);
    let mut iter = parser.iter();
    let toks: Vec<Token> = iter.collect_tokens();
    let mut deser = Deserializer::with_max_depth(toks, 1);
    assert_eq!(deser.next(), Err(DecodeError::DepthExceeded));
}

#[test]
fn output_file_selection_by_suffix() {
    assert_eq!(
        OutputFile::from_str("build.json"),
        Ok(OutputFile::Json(String::from("build.json")))
    );
    assert_eq!(
        OutputFile::from_str("build.csv"),
        Ok(OutputFile::Csv(String::from("build.csv")))
    );
    assert_eq!(
        OutputFile::from_str("build.txt"),
        Err(String::from("The output file must have a .json or .csv extension"))
    );
}

#[test]
fn token_bookkeeping_counts() {
    let mut bytes = b"SLF021%IDEActivityLogSection".to_vec();
    bytes.extend_from_slice(b"1@");
    bytes.extend_from_slice(b"0#");
    bytes.extend_from_slice(b"0\"0\"0\"");
    bytes.extend_from_slice(b"0000000000000000^0000000000000000^");
    bytes.extend_from_slice(b"1(");
    bytes.extend_from_slice(&minimal_section_bytes());
    bytes.extend_from_slice(b"--0#0#0#------");
    let objs = decode_all(&bytes);
    match &objs[0] {
        XActivityLogObject::IDEActivityLogSection(sec) => {
            assert_eq!(sec.sub_sections[0].count_parsed_tokens(), 19);
            assert_eq!(sec.count_parsed_tokens(), 38);
        },
        other => panic!("expected a section, got {:?}", other),
    }
}

#[test]
fn wrong_token_in_location_slot_is_rejected() {
    // The location slot takes a class instance, a class name, `Null` or a
    // `Json` skip; a plain integer is none of those.
    let mut bytes = b"SLF021%IDEActivityLogSection".to_vec();
    bytes.extend_from_slice(b"1@0#0\"0\"0\"0000000000000000^0000000000000000^");
    bytes.extend_from_slice(b"---0#0#0#-");
    bytes.extend_from_slice(b"5#");  // the location slot
    let mut deser = deserializer_for(&bytes);
    assert!(matches!(
        deser.next(),
        Err(DecodeError::UnexpectedToken(xcactivitylog::token::TokenType::Int))
    ));
}

#[test]
fn truncated_instance_is_rejected() {
    let mut bytes = b"SLF021%IDEActivityLogSection".to_vec();
    bytes.extend_from_slice(b"1@0#0\"");
    let mut deser = deserializer_for(&bytes);
    assert_eq!(deser.next(), Err(DecodeError::UnexpectedEnd));
}

#[test]
fn zero_count_array_header_yields_empty_run() {
    let mut bytes = b"SLF021%IDEActivityLogSection".to_vec();
    bytes.extend_from_slice(b"1@0#0\"0\"0\"0000000000000000^0000000000000000^");
    bytes.extend_from_slice(b"0(");  // explicit zero sub-section count
    bytes.extend_from_slice(b"--0#0#0#------");
    let objs = decode_all(&bytes);
    assert_eq!(objs.len(), 1);
    match &objs[0] {
        XActivityLogObject::IDEActivityLogSection(sec) => {
            assert_eq!(sec.sub_sections.len(), 0);
        },
        other => panic!("expected a section, got {:?}", other),
    }
}
