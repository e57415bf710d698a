//! The free-text parsers: the quoted-CSV dialect, header resolution, and
//! the event-log tag scanner.

use cirg::csv::{parse_csv_line, position_containing};
use cirg::event_log_info::parse_event_xml;
use cirg::xml::{extract_xml_attr, extract_xml_value};

#[test]
fn csv_round_trip_quoted_fields() {
    let got = parse_csv_line("a,\"b,c\",\"d\"\"e\"");
    assert_eq!(got, vec![
        String::from("a"),
        String::from("b,c"),
        String::from("d\"e"),
    ]);
}

#[test]
fn csv_plain_and_empty_fields() {
    assert_eq!(parse_csv_line(""), vec![String::from("")]);
    assert_eq!(parse_csv_line("a,,b"), vec![
        String::from("a"),
        String::from(""),
        String::from("b"),
    ]);
    assert_eq!(parse_csv_line("x,"), vec![String::from("x"), String::from("")]);
}

#[test]
fn csv_comma_inside_quotes_does_not_split() {
    assert_eq!(parse_csv_line("\"a,b\",c"), vec![String::from("a,b"), String::from("c")]);
}

#[test]
fn header_matched_by_substring() {
    let headers = vec![
        String::from("HostName"),
        String::from("\"TaskName \""),
        String::from("Next Run Time"),
    ];
    assert_eq!(position_containing(&headers, "TaskName"), Some(1));
    assert_eq!(position_containing(&headers, "Next Run Time"), Some(2));
    assert_eq!(position_containing(&headers, "Author"), None);
}

#[test]
fn event_scanner_scenario() {
    let block = "<Event xmlns=...><System><Level>2</Level><Provider Name='X'/>\
                 <EventID>17</EventID></System></Event>";
    let events = parse_event_xml(block);
    assert_eq!(events.len(), 1);
    assert_eq!(events[0].level, "Error");
    assert_eq!(events[0].source, "X");
    assert_eq!(events[0].event_id, "17");
}

#[test]
fn event_scanner_level_words_and_passthrough() {
    let xml = "<Event xmlns='u'><System><Level>1</Level></System></Event>\
               <Event xmlns='u'><System><Level>3</Level></System></Event>\
               <Event xmlns='u'><System><Level>9</Level></System></Event>";
    let events = parse_event_xml(xml);
    assert_eq!(events.len(), 3);
    assert_eq!(events[0].level, "Critical");
    assert_eq!(events[1].level, "Warning");
    assert_eq!(events[2].level, "9");
}

#[test]
fn event_scanner_skips_blocks_without_level() {
    let xml = "<Event xmlns='u'><System><Provider Name='P'/></System></Event>";
    let events = parse_event_xml(xml);
    assert!(events.is_empty());
    assert!(parse_event_xml("").is_empty());
    assert!(parse_event_xml("   \n  ").is_empty());
}

#[test]
fn xml_value_first_occurrence_and_trim() {
    let xml = "<a> <Level> 5 </Level><Level>6</Level></a>";
    assert_eq!(extract_xml_value(xml, "Level"), Some(String::from("5")));
    assert_eq!(extract_xml_value(xml, "Missing"), None);
    // whitespace-only inner text counts as absent
    assert_eq!(extract_xml_value("<T>   </T>", "T"), None);
    // no closing tag
    assert_eq!(extract_xml_value("<T>abc", "T"), None);
}

#[test]
fn xml_attr_single_and_double_quotes() {
    assert_eq!(
        extract_xml_attr("<Provider Name='Svc'/>", "Provider", "Name"),
        Some(String::from("Svc"))
    );
    assert_eq!(
        extract_xml_attr("<TimeCreated SystemTime=\"2024-01-01\"/>", "TimeCreated", "SystemTime"),
        Some(String::from("2024-01-01"))
    );
    assert_eq!(extract_xml_attr("<Provider Id='1'/>", "Provider", "Name"), None);
}

#[test]
fn event_query_embeds_window_start() {
    let q = cirg::event_log_info::build_event_query("2024-05-01T12:00:00");
    assert_eq!(
        q,
        "*[System[(Level>=1 and Level<=3) and TimeCreated[@SystemTime>='2024-05-01T12:00:00']]]"
    );
}

#[test]
fn power_plan_line_parse() {
    let out = "Some banner\r\nPower Scheme GUID: 381b4222-f694 (Balanced)\r\n";
    assert_eq!(cirg::power_info::parse_power_plan(out), "Balanced");
    assert_eq!(cirg::power_info::parse_power_plan("no such line"), "Unknown");
    let broken = "Power Scheme GUID: xyz )(";
    assert_eq!(cirg::power_info::parse_power_plan(broken), "Unknown");
}

#[test]
fn reference_path_name_extraction() {
    let path = "\\\\HOST\\root\\cimv2:Win32_Group.Domain=\"HOST\",Name=\"Admins\"";
    assert_eq!(cirg::users_groups_info::extract_name(path), "Admins");
    assert_eq!(cirg::users_groups_info::extract_name("no marker"), "");
    assert_eq!(cirg::users_groups_info::extract_name("Name=\"unterminated"), "");
}
