use timew_ical::calendar::{join_remaining_tags, CalendarDocument};
use timew_ical::export::{export_text, ExportError, Stream, TimewOutBytes, TimewOutString};
use timew_ical::range::{instant_from_parsed, RawInstant, TimeRange, ZonedDateTime};
use timew_ical::record::{EntryFault, RawEntry, TimeData, TimeTrackingEntry};
use timew_ical::date_format::{deserialize, serialize, month_length, DateTimeFields};

fn fields(year: u16, month: u8, day: u8, hour: u8, minute: u8, second: u8) -> DateTimeFields {
    DateTimeFields::new(year, month, day, hour, minute, second).unwrap()
}

fn raw(id: i64, start: &str, end: &str, tags: &[&str]) -> RawEntry {
    RawEntry {
        id,
        start: start.to_string(),
        end: end.to_string(),
        tags: tags.iter().map(|t| t.to_string()).collect(),
    }
}

fn calendar_for(entries: Vec<RawEntry>) -> CalendarDocument {
    TimeData::decode(entries).unwrap().create_calendar()
}

#[test]
fn timestamp_encodes_compact_form() {
    let t = fields(2024, 1, 1, 9, 0, 0);
    assert_eq!(serialize(&t), "20240101T090000Z");
    let t = fields(7, 12, 31, 23, 59, 59);
    assert_eq!(serialize(&t), "00071231T235959Z");
}

#[test]
fn timestamp_round_trip_on_samples() {
    let samples = [
        fields(2024, 2, 29, 12, 30, 45),
        fields(0, 1, 1, 0, 0, 0),
        fields(9999, 12, 31, 23, 59, 59),
        fields(1970, 1, 1, 0, 0, 1),
    ];
    for t in samples {
        assert_eq!(deserialize(&serialize(&t)), Some(t));
    }
}

#[test]
fn timestamp_decodes_fields() {
    assert_eq!(deserialize("20240101T100000Z"), Some(fields(2024, 1, 1, 10, 0, 0)));
}

#[test]
fn timestamp_rejects_other_shapes() {
    assert_eq!(deserialize(""), None);
    assert_eq!(deserialize("2024-01-01T09:00:00Z"), None);
    assert_eq!(deserialize("20240101 090000Z"), None);
    assert_eq!(deserialize("20240101T090000"), None);
    assert_eq!(deserialize("20240101T090000z"), None);
    assert_eq!(deserialize("2024O101T090000Z"), None);
    assert_eq!(deserialize("20240101T090000Z "), None);
}

#[test]
fn timestamp_rejects_impossible_dates() {
    assert_eq!(deserialize("20230229T000000Z"), None);
    assert_eq!(deserialize("21000229T000000Z"), None);
    assert_eq!(deserialize("20240229T000000Z"), Some(fields(2024, 2, 29, 0, 0, 0)));
    assert_eq!(deserialize("20000229T000000Z"), Some(fields(2000, 2, 29, 0, 0, 0)));
    assert_eq!(deserialize("20241301T000000Z"), None);
    assert_eq!(deserialize("20240431T000000Z"), None);
    assert_eq!(deserialize("20240100T000000Z"), None);
    assert_eq!(deserialize("20240101T240000Z"), None);
    assert_eq!(deserialize("20240101T006000Z"), None);
    assert_eq!(deserialize("20240101T000060Z"), None);
}

#[test]
fn month_lengths() {
    assert_eq!(month_length(2023, 2), 28);
    assert_eq!(month_length(2024, 2), 29);
    assert_eq!(month_length(1900, 2), 28);
    assert_eq!(month_length(2000, 2), 29);
    assert_eq!(month_length(2024, 4), 30);
    assert_eq!(month_length(2024, 12), 31);
}

#[test]
fn fields_refuse_invalid_values() {
    assert!(DateTimeFields::new(10000, 1, 1, 0, 0, 0).is_none());
    assert!(DateTimeFields::new(2024, 0, 1, 0, 0, 0).is_none());
    assert!(DateTimeFields::new(2024, 6, 31, 0, 0, 0).is_none());
}

#[test]
fn decode_keeps_entries_in_order() {
    let data = TimeData::decode(vec![
        raw(1, "20240101T090000Z", "20240101T100000Z", &["a", "b"]),
        raw(7, "20240102T090000Z", "20240102T093000Z", &["c"]),
    ])
    .unwrap();
    assert_eq!(data.entries.len(), 2);
    let first: &TimeTrackingEntry = &data.entries[0];
    assert_eq!(first.id, 1);
    assert_eq!(first.start, fields(2024, 1, 1, 9, 0, 0));
    assert_eq!(first.end, fields(2024, 1, 1, 10, 0, 0));
    assert_eq!(first.tags, vec!["a".to_string(), "b".to_string()]);
    assert_eq!(data.entries[1].id, 7);
    assert_eq!(data.entries[1].end, fields(2024, 1, 2, 9, 30, 0));
    assert_eq!(data.entries[1].tags, vec!["c".to_string()]);
}

#[test]
fn decode_of_empty_export() {
    let data = TimeData::decode(Vec::new()).unwrap();
    assert!(data.entries.is_empty());
    assert!(data.create_calendar().events.is_empty());
}

#[test]
fn decode_rejects_bad_timestamp() {
    let err = TimeData::decode(vec![
        raw(1, "20240101T090000Z", "20240101T100000Z", &["a"]),
        raw(2, "2024-01-01 09:00", "20240101T100000Z", &["b"]),
        raw(3, "20240101T090000Z", "bad", &["c"]),
    ])
    .unwrap_err();
    assert_eq!(err.index, 1);
    assert_eq!(err.fault, EntryFault::Start);
}

#[test]
fn decode_rejects_bad_end() {
    let err = TimeData::decode(vec![raw(1, "20240101T090000Z", "20240101T100000", &["a"])])
        .unwrap_err();
    assert_eq!(err.index, 0);
    assert_eq!(err.fault, EntryFault::End);
}

#[test]
fn decode_rejects_empty_tags() {
    let err = TimeData::decode(vec![
        raw(1, "20240101T090000Z", "20240101T100000Z", &["a"]),
        raw(2, "20240101T110000Z", "20240101T120000Z", &[]),
    ])
    .unwrap_err();
    assert_eq!(err.index, 1);
    assert_eq!(err.fault, EntryFault::NoTags);
    let single = TimeTrackingEntry::decode(raw(3, "20240101T110000Z", "20240101T120000Z", &[]));
    assert_eq!(single.unwrap_err(), EntryFault::NoTags);
}

#[test]
fn tags_map_to_title_and_body() {
    let doc = calendar_for(vec![raw(
        1,
        "20240101T090000Z",
        "20240101T100000Z",
        &["work", "projectX", "urgent"],
    )]);
    assert_eq!(doc.events.len(), 1);
    assert_eq!(doc.events[0].summary, "work");
    assert_eq!(doc.events[0].description, "projectX,urgent");
}

#[test]
fn join_of_remaining_tags() {
    let tags = |v: &[&str]| v.iter().map(|t| t.to_string()).collect::<Vec<String>>();
    assert_eq!(join_remaining_tags(&tags(&["only"])), "");
    assert_eq!(join_remaining_tags(&tags(&["a", "b"])), "b");
    assert_eq!(join_remaining_tags(&tags(&["a", "b", "c", "d"])), "b,c,d");
    assert_eq!(join_remaining_tags(&tags(&["a", "", "c"])), ",c");
}

#[test]
fn calendar_building_is_deterministic() {
    let make = || {
        vec![
            raw(1, "20240101T090000Z", "20240101T100000Z", &["a", "x"]),
            raw(2, "20240101T100000Z", "20240101T103000Z", &["b"]),
        ]
    };
    let c1 = calendar_for(make());
    let c2 = calendar_for(make());
    assert_eq!(c1.name, c2.name);
    assert_eq!(c1.events.len(), c2.events.len());
    for (a, b) in c1.events.iter().zip(c2.events.iter()) {
        assert_eq!(a.summary, b.summary);
        assert_eq!(a.description, b.description);
        assert_eq!(a.start, b.start);
        assert_eq!(a.end, b.end);
    }
    assert_eq!(c1.events[0].summary, "a");
    assert_eq!(c1.events[1].summary, "b");
}

#[test]
fn failure_aborts_before_decoding() {
    let bytes = TimewOutBytes::new(b"[]".to_vec(), b"timew: no matching range\n".to_vec());
    match export_text(bytes) {
        Err(ExportError::Failure(m)) => assert_eq!(m, "timew: no matching range"),
        other => panic!("unexpected outcome: {other:?}"),
    }
}

#[test]
fn error_stream_decides_the_tag() {
    match TimewOutBytes::new(b"out".to_vec(), b"err".to_vec()) {
        TimewOutBytes::Error(e) => assert_eq!(e, b"err".to_vec()),
        other => panic!("unexpected outcome: {other:?}"),
    }
    match TimewOutBytes::new(b"out".to_vec(), Vec::new()) {
        TimewOutBytes::Output(o) => assert_eq!(o, b"out".to_vec()),
        other => panic!("unexpected outcome: {other:?}"),
    }
}

#[test]
fn output_is_trimmed_at_the_end_only() {
    let bytes = TimewOutBytes::new(b"  [1]\n\n \t".to_vec(), Vec::new());
    match TimewOutString::from_bytes(bytes) {
        Ok(TimewOutString::Output(s)) => assert_eq!(s, "  [1]"),
        other => panic!("unexpected outcome: {other:?}"),
    }
    let text = export_text(TimewOutBytes::new("[\"é\"]\r\n".as_bytes().to_vec(), Vec::new()));
    assert_eq!(text.unwrap(), "[\"é\"]");
}

#[test]
fn invalid_utf8_is_an_error() {
    match TimewOutString::from_bytes(TimewOutBytes::new(vec![0x5b, 0xff, 0x5d], Vec::new())) {
        Err(ExportError::Encoding(Stream::Output)) => {}
        other => panic!("unexpected outcome: {other:?}"),
    }
    match export_text(TimewOutBytes::new(Vec::new(), vec![0xc3, 0x28])) {
        Err(ExportError::Encoding(Stream::Error)) => {}
        other => panic!("unexpected outcome: {other:?}"),
    }
}

fn raw_instant(year: i32, month: u32, day: u32, offset_seconds: i32) -> RawInstant {
    RawInstant { year, month, day, hour: 23, minute: 15, second: 0, offset_seconds }
}

#[test]
fn export_arguments_use_calendar_dates() {
    let start = ZonedDateTime::from_raw(raw_instant(2024, 3, 5, 3600)).unwrap();
    let end = ZonedDateTime::from_raw(raw_instant(987, 11, 20, -18000)).unwrap();
    let range = TimeRange { start, end };
    assert_eq!(range.export_args(), vec!["export", "2024-03-05", "0987-11-20"]);
}

#[test]
fn parsed_instants_are_checked() {
    assert!(ZonedDateTime::from_raw(raw_instant(10000, 1, 1, 0)).is_none());
    assert!(ZonedDateTime::from_raw(raw_instant(-1, 1, 1, 0)).is_none());
    assert!(ZonedDateTime::from_raw(raw_instant(2023, 2, 29, 0)).is_none());
    assert!(ZonedDateTime::from_raw(raw_instant(2024, 1, 1, 86400)).is_none());
    let z = ZonedDateTime::from_raw(raw_instant(2024, 2, 29, -3600)).unwrap();
    assert_eq!(z.local, fields(2024, 2, 29, 23, 15, 0));
    assert_eq!(z.offset_seconds, -3600);
}

#[test]
fn range_errors_name_the_input() {
    let err = instant_from_parsed("next blursday", Err("cannot parse".to_string())).unwrap_err();
    assert_eq!(err.input, "next blursday");
    assert_eq!(err.diagnostic, "cannot parse");
    let err = instant_from_parsed("far", Ok(raw_instant(12000, 1, 1, 0))).unwrap_err();
    assert_eq!(err.input, "far");
    let ok = instant_from_parsed("now", Ok(raw_instant(2024, 1, 1, 0))).unwrap();
    assert_eq!(ok.local, fields(2024, 1, 1, 23, 15, 0));
}

#[test]
fn resolve_builds_the_range() {
    let range = TimeRange::resolve(
        "2024-01-01 09:00 +0100",
        "2024-01-31 23:00 -0500",
        Ok(raw_instant(2024, 1, 1, 3600)),
        Ok(raw_instant(2024, 1, 31, -18000)),
    )
    .unwrap();
    assert_eq!(
        range.export_args(),
        vec!["export".to_string(), "2024-01-01".to_string(), "2024-01-31".to_string()]
    );
    assert_eq!(range.end.offset_seconds, -18000);
}

#[test]
fn resolve_names_the_first_failure() {
    let err = TimeRange::resolve(
        "yesterday",
        "not a date at all",
        Ok(raw_instant(2024, 1, 1, 0)),
        Err("invalid input".to_string()),
    )
    .unwrap_err();
    assert_eq!(err.input, "not a date at all");
    assert_eq!(err.diagnostic, "invalid input");
    let err = TimeRange::resolve(
        "bad start",
        "bad end",
        Err("start diagnostic".to_string()),
        Err("end diagnostic".to_string()),
    )
    .unwrap_err();
    assert_eq!(err.input, "bad start");
    assert_eq!(err.diagnostic, "start diagnostic");
    let err = TimeRange::resolve(
        "far away",
        "today",
        Ok(raw_instant(12000, 1, 1, 0)),
        Ok(raw_instant(2024, 1, 1, 0)),
    )
    .unwrap_err();
    assert_eq!(err.input, "far away");
}

#[test]
fn unicode_whitespace_is_trimmed() {
    let text = export_text(TimewOutBytes::new(
        "[]\u{3000}\u{a0}\u{2029}\t".as_bytes().to_vec(),
        Vec::new(),
    ));
    assert_eq!(text.unwrap(), "[]");
    let text = export_text(TimewOutBytes::new("[]\u{200b}".as_bytes().to_vec(), Vec::new()));
    assert_eq!(text.unwrap(), "[]\u{200b}");
}

#[test]
fn end_to_end_single_entry() {
    let text = export_text(TimewOutBytes::new(
        b"[{\"id\":1,\"start\":\"20240101T090000Z\",\"end\":\"20240101T100000Z\",\"tags\":[\"standup\"]}]\n".to_vec(),
        Vec::new(),
    ))
    .unwrap();
    let items: Vec<serde_json::Value> = serde_json::from_str(&text).unwrap();
    let entries: Vec<RawEntry> = items
        .iter()
        .map(|v| RawEntry {
            id: v["id"].as_i64().unwrap(),
            start: v["start"].as_str().unwrap().to_string(),
            end: v["end"].as_str().unwrap().to_string(),
            tags: v["tags"]
                .as_array()
                .unwrap()
                .iter()
                .map(|t| t.as_str().unwrap().to_string())
                .collect(),
        })
        .collect();
    let doc = calendar_for(entries);
    assert_eq!(doc.name, "Time Logging");
    assert_eq!(doc.events.len(), 1);
    assert_eq!(doc.events[0].summary, "standup");
    assert_eq!(doc.events[0].description, "");
    assert_eq!(doc.events[0].start, fields(2024, 1, 1, 9, 0, 0));
    assert_eq!(doc.events[0].end, fields(2024, 1, 1, 10, 0, 0));
    let rendered = doc.to_icalendar().to_string();
    assert!(rendered.contains("SUMMARY:standup"));
    assert!(rendered.contains("DTSTART:20240101T090000Z"));
    assert!(rendered.contains("DTEND:20240101T100000Z"));
    assert!(rendered.contains("X-WR-CALNAME:Time Logging"));
    assert_eq!(rendered.matches("BEGIN:VEVENT").count(), 1);
}
