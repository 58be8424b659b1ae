use xcnotary::documents::{BundleEntitlements, BundleInfo, NotarizationInfo, NotarizationStatus, NotarizationUpload};
use xcnotary::property_list::{
    check_document, events_of, find_entry, plain_dates, read_optional_flag, read_optional_text,
    read_required_dictionary, read_required_text, skip_value, PlistEvent,
};

fn text(s: &str) -> PlistEvent {
    PlistEvent::Text(s.to_string())
}

fn sample() -> Vec<PlistEvent> {
    vec![
        PlistEvent::StartDictionary,      // 0
        text("list"),                     // 1
        PlistEvent::StartArray,           // 2
        PlistEvent::StartDictionary,      // 3
        text("name"),                     // 4
        text("inner"),                    // 5
        PlistEvent::EndCollection,        // 6
        PlistEvent::Scalar,               // 7
        PlistEvent::EndCollection,        // 8
        text("name"),                     // 9
        text("outer"),                    // 10
        text("flag"),                     // 11
        PlistEvent::Boolean(true),        // 12
        text("nested"),                   // 13
        PlistEvent::StartDictionary,      // 14
        text("id"),                       // 15
        text("42"),                       // 16
        PlistEvent::EndCollection,        // 17
        PlistEvent::EndCollection,        // 18
    ]
}

#[test]
fn skip_value_finds_the_end_of_a_value() {
    let events = sample();
    assert_eq!(skip_value(&events, 0), Some(19));
    assert_eq!(skip_value(&events, 1), Some(2));
    assert_eq!(skip_value(&events, 2), Some(9));
    assert_eq!(skip_value(&events, 3), Some(7));
    assert_eq!(skip_value(&events, 7), Some(8));
    assert_eq!(skip_value(&events, 12), Some(13));
    assert_eq!(skip_value(&events, 6), None);
    assert_eq!(skip_value(&events, 19), None);
    assert_eq!(skip_value(&events[..18], 0), None);
    assert_eq!(skip_value(&[], 0), None);
}

#[test]
fn find_entry_looks_at_the_keys_of_one_dictionary() {
    let events = sample();
    assert_eq!(find_entry(&events, 1, "name"), Some(Some(10)));
    assert_eq!(find_entry(&events, 1, "list"), Some(Some(2)));
    assert_eq!(find_entry(&events, 1, "nested"), Some(Some(14)));
    assert_eq!(find_entry(&events, 1, "id"), Some(None));
    assert_eq!(find_entry(&events, 1, "inner"), Some(None));
    assert_eq!(find_entry(&events, 15, "id"), Some(Some(16)));
    assert_eq!(find_entry(&events, 4, "name"), Some(Some(5)));
    assert_eq!(find_entry(&events, 18, "name"), Some(None));
    assert_eq!(find_entry(&events, 19, "name"), None);
}

#[test]
fn find_entry_refuses_malformed_dictionaries() {
    let twice =
        vec![PlistEvent::StartDictionary, text("a"), text("1"), text("a"), text("2"), PlistEvent::EndCollection];
    assert_eq!(find_entry(&twice, 1, "a"), None);
    assert_eq!(find_entry(&twice, 1, "b"), Some(None));

    let odd = vec![PlistEvent::StartDictionary, text("a"), PlistEvent::EndCollection];
    assert_eq!(find_entry(&odd, 1, "a"), None);
    assert_eq!(find_entry(&odd, 1, "b"), None);

    let bad_key =
        vec![PlistEvent::StartDictionary, PlistEvent::Boolean(true), text("1"), PlistEvent::EndCollection];
    assert_eq!(find_entry(&bad_key, 1, "a"), None);

    let open = vec![PlistEvent::StartDictionary, text("a"), text("1")];
    assert_eq!(find_entry(&open, 1, "a"), None);
    assert_eq!(find_entry(&open, 1, "b"), None);
}

#[test]
fn typed_reads() {
    let events = sample();
    assert!(check_document(&events));
    assert!(!check_document(&events[..18]));
    assert!(!check_document(&events[2..9]));
    assert!(!check_document(&[]));
    let mut trailing = sample();
    trailing.push(PlistEvent::Scalar);
    assert!(!check_document(&trailing));

    assert_eq!(read_required_text(&events, 1, "name"), Some("outer".to_string()));
    assert_eq!(read_required_text(&events, 1, "flag"), None);
    assert_eq!(read_required_text(&events, 1, "absent"), None);
    assert_eq!(read_optional_text(&events, 1, "name"), Some(Some("outer".to_string())));
    assert_eq!(read_optional_text(&events, 1, "absent"), Some(None));
    assert_eq!(read_optional_text(&events, 1, "flag"), None);
    assert_eq!(read_optional_flag(&events, 1, "flag"), Some(Some(true)));
    assert_eq!(read_optional_flag(&events, 1, "absent"), Some(None));
    assert_eq!(read_optional_flag(&events, 1, "name"), None);
    assert_eq!(read_required_dictionary(&events, 1, "nested"), Some(15));
    assert_eq!(read_required_dictionary(&events, 1, "list"), None);
    assert_eq!(read_required_dictionary(&events, 1, "absent"), None);
}

#[test]
fn documents_from_events() {
    let upload = vec![
        PlistEvent::StartDictionary,
        text("success-message"),
        text("ok"),
        text("notarization-upload"),
        PlistEvent::StartDictionary,
        text("RequestUUID"),
        text("id-1"),
        PlistEvent::EndCollection,
        PlistEvent::EndCollection,
    ];
    let parsed = NotarizationUpload::from_events(&upload).unwrap();
    assert_eq!(parsed.details.request_uuid, "id-1");
    assert_eq!(parsed.success_message, "ok");
    assert!(NotarizationInfo::from_events(&upload).is_none());

    let info = vec![
        PlistEvent::StartDictionary,
        text("notarization-info"),
        PlistEvent::StartDictionary,
        text("Status"),
        text("invalid"),
        text("RequestUUID"),
        text("id-2"),
        text("LogFileURL"),
        text("https://example.com/log"),
        PlistEvent::EndCollection,
        text("success-message"),
        text("fine"),
        PlistEvent::EndCollection,
    ];
    let parsed = NotarizationInfo::from_events(&info).unwrap();
    assert_eq!(parsed.details.status, NotarizationStatus::Invalid);
    assert_eq!(parsed.details.request_uuid, "id-2");
    assert_eq!(parsed.details.logfile_url, Some("https://example.com/log".to_string()));
    assert_eq!(parsed.success_message, "fine");

    let bundle = vec![
        PlistEvent::StartDictionary,
        text("CFBundleVersion"),
        text("7"),
        text("CFBundleIdentifier"),
        text("com.example"),
        text("CFBundleShortVersionString"),
        text("1.0"),
        PlistEvent::EndCollection,
    ];
    let parsed = BundleInfo::from_events(&bundle).unwrap();
    assert_eq!(parsed.id, "com.example");
    assert_eq!(parsed.version, "7");
    assert_eq!(parsed.short_version_string, "1.0");
    assert!(BundleInfo::from_events(&bundle[..7]).is_none());

    let empty = vec![PlistEvent::StartDictionary, PlistEvent::EndCollection];
    assert_eq!(
        BundleEntitlements::from_events(&empty),
        Some(BundleEntitlements { get_task_allow: None })
    );
    assert_eq!(BundleEntitlements::from_events(&[PlistEvent::StartArray, PlistEvent::EndCollection]), None);
}

fn with_date(date: &str) -> String {
    format!(
        "<?xml version=\"1.0\" encoding=\"UTF-8\"?>\n<plist version=\"1.0\">\n<dict>\n<key>Date</key>\n{}\n<key>Name</key>\n<string>x</string>\n</dict>\n</plist>\n",
        date
    )
}

#[test]
fn ordinary_dates_are_plain() {
    for date in [
        "<date>2020-03-01T00:00:00Z</date>",
        "<date>1999-09-19T09:19:29+09:00</date>",
        "<date>9998-12-31T23:59:59-23:59</date>",
        "<date>0000-01-01T00:00:00+23:59</date>",
        "<date></date>",
        "<date>999-9</date>",
        "<string>9999 &amp; more</string>",
        "<string>update: dated 9999</string>",
    ] {
        assert!(plain_dates(with_date(date).as_bytes()), "{}", date);
    }
    assert!(plain_dates(b""));
    assert!(plain_dates(b"date"));
    assert!(plain_dates(b"<dat"));
    assert!(plain_dates(b"<date>"));
    assert!(plain_dates(b"<date>2020"));
    assert!(plain_dates(b"</date>9999<x>"));
}

#[test]
fn dates_that_could_lie_in_the_last_year_are_not_plain() {
    for date in [
        "<date>9999-12-31T23:59:59-01:00</date>",
        "<date>9999-01-01T00:00:00Z</date>",
        "<date> 19999</date>",
        "<date>&#57;999-12-31T23:59:59-01:00</date>",
        "<date>99<!-- -->99-12-31T23:59:59-01:00</date>",
        "<date>99<![CDATA[]]>99-12-31T23:59:59-01:00</date>",
        "<date>2020-03-01T00:00:00Z<x/></date>",
        "<date >2020-03-01T00:00:00Z</date>",
        "<date a=\"b\">2020-03-01T00:00:00Z</date>",
        "<date/>",
        "<p:date>9999-12-31T23:59:59-01:00</p:date>",
        "<p:date\n>2020-03-01T00:00:00Z</p:date>",
    ] {
        assert!(!plain_dates(with_date(date).as_bytes()), "{}", date);
    }
    assert!(!plain_dates(b"<date"));
    assert!(!plain_dates(b":date>9999"));
    assert!(!plain_dates(b"<date>1<"));
}

#[test]
fn events_are_read_only_from_bytes_with_plain_dates() {
    let events = events_of(with_date("<date>2020-03-01T00:00:00Z</date>").as_bytes()).unwrap();
    assert_eq!(events.len(), 6);
    assert!(matches!(events[0], PlistEvent::StartDictionary));
    assert!(matches!(&events[1], PlistEvent::Text(key) if key == "Date"));
    assert!(matches!(events[2], PlistEvent::Scalar));
    assert!(matches!(&events[4], PlistEvent::Text(value) if value == "x"));
    assert!(matches!(events[5], PlistEvent::EndCollection));

    let events = events_of(with_date("<date>9998-12-31T23:59:59-23:59</date>").as_bytes());
    assert!(events.is_some());

    assert!(events_of(with_date("<date>9999-12-31T23:59:59-01:00</date>").as_bytes()).is_none());
    assert!(events_of(with_date("<date>9999-01-01T00:00:00Z</date>").as_bytes()).is_none());
    assert!(events_of(with_date("<date>&#57;999-12-31T23:59:59-01:00</date>").as_bytes()).is_none());
    assert!(events_of(with_date("<date>not a date</date>").as_bytes()).is_none());
}
