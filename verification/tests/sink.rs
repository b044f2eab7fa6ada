use chartex_radio::sink::{annotate, Timestamp};

fn track(text: &str) -> serde_json::Value {
    serde_json::from_str(text).unwrap()
}

#[test]
fn epoch_in_rfc3339() {
    let at = Timestamp::new(0, 0).unwrap();
    assert_eq!(at.text(), "1970-01-01T00:00:00+00:00");
    assert_eq!(at.secs(), 0);
    assert_eq!(at.nanos(), 0);
}

#[test]
fn moments_in_rfc3339() {
    assert_eq!(Timestamp::new(1_431_648_000, 0).unwrap().text(), "2015-05-15T00:00:00+00:00");
    assert_eq!(
        Timestamp::new(1_700_000_000, 500_000_000).unwrap().text(),
        "2023-11-14T22:13:20.500+00:00"
    );
    assert_eq!(Timestamp::new(-1, 1).unwrap().text(), "1969-12-31T23:59:59.000000001+00:00");
}

#[test]
fn moments_that_the_calendar_does_not_reach() {
    assert_eq!(Timestamp::new(i64::MAX, 0), None);
    assert_eq!(Timestamp::new(i64::MIN, 0), None);
    assert_eq!(Timestamp::new(0, 2_000_000_000), None);
}

#[test]
fn object_gets_station_and_time() {
    let at = Timestamp::new(1_431_648_000, 0).unwrap();
    let result = annotate(track(r#"{"title":"Song","artist":{"name":"Band"}}"#), "http://x/live", &at);
    let expected = track(
        r#"{"title":"Song","artist":{"name":"Band"},"station":"http://x/live","time":"2015-05-15T00:00:00+00:00"}"#,
    );
    assert_eq!(result.document(), &expected);
    assert_eq!(result.station(), "http://x/live");
    assert_eq!(result.time(), "2015-05-15T00:00:00+00:00");
}

#[test]
fn station_label_is_trimmed() {
    let at = Timestamp::new(0, 0).unwrap();
    let result = annotate(track("{}"), "  http://x/live \n", &at);
    assert_eq!(result.station(), "http://x/live");
    assert_eq!(result.document()["station"], "http://x/live");
}

#[test]
fn members_of_the_same_name_are_replaced() {
    let at = Timestamp::new(0, 0).unwrap();
    let result = annotate(track(r#"{"station":1,"time":[2],"title":"Song"}"#), "s", &at);
    let expected =
        track(r#"{"station":"s","time":"1970-01-01T00:00:00+00:00","title":"Song"}"#);
    assert_eq!(result.document(), &expected);
}

#[test]
fn document_that_is_no_object_is_left_as_it_is() {
    let at = Timestamp::new(0, 0).unwrap();
    for text in ["null", "[1,2]", "\"x\"", "3", "true"] {
        let result = annotate(track(text), "s", &at);
        assert_eq!(result.document(), &track(text));
        assert_eq!(result.station(), "s");
        assert_eq!(result.time(), "1970-01-01T00:00:00+00:00");
    }
}
