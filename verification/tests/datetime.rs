use chat_server::datetime::{deserialize, deserialize_native, serialize, serialize_native, EAST_8_SECS, EAST_8_TEXT, FORMAT};
use chrono::{DateTime, FixedOffset, Local, NaiveDateTime, TimeZone, Utc};

#[test]
fn time_goes_onto_the_wire_at_eight_hours_east() {
    assert_eq!(serialize(0), Some("1970-01-01 08:00:00".to_string()));
    assert_eq!(serialize(1721095200), Some("2024-07-16 10:00:00".to_string()));
    assert_eq!(serialize(-1), Some("1970-01-01 07:59:59".to_string()));
    assert_eq!(serialize(i64::MAX), None);
    assert_eq!(serialize_native(0), Some("1970-01-01 00:00:00".to_string()));
    assert_eq!(serialize_native(86401), Some("1970-01-02 00:00:01".to_string()));
    assert_eq!(serialize_native(i64::MIN), None);
}

#[test]
fn time_comes_from_the_wire() {
    assert_eq!(deserialize("2024-07-16 10:00:00"), Some(1721095200));
    assert_eq!(deserialize("1970-01-01 08:00:00"), Some(0));
    assert_eq!(deserialize("yesterday"), None);
    assert_eq!(deserialize(""), None);
    assert_eq!(deserialize_native("1970-01-02 00:00:01"), Some(86401));
    assert_eq!(deserialize_native("2024-07-16 10:00:00"), Some(1721124000));
    assert_eq!(deserialize_native("2024-07-16"), None);
}

#[test]
fn wire_time_round_trips() {
    for at in [0i64, 1, 59, 86399, 1_700_000_000, 4_102_444_800, -86400] {
        assert_eq!(deserialize(&serialize(at).unwrap()), Some(at));
        assert_eq!(deserialize_native(&serialize_native(at).unwrap()), Some(at));
    }
    assert_eq!(FORMAT, "%Y-%m-%d %H:%M:%S");
    assert_eq!(EAST_8_SECS, 8 * 3600);
    assert_eq!(FixedOffset::east_opt(EAST_8_SECS).unwrap().to_string(), EAST_8_TEXT);
}

#[test]
fn lib_test_date() {
    println!("{}", serde_json::to_string(&Local::now()).unwrap());
    println!("{}", Local::now().format("%Y-%m-%d %H:%M:%S"));
    let date_time: DateTime<Utc> = Utc.with_ymd_and_hms(2017, 04, 02, 12, 50, 32).unwrap();
    let formatted = format!("{}", date_time.format("%d/%m/%Y %H:%M"));
    let local = format!("{}", Local::now().format("%d/%m/%Y %H:%M"));
    let time = Utc::now();
    assert_eq!(formatted, "02/04/2017 12:50");
    println!("{}", time);
    println!("{}", local);
    let timestamp_millis = DateTime::from_timestamp(Local::now().timestamp(), 0).map(|at| at.naive_utc());
    println!("{}", timestamp_millis.unwrap());
    let offset = Local.offset_from_utc_datetime(&timestamp_millis.unwrap());
    println!("{}", offset);
    println!("{}", "2024-07-16 10:00:00Z".parse::<DateTime<Local>>().unwrap());
    println!("{}", FixedOffset::east_opt(8 * 3600).unwrap());
    let _: Option<NaiveDateTime> = timestamp_millis;
}
