use chrono::{DateTime, FixedOffset, NaiveDate, NaiveTime, TimeZone};
use sdmx_types::{Error, SdmxDateTime};
use std::collections::hash_map::DefaultHasher;
use std::hash::{Hash, Hasher};

fn instant_of(dt: &SdmxDateTime) -> Option<DateTime<FixedOffset>> {
    let date_time = dt.date_time()?;
    let offset = dt.offset()?;
    offset.from_local_datetime(&date_time).single()
}

fn hash_of(dt: &SdmxDateTime) -> u64 {
    let mut h = DefaultHasher::new();
    dt.hash(&mut h);
    h.finish()
}

#[test]
fn date_time_accepts_and_rejects() {
    for ok in [
        "2024-05-01T09:30:00",
        "2024-05-01T09:30:00Z",
        "2024-05-01T09:30:00+00:00",
        "2024-05-01T09:30:00-05:30",
        "2024-05-01T09:30:00.5",
        "2024-05-01T24:00:00",
    ] {
        assert!(SdmxDateTime::new(ok.into()).is_ok(), "{ok:?} should be a valid xs:dateTime");
    }
    for bad in [
        "banana",
        "2024-05-01",
        "2024-Q4",
        "0000-01-01T00:00:00",
        "2024-05-01T00:00:00+15:00",
        "2024-05-01T09:30:60",
    ] {
        assert_eq!(
            SdmxDateTime::new(bad.into()),
            Err(Error::InvalidDateTime(String::from(bad))),
            "{bad:?} should be rejected"
        );
    }
}

#[test]
fn date_time_round_trips_lexeme_byte_exact() {
    for raw in [
        "2024-05-01T09:30:00",
        "2024-05-01T09:30:00Z",
        "2024-05-01T09:30:00+00:00",
        "2024-05-01T09:30:00.500Z",
    ] {
        let dt = SdmxDateTime::new(raw.into()).unwrap();
        assert_eq!(dt.to_string(), raw);
        assert_eq!(dt.as_str(), raw);
        assert_eq!(AsRef::<str>::as_ref(&dt), raw);
        assert_eq!(dt.to_string().parse::<SdmxDateTime>(), Ok(dt.clone()));
    }
}

#[test]
fn date_time_identity_is_the_lexeme() {
    let zulu = SdmxDateTime::new(String::from("2024-05-01T09:30:00Z")).unwrap();
    let plus = SdmxDateTime::new(String::from("2024-05-01T09:30:00+00:00")).unwrap();
    assert_ne!(zulu, plus);
    assert_ne!(hash_of(&zulu), hash_of(&plus));
    assert_eq!(zulu.as_str(), "2024-05-01T09:30:00Z");
    assert_ne!(zulu.as_str(), "2024-05-01T09:30:00+00:00");

    let again = SdmxDateTime::new(String::from("2024-05-01T09:30:00Z")).unwrap();
    assert_eq!(zulu, again);
    assert_eq!(hash_of(&zulu), hash_of(&again));
}

#[test]
fn date_time_value_views() {
    let expected =
        NaiveDate::from_ymd_opt(2024, 5, 1).unwrap().and_time(NaiveTime::from_hms_opt(9, 30, 0).unwrap());

    let naive = SdmxDateTime::new(String::from("2024-05-01T09:30:00")).unwrap();
    assert_eq!(naive.date_time(), Some(expected));
    assert_eq!(naive.offset(), None);
    assert_eq!(instant_of(&naive), None);

    let offset = SdmxDateTime::new(String::from("2024-05-01T09:30:00-05:30")).unwrap();
    assert_eq!(offset.offset(), FixedOffset::east_opt(-(5 * 3600 + 30 * 60)));
    assert!(instant_of(&offset).is_some());

    let zulu = SdmxDateTime::new(String::from("2024-05-01T09:30:00Z")).unwrap();
    let plus = SdmxDateTime::new(String::from("2024-05-01T09:30:00+00:00")).unwrap();
    assert_ne!(zulu, plus);
    assert_eq!(instant_of(&zulu), instant_of(&plus));
    assert!(instant_of(&zulu).is_some());

    let midnight = SdmxDateTime::new(String::from("2024-05-01T24:00:00")).unwrap();
    assert_eq!(midnight.as_str(), "2024-05-01T24:00:00");
    assert_eq!(
        midnight.date_time(),
        Some(NaiveDate::from_ymd_opt(2024, 5, 2).unwrap().and_time(NaiveTime::from_hms_opt(0, 0, 0).unwrap()))
    );

    let fraction = SdmxDateTime::new(String::from("2024-05-01T09:30:00.1234567891")).unwrap();
    assert_eq!(fraction.as_str(), "2024-05-01T09:30:00.1234567891");
    assert_eq!(
        fraction.date_time(),
        Some(
            NaiveDate::from_ymd_opt(2024, 5, 1)
                .unwrap()
                .and_time(NaiveTime::from_hms_nano_opt(9, 30, 0, 123_456_789).unwrap())
        )
    );
}

#[test]
fn date_time_derived_view_absent_for_calendar_invalid_lexeme() {
    let invalid = SdmxDateTime::new(String::from("2024-02-30T00:00:00Z")).unwrap();
    assert_eq!(invalid.as_str(), "2024-02-30T00:00:00Z");
    assert_eq!(invalid.date_time(), None);
    assert!(invalid.offset().is_some());
    assert_eq!(instant_of(&invalid), None);

    let bc = SdmxDateTime::new(String::from("-0044-03-15T12:00:00")).unwrap();
    assert_eq!(bc.as_str(), "-0044-03-15T12:00:00");
    assert!(bc.date_time().is_some());
}

#[test]
fn date_time_short_fraction_pads_to_nanoseconds() {
    let dt = SdmxDateTime::new(String::from("2024-05-01T09:30:00.5Z")).unwrap();
    assert_eq!(
        dt.date_time(),
        Some(
            NaiveDate::from_ymd_opt(2024, 5, 1)
                .unwrap()
                .and_time(NaiveTime::from_hms_nano_opt(9, 30, 0, 500_000_000).unwrap())
        )
    );
    assert_eq!(dt.offset(), FixedOffset::east_opt(0));
}

#[test]
fn date_time_positive_offset_and_bc_year_values() {
    let east = SdmxDateTime::new(String::from("2024-05-01T09:30:00+14:00")).unwrap();
    assert_eq!(east.offset(), FixedOffset::east_opt(14 * 3600));
    let bc = SdmxDateTime::new(String::from("-0044-03-15T12:00:00")).unwrap();
    assert_eq!(
        bc.date_time(),
        Some(NaiveDate::from_ymd_opt(-44, 3, 15).unwrap().and_time(NaiveTime::from_hms_opt(12, 0, 0).unwrap()))
    );
}

#[test]
fn date_time_year_beyond_i32_has_no_derived_view() {
    let far = SdmxDateTime::new(String::from("99999999999-01-01T00:00:00")).unwrap();
    assert_eq!(far.date_time(), None);
}

#[test]
fn date_time_compares_with_its_text() {
    let dt = SdmxDateTime::new(String::from("2024-01-01T00:00:00Z")).unwrap();
    assert!(dt == "2024-01-01T00:00:00Z");
    assert!(dt == *"2024-01-01T00:00:00Z");
    assert!(dt != "2024-01-01T00:00:00+00:00");
}
