use sdmx_types::time_period::is_valid_timezone;
use sdmx_types::{
    Error, Granularity, ObservationalTimePeriod, SdmxDecimal, SdmxDuration, SdmxInteger,
    SdmxTimePeriod, SdmxTimePeriodKind, SdmxTimeRange, SdmxVersion, VersionDisplay, VersionRef,
    WildcardPosition,
};

#[test]
fn decimal_accepts_and_rejects() {
    for ok in ["0", "-1.5", "+42", "3.14159", ".5", "5.", "-0.0"] {
        assert!(SdmxDecimal::new(ok.into()).is_ok(), "{ok:?} should be a valid xs:decimal");
    }
    for bad in ["", ".", "+", "1.2.3", "1e5", "abc", "1,5"] {
        assert!(SdmxDecimal::new(bad.into()).is_err(), "{bad:?} should be rejected");
    }
}

#[test]
fn integer_accepts_and_rejects() {
    for ok in ["0", "-7", "+1234"] {
        assert!(SdmxInteger::new(ok.into()).is_ok(), "{ok:?} should be a valid xs:integer");
    }
    for bad in ["", "1.0", "2.5", "+", "0x1f", "12a"] {
        assert!(SdmxInteger::new(bad.into()).is_err(), "{bad:?} should be rejected");
    }
}

#[test]
fn integer_widens_and_narrows() {
    let i = SdmxInteger::new(String::from("42")).unwrap();
    let d: SdmxDecimal = SdmxDecimal::from(i);
    assert_eq!(d.as_str(), "42");
    assert_eq!(SdmxInteger::try_from(d).unwrap().as_str(), "42");
    // "42.0" is integral in value but not an integer lexeme.
    let fractional = SdmxDecimal::new(String::from("42.0")).unwrap();
    assert_eq!(SdmxInteger::try_from(fractional), Err(Error::InvalidInteger(String::from("42.0"))));
}

#[test]
fn integer_widens_into_decimal_losslessly() {
    for lexeme in ["0", "-0", "+7", "007", "-123456789012345678901234567890"] {
        let integer = SdmxInteger::new(String::from(lexeme)).unwrap();
        let decimal = SdmxDecimal::from(integer.clone());
        assert_eq!(decimal.as_str(), lexeme);
        assert_eq!(SdmxInteger::try_from(decimal).unwrap(), integer);
    }
}

#[test]
fn version_semantic_and_legacy() {
    let semantic = SdmxVersion::new(String::from("1.2.3")).unwrap();
    assert_eq!(
        (semantic.major(), semantic.minor(), semantic.patch(), semantic.is_legacy()),
        (1, Some(2), Some(3), false)
    );
    let prerelease = SdmxVersion::new(String::from("1.0.0-rc.1")).unwrap();
    assert_eq!(prerelease.extension(), Some("rc.1"));
    let legacy = SdmxVersion::new(String::from("1.3")).unwrap();
    assert_eq!((legacy.major(), legacy.minor(), legacy.patch()), (1, Some(3), None));
    let bare = SdmxVersion::new(String::from("1")).unwrap();
    assert_eq!((bare.major(), bare.minor(), bare.is_legacy()), (1, None, true));
}

#[test]
fn version_rejects_malformed() {
    for bad in [
        "",
        "banana",
        "01.0.0",
        "1.0.0.0",
        "1.0.0-",
        "1.0-rc",
        "1.",
        "v1.0.0",
        "1.0.0-rc@1",
        "99999999999.0.0",
        "99999999999",
        "1.99999999999",
    ] {
        assert!(SdmxVersion::new(bad.into()).is_err(), "{bad:?} should be rejected");
    }
}

#[test]
fn version_equality_preserves_statedness() {
    assert_ne!(
        SdmxVersion::new(String::from("1.0")).unwrap(),
        SdmxVersion::new(String::from("1.0.0")).unwrap()
    );
    assert_ne!(
        SdmxVersion::new(String::from("1")).unwrap(),
        SdmxVersion::new(String::from("1.0")).unwrap()
    );
    assert_eq!(
        SdmxVersion::new(String::from("2.1.0")).unwrap(),
        SdmxVersion::new(String::from("2.1.0")).unwrap()
    );
}

#[test]
fn version_hash_agrees_with_eq() {
    fn hash_bytes(version: &SdmxVersion) -> Vec<u8> {
        #[derive(Default)]
        struct ByteCollector(Vec<u8>);
        impl core::hash::Hasher for ByteCollector {
            fn finish(&self) -> u64 {
                0
            }
            fn write(&mut self, bytes: &[u8]) {
                self.0.extend_from_slice(bytes);
            }
        }
        let mut collector = ByteCollector::default();
        core::hash::Hash::hash(version, &mut collector);
        collector.0
    }

    let a = SdmxVersion::new(String::from("2.1.0")).unwrap();
    let b = SdmxVersion::new(String::from("2.1.0")).unwrap();
    assert_eq!(a, b);
    assert_eq!(hash_bytes(&a), hash_bytes(&b), "equal versions must hash equally");
}

#[test]
fn version_display_reconstructs_the_lexeme() {
    for lexeme in ["1", "1.0", "1.0.0", "0.0.0", "3.0.0-beta.2", "1.0.0-rc.1", "2.5.1-alpha-1.7"] {
        let v = SdmxVersion::new(lexeme.into()).unwrap();
        assert_eq!(v.to_string(), lexeme);
        assert_eq!(v, v.to_string().parse().unwrap());
    }
    let v = SdmxVersion::new(String::from("3.0.0-beta.2")).unwrap();
    assert_eq!(VersionDisplay(Some(&v)).to_string(), "3.0.0-beta.2");
    assert_eq!(VersionDisplay(None).to_string(), "<unversioned>");
}

#[test]
fn version_ref_parses_each_arm() {
    for exact in ["1", "1.0", "1.2.3", "1.0.0-rc.1"] {
        let parsed = VersionRef::new(exact.into()).unwrap();
        assert_eq!(parsed, VersionRef::Exact(exact.parse().unwrap()), "{exact}");
    }
    for (lexeme, at) in [
        ("2+.3.1", WildcardPosition::Major),
        ("2.3+.1", WildcardPosition::Minor),
        ("2.3.1+", WildcardPosition::Patch),
    ] {
        assert_eq!(
            VersionRef::new(lexeme.into()).unwrap(),
            VersionRef::Latest { major: 2, minor: 3, patch: 1, at },
            "{lexeme}"
        );
    }
    assert_eq!(VersionRef::new(String::from("*")).unwrap(), VersionRef::Any);
}

#[test]
fn version_ref_rejects_malformed() {
    for bad in [
        "",
        "**",
        "1.*",
        "1.0.*",
        "2.3+.1-draft",
        "1+.2+.3",
        "1+.2.3+",
        "1+",
        "1.2+",
        "1.2.3.4+",
        "+1.2.3",
        "01+.2.3",
        "99999999999+.0.0",
    ] {
        assert!(VersionRef::new(bad.into()).is_err(), "{bad:?} should be rejected");
    }
}

#[test]
fn version_ref_display_reconstructs_the_lexeme() {
    for lexeme in ["1", "1.0", "1.2.3", "1.0.0-rc.1", "2+.3.1", "2.3+.1", "2.3.1+", "*"] {
        let parsed = VersionRef::new(lexeme.into()).unwrap();
        assert_eq!(parsed.to_string(), lexeme);
        assert_eq!(parsed, parsed.to_string().parse().unwrap());
    }
}

#[test]
fn time_range_accepts_date_and_datetime_starts() {
    for lexeme in [
        "2010-01-01/P2M",
        "2010-01-01Z/P2M",
        "2010-01-01T09:30:00/PT30M",
        "2010-01-01T09:30:00+05:30/P1Y2M3DT4H5M6.5S",
        "2024-02-29/P1D",
    ] {
        assert!(SdmxTimeRange::new(lexeme.into()).is_ok(), "{lexeme:?} should be accepted");
    }
    let range = SdmxTimeRange::new(String::from("2010-01-01/P2M")).unwrap();
    assert_eq!((range.start(), range.duration()), ("2010-01-01", "P2M"));
}

#[test]
fn time_range_rejects_malformed() {
    for bad in [
        "",
        "2010-01-01",
        "P2M",
        "/P2M",
        "2010-01-01/",
        "2010/P2M",
        "2010-01/P2M",
        "2024-Q4/P2M",
        "2010-01-01/2M",
        "2010-01-01/P",
        "2010-01-01/PT",
        "2010-01-01/P2M1Y",
        "2010-01-01/PT2H1H",
        "2010-01-01/P2X",
        "2010-01-01/P1Y2",
        "2010-01-01/PT0.5M",
        "2010-01-01/PT0.S",
        "2010-01-01/P2M/P1D",
    ] {
        assert!(SdmxTimeRange::new(bad.into()).is_err(), "{bad:?} should be rejected");
    }
}

#[test]
fn duration_accepts_signed_and_component_forms() {
    for ok in ["P2M", "P1Y2M3D", "PT30M", "PT6.5S", "P1Y2M3DT4H5M6.5S", "-P2M", "-PT0.5S", "P0D"] {
        assert!(SdmxDuration::new(ok.into()).is_ok(), "{ok:?} should be a valid xs:duration");
    }
    let duration = SdmxDuration::new(String::from("-P1Y2M")).unwrap();
    assert_eq!(duration.as_str(), "-P1Y2M");
}

#[test]
fn duration_rejects_malformed() {
    for bad in [
        "", "-", "P", "PT", "-P", "--P1D", "P1M2Y", "PT2H1H", "2M", "P2X", "P1Y2", "PT0.5M",
        "PT0.S", "P1DT", "P2M ", "+P2M", "P-1D",
    ] {
        assert!(SdmxDuration::new(bad.into()).is_err(), "{bad:?} should be rejected");
    }
    assert!(matches!(SdmxDuration::new(String::from("banana")), Err(Error::InvalidDuration(_))));
}

#[test]
fn duration_round_trips_traits_and_serde() {
    for raw in ["P2M", "-PT30M", "P1Y2M3DT4H5M6.5S"] {
        let v = SdmxDuration::new(raw.into()).unwrap();
        assert_eq!(v.to_string(), raw);
        assert_eq!(AsRef::<str>::as_ref(&v), raw);
        assert_eq!(v.to_string().parse::<SdmxDuration>(), Ok(v.clone()));
    }
    let duration = SdmxDuration::new(String::from("P1M")).unwrap();
    assert!(duration == *"P1M");
    assert!(duration == "P1M");
    assert!(duration != "P01M");
    assert_ne!(duration, SdmxDuration::new(String::from("P01M")).unwrap());
    assert_eq!(duration.clone().into_inner(), "P1M");
    assert_eq!(String::from(duration), "P1M");
    assert!(SdmxDuration::new(String::from("P")).is_err());
}

#[test]
fn observational_classifies_both_members() {
    let standard = ObservationalTimePeriod::new(String::from("2024-Q4")).unwrap();
    assert!(
        matches!(&standard, ObservationalTimePeriod::Standard(p) if p.kind() == SdmxTimePeriodKind::ReportingQuarter)
    );
    let range = ObservationalTimePeriod::new(String::from("2010-01-01/P2M")).unwrap();
    assert!(matches!(&range, ObservationalTimePeriod::Range(_)));
    for value in [standard, range] {
        assert_eq!(value.to_string(), value.as_str());
        assert_eq!(value, value.as_str().parse::<ObservationalTimePeriod>().unwrap());
    }
    assert!(matches!(
        ObservationalTimePeriod::new(String::from("banana")),
        Err(Error::InvalidObservationalTimePeriod(_))
    ));
}

#[test]
fn time_period_basic_kinds() {
    let cases = [
        ("2024", SdmxTimePeriodKind::GregorianYear),
        ("2024-05", SdmxTimePeriodKind::GregorianYearMonth),
        ("2024-05-01", SdmxTimePeriodKind::GregorianDay),
        ("2024-05-01T09:30:00", SdmxTimePeriodKind::DateTime),
        ("2024-05-01T09:30:00.500Z", SdmxTimePeriodKind::DateTime),
        ("2024-05-01T09:30:00+05:30", SdmxTimePeriodKind::DateTime),
        ("2024Z", SdmxTimePeriodKind::GregorianYear),
    ];
    for (input, kind) in cases {
        let parsed = SdmxTimePeriod::new(input.into()).unwrap();
        assert_eq!(parsed.kind(), kind, "{input:?}");
        assert_eq!(parsed.as_str(), input);
    }
}

#[test]
fn time_period_reporting_kinds() {
    let cases = [
        ("2024-A1", SdmxTimePeriodKind::ReportingYear),
        ("2024-S2", SdmxTimePeriodKind::ReportingSemester),
        ("2024-T3", SdmxTimePeriodKind::ReportingTrimester),
        ("2024-Q4", SdmxTimePeriodKind::ReportingQuarter),
        ("2024-M12", SdmxTimePeriodKind::ReportingMonth),
        ("2024-W53", SdmxTimePeriodKind::ReportingWeek),
        ("2024-D366", SdmxTimePeriodKind::ReportingDay),
        ("2024-Q4+14:00", SdmxTimePeriodKind::ReportingQuarter),
    ];
    for (input, kind) in cases {
        assert_eq!(SdmxTimePeriod::new(input.into()).unwrap().kind(), kind, "{input:?}");
    }
}

#[test]
fn gregorian_day_admits_calendar_invalid_dates() {
    let parsed = SdmxTimePeriod::new(String::from("2024-02-30")).unwrap();
    assert_eq!(parsed.kind(), SdmxTimePeriodKind::GregorianDay);
}

#[test]
fn reporting_year_is_fixed_at_four_digits() {
    assert!(SdmxTimePeriod::new(String::from("20241-A1")).is_err());
    assert_eq!(
        SdmxTimePeriod::new(String::from("2024-A1")).unwrap().kind(),
        SdmxTimePeriodKind::ReportingYear
    );
}

#[test]
fn gregorian_classifiers_reject_year_zero() {
    for bad in ["0000", "0000-01", "0000-01-01", "0000-01-01T00:00:00"] {
        assert!(SdmxTimePeriod::new(bad.into()).is_err(), "{bad:?} should be rejected");
    }
    assert!(SdmxTimeRange::new(String::from("0000-01-01/P1D")).is_err());
    assert!(SdmxTimeRange::new(String::from("0000-01-01T00:00:00/P1D")).is_err());
}

#[test]
fn gregorian_year_rejects_leading_zeros_past_four_digits() {
    for ok in ["0001", "0001-06", "12024", "12024-06-30", "-2024", "-12024"] {
        assert!(SdmxTimePeriod::new(ok.into()).is_ok(), "{ok:?} should be accepted");
    }
    for bad in ["02024", "012345", "02024-01", "02024-01-01T00:00:00", "-02024"] {
        assert!(SdmxTimePeriod::new(bad.into()).is_err(), "{bad:?} should be rejected");
    }
    assert!(SdmxTimeRange::new(String::from("02024-01-01/P1D")).is_err());
    assert!(SdmxTimePeriod::new(String::from("+2024")).is_err());
}

#[test]
fn reporting_period_admits_year_zero() {
    assert_eq!(
        SdmxTimePeriod::new(String::from("0000-Q1")).unwrap().kind(),
        SdmxTimePeriodKind::ReportingQuarter
    );
}

#[test]
fn date_time_rejects_leap_second() {
    assert!(SdmxTimePeriod::new(String::from("2024-05-01T09:30:60")).is_err());
}

#[test]
fn date_time_admits_end_of_day_hour_24() {
    for ok in ["2024-06-30T24:00:00", "2024-06-30T24:00:00.0", "2024-06-30T24:00:00.000"] {
        assert_eq!(
            SdmxTimePeriod::new(ok.into()).unwrap().kind(),
            SdmxTimePeriodKind::DateTime,
            "{ok:?} should be accepted"
        );
    }
    assert!(SdmxTimeRange::new(String::from("2024-06-30T24:00:00/P1D")).is_ok());
    assert_eq!(
        SdmxTimePeriod::new(String::from("2024-06-30T24:00:00Z")).unwrap().kind(),
        SdmxTimePeriodKind::DateTime
    );
}

#[test]
fn date_time_rejects_malformed_hour_24() {
    for bad in ["2024-06-30T24:00:01", "2024-06-30T24:01:00", "2024-06-30T24:00:00.5"] {
        assert!(SdmxTimePeriod::new(bad.into()).is_err(), "{bad:?} should be rejected");
    }
    assert!(SdmxTimePeriod::new(String::from("2024-06-30T24:00:60")).is_err());
}

#[test]
fn time_period_rejects_out_of_range_and_malformed() {
    for bad in [
        "",
        "2024-13",
        "2024-00",
        "2024-05-32",
        "2024-A2",
        "2024-S3",
        "2024-Q5",
        "2024-M13",
        "2024-W54",
        "2024-D367",
        "2024-05-01T25:00:00",
        "24-05",
        "2024-05-01+15:00",
        "2024-05-01T00:00:00+14:30",
        "2024-Q",
        "2024-QX",
        "2024-05-01-01",
        "2024-05-01T09:30:00.",
        "2024-05-01T09:30",
    ] {
        assert!(SdmxTimePeriod::new(bad.into()).is_err(), "{bad:?} should be rejected");
    }
}

#[test]
fn is_valid_timezone_rejects_structurally_malformed_offsets() {
    assert!(!is_valid_timezone("+1:00"));
    assert!(!is_valid_timezone("+01000"));
    assert!(!is_valid_timezone("010:00"));
    assert!(is_valid_timezone("Z"));
    assert!(is_valid_timezone("+00:00"));
}

#[test]
fn granularity_projection_collapses_calendar_axis() {
    let cases = [
        (SdmxTimePeriodKind::GregorianYear, Granularity::Year),
        (SdmxTimePeriodKind::ReportingYear, Granularity::Year),
        (SdmxTimePeriodKind::ReportingSemester, Granularity::Semester),
        (SdmxTimePeriodKind::ReportingTrimester, Granularity::Trimester),
        (SdmxTimePeriodKind::ReportingQuarter, Granularity::Quarter),
        (SdmxTimePeriodKind::GregorianYearMonth, Granularity::Month),
        (SdmxTimePeriodKind::ReportingMonth, Granularity::Month),
        (SdmxTimePeriodKind::ReportingWeek, Granularity::Week),
        (SdmxTimePeriodKind::GregorianDay, Granularity::Day),
        (SdmxTimePeriodKind::ReportingDay, Granularity::Day),
        (SdmxTimePeriodKind::DateTime, Granularity::Instant),
    ];
    for (kind, granularity) in cases {
        assert_eq!(kind.granularity(), granularity, "{kind:?}");
    }
}

#[test]
fn lexical_newtypes_round_trip_display_parse_asref() {
    for raw in ["0", "-1.5", "+42", "3.14159", ".5", "5.", "-0.0"] {
        let v = SdmxDecimal::new(raw.into()).unwrap();
        assert_eq!(v.to_string(), raw);
        assert_eq!(AsRef::<str>::as_ref(&v), raw);
        assert_eq!(v.to_string().parse::<SdmxDecimal>(), Ok(v.clone()));
    }
    for raw in ["0", "-7", "+1234"] {
        let v = SdmxInteger::new(raw.into()).unwrap();
        assert_eq!(v.to_string(), raw);
        assert_eq!(AsRef::<str>::as_ref(&v), raw);
        assert_eq!(v.to_string().parse::<SdmxInteger>(), Ok(v.clone()));
    }
    for raw in ["1.2.3", "1.0.0-rc.1", "1.3", "1"] {
        let v = SdmxVersion::new(raw.into()).unwrap();
        assert_eq!(v.to_string(), raw);
        assert_eq!(v.to_string().parse::<SdmxVersion>(), Ok(v.clone()));
    }
    for raw in ["2024", "2024-05", "2024-Q4", "2024-05-01T09:30:00", "2024-05-01T09:30:00Z"] {
        let v = SdmxTimePeriod::new(raw.into()).unwrap();
        assert_eq!(v.to_string(), raw);
        assert_eq!(AsRef::<str>::as_ref(&v), raw);
        assert_eq!(v.to_string().parse::<SdmxTimePeriod>(), Ok(v.clone()));
    }
    for raw in ["2010-01-01/P2M", "2010-01-01T09:30:00Z/PT30M"] {
        let v = SdmxTimeRange::new(raw.into()).unwrap();
        assert_eq!(v.to_string(), raw);
        assert_eq!(AsRef::<str>::as_ref(&v), raw);
        assert_eq!(v.to_string().parse::<SdmxTimeRange>(), Ok(v.clone()));
    }
    for raw in ["2024-Q4", "2010-01-01/P2M"] {
        let v = ObservationalTimePeriod::new(raw.into()).unwrap();
        assert_eq!(v.to_string(), raw);
        assert_eq!(AsRef::<str>::as_ref(&v), raw);
        assert_eq!(v.to_string().parse::<ObservationalTimePeriod>(), Ok(v.clone()));
    }
}

#[test]
fn lexical_newtype_into_inner_and_from() {
    let d = SdmxDecimal::new(String::from("1.5")).unwrap();
    assert_eq!(d.clone().into_inner(), "1.5");
    assert_eq!(String::from(d), "1.5");
    let i = SdmxInteger::new(String::from("42")).unwrap();
    assert_eq!(i.clone().into_inner(), "42");
    assert_eq!(String::from(i), "42");
    let r = SdmxTimeRange::new(String::from("2010-01-01/P2M")).unwrap();
    assert_eq!(r.clone().into_inner(), "2010-01-01/P2M");
    assert_eq!(String::from(r.clone()), "2010-01-01/P2M");
    assert_eq!(SdmxTimeRange::new(r.clone().into_inner()).unwrap(), r);
}

#[test]
fn raw_backed_newtypes_compare_to_literals_by_identity() {
    let decimal = SdmxDecimal::new(String::from("1.0")).unwrap();
    assert!(decimal == *"1.0");
    assert!(decimal == "1.0");
    assert!(decimal != "1.00");
    let integer = SdmxInteger::new(String::from("7")).unwrap();
    assert!(integer == *"7");
    assert!(integer == "7");
    assert!(integer != "+7");
    let period = SdmxTimePeriod::new(String::from("2024-Q4")).unwrap();
    assert!(period == *"2024-Q4");
    assert!(period == "2024-Q4");
    assert!(period != "2024-Q4Z");
    let range = SdmxTimeRange::new(String::from("2010-01-01/P2M")).unwrap();
    assert!(range == *"2010-01-01/P2M");
    assert!(range == "2010-01-01/P2M");
    assert!(range != "2010-01-01/P60D");
    let observational = ObservationalTimePeriod::new(String::from("2024-Q4")).unwrap();
    assert!(observational == *"2024-Q4");
    assert!(observational == "2024-Q4");
    assert!(observational != "2010-01-01/P2M");
}

#[test]
fn version_round_trip_law_on_concrete_values() {
    for raw in ["0", "4294967295", "4294967295.0.1-x-y.0.a1", "10.20"] {
        let v = SdmxVersion::new(raw.into()).unwrap();
        assert_eq!(v.to_string(), raw);
        assert_eq!(SdmxVersion::new(v.to_string()).unwrap(), v);
    }
    assert!(SdmxVersion::new(String::from("4294967296")).is_err());
    assert_eq!(
        SdmxVersion::new(String::from("1.0.0-01")),
        Err(Error::InvalidVersion(String::from("1.0.0-01")))
    );
    assert_eq!(
        VersionRef::new(String::from("1.2.3-x")).unwrap(),
        VersionRef::Exact(SdmxVersion::new(String::from("1.2.3-x")).unwrap())
    );
    assert_eq!(
        VersionRef::new(String::from("1.2")),
        Ok(VersionRef::Exact(SdmxVersion::new(String::from("1.2")).unwrap()))
    );
    assert_eq!(
        VersionRef::new(String::from("1..2+")),
        Err(Error::InvalidVersionReference(String::from("1..2+")))
    );
}

#[test]
fn lexical_values_compare_with_their_text() {
    let d = SdmxDecimal::new(String::from("-1.50")).unwrap();
    assert!(d == *"-1.50");
    assert!(d == "-1.50");
    assert!(d != "-1.5");
    let i = SdmxInteger::new(String::from("+7")).unwrap();
    assert!(i == "+7");
    assert!(i != "7");
    let p = SdmxTimePeriod::new(String::from("2024-Q1")).unwrap();
    assert!(p == "2024-Q1");
    assert!(p != "2024-Q2");
    let r = SdmxTimeRange::new(String::from("2024-01-01/P1M")).unwrap();
    assert!(r == "2024-01-01/P1M");
    let o = ObservationalTimePeriod::new(String::from("2024")).unwrap();
    assert!(o == "2024");
    assert!(o != "2025");
    let u = SdmxDuration::new(String::from("P1Y2M")).unwrap();
    assert!(u == "P1Y2M");
    assert!(u != "P1Y");
}
