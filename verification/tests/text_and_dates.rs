use diesel_demo::calendar::{ClockTime, Date, MyDate};
use diesel_demo::ids::{parse_uuid, uuid_to_text};
use diesel_demo::prompt::{short_yes, u8_parse_error, yes_no, IntErrorKind};
use diesel_demo::text::{chars_of, i64_text, parse_i32, parse_u32, parse_u8, string_of, trim, trim_end, u64_text};

const SAMPLES: &[&str] = &[
    "", "0", "7", "+7", "-7", "+", "-", "+-5", "-0", "00042", " 1", "1 ", "1\n", "2024\n", "255", "256",
    "300", "3000x", "30x", "x", "-1", "2147483647", "2147483648", "-2147483648", "-2147483649",
    "4294967295", "4294967296", "99999999999999999999", "12a", "٣",
];

#[test]
fn parse_i32_agrees_with_std() {
    for s in SAMPLES {
        assert_eq!(parse_i32(s), s.parse::<i32>().ok(), "{:?}", s);
    }
}

#[test]
fn parse_u32_agrees_with_std() {
    for s in SAMPLES {
        assert_eq!(parse_u32(s), s.parse::<u32>().ok(), "{:?}", s);
    }
}

#[test]
fn parse_u8_and_its_errors_agree_with_std() {
    for s in SAMPLES {
        assert_eq!(parse_u8(s), s.parse::<u8>().ok(), "{:?}", s);
        if let Err(e) = s.parse::<u8>() {
            let expected = match e.kind() {
                std::num::IntErrorKind::Empty => IntErrorKind::Empty,
                std::num::IntErrorKind::InvalidDigit => IntErrorKind::InvalidDigit,
                std::num::IntErrorKind::PosOverflow => IntErrorKind::PosOverflow,
                _ => panic!("unexpected kind"),
            };
            assert_eq!(u8_parse_error(s), expected, "{:?}", s);
            assert_eq!(u8_parse_error(s).message(), e.to_string());
        }
    }
}

#[test]
fn integer_texts() {
    assert_eq!(u64_text(0), "0");
    assert_eq!(u64_text(305), "305");
    assert_eq!(u64_text(u64::MAX), u64::MAX.to_string());
    assert_eq!(i64_text(-42), "-42");
    assert_eq!(i64_text(i64::MIN), i64::MIN.to_string());
}

#[test]
fn trimming_agrees_with_std() {
    let samples = [
        "", "   ", "  a b \n", "\u{3000}x\u{85}", "\t\r\nY\n", "\u{2028}mid dle\u{2029}", "\u{200B}z", "Yes",
        "\u{a0}\u{1680}q\u{202f}\u{205f}",
    ];
    for s in samples {
        assert_eq!(trim(s), s.trim(), "{:?}", s);
        assert_eq!(trim_end(s), s.trim_end(), "{:?}", s);
    }
}

#[test]
fn chars_round_trip() {
    let s = "héllo, wörld ✓";
    assert_eq!(string_of(&chars_of(s)), s);
}

#[test]
fn yes_and_no_answers() {
    assert_eq!(yes_no("Y\n"), Some(true));
    assert_eq!(yes_no("  yes "), Some(true));
    assert_eq!(yes_no("Yes"), Some(true));
    assert_eq!(yes_no("No\n"), Some(false));
    assert_eq!(yes_no("n"), Some(false));
    assert_eq!(yes_no("YES"), None);
    assert_eq!(yes_no(""), None);
    assert!(short_yes("y\n"));
    assert!(!short_yes("yes"));
    assert!(!short_yes("maybe"));
}

#[test]
fn dates_follow_chrono() {
    let cases = [
        (2024, 2, 29), (2023, 2, 29), (1900, 2, 29), (2000, 2, 29), (2024, 4, 31), (2024, 13, 1),
        (2024, 0, 1), (2024, 1, 0), (262142, 12, 31), (262143, 1, 1), (-262143, 1, 1), (-262144, 12, 31),
        (0, 1, 1), (-1, 12, 31), (10000, 6, 7), (5, 1, 2),
    ];
    for (y, m, d) in cases {
        let ours = Date::from_ymd_opt(y, m, d);
        let theirs = chrono::NaiveDate::from_ymd_opt(y, m, d);
        assert_eq!(ours.is_some(), theirs.is_some(), "{} {} {}", y, m, d);
        if let (Some(a), Some(b)) = (ours, theirs) {
            assert_eq!(a, Date { year: y, month: m, day: d });
            assert_eq!(a.to_text(), b.to_string());
            assert_eq!(a.to_text(), format!("{:?}", b));
        }
    }
}

#[test]
fn date_texts() {
    assert_eq!(Date::from_ymd_opt(2024, 5, 14).unwrap().to_text(), "2024-05-14");
    assert_eq!(Date::from_ymd_opt(-1, 1, 1).unwrap().to_text(), "-0001-01-01");
    assert_eq!(Date::from_ymd_opt(10000, 12, 31).unwrap().to_text(), "+10000-12-31");
}

#[test]
fn times_follow_the_time_crate() {
    for (h, m, s) in [(14u8, 0u8, 0u8), (9, 5, 7), (23, 59, 59), (24, 0, 0), (0, 60, 0), (0, 0, 60)] {
        let ours = ClockTime::from_hms(h, m, s);
        let theirs = time::Time::from_hms(h, m, s);
        assert_eq!(ours.is_some(), theirs.is_ok());
        if let (Some(a), Ok(b)) = (ours, theirs) {
            assert_eq!(a.to_text(), b.to_string());
        }
    }
    for nanos in [0u32, 500_000_000, 123_456_789, 120, 100_000_000, 999_999_999] {
        let ours = ClockTime { hour: 7, minute: 8, second: 9, nanosecond: nanos };
        let theirs = time::Time::from_hms_nano(7, 8, 9, nanos).unwrap();
        assert_eq!(ours.to_text(), theirs.to_string());
    }
    assert_eq!(ClockTime::from_hms(14, 0, 0).unwrap().to_text(), "14:00:00.0");
}

#[test]
fn queried_dates() {
    let date = MyDate { year: 2024, month: 5, day: 25 };
    assert_eq!(date.fmt(), "(2024, 5, 25)");
    assert_eq!(date.to_date(), Some(Date { year: 2024, month: 5, day: 25 }));
    assert_eq!(MyDate { year: 2024, month: 2, day: 30 }.to_date(), None);
    assert_eq!(MyDate { year: -3, month: 0, day: 1 }.fmt(), "(-3, 0, 1)");
}

#[test]
fn uuid_texts_follow_uuid() {
    let text = "8ba0a933-6f7a-46d4-8378-a9ac2c457670";
    let v = uuid::Uuid::parse_str(text).unwrap().as_u128();
    assert_eq!(uuid_to_text(v), text);
    for v in [0u128, 1, u128::MAX, 0x0123_4567_89ab_cdef_0011_2233_4455_6677] {
        assert_eq!(uuid_to_text(v), uuid::Uuid::from_u128(v).to_string());
        assert_eq!(parse_uuid(&uuid_to_text(v)), Some(v));
    }
    assert_eq!(parse_uuid(text), Some(v));
    assert_eq!(parse_uuid("8ba0a9336f7a46d48378a9ac2c457670"), Some(v));
    assert_eq!(parse_uuid("not a uuid"), None);
    assert_eq!(parse_uuid(" 8ba0a933-6f7a-46d4-8378-a9ac2c457670"), None);
}

#[test]
fn integer_texts_parse_back() {
    for n in [0i32, 7, -7, 12, i32::MAX, i32::MIN, 2024, -2024] {
        assert_eq!(parse_i32(&i64_text(n as i64)), Some(n));
    }
}
