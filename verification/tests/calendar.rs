use unixtime_calendar::calendar::leap_year;
use unixtime_calendar::numeral::{append_decimal, parse_integer, ParsedInteger};
use unixtime_calendar::{CalendarInstant, Weekday};

#[test]
fn leap_years_every_fourth_year_but_not_every_century() {
    assert!(leap_year(2024));
    assert!(leap_year(2000));
    assert!(leap_year(1600));
    assert!(leap_year(0));
    assert!(leap_year(-4));
    assert!(leap_year(-400));
    assert!(!leap_year(2023));
    assert!(!leap_year(1900));
    assert!(!leap_year(2100));
    assert!(!leap_year(-1));
    assert!(!leap_year(-100));
    assert!(!leap_year(i32::MAX));
    assert!(leap_year(i32::MIN));
}

#[test]
fn every_day_follows_the_day_before() {
    let lengths = [31u32, 28, 31, 30, 31, 30, 31, 31, 30, 31, 30, 31];
    let week = [
        Weekday::Mon,
        Weekday::Tue,
        Weekday::Wed,
        Weekday::Thu,
        Weekday::Fri,
        Weekday::Sat,
        Weekday::Sun,
    ];
    // 1580-01-01 was a Tuesday, 142 445 days before the epoch.
    let mut number: i64 = -142_445;
    let mut weekday = 1;
    for year in 1580..2420 {
        for month in 1..=12u32 {
            let mut length = lengths[month as usize - 1];
            if month == 2 && leap_year(year) {
                length = 29;
            }
            for day in 1..=length {
                let noon = CalendarInstant::from_epoch_seconds(number * 86_400 + 43_200).unwrap();
                assert_eq!((noon.year(), noon.month(), noon.day()), (year, month, day));
                assert_eq!((noon.hour(), noon.minute(), noon.second()), (12, 0, 0));
                assert_eq!(noon.weekday(), week[weekday]);
                assert_eq!(noon.epoch_seconds(), number * 86_400 + 43_200);
                assert_eq!(CalendarInstant::new(year, month, day, 12, 0, 0), Some(noon));
                number += 1;
                weekday = (weekday + 1) % 7;
            }
        }
    }
    // 2420-01-01 is 164 359 days after the epoch.
    assert_eq!(number, 164_359);
}

#[test]
fn parse_integer_reads_values() {
    assert_eq!(parse_integer("0"), ParsedInteger::Value(0));
    assert_eq!(parse_integer("-0"), ParsedInteger::Value(0));
    assert_eq!(parse_integer("7"), ParsedInteger::Value(7));
    assert_eq!(parse_integer("-7"), ParsedInteger::Value(-7));
    assert_eq!(parse_integer("0123"), ParsedInteger::Value(123));
    assert_eq!(parse_integer("1700000000"), ParsedInteger::Value(1_700_000_000));
    assert_eq!(parse_integer("9223372036854775807"), ParsedInteger::Value(i64::MAX));
    assert_eq!(parse_integer("-9223372036854775808"), ParsedInteger::Value(i64::MIN));
    assert_eq!(parse_integer("-9223372036854775807"), ParsedInteger::Value(-i64::MAX));
    assert_eq!(parse_integer("922337203685477580"), ParsedInteger::Value(922_337_203_685_477_580));
    assert_eq!(parse_integer("9223372036854775800"), ParsedInteger::Value(9_223_372_036_854_775_800));
}

#[test]
fn parse_integer_agrees_with_the_standard_parser() {
    for value in -5_000i64..5_000 {
        let text = format!("{}", value * 1_844_674_407_370_955);
        assert_eq!(
            parse_integer(&text),
            ParsedInteger::Value(text.parse::<i64>().unwrap())
        );
    }
}

#[test]
fn parse_integer_reports_what_does_not_fit() {
    assert_eq!(parse_integer("9223372036854775808"), ParsedInteger::TooLarge);
    assert_eq!(parse_integer("-9223372036854775809"), ParsedInteger::TooLarge);
    assert_eq!(parse_integer("9223372036854775810"), ParsedInteger::TooLarge);
    assert_eq!(parse_integer("18446744073709551615"), ParsedInteger::TooLarge);
    assert_eq!(parse_integer("18446744073709551616"), ParsedInteger::TooLarge);
    assert_eq!(parse_integer("92233720368547758070"), ParsedInteger::TooLarge);
    assert_eq!(parse_integer("-92233720368547758080"), ParsedInteger::TooLarge);
    assert_eq!(parse_integer("340282366920938463463374607431768211456"), ParsedInteger::TooLarge);
}

#[test]
fn parse_integer_reports_what_is_malformed() {
    for text in ["", "-", "+", "+1", "--1", "1-1", "abc", "1a", " 1", "1 ", "1.0", "\u{ff11}", "1\u{0}"] {
        assert_eq!(parse_integer(text), ParsedInteger::Malformed);
    }
    assert_eq!(parse_integer("18446744073709551616x"), ParsedInteger::Malformed);
}

#[test]
fn append_decimal_writes_numbers() {
    let mut out = String::from("n=");
    append_decimal(&mut out, 0);
    assert_eq!(out, "n=0");
    for (number, text) in [
        (7, "7"),
        (10, "10"),
        (99, "99"),
        (100, "100"),
        (1970, "1970"),
        (-1, "-1"),
        (-10, "-10"),
        (-262_143, "-262143"),
        (i32::MAX, "2147483647"),
        (i32::MIN, "-2147483648"),
    ] {
        let mut out = String::new();
        append_decimal(&mut out, number);
        assert_eq!(out, text);
    }
}

#[test]
fn append_decimal_agrees_with_the_standard_formatter() {
    for number in -3_000..3_000 {
        let mut out = String::new();
        append_decimal(&mut out, number * 715_827);
        assert_eq!(out, format!("{}", number * 715_827));
    }
}
