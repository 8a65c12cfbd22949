use unixtime_calendar::{decode, CalendarInstant, DecodeError, Weekday, MAX_TIMESTAMP, MIN_TIMESTAMP};

fn fields(instant: &CalendarInstant) -> (i32, u32, u32, u32, u32, u32, Weekday) {
    (
        instant.year(),
        instant.month(),
        instant.day(),
        instant.hour(),
        instant.minute(),
        instant.second(),
        instant.weekday(),
    )
}

#[test]
fn decode_zero_is_the_epoch() {
    let instant = decode("0").unwrap();
    assert_eq!(fields(&instant), (1970, 1, 1, 0, 0, 0, Weekday::Thu));
}

#[test]
fn decode_minus_one_is_the_last_second_of_1969() {
    let instant = decode("-1").unwrap();
    assert_eq!(fields(&instant), (1969, 12, 31, 23, 59, 59, Weekday::Wed));
}

#[test]
fn decode_known_timestamp() {
    let instant = decode("1700000000").unwrap();
    assert_eq!(fields(&instant), (2023, 11, 14, 22, 13, 20, Weekday::Tue));
}

#[test]
fn decode_leap_days() {
    assert_eq!(fields(&decode("951782400").unwrap()), (2000, 2, 29, 0, 0, 0, Weekday::Tue));
    assert_eq!(fields(&decode("951868800").unwrap()), (2000, 3, 1, 0, 0, 0, Weekday::Wed));
    assert_eq!(fields(&decode("1582934400").unwrap()), (2020, 2, 29, 0, 0, 0, Weekday::Sat));
    assert_eq!(fields(&decode("1583020799").unwrap()), (2020, 2, 29, 23, 59, 59, Weekday::Sat));
    assert_eq!(fields(&decode("1583020800").unwrap()), (2020, 3, 1, 0, 0, 0, Weekday::Sun));
}

#[test]
fn decode_century_years() {
    assert_eq!(fields(&decode("-2208988800").unwrap()), (1900, 1, 1, 0, 0, 0, Weekday::Mon));
    assert_eq!(fields(&decode("946684799").unwrap()), (1999, 12, 31, 23, 59, 59, Weekday::Fri));
    assert_eq!(fields(&decode("946684800").unwrap()), (2000, 1, 1, 0, 0, 0, Weekday::Sat));
    assert_eq!(fields(&decode("4102444800").unwrap()), (2100, 1, 1, 0, 0, 0, Weekday::Fri));
}

#[test]
fn decode_years_around_zero() {
    assert_eq!(fields(&decode("-62135596800").unwrap()), (1, 1, 1, 0, 0, 0, Weekday::Mon));
    assert_eq!(fields(&decode("-62167219200").unwrap()), (0, 1, 1, 0, 0, 0, Weekday::Sat));
    assert_eq!(fields(&decode("-62167219201").unwrap()), (-1, 12, 31, 23, 59, 59, Weekday::Fri));
}

#[test]
fn decode_accepts_leading_zeros_and_minus_zero() {
    assert_eq!(decode("0005"), decode("5"));
    assert_eq!(decode("-0"), decode("0"));
    assert_eq!(decode("-0001"), decode("-1"));
    assert_eq!(
        decode("000000000000000000000000000001700000000"),
        decode("1700000000")
    );
}

#[test]
fn decode_rejects_what_is_not_a_number() {
    assert_eq!(decode("not-a-number"), Err(DecodeError::NotANumber));
    assert_eq!(decode(""), Err(DecodeError::NotANumber));
    assert_eq!(decode("-"), Err(DecodeError::NotANumber));
    assert_eq!(decode("--1"), Err(DecodeError::NotANumber));
    assert_eq!(decode("1-"), Err(DecodeError::NotANumber));
    assert_eq!(decode("+5"), Err(DecodeError::NotANumber));
    assert_eq!(decode("12a"), Err(DecodeError::NotANumber));
    assert_eq!(decode("a12"), Err(DecodeError::NotANumber));
    assert_eq!(decode("1.5"), Err(DecodeError::NotANumber));
    assert_eq!(decode("1e3"), Err(DecodeError::NotANumber));
    assert_eq!(decode("0x10"), Err(DecodeError::NotANumber));
    assert_eq!(decode("1_000"), Err(DecodeError::NotANumber));
    assert_eq!(decode("/5"), Err(DecodeError::NotANumber));
}

#[test]
fn decode_tolerates_no_whitespace() {
    assert_eq!(decode(" 5"), Err(DecodeError::NotANumber));
    assert_eq!(decode("5 "), Err(DecodeError::NotANumber));
    assert_eq!(decode("5\n"), Err(DecodeError::NotANumber));
    assert_eq!(decode("- 5"), Err(DecodeError::NotANumber));
}

#[test]
fn decode_rejects_digits_outside_ascii() {
    assert_eq!(decode("\u{ff11}\u{ff12}"), Err(DecodeError::NotANumber));
    assert_eq!(decode("\u{0661}"), Err(DecodeError::NotANumber));
    assert_eq!(decode("12\u{6708}"), Err(DecodeError::NotANumber));
    assert_eq!(decode("\u{2212}1"), Err(DecodeError::NotANumber));
}

#[test]
fn decode_a_malformed_text_is_never_out_of_range() {
    assert_eq!(
        decode("99999999999999999999999999999999x"),
        Err(DecodeError::NotANumber)
    );
    assert_eq!(
        decode("-99999999999999999999999999999999-"),
        Err(DecodeError::NotANumber)
    );
}

#[test]
fn decode_reports_the_largest_integers_as_out_of_range() {
    assert_eq!(decode("9223372036854775807"), Err(DecodeError::OutOfRange));
    assert_eq!(decode("-9223372036854775808"), Err(DecodeError::OutOfRange));
}

#[test]
fn decode_reports_integers_beyond_64_bits_as_out_of_range() {
    assert_eq!(decode("9223372036854775808"), Err(DecodeError::OutOfRange));
    assert_eq!(decode("-9223372036854775809"), Err(DecodeError::OutOfRange));
    assert_eq!(decode("18446744073709551616"), Err(DecodeError::OutOfRange));
    assert_eq!(decode("18446744073709551617"), Err(DecodeError::OutOfRange));
    assert_eq!(
        decode("100000000000000000000000000000000000000000"),
        Err(DecodeError::OutOfRange)
    );
    assert_eq!(
        decode("-100000000000000000000000000000000000000000"),
        Err(DecodeError::OutOfRange)
    );
}

#[test]
fn decode_reaches_the_ends_of_the_calendar() {
    assert_eq!(MAX_TIMESTAMP, 8_210_266_876_799);
    assert_eq!(MIN_TIMESTAMP, -8_334_601_228_800);
    let last = decode("8210266876799").unwrap();
    assert_eq!(fields(&last), (262142, 12, 31, 23, 59, 59, Weekday::Mon));
    let first = decode("-8334601228800").unwrap();
    assert_eq!(fields(&first), (-262143, 1, 1, 0, 0, 0, Weekday::Thu));
}

#[test]
fn decode_stops_one_second_past_the_ends_of_the_calendar() {
    assert_eq!(decode("8210266876800"), Err(DecodeError::OutOfRange));
    assert_eq!(decode("-8334601228801"), Err(DecodeError::OutOfRange));
}

#[test]
fn decode_twice_gives_the_same_instant() {
    for text in ["0", "-1", "1700000000", "8210266876799", "-8334601228800"] {
        assert_eq!(decode(text), decode(text));
    }
}

#[test]
fn from_epoch_seconds_agrees_with_decode() {
    for seconds in [0i64, -1, 1_700_000_000, 951_782_400, MAX_TIMESTAMP, MIN_TIMESTAMP] {
        let text = format!("{}", seconds);
        assert_eq!(CalendarInstant::from_epoch_seconds(seconds), decode(&text).ok());
    }
    assert_eq!(CalendarInstant::from_epoch_seconds(MAX_TIMESTAMP + 1), None);
    assert_eq!(CalendarInstant::from_epoch_seconds(MIN_TIMESTAMP - 1), None);
    assert_eq!(CalendarInstant::from_epoch_seconds(i64::MAX), None);
    assert_eq!(CalendarInstant::from_epoch_seconds(i64::MIN), None);
}

#[test]
fn epoch_seconds_gives_the_timestamp_back() {
    let mut seconds = MIN_TIMESTAMP;
    while seconds <= MAX_TIMESTAMP {
        let instant = CalendarInstant::from_epoch_seconds(seconds).unwrap();
        assert_eq!(instant.epoch_seconds(), seconds);
        seconds += 86_400 * 36_524 + 3_601;
    }
    for seconds in -200_000i64..200_000 {
        let instant = CalendarInstant::from_epoch_seconds(seconds * 9_973).unwrap();
        assert_eq!(instant.epoch_seconds(), seconds * 9_973);
    }
    for seconds in [MIN_TIMESTAMP, MAX_TIMESTAMP, 0, -1, 86_399, 86_400, -86_400, -86_401] {
        let instant = CalendarInstant::from_epoch_seconds(seconds).unwrap();
        assert_eq!(instant.epoch_seconds(), seconds);
    }
}

#[test]
fn weekdays_follow_one_another() {
    let week = [
        Weekday::Thu,
        Weekday::Fri,
        Weekday::Sat,
        Weekday::Sun,
        Weekday::Mon,
        Weekday::Tue,
        Weekday::Wed,
    ];
    for day in -1_000i64..1_000 {
        let instant = CalendarInstant::from_epoch_seconds(day * 86_400 + 43_200).unwrap();
        assert_eq!(instant.weekday(), week[day.rem_euclid(7) as usize]);
    }
}

#[test]
fn new_names_the_instant_by_its_fields() {
    let epoch = CalendarInstant::new(1970, 1, 1, 0, 0, 0).unwrap();
    assert_eq!(fields(&epoch), (1970, 1, 1, 0, 0, 0, Weekday::Thu));
    assert_eq!(epoch.epoch_seconds(), 0);
    let known = CalendarInstant::new(2023, 11, 14, 22, 13, 20).unwrap();
    assert_eq!(fields(&known), (2023, 11, 14, 22, 13, 20, Weekday::Tue));
    assert_eq!(known.epoch_seconds(), 1_700_000_000);
    let before = CalendarInstant::new(1969, 12, 31, 23, 59, 59).unwrap();
    assert_eq!(fields(&before), (1969, 12, 31, 23, 59, 59, Weekday::Wed));
    assert_eq!(before.epoch_seconds(), -1);
}

#[test]
fn new_agrees_with_decode() {
    for text in [
        "0",
        "-1",
        "1700000000",
        "951782400",
        "-62167219201",
        "8210266876799",
        "-8334601228800",
    ] {
        let decoded = decode(text).unwrap();
        let named = CalendarInstant::new(
            decoded.year(),
            decoded.month(),
            decoded.day(),
            decoded.hour(),
            decoded.minute(),
            decoded.second(),
        );
        assert_eq!(named, Some(decoded));
    }
}

#[test]
fn new_agrees_with_from_epoch_seconds_over_the_whole_range() {
    let mut seconds = MIN_TIMESTAMP;
    while seconds <= MAX_TIMESTAMP {
        let instant = CalendarInstant::from_epoch_seconds(seconds).unwrap();
        let named = CalendarInstant::new(
            instant.year(),
            instant.month(),
            instant.day(),
            instant.hour(),
            instant.minute(),
            instant.second(),
        );
        assert_eq!(named, Some(instant));
        seconds += 86_400 * 9_973 + 3_607;
    }
}

#[test]
fn new_refuses_dates_that_do_not_exist() {
    assert_eq!(CalendarInstant::new(2023, 2, 29, 0, 0, 0), None);
    assert_eq!(CalendarInstant::new(1900, 2, 29, 0, 0, 0), None);
    assert_eq!(CalendarInstant::new(2024, 2, 30, 0, 0, 0), None);
    assert_eq!(CalendarInstant::new(2024, 4, 31, 0, 0, 0), None);
    assert_eq!(CalendarInstant::new(2024, 1, 32, 0, 0, 0), None);
    assert_eq!(CalendarInstant::new(2024, 1, 0, 0, 0, 0), None);
    assert_eq!(CalendarInstant::new(2024, 0, 1, 0, 0, 0), None);
    assert_eq!(CalendarInstant::new(2024, 13, 1, 0, 0, 0), None);
    assert!(CalendarInstant::new(2024, 2, 29, 0, 0, 0).is_some());
    assert!(CalendarInstant::new(2000, 2, 29, 0, 0, 0).is_some());
    assert!(CalendarInstant::new(2024, 12, 31, 0, 0, 0).is_some());
}

#[test]
fn new_refuses_times_that_do_not_exist() {
    assert_eq!(CalendarInstant::new(2024, 1, 1, 24, 0, 0), None);
    assert_eq!(CalendarInstant::new(2024, 1, 1, 0, 60, 0), None);
    assert_eq!(CalendarInstant::new(2024, 1, 1, 0, 0, 60), None);
    assert!(CalendarInstant::new(2024, 1, 1, 23, 59, 59).is_some());
}

#[test]
fn new_refuses_years_beyond_the_calendar() {
    assert_eq!(CalendarInstant::new(262_143, 1, 1, 0, 0, 0), None);
    assert_eq!(CalendarInstant::new(-262_144, 12, 31, 23, 59, 59), None);
    assert_eq!(CalendarInstant::new(i32::MAX, 1, 1, 0, 0, 0), None);
    assert_eq!(CalendarInstant::new(i32::MIN, 1, 1, 0, 0, 0), None);
    let last = CalendarInstant::new(262_142, 12, 31, 23, 59, 59).unwrap();
    assert_eq!(last.epoch_seconds(), MAX_TIMESTAMP);
    let first = CalendarInstant::new(-262_143, 1, 1, 0, 0, 0).unwrap();
    assert_eq!(first.epoch_seconds(), MIN_TIMESTAMP);
}
