use jobcan_punch::timeclock::format_hhmm;
use jobcan_punch::timeclock::parse_time_to_minutes;

#[test]
fn test_calc_minutes_works_1() {
    let input = String::from("09:51");
    let minutes = parse_time_to_minutes(&input).unwrap_or_default();

    assert_eq!(9 * 60 + 51, minutes);
}

#[test]
fn test_calc_minutes_works_2() {
    let input = String::from("23:59");
    let minutes = parse_time_to_minutes(&input).unwrap_or_default();

    assert_eq!(23 * 60 + 59, minutes);
}

#[test]
fn test_calc_minutes_works_3() {
    let input = String::from("00:01");
    let minutes = parse_time_to_minutes(&input).unwrap_or_default();

    assert_eq!(1, minutes);
}

#[test]
fn test_calc_minutes_returns_0_on_failure_1() {
    let input = String::from("勤務中");
    let minutes = parse_time_to_minutes(&input);

    assert_eq!(None, minutes);
}

#[test]
fn test_calc_minutes_returns_0_on_failure_2() {
    let input = String::from("11:mm");
    let minutes = parse_time_to_minutes(&input);

    assert_eq!(None, minutes);
}

#[test]
fn test_calc_minutes_returns_0_on_failure_3() {
    let input = String::from("mm:11");
    let minutes = parse_time_to_minutes(&input);

    assert_eq!(None, minutes);
}

#[test]
fn test_calc_minutes_returns_0_on_failure_4() {
    let input = String::from(":");
    let minutes = parse_time_to_minutes(&input);

    assert_eq!(None, minutes);
}

#[test]
fn test_calc_minutes_returns_0_on_failure_5() {
    let input = String::from("0:0");
    let minutes = parse_time_to_minutes(&input);

    assert_eq!(None, minutes);
}

#[test]
fn parse_time_examples() {
    assert_eq!(Some(405), parse_time_to_minutes("06:45"));
    assert_eq!(Some(1439), parse_time_to_minutes("23:59"));
    assert_eq!(Some(1), parse_time_to_minutes("00:01"));
    // Post-midnight encoding: hours beyond 24 are accepted.
    assert_eq!(Some(26 * 60), parse_time_to_minutes("26:00"));
}

#[test]
fn parse_time_rejections() {
    assert_eq!(None, parse_time_to_minutes(""));
    assert_eq!(None, parse_time_to_minutes(":"));
    assert_eq!(None, parse_time_to_minutes("0:0"));
    assert_eq!(None, parse_time_to_minutes("mm:11"));
    assert_eq!(None, parse_time_to_minutes("11:mm"));
    assert_eq!(None, parse_time_to_minutes("12:"));
    assert_eq!(None, parse_time_to_minutes("1234"));
}

#[test]
fn format_hhmm_pads_and_grows() {
    assert_eq!("14:30", format_hhmm(870).as_str());
    assert_eq!("00:05", format_hhmm(5).as_str());
    assert_eq!("00:00", format_hhmm(0).as_str());
    assert_eq!("09:51", format_hhmm(9 * 60 + 51).as_str());
    // Hours take more than two characters for large totals.
    assert_eq!("100:00", format_hhmm(6000).as_str());
}
