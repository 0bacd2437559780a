use jobcan_punch::date::Date;
use jobcan_punch::sequencer::Command;
use jobcan_punch::sequencer::RawCommand;
use jobcan_punch::sequencer::RawListArgs;
use jobcan_punch::sequencer::RawReviseArgs;
use jobcan_punch::sequencer::ValidationError;
use jobcan_punch::sequencer::validate_command;

fn revise(date: Option<&str>, time: &str) -> RawCommand {
    RawCommand::ReviseClock(RawReviseArgs {
        date: date.map(|d| d.to_owned()),
        time: time.to_owned(),
        message: "work start".to_owned(),
    })
}

#[test]
fn revise_time_boundary_is_inclusive() {
    let r = validate_command(revise(None, "2600"), false, None);
    match r {
        Ok(Command::ReviseClock(a)) => {
            assert_eq!("2600", a.time.as_str());
            assert!(a.date.is_none());
        },
        _ => panic!("2600 must be accepted"),
    }
}

#[test]
fn revise_time_above_the_bound_is_rejected() {
    let r = validate_command(revise(None, "2601"), false, None);
    assert!(matches!(r, Err(ValidationError::TimeOutOfRange)));
}

#[test]
fn revise_time_wrong_length_is_rejected_before_parsing() {
    let r = validate_command(revise(None, "060"), false, None);
    assert!(matches!(r, Err(ValidationError::TimeWrongLength)));
    let r = validate_command(revise(None, "06000"), false, None);
    assert!(matches!(r, Err(ValidationError::TimeWrongLength)));
}

#[test]
fn revise_time_with_non_digits_is_rejected() {
    let r = validate_command(revise(None, "-001"), false, None);
    assert!(matches!(r, Err(ValidationError::TimeNotNumeric)));
    let r = validate_command(revise(None, "07a0"), false, None);
    assert!(matches!(r, Err(ValidationError::TimeNotNumeric)));
}

#[test]
fn revise_date_is_validated() {
    let r = validate_command(revise(Some("2020-01-31"), "0700"), false, None);
    match r {
        Ok(Command::ReviseClock(a)) => {
            assert_eq!(Some(Date { year: 2020, month: 1, day: 31 }), a.date);
        },
        _ => panic!("a valid date must be accepted"),
    }
    let r = validate_command(revise(Some("2020-02-30"), "0700"), false, None);
    assert!(matches!(r, Err(ValidationError::InvalidDate)));
}

#[test]
fn login_needs_visible_mode_and_positive_sleep() {
    assert!(matches!(
        validate_command(RawCommand::Login, false, Some(5)),
        Err(ValidationError::LoginNeedsVisibleSleep)
    ));
    assert!(matches!(
        validate_command(RawCommand::Login, true, None),
        Err(ValidationError::LoginNeedsVisibleSleep)
    ));
    assert!(matches!(
        validate_command(RawCommand::Login, true, Some(0)),
        Err(ValidationError::LoginNeedsVisibleSleep)
    ));
    assert!(matches!(validate_command(RawCommand::Login, true, Some(5)), Ok(Command::Login)));
}

#[test]
fn list_month_is_validated() {
    let raw = RawCommand::List(RawListArgs { month: Some("202001".to_owned()), csv: false });
    match validate_command(raw, false, None) {
        Ok(Command::List(a)) => {
            assert_eq!(Some(Date { year: 2020, month: 1, day: 1 }), a.month);
            assert!(!a.csv);
        },
        _ => panic!("a valid month must be accepted"),
    }
    let raw = RawCommand::List(RawListArgs { month: Some("202013".to_owned()), csv: false });
    assert!(matches!(validate_command(raw, false, None), Err(ValidationError::InvalidMonth)));
}
