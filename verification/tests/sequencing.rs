use jobcan_punch::config::Configuration;
use jobcan_punch::date::Date;
use jobcan_punch::sequencer::Action;
use jobcan_punch::sequencer::Command;
use jobcan_punch::sequencer::Event;
use jobcan_punch::sequencer::ListArgs;
use jobcan_punch::sequencer::Locator;
use jobcan_punch::sequencer::Phase;
use jobcan_punch::sequencer::PushArgs;
use jobcan_punch::sequencer::ReviseArgs;
use jobcan_punch::sequencer::RunError;
use jobcan_punch::sequencer::Scope;
use jobcan_punch::sequencer::Sequencer;
use jobcan_punch::sequencer::month_deeplink;
use jobcan_punch::sequencer::revise_deeplink;
use jobcan_punch::sequencer::str_contains;

fn config(token: &str, name: &str) -> Configuration {
    Configuration::new(
        "user@example.com".to_owned(),
        "secret".to_owned(),
        token.to_owned(),
        name.to_owned(),
    )
}

#[test]
fn deeplinks_carry_the_date_fields() {
    let d = Date { year: 2020, month: 1, day: 31 };
    assert_eq!(
        "https://ssl.jobcan.jp/employee/adit/modify?year=2020&month=1&day=31",
        revise_deeplink(&d).as_str()
    );
    assert_eq!(
        "https://ssl.jobcan.jp/employee/attendance?list_type=normal&search_type=month&year=2020&month=1",
        month_deeplink(&d).as_str()
    );
}

#[test]
fn str_contains_finds_substrings() {
    assert!(str_contains("https://x/error/partial-rate-limit?x=1", "error/partial-rate-limit"));
    assert!(!str_contains("https://x/employee/attendance", "error/partial-rate-limit"));
    assert!(str_contains("abc", ""));
    assert!(!str_contains("ab", "abc"));
}

#[test]
fn list_run_with_rate_limit_recovery() {
    let cmd = Command::List(ListArgs { month: None, csv: true });
    let mut m = Sequencer::new(config("", ""), cmd, false, None);
    assert_eq!(Phase::Ready, m.phase);

    let plan = m.step(Event::Begin);
    assert_eq!(Phase::LoggingIn, m.phase);
    assert_eq!(9, plan.len());
    assert!(matches!(&plan[0], Action::Navigate(u) if u == "https://id.jobcan.jp/users/sign_in"));
    assert!(matches!(&plan[1], Action::SetAnchor(Locator::ClassName(c)) if c == "form"));
    assert!(matches!(&plan[3], Action::SendKeys(s) if s == "user@example.com"));
    assert!(matches!(&plan[5], Action::SendKeys(s) if s == "secret"));
    assert!(matches!(&plan[8], Action::SleepMs(1500)));

    let plan = m.step(Event::Completed);
    assert_eq!(Phase::BridgingSession, m.phase);
    assert!(matches!(&plan[0], Action::Navigate(u) if u == "https://ssl.jobcan.jp/jbcoauth/login"));
    assert!(matches!(&plan[1], Action::SleepMs(3000)));

    let plan = m.step(Event::Completed);
    assert_eq!(Phase::OpeningList, m.phase);
    assert!(
        matches!(&plan[0], Action::Navigate(u) if u == "https://ssl.jobcan.jp/employee/attendance")
    );
    assert!(matches!(&plan[2], Action::ReadUrl));

    let plan = m.step(Event::UrlIs("https://x/error/partial-rate-limit".to_owned()));
    assert_eq!(Phase::RecoveringFromRateLimit, m.phase);
    assert!(matches!(&plan[0], Action::NavigateBack));
    assert!(matches!(&plan[1], Action::SleepMs(500)));

    let plan = m.step(Event::Completed);
    assert_eq!(Phase::Collecting, m.phase);
    // CSV mode skips the title read.
    assert_eq!(2, plan.len());
    assert!(matches!(&plan[0], Action::CollectAttendance(6)));
    assert!(matches!(&plan[1], Action::CollectSummary(3)));

    let plan = m.step(Event::Completed);
    assert_eq!(Phase::Reporting, m.phase);
    assert!(plan.is_empty());

    let plan = m.step(Event::Completed);
    assert_eq!(Phase::Done, m.phase);
    assert!(plan.is_empty());
}

#[test]
fn list_run_with_month_and_title() {
    let cmd = Command::List(
        ListArgs { month: Some(Date { year: 2020, month: 5, day: 1 }), csv: false },
    );
    let mut m = Sequencer::new(config("", ""), cmd, false, Some(0));
    m.step(Event::Begin);
    m.step(Event::Completed);
    m.step(Event::Completed);

    let plan = m.step(Event::UrlIs("https://ssl.jobcan.jp/employee/attendance".to_owned()));
    assert_eq!(Phase::SelectingMonth, m.phase);
    assert_eq!(1, plan.len());
    assert!(
        matches!(&plan[0], Action::Navigate(u) if u == "https://ssl.jobcan.jp/employee/attendance?list_type=normal&search_type=month&year=2020&month=5")
    );

    let plan = m.step(Event::Completed);
    assert_eq!(Phase::Collecting, m.phase);
    assert_eq!(3, plan.len());
    assert!(matches!(&plan[0], Action::ReadCardTitle));

    m.step(Event::Completed);
    let plan = m.step(Event::Completed);
    // A zero sleep means no rest: the run is done at once.
    assert_eq!(Phase::Done, m.phase);
    assert!(plan.is_empty());
}

#[test]
fn push_run_notifies_when_configured() {
    let cmd = Command::PushIt(PushArgs {
        message: "work start".to_owned(),
        slack_message: "".to_owned(),
        slack_channel: "#standup".to_owned(),
    });
    let mut m = Sequencer::new(config("token", "someone"), cmd, false, None);
    m.step(Event::Begin);
    m.step(Event::Completed);

    let plan = m.step(Event::Completed);
    assert_eq!(Phase::PushingClock, m.phase);
    assert!(matches!(&plan[0], Action::Navigate(u) if u == "https://ssl.jobcan.jp/employee"));
    assert!(matches!(&plan[1], Action::Find(Scope::Document, Locator::Id(i)) if i == "notice_value"));
    assert!(matches!(&plan[2], Action::SendKeys(s) if s == "work start"));
    assert!(matches!(&plan[4], Action::Click));

    let plan = m.step(Event::Completed);
    assert_eq!(Phase::AwaitingNotification, m.phase);
    assert!(matches!(&plan[0], Action::SleepSecs(30)));
    // The punch note stands in for an empty notification text.
    assert!(
        matches!(&plan[1], Action::PostNotification(c, t) if c == "#standup" && t == "work start")
    );

    let plan = m.step(Event::ActionFailed);
    assert_eq!(Phase::Failed(RunError::NotificationFailed), m.phase);
    assert!(plan.is_empty());
}

#[test]
fn push_run_without_notification_rests() {
    let cmd = Command::PushIt(PushArgs {
        message: "work start".to_owned(),
        slack_message: "".to_owned(),
        slack_channel: "#standup".to_owned(),
    });
    let mut m = Sequencer::new(config("", ""), cmd, false, Some(7));
    m.step(Event::Begin);
    m.step(Event::Completed);
    m.step(Event::Completed);

    let plan = m.step(Event::Completed);
    assert_eq!(Phase::Resting, m.phase);
    assert_eq!(1, plan.len());
    assert!(matches!(&plan[0], Action::SleepSecs(7)));

    m.step(Event::Completed);
    assert_eq!(Phase::Done, m.phase);
}

#[test]
fn revise_run_holds_on_banner_in_visible_mode() {
    let cmd = Command::ReviseClock(ReviseArgs {
        date: Some(Date { year: 2020, month: 1, day: 31 }),
        time: "0700".to_owned(),
        message: "work start".to_owned(),
    });
    let mut m = Sequencer::new(config("", ""), cmd, true, None);
    m.step(Event::Begin);
    m.step(Event::Completed);

    let plan = m.step(Event::Completed);
    assert_eq!(Phase::RevisingClock, m.phase);
    assert_eq!(9, plan.len());
    assert!(
        matches!(&plan[0], Action::Navigate(u) if u == "https://ssl.jobcan.jp/employee/adit/modify/")
    );
    assert!(
        matches!(&plan[1], Action::Navigate(u) if u == "https://ssl.jobcan.jp/employee/adit/modify?year=2020&month=1&day=31")
    );
    assert!(matches!(&plan[3], Action::SendKeys(s) if s == "0700"));
    assert!(matches!(&plan[8], Action::ProbeErrorBanner));

    let plan = m.step(Event::BannerIs(true));
    assert_eq!(Phase::HoldingAfterBanner, m.phase);
    assert_eq!(1, plan.len());
    assert!(matches!(&plan[0], Action::SleepSecs(90)));

    m.step(Event::Completed);
    assert_eq!(Phase::Failed(RunError::ValidationBannerShown), m.phase);
}

#[test]
fn revise_run_succeeds_without_banner() {
    let cmd = Command::ReviseClock(ReviseArgs {
        date: None,
        time: "0700".to_owned(),
        message: "work start".to_owned(),
    });
    let mut m = Sequencer::new(config("", ""), cmd, false, None);
    m.step(Event::Begin);
    m.step(Event::Completed);

    let plan = m.step(Event::Completed);
    // Without a date there is no deep link navigation.
    assert_eq!(8, plan.len());

    m.step(Event::BannerIs(false));
    assert_eq!(Phase::Done, m.phase);
}

#[test]
fn login_run_leaves_the_session_open() {
    let mut m = Sequencer::new(config("", ""), Command::Login, true, Some(60));
    m.step(Event::Begin);
    m.step(Event::Completed);

    let plan = m.step(Event::Completed);
    assert_eq!(Phase::LeavingSessionOpen, m.phase);
    assert_eq!(1, plan.len());
    assert!(
        matches!(&plan[0], Action::Navigate(u) if u == "https://ssl.jobcan.jp/employee/adit/modify/")
    );

    let plan = m.step(Event::Completed);
    assert_eq!(Phase::Resting, m.phase);
    assert!(matches!(&plan[0], Action::SleepSecs(60)));
}

#[test]
fn banner_does_not_hold_when_a_sleep_is_configured() {
    let cmd = Command::ReviseClock(ReviseArgs {
        date: None,
        time: "0700".to_owned(),
        message: "work start".to_owned(),
    });
    // Visible mode with a post-run sleep: no extra hold is needed.
    let mut m = Sequencer::new(config("", ""), cmd, true, Some(30));
    m.step(Event::Begin);
    m.step(Event::Completed);
    m.step(Event::Completed);

    let plan = m.step(Event::BannerIs(true));
    assert_eq!(Phase::HoldingAfterBanner, m.phase);
    assert!(plan.is_empty());

    m.step(Event::Completed);
    assert_eq!(Phase::Failed(RunError::ValidationBannerShown), m.phase);
}

#[test]
fn unexpected_events_are_fatal() {
    let mut m = Sequencer::new(config("", ""), Command::Login, true, Some(5));
    let plan = m.step(Event::Completed);
    assert_eq!(Phase::Failed(RunError::UnexpectedEvent), m.phase);
    assert!(plan.is_empty());
}

#[test]
fn browser_failures_are_fatal() {
    let mut m = Sequencer::new(
        config("", ""),
        Command::List(ListArgs { month: None, csv: true }),
        false,
        None,
    );
    m.step(Event::Begin);
    let plan = m.step(Event::ActionFailed);
    assert_eq!(Phase::Failed(RunError::RemoteActionFailed), m.phase);
    assert!(plan.is_empty());
    // Failure is absorbing.
    let plan = m.step(Event::Completed);
    assert_eq!(Phase::Failed(RunError::RemoteActionFailed), m.phase);
    assert!(plan.is_empty());
}
