//! Subcommand validation and the browser action sequencer.
//!
//! One run selects a subcommand, validates its arguments before any
//! session is opened, and then drives a remote browser session through
//! an ordered plan of actions. The sequencer is a state machine: the
//! surrounding binary performs each emitted action against the real
//! session and feeds the outcome back as an event. The single-shot
//! recoveries — the rate-limit back-navigation and the hold after a
//! validation banner — are explicit states, not inline conditionals.

use vstd::prelude::*;
use vstd::string::StrSliceExecFns;
use vstd::string::StringExecFns;
use crate::config::Configuration;
use crate::date::Date;
use crate::date::parse_date;
use crate::date::parse_date_seq;
use crate::date::parse_month;
use crate::date::parse_month_seq;
use crate::relay::chosen_notification_text;
use crate::strnum::all_digits;
use crate::strnum::dec_digits;
use crate::strnum::dec_val;
use crate::strnum::parse_digits_range;
use crate::strnum::push_dec;

verus! {

/// Index of the page table that holds the punched per-day rows.
pub const PUNCHED_TABLE_INDEX: usize = 6;

/// Index of the page table that holds the remote-reported totals.
pub const TOTALS_TABLE_INDEX: usize = 3;

/// `needle` occurs contiguously somewhere in `hay`.
pub open spec fn contains_sub(hay: Seq<char>, needle: Seq<char>) -> bool {
    exists|i: int|
        0 <= i <= hay.len() - needle.len() && #[trigger] hay.subrange(i, i + needle.len())
            == needle
}

/// Naive substring search over characters.
pub fn str_contains(hay: &str, needle: &str) -> (r: bool)
    ensures
        r == contains_sub(hay@, needle@),
{
    let n = hay.unicode_len();
    let m = needle.unicode_len();
    if m > n {
        assert(!contains_sub(hay@, needle@));
        return false;
    }
    if m == 0 {
        proof {
            assert(hay@.subrange(0, 0 + needle@.len() as int) =~= needle@);
        }
        return true;
    }
    let mut i: usize = 0;
    while i <= n - m
        invariant
            0 <= i <= n - m + 1,
            1 <= m <= n,
            n == hay@.len(),
            m == needle@.len(),
            forall|ii: int|
                0 <= ii < i ==> #[trigger] hay@.subrange(ii, ii + needle@.len()) != needle@,
        decreases n - m + 1 - i,
    {
        let mut j: usize = 0;
        let mut matched = true;
        while j < m
            invariant
                0 <= j <= m,
                i + m <= n,
                n == hay@.len(),
                m == needle@.len(),
                matched ==> forall|k: int| 0 <= k < j ==> hay@[i + k] == needle@[k],
                !matched ==> hay@.subrange(i as int, i + needle@.len()) != needle@,
            decreases m - j,
        {
            if hay.get_char(i + j) != needle.get_char(j) {
                matched = false;
                proof {
                    assert(hay@.subrange(i as int, i + needle@.len())[j as int] == hay@[i + j]);
                    assert(hay@.subrange(i as int, i + needle@.len()) != needle@);
                }
                j = m;
            } else {
                j = j + 1;
            }
        }
        if matched {
            proof {
                assert(hay@.subrange(i as int, i + needle@.len()) =~= needle@);
            }
            return true;
        }
        proof {
            assert(hay@.subrange(i as int, i + needle@.len()) != needle@);
        }
        i = i + 1;
    }
    assert(!contains_sub(hay@, needle@));
    false
}

/// The deep link to the correction page of one calendar day.
pub open spec fn revise_deeplink_v(d: Date) -> Seq<char> {
    "https://ssl.jobcan.jp/employee/adit/modify?year="@ + dec_digits(d.year as int) + "&month="@
        + dec_digits(d.month as int) + "&day="@ + dec_digits(d.day as int)
}

/// Builds the correction-page deep link for one day.
pub fn revise_deeplink(d: &Date) -> (r: String)
    ensures
        r@ == revise_deeplink_v(*d),
{
    let mut s = String::new();
    s.append("https://ssl.jobcan.jp/employee/adit/modify?year=");
    push_dec(&mut s, d.year);
    s.append("&month=");
    push_dec(&mut s, d.month);
    s.append("&day=");
    push_dec(&mut s, d.day);
    proof {
        assert(Seq::<char>::empty() + "https://ssl.jobcan.jp/employee/adit/modify?year="@
            + dec_digits(d.year as int) + "&month="@ + dec_digits(d.month as int) + "&day="@
            + dec_digits(d.day as int) =~= revise_deeplink_v(*d));
    }
    s
}

/// The deep link to the attendance listing of one month.
pub open spec fn month_deeplink_v(d: Date) -> Seq<char> {
    "https://ssl.jobcan.jp/employee/attendance?list_type=normal&search_type=month&year="@
        + dec_digits(d.year as int) + "&month="@ + dec_digits(d.month as int)
}

/// Builds the attendance-listing deep link for one month.
pub fn month_deeplink(d: &Date) -> (r: String)
    ensures
        r@ == month_deeplink_v(*d),
{
    let mut s = String::new();
    s.append("https://ssl.jobcan.jp/employee/attendance?list_type=normal&search_type=month&year=");
    push_dec(&mut s, d.year);
    s.append("&month=");
    push_dec(&mut s, d.month);
    proof {
        assert(Seq::<char>::empty()
            + "https://ssl.jobcan.jp/employee/attendance?list_type=normal&search_type=month&year="@
            + dec_digits(d.year as int) + "&month="@ + dec_digits(d.month as int)
            =~= month_deeplink_v(*d));
    }
    s
}

/// Arguments of the punch subcommand.
pub struct PushArgs {
    pub message: String,
    pub slack_message: String,
    pub slack_channel: String,
}

/// Raw arguments of the correction subcommand, dates still text.
pub struct RawReviseArgs {
    pub date: Option<String>,
    pub time: String,
    pub message: String,
}

/// Validated arguments of the correction subcommand.
pub struct ReviseArgs {
    pub date: Option<Date>,
    pub time: String,
    pub message: String,
}

/// Raw arguments of the listing subcommand, the month still text.
pub struct RawListArgs {
    pub month: Option<String>,
    pub csv: bool,
}

/// Validated arguments of the listing subcommand.
pub struct ListArgs {
    pub month: Option<Date>,
    pub csv: bool,
}

/// A subcommand as it arrives from the command line.
pub enum RawCommand {
    PushIt(PushArgs),
    ReviseClock(RawReviseArgs),
    Login,
    List(RawListArgs),
}

/// A subcommand that passed pre-flight validation.
pub enum Command {
    PushIt(PushArgs),
    ReviseClock(ReviseArgs),
    Login,
    List(ListArgs),
}

/// Why pre-flight validation rejected a run.
#[derive(Clone, Copy, Debug, PartialEq, Eq, Structural)]
pub enum ValidationError {
    /// A correction date that is not a valid `YYYY-MM-DD` day.
    InvalidDate,
    /// A correction time that is not exactly four characters long.
    TimeWrongLength,
    /// A correction time with a character that is not a digit.
    TimeNotNumeric,
    /// A correction time above the remote system's `2600` bound.
    TimeOutOfRange,
    /// A listing month that is not a valid `YYYYMM` month.
    InvalidMonth,
    /// The login subcommand without visible mode and a positive sleep.
    LoginNeedsVisibleSleep,
}

/// A valid correction time: exactly four digits, at most `2600` — the
/// remote convention for post-midnight times up to 2 a.m.
pub open spec fn revise_time_ok(s: Seq<char>) -> bool {
    s.len() == 4 && all_digits(s) && dec_val(s) <= 2600
}

/// Which complaint a correction time draws, if any; length is checked
/// before digits, digits before the bound.
pub open spec fn revise_time_error(s: Seq<char>) -> Option<ValidationError> {
    if s.len() != 4 {
        Some(ValidationError::TimeWrongLength)
    } else if !all_digits(s) {
        Some(ValidationError::TimeNotNumeric)
    } else if dec_val(s) > 2600 {
        Some(ValidationError::TimeOutOfRange)
    } else {
        None
    }
}

/// What pre-flight validation makes of a raw subcommand.
pub open spec fn validated(raw: RawCommand, visible: bool, sleep_secs: Option<u64>) -> Result<
    Command,
    ValidationError,
> {
    match raw {
        RawCommand::PushIt(a) => Ok(Command::PushIt(a)),
        RawCommand::ReviseClock(a) => {
            let date = match a.date {
                Some(ds) => match parse_date_seq(ds@) {
                    Some(d) => Ok(Some(d)),
                    None => Err(ValidationError::InvalidDate),
                },
                None => Ok(None),
            };
            match date {
                Ok(d) => match revise_time_error(a.time@) {
                    Some(e) => Err(e),
                    None => Ok(
                        Command::ReviseClock(
                            ReviseArgs { date: d, time: a.time, message: a.message },
                        ),
                    ),
                },
                Err(e) => Err(e),
            }
        },
        RawCommand::Login => {
            if visible && (sleep_secs matches Some(s) && s > 0) {
                Ok(Command::Login)
            } else {
                Err(ValidationError::LoginNeedsVisibleSleep)
            }
        },
        RawCommand::List(a) => match a.month {
            Some(ms) => match parse_month_seq(ms@) {
                Some(d) => Ok(Command::List(ListArgs { month: Some(d), csv: a.csv })),
                None => Err(ValidationError::InvalidMonth),
            },
            None => Ok(Command::List(ListArgs { month: None, csv: a.csv })),
        },
    }
}

/// Pre-flight validation, before any browser session is opened: the
/// correction date must be a calendar day, the correction time four
/// digits up to `2600`, the listing month a calendar month, and the
/// login subcommand is only for a visible browser that is kept open.
pub fn validate_command(raw: RawCommand, visible: bool, sleep_secs: Option<u64>) -> (r: Result<
    Command,
    ValidationError,
>)
    ensures
        r == validated(raw, visible, sleep_secs),
{
    match raw {
        RawCommand::PushIt(a) => Ok(Command::PushIt(a)),
        RawCommand::ReviseClock(a) => {
            let date = match &a.date {
                Some(ds) => match parse_date(ds.as_str()) {
                    Some(d) => Some(d),
                    None => {
                        return Err(ValidationError::InvalidDate);
                    },
                },
                None => None,
            };
            let n = a.time.as_str().unicode_len();
            if n != 4 {
                return Err(ValidationError::TimeWrongLength);
            }
            let v = match parse_digits_range(a.time.as_str(), 0, 4) {
                Some(v) => v,
                None => {
                    proof {
                        crate::strnum::lemma_small_digit_range(a.time@, 0, 4);
                        assert(a.time@.subrange(0, 4) =~= a.time@);
                    }
                    return Err(ValidationError::TimeNotNumeric);
                },
            };
            proof {
                assert(a.time@.subrange(0, 4) =~= a.time@);
            }
            if v > 2600 {
                return Err(ValidationError::TimeOutOfRange);
            }
            Ok(Command::ReviseClock(ReviseArgs { date, time: a.time, message: a.message }))
        },
        RawCommand::Login => {
            let sleep_ok = match sleep_secs {
                Some(s) => s > 0,
                None => false,
            };
            if visible && sleep_ok {
                Ok(Command::Login)
            } else {
                Err(ValidationError::LoginNeedsVisibleSleep)
            }
        },
        RawCommand::List(a) => {
            match &a.month {
                Some(ms) => match parse_month(ms.as_str()) {
                    Some(d) => Ok(Command::List(ListArgs { month: Some(d), csv: a.csv })),
                    None => Err(ValidationError::InvalidMonth),
                },
                None => Ok(Command::List(ListArgs { month: None, csv: a.csv })),
            }
        },
    }
}

/// How an element is looked up on the page.
pub enum Locator {
    Id(String),
    ClassName(String),
    Css(String),
}

/// The abstract form of a locator.
pub enum LocatorV {
    Id(Seq<char>),
    ClassName(Seq<char>),
    Css(Seq<char>),
}

impl View for Locator {
    type V = LocatorV;

    open spec fn view(&self) -> LocatorV {
        match self {
            Locator::Id(s) => LocatorV::Id(s@),
            Locator::ClassName(s) => LocatorV::ClassName(s@),
            Locator::Css(s) => LocatorV::Css(s@),
        }
    }
}

/// Where a find starts: the whole document, or the remembered anchor
/// element (the login form).
#[derive(Clone, Copy, Debug, PartialEq, Eq, Structural)]
pub enum Scope {
    Document,
    Anchor,
}

/// One browser action. The binary performs it against the live session:
/// `SetAnchor` finds an element from the document and remembers it,
/// `Find` makes an element current, `SendKeys` and `Click` act on the
/// current element. `ReadUrl` answers with `Event::UrlIs`,
/// `ProbeErrorBanner` with `Event::BannerIs` (an absent banner is
/// `false`, not a failure); the collect actions gather cell texts for
/// the aggregator and the title/summary reads tolerate absence. Any
/// other action answers `Event::Completed` on success and
/// `Event::ActionFailed` on any error.
pub enum Action {
    Navigate(String),
    SetAnchor(Locator),
    Find(Scope, Locator),
    SendKeys(String),
    Click,
    SleepMs(u64),
    SleepSecs(u64),
    ReadUrl,
    NavigateBack,
    ReadCardTitle,
    ProbeErrorBanner,
    CollectAttendance(usize),
    CollectSummary(usize),
    PostNotification(String, String),
}

/// The abstract form of an action.
pub enum ActionV {
    Navigate(Seq<char>),
    SetAnchor(LocatorV),
    Find(Scope, LocatorV),
    SendKeys(Seq<char>),
    Click,
    SleepMs(u64),
    SleepSecs(u64),
    ReadUrl,
    NavigateBack,
    ReadCardTitle,
    ProbeErrorBanner,
    CollectAttendance(usize),
    CollectSummary(usize),
    PostNotification(Seq<char>, Seq<char>),
}

impl View for Action {
    type V = ActionV;

    open spec fn view(&self) -> ActionV {
        match self {
            Action::Navigate(s) => ActionV::Navigate(s@),
            Action::SetAnchor(l) => ActionV::SetAnchor(l@),
            Action::Find(sc, l) => ActionV::Find(*sc, l@),
            Action::SendKeys(s) => ActionV::SendKeys(s@),
            Action::Click => ActionV::Click,
            Action::SleepMs(ms) => ActionV::SleepMs(*ms),
            Action::SleepSecs(s) => ActionV::SleepSecs(*s),
            Action::ReadUrl => ActionV::ReadUrl,
            Action::NavigateBack => ActionV::NavigateBack,
            Action::ReadCardTitle => ActionV::ReadCardTitle,
            Action::ProbeErrorBanner => ActionV::ProbeErrorBanner,
            Action::CollectAttendance(i) => ActionV::CollectAttendance(*i),
            Action::CollectSummary(i) => ActionV::CollectSummary(*i),
            Action::PostNotification(c, t) => ActionV::PostNotification(c@, t@),
        }
    }
}

/// The abstract contents of a plan.
pub open spec fn plan_views(p: Seq<Action>) -> Seq<ActionV> {
    p.map_values(|a: Action| a@)
}

/// What the binary reports back after performing a plan.
pub enum Event {
    /// Nothing performed yet; starts the run.
    Begin,
    /// Every action of the plan succeeded.
    Completed,
    /// Some action failed (element missing, navigation error).
    ActionFailed,
    /// Answer to `ReadUrl`: the current URL.
    UrlIs(String),
    /// Answer to `ProbeErrorBanner`: whether the banner is shown.
    BannerIs(bool),
}

/// Why a run ended in failure.
#[derive(Clone, Copy, Debug, PartialEq, Eq, Structural)]
pub enum RunError {
    /// A browser action failed; fatal, nothing is retried.
    RemoteActionFailed,
    /// The notification relay failed after a successful punch.
    NotificationFailed,
    /// The correction page showed its validation banner.
    ValidationBannerShown,
    /// The binary answered with an event the state does not expect.
    UnexpectedEvent,
}

/// The states of one run.
#[derive(Clone, Copy, Debug, PartialEq, Eq, Structural)]
pub enum Phase {
    /// Created; waiting for `Begin`.
    Ready,
    /// Signing in on the remote form.
    LoggingIn,
    /// Establishing the session cookie over the internal bridge.
    BridgingSession,
    /// Punching the clock.
    PushingClock,
    /// Waiting out the post-punch delay, then notifying.
    AwaitingNotification,
    /// Filling and submitting the correction form, then probing for the
    /// validation banner.
    RevisingClock,
    /// Banner found: holding the browser open for inspection before the
    /// run fails.
    HoldingAfterBanner,
    /// The login subcommand: the session is left open on purpose.
    LeavingSessionOpen,
    /// Opening the attendance listing, then reading the current URL.
    OpeningList,
    /// Rate-limit redirect detected: single-shot back-navigation.
    RecoveringFromRateLimit,
    /// Navigating to the requested month's view.
    SelectingMonth,
    /// Gathering the attendance and summary tables.
    Collecting,
    /// The binary renders the aggregated report.
    Reporting,
    /// Holding before exit, as requested.
    Resting,
    Done,
    Failed(RunError),
}

/// The marker path of the rate-limit error page.
pub open spec fn rate_limit_marker() -> Seq<char> {
    "error/partial-rate-limit"@
}

/// The fixed sign-in sequence: open the sign-in page, fill the form,
/// submit, and wait a fixed settle interval for the client-side
/// redirect.
pub open spec fn login_plan_v(c: Configuration) -> Seq<ActionV> {
    seq![
        ActionV::Navigate("https://id.jobcan.jp/users/sign_in"@),
        ActionV::SetAnchor(LocatorV::ClassName("form"@)),
        ActionV::Find(Scope::Anchor, LocatorV::Id("user_email"@)),
        ActionV::SendKeys(c.login@),
        ActionV::Find(Scope::Anchor, LocatorV::Id("user_password"@)),
        ActionV::SendKeys(c.password@),
        ActionV::Find(Scope::Anchor, LocatorV::ClassName("form__login"@)),
        ActionV::Click,
        ActionV::SleepMs(1500),
    ]
}

/// The session bridge: the employee area is only reachable after this
/// internal sign-on URL, and the wait keeps the rate limiter quiet.
pub open spec fn bridge_plan_v() -> Seq<ActionV> {
    seq![
        ActionV::Navigate("https://ssl.jobcan.jp/jbcoauth/login"@),
        ActionV::SleepMs(3000),
    ]
}

/// The punch: open the dashboard, fill the note, press the button.
pub open spec fn push_plan_v(a: PushArgs) -> Seq<ActionV> {
    seq![
        ActionV::Navigate("https://ssl.jobcan.jp/employee"@),
        ActionV::Find(Scope::Document, LocatorV::Id("notice_value"@)),
        ActionV::SendKeys(a.message@),
        ActionV::Find(Scope::Document, LocatorV::Id("adit-button-push"@)),
        ActionV::Click,
    ]
}

/// The notification: wait out the fixed post-punch delay, then post the
/// chosen text to the configured channel.
pub open spec fn notify_plan_v(c: Command) -> Seq<ActionV> {
    match c {
        Command::PushIt(a) => seq![
            ActionV::SleepSecs(30),
            ActionV::PostNotification(
                a.slack_channel@,
                chosen_notification_text(a.message@, a.slack_message@),
            ),
        ],
        _ => Seq::empty(),
    }
}

/// The correction: open the correction page (deep-linked to the chosen
/// day if one was given), fill time and note, submit, then probe for
/// the validation banner.
pub open spec fn revise_plan_v(a: ReviseArgs) -> Seq<ActionV> {
    seq![ActionV::Navigate("https://ssl.jobcan.jp/employee/adit/modify/"@)] + (match a.date {
        Some(d) => seq![ActionV::Navigate(revise_deeplink_v(d))],
        None => Seq::empty(),
    }) + seq![
        ActionV::Find(Scope::Document, LocatorV::Id("ter_time"@)),
        ActionV::SendKeys(a.time@),
        ActionV::Find(Scope::Document, LocatorV::Css("textarea[name='notice']"@)),
        ActionV::SendKeys(a.message@),
        ActionV::Find(Scope::Document, LocatorV::Id("insert_button"@)),
        ActionV::Click,
        ActionV::ProbeErrorBanner,
    ]
}

/// The hold after a banner: only a visible browser without a post-run
/// sleep is held open, so a human can inspect the page.
pub open spec fn hold_plan_v(visible: bool, sleep_secs: Option<u64>) -> Seq<ActionV> {
    if visible && sleep_secs is None {
        seq![ActionV::SleepSecs(90)]
    } else {
        Seq::empty()
    }
}

/// The login subcommand: navigate to the correction page and stop.
pub open spec fn leave_plan_v() -> Seq<ActionV> {
    seq![ActionV::Navigate("https://ssl.jobcan.jp/employee/adit/modify/"@)]
}

/// Opening the listing: navigate, settle, then read the URL to detect
/// the rate-limit redirect.
pub open spec fn list_open_plan_v() -> Seq<ActionV> {
    seq![
        ActionV::Navigate("https://ssl.jobcan.jp/employee/attendance"@),
        ActionV::SleepMs(500),
        ActionV::ReadUrl,
    ]
}

/// The single-shot rate-limit recovery: one step back, one settle wait.
pub open spec fn recover_plan_v() -> Seq<ActionV> {
    seq![ActionV::NavigateBack, ActionV::SleepMs(500)]
}

/// Gathering the page data: the listing title (human output only), the
/// punched-data table, and the remote-totals table.
pub open spec fn collect_plan_v(csv: bool) -> Seq<ActionV> {
    (if csv {
        Seq::empty()
    } else {
        seq![ActionV::ReadCardTitle]
    }) + seq![
        ActionV::CollectAttendance(PUNCHED_TABLE_INDEX),
        ActionV::CollectSummary(TOTALS_TABLE_INDEX),
    ]
}

/// After the last action of a subcommand: hold before exit if a
/// positive sleep was requested, else the run is done.
pub open spec fn rest_step(sleep_secs: Option<u64>) -> (Phase, Seq<ActionV>) {
    match sleep_secs {
        Some(s) => if s > 0 {
            (Phase::Resting, seq![ActionV::SleepSecs(s)])
        } else {
            (Phase::Done, Seq::empty())
        },
        None => (Phase::Done, Seq::empty()),
    }
}

/// Which phase and plan a subcommand enters once the session stands.
pub open spec fn sub_step(c: Command) -> (Phase, Seq<ActionV>) {
    match c {
        Command::PushIt(a) => (Phase::PushingClock, push_plan_v(a)),
        Command::ReviseClock(a) => (Phase::RevisingClock, revise_plan_v(a)),
        Command::Login => (Phase::LeavingSessionOpen, leave_plan_v()),
        Command::List(_) => (Phase::OpeningList, list_open_plan_v()),
    }
}

/// After the rate-limit check: deep-link to the requested month, or go
/// straight to collecting.
pub open spec fn list_resume_step(c: Command) -> (Phase, Seq<ActionV>) {
    match c {
        Command::List(a) => match a.month {
            Some(d) => (Phase::SelectingMonth, seq![ActionV::Navigate(month_deeplink_v(d))]),
            None => (Phase::Collecting, collect_plan_v(a.csv)),
        },
        _ => (Phase::Failed(RunError::UnexpectedEvent), Seq::empty()),
    }
}

/// After the month navigation: collect.
pub open spec fn collect_step(c: Command) -> (Phase, Seq<ActionV>) {
    match c {
        Command::List(a) => (Phase::Collecting, collect_plan_v(a.csv)),
        _ => (Phase::Failed(RunError::UnexpectedEvent), Seq::empty()),
    }
}

/// A failed browser action: terminal.
pub open spec fn fail_remote() -> (Phase, Seq<ActionV>) {
    (Phase::Failed(RunError::RemoteActionFailed), Seq::empty())
}

/// An event the state does not expect: terminal.
pub open spec fn fail_unexpected() -> (Phase, Seq<ActionV>) {
    (Phase::Failed(RunError::UnexpectedEvent), Seq::empty())
}

/// The transition relation of one run: from the current state and the
/// reported event to the next state and the plan to perform.
pub open spec fn step_spec(m: Sequencer, ev: Event) -> (Phase, Seq<ActionV>) {
    match m.phase {
        Phase::Ready => match ev {
            Event::Begin => (Phase::LoggingIn, login_plan_v(m.config)),
            _ => fail_unexpected(),
        },
        Phase::LoggingIn => match ev {
            Event::Completed => (Phase::BridgingSession, bridge_plan_v()),
            Event::ActionFailed => fail_remote(),
            _ => fail_unexpected(),
        },
        Phase::BridgingSession => match ev {
            Event::Completed => sub_step(m.command),
            Event::ActionFailed => fail_remote(),
            _ => fail_unexpected(),
        },
        Phase::PushingClock => match ev {
            Event::Completed => if m.config.spec_can_post() {
                (Phase::AwaitingNotification, notify_plan_v(m.command))
            } else {
                rest_step(m.sleep_secs)
            },
            Event::ActionFailed => fail_remote(),
            _ => fail_unexpected(),
        },
        Phase::AwaitingNotification => match ev {
            Event::Completed => rest_step(m.sleep_secs),
            Event::ActionFailed => (Phase::Failed(RunError::NotificationFailed), Seq::empty()),
            _ => fail_unexpected(),
        },
        Phase::RevisingClock => match ev {
            Event::BannerIs(shown) => if shown {
                (Phase::HoldingAfterBanner, hold_plan_v(m.visible, m.sleep_secs))
            } else {
                rest_step(m.sleep_secs)
            },
            Event::ActionFailed => fail_remote(),
            _ => fail_unexpected(),
        },
        Phase::HoldingAfterBanner => match ev {
            Event::Completed => (Phase::Failed(RunError::ValidationBannerShown), Seq::empty()),
            Event::ActionFailed => fail_remote(),
            _ => fail_unexpected(),
        },
        Phase::LeavingSessionOpen => match ev {
            Event::Completed => rest_step(m.sleep_secs),
            Event::ActionFailed => fail_remote(),
            _ => fail_unexpected(),
        },
        Phase::OpeningList => match ev {
            Event::UrlIs(u) => if contains_sub(u@, rate_limit_marker()) {
                (Phase::RecoveringFromRateLimit, recover_plan_v())
            } else {
                list_resume_step(m.command)
            },
            Event::ActionFailed => fail_remote(),
            _ => fail_unexpected(),
        },
        Phase::RecoveringFromRateLimit => match ev {
            Event::Completed => list_resume_step(m.command),
            Event::ActionFailed => fail_remote(),
            _ => fail_unexpected(),
        },
        Phase::SelectingMonth => match ev {
            Event::Completed => collect_step(m.command),
            Event::ActionFailed => fail_remote(),
            _ => fail_unexpected(),
        },
        Phase::Collecting => match ev {
            Event::Completed => (Phase::Reporting, Seq::empty()),
            Event::ActionFailed => fail_remote(),
            _ => fail_unexpected(),
        },
        Phase::Reporting => match ev {
            Event::Completed => rest_step(m.sleep_secs),
            Event::ActionFailed => fail_remote(),
            _ => fail_unexpected(),
        },
        Phase::Resting => match ev {
            Event::Completed => (Phase::Done, Seq::empty()),
            Event::ActionFailed => fail_remote(),
            _ => fail_unexpected(),
        },
        Phase::Done => (Phase::Done, Seq::empty()),
        Phase::Failed(e) => (Phase::Failed(e), Seq::empty()),
    }
}

/// The action sequencer of one run.
pub struct Sequencer {
    pub config: Configuration,
    pub command: Command,
    pub visible: bool,
    pub sleep_secs: Option<u64>,
    pub phase: Phase,
}

/// An empty plan.
fn empty_plan() -> (r: Vec<Action>)
    ensures
        plan_views(r@) == Seq::<ActionV>::empty(),
{
    let v: Vec<Action> = Vec::new();
    proof {
        assert(plan_views(v@) =~= Seq::<ActionV>::empty());
    }
    v
}

/// Builds the fixed sign-in sequence.
fn login_plan(c: &Configuration) -> (r: Vec<Action>)
    ensures
        plan_views(r@) == login_plan_v(*c),
{
    let mut p: Vec<Action> = Vec::new();
    p.push(Action::Navigate("https://id.jobcan.jp/users/sign_in".to_owned()));
    p.push(Action::SetAnchor(Locator::ClassName("form".to_owned())));
    p.push(Action::Find(Scope::Anchor, Locator::Id("user_email".to_owned())));
    p.push(Action::SendKeys(c.login.clone()));
    p.push(Action::Find(Scope::Anchor, Locator::Id("user_password".to_owned())));
    p.push(Action::SendKeys(c.password.clone()));
    p.push(Action::Find(Scope::Anchor, Locator::ClassName("form__login".to_owned())));
    p.push(Action::Click);
    p.push(Action::SleepMs(1500));
    proof {
        assert(plan_views(p@) =~= login_plan_v(*c));
    }
    p
}

/// Builds the session-bridge sequence.
fn bridge_plan() -> (r: Vec<Action>)
    ensures
        plan_views(r@) == bridge_plan_v(),
{
    let mut p: Vec<Action> = Vec::new();
    p.push(Action::Navigate("https://ssl.jobcan.jp/jbcoauth/login".to_owned()));
    p.push(Action::SleepMs(3000));
    proof {
        assert(plan_views(p@) =~= bridge_plan_v());
    }
    p
}

/// Builds the punch sequence.
fn push_plan(a: &PushArgs) -> (r: Vec<Action>)
    ensures
        plan_views(r@) == push_plan_v(*a),
{
    let mut p: Vec<Action> = Vec::new();
    p.push(Action::Navigate("https://ssl.jobcan.jp/employee".to_owned()));
    p.push(Action::Find(Scope::Document, Locator::Id("notice_value".to_owned())));
    p.push(Action::SendKeys(a.message.clone()));
    p.push(Action::Find(Scope::Document, Locator::Id("adit-button-push".to_owned())));
    p.push(Action::Click);
    proof {
        assert(plan_views(p@) =~= push_plan_v(*a));
    }
    p
}

/// Builds the notification sequence.
fn notify_plan(c: &Command) -> (r: Vec<Action>)
    ensures
        plan_views(r@) == notify_plan_v(*c),
{
    match c {
        Command::PushIt(a) => {
            let mut p: Vec<Action> = Vec::new();
            p.push(Action::SleepSecs(30));
            let text = crate::relay::choose_notification_text(
                a.message.as_str(),
                a.slack_message.as_str(),
            );
            p.push(Action::PostNotification(a.slack_channel.clone(), text));
            proof {
                assert(plan_views(p@) =~= notify_plan_v(*c));
            }
            p
        },
        _ => empty_plan(),
    }
}

/// Builds the correction sequence.
fn revise_plan(a: &ReviseArgs) -> (r: Vec<Action>)
    ensures
        plan_views(r@) == revise_plan_v(*a),
{
    let mut p: Vec<Action> = Vec::new();
    p.push(Action::Navigate("https://ssl.jobcan.jp/employee/adit/modify/".to_owned()));
    match &a.date {
        Some(d) => {
            p.push(Action::Navigate(revise_deeplink(d)));
        },
        None => {},
    }
    p.push(Action::Find(Scope::Document, Locator::Id("ter_time".to_owned())));
    p.push(Action::SendKeys(a.time.clone()));
    p.push(Action::Find(Scope::Document, Locator::Css("textarea[name='notice']".to_owned())));
    p.push(Action::SendKeys(a.message.clone()));
    p.push(Action::Find(Scope::Document, Locator::Id("insert_button".to_owned())));
    p.push(Action::Click);
    p.push(Action::ProbeErrorBanner);
    proof {
        assert(plan_views(p@) =~= revise_plan_v(*a));
    }
    p
}

/// Builds the hold after a banner.
fn hold_plan(visible: bool, sleep_secs: Option<u64>) -> (r: Vec<Action>)
    ensures
        plan_views(r@) == hold_plan_v(visible, sleep_secs),
{
    if visible && sleep_secs.is_none() {
        let mut p: Vec<Action> = Vec::new();
        p.push(Action::SleepSecs(90));
        proof {
            assert(plan_views(p@) =~= hold_plan_v(visible, sleep_secs));
        }
        p
    } else {
        empty_plan()
    }
}

/// Builds the login-subcommand sequence.
fn leave_plan() -> (r: Vec<Action>)
    ensures
        plan_views(r@) == leave_plan_v(),
{
    let mut p: Vec<Action> = Vec::new();
    p.push(Action::Navigate("https://ssl.jobcan.jp/employee/adit/modify/".to_owned()));
    proof {
        assert(plan_views(p@) =~= leave_plan_v());
    }
    p
}

/// Builds the listing-opening sequence.
fn list_open_plan() -> (r: Vec<Action>)
    ensures
        plan_views(r@) == list_open_plan_v(),
{
    let mut p: Vec<Action> = Vec::new();
    p.push(Action::Navigate("https://ssl.jobcan.jp/employee/attendance".to_owned()));
    p.push(Action::SleepMs(500));
    p.push(Action::ReadUrl);
    proof {
        assert(plan_views(p@) =~= list_open_plan_v());
    }
    p
}

/// Builds the rate-limit recovery sequence.
fn recover_plan() -> (r: Vec<Action>)
    ensures
        plan_views(r@) == recover_plan_v(),
{
    let mut p: Vec<Action> = Vec::new();
    p.push(Action::NavigateBack);
    p.push(Action::SleepMs(500));
    proof {
        assert(plan_views(p@) =~= recover_plan_v());
    }
    p
}

/// Builds the collect sequence.
fn collect_plan(csv: bool) -> (r: Vec<Action>)
    ensures
        plan_views(r@) == collect_plan_v(csv),
{
    let mut p: Vec<Action> = Vec::new();
    if !csv {
        p.push(Action::ReadCardTitle);
    }
    p.push(Action::CollectAttendance(PUNCHED_TABLE_INDEX));
    p.push(Action::CollectSummary(TOTALS_TABLE_INDEX));
    proof {
        assert(plan_views(p@) =~= collect_plan_v(csv));
    }
    p
}

/// Builds the end-of-run step.
fn rest_plan(sleep_secs: Option<u64>) -> (r: (Phase, Vec<Action>))
    ensures
        r.0 == rest_step(sleep_secs).0,
        plan_views(r.1@) == rest_step(sleep_secs).1,
{
    match sleep_secs {
        Some(s) => {
            if s > 0 {
                let mut p: Vec<Action> = Vec::new();
                p.push(Action::SleepSecs(s));
                proof {
                    assert(plan_views(p@) =~= rest_step(sleep_secs).1);
                }
                (Phase::Resting, p)
            } else {
                (Phase::Done, empty_plan())
            }
        },
        None => (Phase::Done, empty_plan()),
    }
}

/// Builds the subcommand entry step.
fn sub_plan(c: &Command) -> (r: (Phase, Vec<Action>))
    ensures
        r.0 == sub_step(*c).0,
        plan_views(r.1@) == sub_step(*c).1,
{
    match c {
        Command::PushIt(a) => (Phase::PushingClock, push_plan(a)),
        Command::ReviseClock(a) => (Phase::RevisingClock, revise_plan(a)),
        Command::Login => (Phase::LeavingSessionOpen, leave_plan()),
        Command::List(_) => (Phase::OpeningList, list_open_plan()),
    }
}

/// Builds the step after the rate-limit check.
fn list_resume_plan(c: &Command) -> (r: (Phase, Vec<Action>))
    ensures
        r.0 == list_resume_step(*c).0,
        plan_views(r.1@) == list_resume_step(*c).1,
{
    match c {
        Command::List(a) => match &a.month {
            Some(d) => {
                let mut p: Vec<Action> = Vec::new();
                p.push(Action::Navigate(month_deeplink(d)));
                proof {
                    assert(plan_views(p@) =~= list_resume_step(*c).1);
                }
                (Phase::SelectingMonth, p)
            },
            None => (Phase::Collecting, collect_plan(a.csv)),
        },
        _ => (Phase::Failed(RunError::UnexpectedEvent), empty_plan()),
    }
}

/// Builds the step after the month navigation.
fn collect_plan_for(c: &Command) -> (r: (Phase, Vec<Action>))
    ensures
        r.0 == collect_step(*c).0,
        plan_views(r.1@) == collect_step(*c).1,
{
    match c {
        Command::List(a) => (Phase::Collecting, collect_plan(a.csv)),
        _ => (Phase::Failed(RunError::UnexpectedEvent), empty_plan()),
    }
}

impl Sequencer {
    /// A fresh run, waiting for `Event::Begin`.
    pub fn new(
        config: Configuration,
        command: Command,
        visible: bool,
        sleep_secs: Option<u64>,
    ) -> (m: Sequencer)
        ensures
            m.config == config,
            m.command == command,
            m.visible == visible,
            m.sleep_secs == sleep_secs,
            m.phase == Phase::Ready,
    {
        Sequencer { config, command, visible, sleep_secs, phase: Phase::Ready }
    }

    /// One transition: consumes the reported event, moves to the next
    /// state, and returns the plan to perform there. `Done` and
    /// `Failed` are absorbing with an empty plan.
    pub fn step(&mut self, ev: Event) -> (r: Vec<Action>)
        ensures
            final(self).phase == step_spec(*old(self), ev).0,
            plan_views(r@) == step_spec(*old(self), ev).1,
            final(self).config == old(self).config,
            final(self).command == old(self).command,
            final(self).visible == old(self).visible,
            final(self).sleep_secs == old(self).sleep_secs,
    {
        let ph = self.phase;
        match ph {
            Phase::Ready => match ev {
                Event::Begin => {
                    self.phase = Phase::LoggingIn;
                    login_plan(&self.config)
                },
                _ => {
                    self.phase = Phase::Failed(RunError::UnexpectedEvent);
                    empty_plan()
                },
            },
            Phase::LoggingIn => match ev {
                Event::Completed => {
                    self.phase = Phase::BridgingSession;
                    bridge_plan()
                },
                Event::ActionFailed => {
                    self.phase = Phase::Failed(RunError::RemoteActionFailed);
                    empty_plan()
                },
                _ => {
                    self.phase = Phase::Failed(RunError::UnexpectedEvent);
                    empty_plan()
                },
            },
            Phase::BridgingSession => match ev {
                Event::Completed => {
                    let (next, plan) = sub_plan(&self.command);
                    self.phase = next;
                    plan
                },
                Event::ActionFailed => {
                    self.phase = Phase::Failed(RunError::RemoteActionFailed);
                    empty_plan()
                },
                _ => {
                    self.phase = Phase::Failed(RunError::UnexpectedEvent);
                    empty_plan()
                },
            },
            Phase::PushingClock => match ev {
                Event::Completed => {
                    if self.config.can_post_to_slack() {
                        self.phase = Phase::AwaitingNotification;
                        notify_plan(&self.command)
                    } else {
                        let (next, plan) = rest_plan(self.sleep_secs);
                        self.phase = next;
                        plan
                    }
                },
                Event::ActionFailed => {
                    self.phase = Phase::Failed(RunError::RemoteActionFailed);
                    empty_plan()
                },
                _ => {
                    self.phase = Phase::Failed(RunError::UnexpectedEvent);
                    empty_plan()
                },
            },
            Phase::AwaitingNotification => match ev {
                Event::Completed => {
                    let (next, plan) = rest_plan(self.sleep_secs);
                    self.phase = next;
                    plan
                },
                Event::ActionFailed => {
                    self.phase = Phase::Failed(RunError::NotificationFailed);
                    empty_plan()
                },
                _ => {
                    self.phase = Phase::Failed(RunError::UnexpectedEvent);
                    empty_plan()
                },
            },
            Phase::RevisingClock => match ev {
                Event::BannerIs(shown) => {
                    if shown {
                        self.phase = Phase::HoldingAfterBanner;
                        hold_plan(self.visible, self.sleep_secs)
                    } else {
                        let (next, plan) = rest_plan(self.sleep_secs);
                        self.phase = next;
                        plan
                    }
                },
                Event::ActionFailed => {
                    self.phase = Phase::Failed(RunError::RemoteActionFailed);
                    empty_plan()
                },
                _ => {
                    self.phase = Phase::Failed(RunError::UnexpectedEvent);
                    empty_plan()
                },
            },
            Phase::HoldingAfterBanner => match ev {
                Event::Completed => {
                    self.phase = Phase::Failed(RunError::ValidationBannerShown);
                    empty_plan()
                },
                Event::ActionFailed => {
                    self.phase = Phase::Failed(RunError::RemoteActionFailed);
                    empty_plan()
                },
                _ => {
                    self.phase = Phase::Failed(RunError::UnexpectedEvent);
                    empty_plan()
                },
            },
            Phase::LeavingSessionOpen => match ev {
                Event::Completed => {
                    let (next, plan) = rest_plan(self.sleep_secs);
                    self.phase = next;
                    plan
                },
                Event::ActionFailed => {
                    self.phase = Phase::Failed(RunError::RemoteActionFailed);
                    empty_plan()
                },
                _ => {
                    self.phase = Phase::Failed(RunError::UnexpectedEvent);
                    empty_plan()
                },
            },
            Phase::OpeningList => match ev {
                Event::UrlIs(u) => {
                    if str_contains(u.as_str(), "error/partial-rate-limit") {
                        self.phase = Phase::RecoveringFromRateLimit;
                        recover_plan()
                    } else {
                        let (next, plan) = list_resume_plan(&self.command);
                        self.phase = next;
                        plan
                    }
                },
                Event::ActionFailed => {
                    self.phase = Phase::Failed(RunError::RemoteActionFailed);
                    empty_plan()
                },
                _ => {
                    self.phase = Phase::Failed(RunError::UnexpectedEvent);
                    empty_plan()
                },
            },
            Phase::RecoveringFromRateLimit => match ev {
                Event::Completed => {
                    let (next, plan) = list_resume_plan(&self.command);
                    self.phase = next;
                    plan
                },
                Event::ActionFailed => {
                    self.phase = Phase::Failed(RunError::RemoteActionFailed);
                    empty_plan()
                },
                _ => {
                    self.phase = Phase::Failed(RunError::UnexpectedEvent);
                    empty_plan()
                },
            },
            Phase::SelectingMonth => match ev {
                Event::Completed => {
                    let (next, plan) = collect_plan_for(&self.command);
                    self.phase = next;
                    plan
                },
                Event::ActionFailed => {
                    self.phase = Phase::Failed(RunError::RemoteActionFailed);
                    empty_plan()
                },
                _ => {
                    self.phase = Phase::Failed(RunError::UnexpectedEvent);
                    empty_plan()
                },
            },
            Phase::Collecting => match ev {
                Event::Completed => {
                    self.phase = Phase::Reporting;
                    empty_plan()
                },
                Event::ActionFailed => {
                    self.phase = Phase::Failed(RunError::RemoteActionFailed);
                    empty_plan()
                },
                _ => {
                    self.phase = Phase::Failed(RunError::UnexpectedEvent);
                    empty_plan()
                },
            },
            Phase::Reporting => match ev {
                Event::Completed => {
                    let (next, plan) = rest_plan(self.sleep_secs);
                    self.phase = next;
                    plan
                },
                Event::ActionFailed => {
                    self.phase = Phase::Failed(RunError::RemoteActionFailed);
                    empty_plan()
                },
                _ => {
                    self.phase = Phase::Failed(RunError::UnexpectedEvent);
                    empty_plan()
                },
            },
            Phase::Resting => match ev {
                Event::Completed => {
                    self.phase = Phase::Done;
                    empty_plan()
                },
                Event::ActionFailed => {
                    self.phase = Phase::Failed(RunError::RemoteActionFailed);
                    empty_plan()
                },
                _ => {
                    self.phase = Phase::Failed(RunError::UnexpectedEvent);
                    empty_plan()
                },
            },
            Phase::Done => empty_plan(),
            Phase::Failed(_) => empty_plan(),
        }
    }
}

} // verus!
