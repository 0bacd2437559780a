use jobcan_punch::attendance::AttendanceRow;
use jobcan_punch::attendance::aggregate_rows;
use jobcan_punch::attendance::csv_lines;
use jobcan_punch::attendance::daily_total;
use jobcan_punch::attendance::extract_rows;
use jobcan_punch::attendance::remote_totals;

fn row(date: &str, start: &str, end: &str, break_time: &str) -> AttendanceRow {
    AttendanceRow {
        date: date.to_owned(),
        start: start.to_owned(),
        end: end.to_owned(),
        break_time: break_time.to_owned(),
    }
}

#[test]
fn one_full_day() {
    let r = row("01/15", "09:00", "18:00", "01:00");
    let t = daily_total(&r).unwrap();
    assert_eq!(540, t.worked_minutes);
    assert_eq!(60, t.break_minutes);

    let lines = csv_lines(&vec![r]);
    assert_eq!(1, lines.len());
    assert_eq!("01/15;09:00;18:00;01:00;08:00", lines[0].as_str());
}

#[test]
fn two_days_aggregate() {
    let rows = vec![
        row("01/15", "09:00", "18:00", "01:00"),
        row("01/16", "10:00", "17:00", "00:30"),
    ];
    let t = aggregate_rows(&rows);
    assert_eq!(960, t.worked_minutes);
    assert_eq!(90, t.break_minutes);
    assert_eq!(870, t.net_minutes());
    assert_eq!("14:30", t.net_hhmm().as_str());
    assert_eq!("16:00", t.worked_hhmm().as_str());
    assert_eq!("01:30", t.break_hhmm().as_str());
}

#[test]
fn empty_listing_totals_are_zero() {
    let rows: Vec<AttendanceRow> = Vec::new();
    let t = aggregate_rows(&rows);
    assert_eq!(0, t.worked_minutes);
    assert_eq!(0, t.break_minutes);
    assert_eq!(0, t.net_minutes());
    assert!(csv_lines(&rows).is_empty());
}

#[test]
fn empty_start_is_a_non_worked_day() {
    let rows = vec![
        row("01/15", "", "18:00", "01:00"),
        row("01/16", "10:00", "17:00", "00:30"),
    ];
    let t = aggregate_rows(&rows);
    assert_eq!(420, t.worked_minutes);
    assert_eq!(30, t.break_minutes);
    let lines = csv_lines(&rows);
    assert_eq!(1, lines.len());
    assert_eq!("01/16;10:00;17:00;00:30;06:30", lines[0].as_str());
}

#[test]
fn unparsed_start_or_end_skips_the_whole_row() {
    // The break text parses, but the row is excluded entirely.
    let rows = vec![
        row("01/15", "09:00", "勤務中", "01:00"),
        row("01/16", "mm:11", "17:00", "00:30"),
        row("01/17", "09:00", "17:00", "00:30"),
    ];
    let t = aggregate_rows(&rows);
    assert_eq!(480, t.worked_minutes);
    assert_eq!(30, t.break_minutes);
    assert_eq!(1, csv_lines(&rows).len());
}

#[test]
fn unparsed_break_counts_as_zero() {
    let rows = vec![row("01/15", "09:00", "18:00", "")];
    let t = aggregate_rows(&rows);
    assert_eq!(540, t.worked_minutes);
    assert_eq!(0, t.break_minutes);
    let lines = csv_lines(&rows);
    assert_eq!("01/15;09:00;18:00;;09:00", lines[0].as_str());
}

#[test]
fn extract_rows_drops_short_rows() {
    let cells = vec![
        vec![
            "01/15".to_owned(),
            "holiday".to_owned(),
            "09:00".to_owned(),
            "18:00".to_owned(),
            "01:00".to_owned(),
        ],
        vec!["01/16".to_owned(), "".to_owned()],
        vec![
            "01/17".to_owned(),
            "".to_owned(),
            "10:00".to_owned(),
            "17:00".to_owned(),
            "00:30".to_owned(),
            "extra".to_owned(),
        ],
    ];
    let rows = extract_rows(&cells);
    assert_eq!(2, rows.len());
    assert_eq!("01/15", rows[0].date.as_str());
    assert_eq!("09:00", rows[0].start.as_str());
    assert_eq!("18:00", rows[0].end.as_str());
    assert_eq!("01:00", rows[0].break_time.as_str());
    assert_eq!("01/17", rows[1].date.as_str());
}

#[test]
fn remote_totals_need_both_rows() {
    let cells = vec!["120:00".to_owned(), "160:00".to_owned(), "ignored".to_owned()];
    let t = remote_totals(&cells).unwrap();
    assert_eq!("120:00", t.worked_so_far.as_str());
    assert_eq!("160:00", t.expected.as_str());

    let short = vec!["120:00".to_owned()];
    assert!(remote_totals(&short).is_none());
}
