//! Attendance rows and monthly totals.
//!
//! Each row of the punched-data table carries a date label and the raw
//! `start`, `end` and `break` cell texts. A row counts toward the totals
//! only when it names a worked day: `start` is non-empty, both `start`
//! and `end` parse as timestamps, and the pair is not inverted. A row
//! whose `break` fails to parse still counts, with zero break minutes.
//! Totals accumulate with saturation at `u32::MAX`, far beyond any real
//! month.

use vstd::prelude::*;
use vstd::string::StrSliceExecFns;
use vstd::string::StringExecFns;
use crate::strnum::hhmm;
use crate::timeclock::format_hhmm;
use crate::timeclock::parse_time_to_minutes;
use crate::timeclock::time_minutes;

verus! {

/// One scraped table row: the first five cell texts, minus the holiday
/// column.
pub struct AttendanceRow {
    pub date: String,
    pub start: String,
    pub end: String,
    pub break_time: String,
}

/// The abstract content of a row: the four cell texts.
pub struct RowV {
    pub date: Seq<char>,
    pub start: Seq<char>,
    pub end: Seq<char>,
    pub brk: Seq<char>,
}

impl View for AttendanceRow {
    type V = RowV;

    open spec fn view(&self) -> RowV {
        RowV { date: self.date@, start: self.start@, end: self.end@, brk: self.break_time@ }
    }
}

/// The contribution of one worked day.
pub struct DailyTotal {
    pub worked_minutes: u32,
    pub break_minutes: u32,
}

/// Running totals over one listing session.
pub struct MonthlyTotals {
    pub worked_minutes: u32,
    pub break_minutes: u32,
}

/// A row counts toward the totals: it names a worked day (`start` is
/// non-empty), both clock texts parse, and the pair is not inverted.
pub open spec fn row_counted(r: RowV) -> bool {
    r.start.len() > 0 && time_minutes(r.start) is Some && time_minutes(r.end) is Some
        && time_minutes(r.start).unwrap() <= time_minutes(r.end).unwrap()
}

/// Worked minutes of a row; zero for a row that does not count.
pub open spec fn row_worked(r: RowV) -> int {
    if row_counted(r) {
        time_minutes(r.end).unwrap() - time_minutes(r.start).unwrap()
    } else {
        0
    }
}

/// Break minutes of a row; a break text that fails to parse counts as
/// zero, and a row that does not count contributes nothing.
pub open spec fn row_break(r: RowV) -> int {
    if row_counted(r) {
        match time_minutes(r.brk) {
            Some(b) => b as int,
            None => 0,
        }
    } else {
        0
    }
}

/// Worked minutes net of break, floored at zero.
pub open spec fn row_net(r: RowV) -> int {
    if row_worked(r) >= row_break(r) {
        row_worked(r) - row_break(r)
    } else {
        0
    }
}

/// The abstract contents of a row vector.
pub open spec fn row_views(rs: Seq<AttendanceRow>) -> Seq<RowV> {
    rs.map_values(|r: AttendanceRow| r@)
}

/// Total worked minutes over a row sequence.
pub open spec fn sum_worked(rs: Seq<RowV>) -> int
    decreases rs.len(),
{
    if rs.len() == 0 {
        0
    } else {
        sum_worked(rs.drop_last()) + row_worked(rs.last())
    }
}

/// Total break minutes over a row sequence.
pub open spec fn sum_break(rs: Seq<RowV>) -> int
    decreases rs.len(),
{
    if rs.len() == 0 {
        0
    } else {
        sum_break(rs.drop_last()) + row_break(rs.last())
    }
}

/// Saturation at the top of `u32`.
pub open spec fn sat32(n: int) -> int {
    if n > u32::MAX {
        u32::MAX as int
    } else {
        n
    }
}

/// The CSV rendering of one counted row:
/// `date;start;end;break;HH:MM`, the last field being the worked time
/// net of break.
pub open spec fn csv_line(r: RowV) -> Seq<char> {
    r.date + seq![';'] + r.start + seq![';'] + r.end + seq![';'] + r.brk + seq![';'] + hhmm(
        row_net(r),
    )
}

/// The CSV lines of a row sequence: one line per counted row, in order;
/// rows that do not count are left out.
pub open spec fn csv_lines_spec(rs: Seq<RowV>) -> Seq<Seq<char>>
    decreases rs.len(),
{
    if rs.len() == 0 {
        Seq::empty()
    } else {
        csv_lines_spec(rs.drop_last()) + (if row_counted(rs.last()) {
            seq![csv_line(rs.last())]
        } else {
            Seq::empty()
        })
    }
}

/// No row contributes negative worked minutes.
pub proof fn lemma_sum_worked_nonneg(rs: Seq<RowV>)
    ensures
        sum_worked(rs) >= 0,
    decreases rs.len(),
{
    if rs.len() > 0 {
        lemma_sum_worked_nonneg(rs.drop_last());
    }
}

/// No row contributes negative break minutes.
pub proof fn lemma_sum_break_nonneg(rs: Seq<RowV>)
    ensures
        sum_break(rs) >= 0,
    decreases rs.len(),
{
    if rs.len() > 0 {
        lemma_sum_break_nonneg(rs.drop_last());
    }
}

/// A row with an empty `start` is a non-worked day: it contributes
/// nothing to either total and produces no CSV line, wherever it stands.
pub proof fn lemma_unstarted_row_contributes_nothing(r: RowV)
    requires
        r.start.len() == 0,
    ensures
        !row_counted(r),
        row_worked(r) == 0,
        row_break(r) == 0,
        forall|rs: Seq<RowV>| #[trigger] sum_worked(rs.push(r)) == sum_worked(rs),
        forall|rs: Seq<RowV>| #[trigger] sum_break(rs.push(r)) == sum_break(rs),
        forall|rs: Seq<RowV>| #[trigger] csv_lines_spec(rs.push(r)) == csv_lines_spec(rs),
{
    assert forall|rs: Seq<RowV>| #[trigger] sum_worked(rs.push(r)) == sum_worked(rs) by {
        assert(rs.push(r).drop_last() =~= rs);
        assert(rs.push(r).last() == r);
    }
    assert forall|rs: Seq<RowV>| #[trigger] sum_break(rs.push(r)) == sum_break(rs) by {
        assert(rs.push(r).drop_last() =~= rs);
        assert(rs.push(r).last() == r);
    }
    assert forall|rs: Seq<RowV>| #[trigger] csv_lines_spec(rs.push(r)) == csv_lines_spec(rs) by {
        assert(rs.push(r).drop_last() =~= rs);
        assert(rs.push(r).last() == r);
        assert(csv_lines_spec(rs) + Seq::<Seq<char>>::empty() =~= csv_lines_spec(rs));
    }
}

/// A row whose `start` or `end` fails to parse is skipped entirely: it
/// contributes nothing to either total — its break minutes included,
/// even if the break text parses — and produces no CSV line.
pub proof fn lemma_unparsed_row_contributes_nothing(r: RowV)
    requires
        time_minutes(r.start) is None || time_minutes(r.end) is None,
    ensures
        !row_counted(r),
        row_worked(r) == 0,
        row_break(r) == 0,
        forall|rs: Seq<RowV>| #[trigger] sum_worked(rs.push(r)) == sum_worked(rs),
        forall|rs: Seq<RowV>| #[trigger] sum_break(rs.push(r)) == sum_break(rs),
        forall|rs: Seq<RowV>| #[trigger] csv_lines_spec(rs.push(r)) == csv_lines_spec(rs),
{
    assert forall|rs: Seq<RowV>| #[trigger] sum_worked(rs.push(r)) == sum_worked(rs) by {
        assert(rs.push(r).drop_last() =~= rs);
        assert(rs.push(r).last() == r);
    }
    assert forall|rs: Seq<RowV>| #[trigger] sum_break(rs.push(r)) == sum_break(rs) by {
        assert(rs.push(r).drop_last() =~= rs);
        assert(rs.push(r).last() == r);
    }
    assert forall|rs: Seq<RowV>| #[trigger] csv_lines_spec(rs.push(r)) == csv_lines_spec(rs) by {
        assert(rs.push(r).drop_last() =~= rs);
        assert(rs.push(r).last() == r);
        assert(csv_lines_spec(rs) + Seq::<Seq<char>>::empty() =~= csv_lines_spec(rs));
    }
}

/// The contribution of one row, or `None` for a row that does not count.
pub fn daily_total(row: &AttendanceRow) -> (r: Option<DailyTotal>)
    ensures
        match r {
            Some(t) => row_counted(row@) && t.worked_minutes == row_worked(row@)
                && t.break_minutes == row_break(row@),
            None => !row_counted(row@),
        },
{
    if row.start.as_str().is_empty() {
        return None;
    }
    let start = match parse_time_to_minutes(row.start.as_str()) {
        Some(v) => v,
        None => {
            return None;
        },
    };
    let end = match parse_time_to_minutes(row.end.as_str()) {
        Some(v) => v,
        None => {
            return None;
        },
    };
    if end < start {
        return None;
    }
    let break_minutes = match parse_time_to_minutes(row.break_time.as_str()) {
        Some(v) => v,
        None => 0,
    };
    Some(DailyTotal { worked_minutes: end - start, break_minutes })
}

/// Folds a row sequence into monthly totals. The sums saturate at
/// `u32::MAX` instead of overflowing.
pub fn aggregate_rows(rows: &Vec<AttendanceRow>) -> (t: MonthlyTotals)
    ensures
        t.worked_minutes == sat32(sum_worked(row_views(rows@))),
        t.break_minutes == sat32(sum_break(row_views(rows@))),
{
    let ghost all = row_views(rows@);
    let mut worked: u32 = 0;
    let mut brk: u32 = 0;
    let mut i: usize = 0;
    while i < rows.len()
        invariant
            0 <= i <= rows.len(),
            all == row_views(rows@),
            worked == sat32(sum_worked(all.subrange(0, i as int))),
            brk == sat32(sum_break(all.subrange(0, i as int))),
        decreases rows.len() - i,
    {
        proof {
            let pre = all.subrange(0, i as int);
            let ext = all.subrange(0, i as int + 1);
            assert(ext.drop_last() =~= pre);
            assert(ext.last() == all[i as int]);
            assert(all[i as int] == rows@[i as int]@);
            lemma_sum_worked_nonneg(pre);
            lemma_sum_break_nonneg(pre);
        }
        match daily_total(&rows[i]) {
            Some(t) => {
                worked = worked.saturating_add(t.worked_minutes);
                brk = brk.saturating_add(t.break_minutes);
            },
            None => {},
        }
        i = i + 1;
    }
    proof {
        assert(all.subrange(0, i as int) =~= all);
    }
    MonthlyTotals { worked_minutes: worked, break_minutes: brk }
}

/// Renders the CSV lines of a row sequence, one line per counted row.
pub fn csv_lines(rows: &Vec<AttendanceRow>) -> (r: Vec<String>)
    ensures
        r@.map_values(|s: String| s@) == csv_lines_spec(row_views(rows@)),
{
    let ghost all = row_views(rows@);
    let mut out: Vec<String> = Vec::new();
    let mut i: usize = 0;
    while i < rows.len()
        invariant
            0 <= i <= rows.len(),
            all == row_views(rows@),
            out@.map_values(|s: String| s@) == csv_lines_spec(all.subrange(0, i as int)),
        decreases rows.len() - i,
    {
        proof {
            let pre = all.subrange(0, i as int);
            let ext = all.subrange(0, i as int + 1);
            assert(ext.drop_last() =~= pre);
            assert(ext.last() == all[i as int]);
            assert(all[i as int] == rows@[i as int]@);
        }
        let row = &rows[i];
        match daily_total(row) {
            Some(t) => {
                let net = if t.worked_minutes >= t.break_minutes {
                    t.worked_minutes - t.break_minutes
                } else {
                    0
                };
                let mut line = String::new();
                proof {
                    reveal_strlit(";");
                }
                line.append(row.date.as_str());
                line.append(";");
                line.append(row.start.as_str());
                line.append(";");
                line.append(row.end.as_str());
                line.append(";");
                line.append(row.break_time.as_str());
                line.append(";");
                let tail = format_hhmm(net);
                line.append(tail.as_str());
                proof {
                    assert(";"@ =~= seq![';']);
                    assert(line@ =~= csv_line(all[i as int]));
                }
                out.push(line);
                proof {
                    assert(out@.map_values(|s: String| s@) =~= csv_lines_spec(
                        all.subrange(0, i as int + 1),
                    ));
                }
            },
            None => {
                proof {
                    assert(csv_lines_spec(all.subrange(0, i as int)) + Seq::<Seq<char>>::empty()
                        =~= csv_lines_spec(all.subrange(0, i as int)));
                }
            },
        }
        i = i + 1;
    }
    proof {
        assert(all.subrange(0, i as int) =~= all);
    }
    out
}

impl MonthlyTotals {
    /// Worked minutes net of break, floored at zero.
    pub fn net_minutes(&self) -> (r: u32)
        ensures
            r == if self.worked_minutes >= self.break_minutes {
                self.worked_minutes - self.break_minutes
            } else {
                0
            },
    {
        if self.worked_minutes >= self.break_minutes {
            self.worked_minutes - self.break_minutes
        } else {
            0
        }
    }

    /// The worked total as zero-padded `HH:MM`.
    pub fn worked_hhmm(&self) -> (r: String)
        ensures
            r@ == hhmm(self.worked_minutes as int),
    {
        format_hhmm(self.worked_minutes)
    }

    /// The break total as zero-padded `HH:MM`.
    pub fn break_hhmm(&self) -> (r: String)
        ensures
            r@ == hhmm(self.break_minutes as int),
    {
        format_hhmm(self.break_minutes)
    }

    /// The net total (worked minus break) as zero-padded `HH:MM`.
    pub fn net_hhmm(&self) -> (r: String)
        ensures
            r@ == hhmm(
                if self.worked_minutes >= self.break_minutes {
                    self.worked_minutes - self.break_minutes
                } else {
                    0
                },
            ),
    {
        format_hhmm(self.net_minutes())
    }
}

/// The totals the remote page reports about itself. Opaque text, shown
/// side by side with the library's own totals and never reconciled with
/// them: the two may legitimately disagree.
pub struct RemoteReportedTotals {
    pub expected: String,
    pub worked_so_far: String,
}

/// Reads the remote-reported totals from the summary table's first-cell
/// texts, one entry per row: worked-so-far stands in the first row,
/// expected in the second. A layout without both rows yields nothing.
pub fn remote_totals(first_cells: &Vec<String>) -> (r: Option<RemoteReportedTotals>)
    ensures
        match r {
            Some(t) => first_cells@.len() >= 2 && t.worked_so_far@ == first_cells@[0]@
                && t.expected@ == first_cells@[1]@,
            None => first_cells@.len() < 2,
        },
{
    if first_cells.len() < 2 {
        return None;
    }
    Some(
        RemoteReportedTotals {
            worked_so_far: first_cells[0].clone(),
            expected: first_cells[1].clone(),
        },
    )
}

/// Keeps the rows with at least five cells, each reduced to the four
/// texts the aggregator reads (the holiday column is dropped).
pub open spec fn extracted(tables: Seq<Vec<String>>) -> Seq<RowV>
    decreases tables.len(),
{
    if tables.len() == 0 {
        Seq::empty()
    } else {
        extracted(tables.drop_last()) + (if tables.last()@.len() >= 5 {
            seq![
                RowV {
                    date: tables.last()@[0]@,
                    start: tables.last()@[2]@,
                    end: tables.last()@[3]@,
                    brk: tables.last()@[4]@,
                },
            ]
        } else {
            Seq::empty()
        })
    }
}

/// Turns raw cell texts, one inner vector per table row, into attendance
/// rows. A row with fewer than five cells is dropped.
pub fn extract_rows(cells: &Vec<Vec<String>>) -> (r: Vec<AttendanceRow>)
    ensures
        row_views(r@) == extracted(cells@),
{
    let mut out: Vec<AttendanceRow> = Vec::new();
    let mut i: usize = 0;
    while i < cells.len()
        invariant
            0 <= i <= cells.len(),
            row_views(out@) == extracted(cells@.subrange(0, i as int)),
        decreases cells.len() - i,
    {
        proof {
            let pre = cells@.subrange(0, i as int);
            let ext = cells@.subrange(0, i as int + 1);
            assert(ext.drop_last() =~= pre);
            assert(ext.last() == cells@[i as int]);
        }
        let row = &cells[i];
        if row.len() >= 5 {
            let item = AttendanceRow {
                date: row[0].clone(),
                start: row[2].clone(),
                end: row[3].clone(),
                break_time: row[4].clone(),
            };
            out.push(item);
            proof {
                assert(row_views(out@) =~= extracted(cells@.subrange(0, i as int + 1)));
            }
        } else {
            proof {
                assert(extracted(cells@.subrange(0, i as int)) + Seq::<RowV>::empty() =~= extracted(
                    cells@.subrange(0, i as int),
                ));
            }
        }
        i = i + 1;
    }
    proof {
        assert(cells@.subrange(0, i as int) =~= cells@);
    }
    out
}

} // verus!
