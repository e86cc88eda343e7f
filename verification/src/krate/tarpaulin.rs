//! Reports of which lines a run has covered.

use crate::names::same_text;
use vstd::prelude::*;

verus! {

/// How often a line was run.
#[derive(Clone, Copy, Debug, PartialEq, Eq)]
pub struct Stats {
    pub line: usize,
}

/// A line of a file, with how often it was run.
#[derive(Clone, Copy, Debug, PartialEq, Eq)]
pub struct Trace {
    pub line: usize,
    pub stats: Stats,
}

/// The lines of one file; the file is named by the components of its path.
#[derive(Debug, PartialEq, Eq)]
pub struct FileReport {
    pub path: Vec<String>,
    pub traces: Vec<Trace>,
}

/// The lines of every file of a run.
#[derive(Debug, PartialEq, Eq)]
pub struct TarpaulinReport {
    pub files: Vec<FileReport>,
}

/// A line, covered or not.
#[derive(Clone, Copy, Debug, PartialEq, Eq)]
pub struct LineReport {
    pub line: usize,
    pub covered: bool,
}

/// The lines of an item that was not covered entirely: each with its
/// number, its text, and whether it was covered, where that is known.
#[derive(Debug, PartialEq, Eq)]
pub struct BadCoverageReport {
    pub relative_path: String,
    pub item_path: String,
    pub lines: Vec<(usize, String, Option<bool>)>,
}

/// The report of a line: it is covered where it was run at least once.
pub open spec fn line_report(trace: Trace) -> LineReport {
    LineReport { line: trace.line, covered: trace.stats.line > 0 }
}

impl LineReport {
    /// The report of the line of a trace.
    pub fn from(trace: Trace) -> (r: Self)
        ensures
            r == line_report(trace),
    {
        LineReport { line: trace.line, covered: trace.stats.line > 0 }
    }
}

/// Whether two paths have the same components.
pub open spec fn same_path(a: Seq<String>, b: Seq<String>) -> bool {
    a.len() == b.len() && forall|i: int| 0 <= i < a.len() ==> (#[trigger] a[i])@ == b[i]@
}

/// Whether two paths have the same components.
pub fn paths_equal(a: &Vec<String>, b: &[String]) -> (r: bool)
    ensures
        r == same_path(a@, b@),
{
    if a.len() != b.len() {
        return false;
    }
    let mut i: usize = 0;
    while i < a.len()
        invariant
            i <= a.len(),
            a@.len() == b@.len(),
            forall|j: int| 0 <= j < i ==> (#[trigger] a@[j])@ == b@[j]@,
        decreases a.len() - i,
    {
        if !same_text(&a[i], &b[i]) {
            return false;
        }
        i += 1;
    }
    true
}

/// The reports of the traces `traces`, in order.
pub open spec fn reports_of(traces: Seq<Trace>) -> Seq<LineReport> {
    Seq::new(traces.len(), |i: int| line_report(traces[i]))
}

/// The reports of the lines of the file `file` in the first `n` file
/// reports, in their order.
pub open spec fn lines_of(files: Seq<FileReport>, file: Seq<String>, n: int) -> Seq<LineReport>
    decreases n,
{
    if n <= 0 {
        Seq::empty()
    } else if same_path(files[n - 1].path@, file) {
        lines_of(files, file, n - 1) + reports_of(files[n - 1].traces@)
    } else {
        lines_of(files, file, n - 1)
    }
}

/// The lines among `reports` from `lo` to `hi`.
pub open spec fn within(reports: Seq<LineReport>, lo: int, hi: int) -> Seq<LineReport> {
    reports.filter(|r: LineReport| lo <= r.line <= hi)
}

/// Whether line `line` is covered according to the reports, if they say:
/// what the last report of the line says.
pub open spec fn status(reports: Seq<LineReport>, line: int) -> Option<bool>
    decreases reports.len(),
{
    if reports.len() == 0 {
        None
    } else if reports.last().line == line {
        Some(reports.last().covered)
    } else {
        status(reports.drop_last(), line)
    }
}

/// Whether line `line` is covered according to the reports, if they say.
pub fn status_of(reports: &Vec<LineReport>, line: usize) -> (r: Option<bool>)
    ensures
        r == status(reports@, line as int),
{
    let mut k: usize = reports.len();
    assert(reports@.take(k as int) =~= reports@);
    while k > 0
        invariant
            k <= reports.len(),
            status(reports@, line as int) == status(reports@.take(k as int), line as int),
        decreases k,
    {
        k -= 1;
        let ghost longer = reports@.take(k + 1);
        assert(longer.last() == reports@[k as int]);
        assert(longer.drop_last() =~= reports@.take(k as int));
        if reports[k].line == line {
            return Some(reports[k].covered);
        }
    }
    None
}

impl TarpaulinReport {
    /// The reports of the lines of the file `file`, which is named by the
    /// components of its path.
    pub fn lines_for_file(&self, file: &[String]) -> (r: Vec<LineReport>)
        ensures
            r@ == lines_of(self.files@, file@, self.files@.len() as int),
    {
        let mut r: Vec<LineReport> = Vec::new();
        let mut i: usize = 0;
        while i < self.files.len()
            invariant
                i <= self.files.len(),
                r@ == lines_of(self.files@, file@, i as int),
            decreases self.files.len() - i,
        {
            let report = &self.files[i];
            if paths_equal(&report.path, file) {
                let ghost before = r@;
                let mut k: usize = 0;
                while k < report.traces.len()
                    invariant
                        k <= report.traces.len(),
                        r@ == before + reports_of(report.traces@).take(k as int),
                    decreases report.traces.len() - k,
                {
                    r.push(LineReport::from(report.traces[k]));
                    assert(reports_of(report.traces@).take(k + 1) =~= reports_of(
                        report.traces@,
                    ).take(k as int).push(line_report(report.traces@[k as int])));
                    k += 1;
                }
                assert(reports_of(report.traces@).take(report.traces@.len() as int)
                    =~= reports_of(report.traces@));
            }
            i += 1;
        }
        r
    }

    /// What the report says of the lines from `lo` to `hi` of the file
    /// `file`, the text of which is `source`, line by line: `None` where the
    /// report says nothing of any of those lines, or where the file has not
    /// that many lines.
    pub fn coverage_for_span(
        &self,
        item_path: String,
        file: &[String],
        relative_path: String,
        lo: usize,
        hi: usize,
        source: &Vec<String>,
    ) -> (r: Option<BadCoverageReport>)
        ensures
            match r {
                Some(report) => 1 <= lo <= hi <= source@.len() && report.item_path@ == item_path@
                    && report.relative_path@ == relative_path@ && report.lines@.len() == hi - lo
                    + 1 && (exists|line: int|
                    lo <= line <= hi && (#[trigger] status(
                        lines_of(self.files@, file@, self.files@.len() as int),
                        line,
                    )).is_some()) && forall|k: int|
                    0 <= k < report.lines@.len() ==> (#[trigger] report.lines@[k]).0 == lo + k
                        && report.lines@[k].1@ == source@[lo + k - 1]@ && report.lines@[k].2
                        == status(
                        lines_of(self.files@, file@, self.files@.len() as int),
                        lo + k,
                    ),
                None => !(1 <= lo <= hi <= source@.len()) || forall|line: int|
                    lo <= line <= hi ==> (#[trigger] status(
                        lines_of(self.files@, file@, self.files@.len() as int),
                        line,
                    )).is_none(),
            },
    {
        if !(1 <= lo && lo <= hi && hi <= source.len()) {
            return None;
        }
        let reports = self.lines_for_file(file);
        let mut lines: Vec<(usize, String, Option<bool>)> = Vec::new();
        let mut any = false;
        let ghost mut witness: int = 0;
        let count: usize = hi - lo + 1;
        let mut done: usize = 0;
        while done < count
            invariant
                1 <= lo <= hi,
                count == hi - lo + 1,
                done <= count,
                hi <= source@.len(),
                lines@.len() == done,
                any ==> lo <= witness < lo + done && status(reports@, witness).is_some(),
                !any ==> forall|l: int|
                    lo <= l < lo + done ==> (#[trigger] status(reports@, l)).is_none(),
                forall|k: int|
                    0 <= k < lines@.len() ==> (#[trigger] lines@[k]).0 == lo + k && lines@[k].1@
                        == source@[lo + k - 1]@ && lines@[k].2 == status(reports@, lo + k),
            decreases count - done,
        {
            let line: usize = lo + done;
            let s = status_of(&reports, line);
            if s.is_some() {
                any = true;
                proof {
                    witness = line as int;
                }
            }
            lines.push((line, source[line - 1].clone(), s));
            done += 1;
        }
        if !any {
            return None;
        }
        Some(BadCoverageReport { lines, item_path, relative_path })
    }
}

} // verus!
