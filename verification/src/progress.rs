//! Progress aggregation and the layout of the failure report.
use crate::names::append_decimal;
use crate::names::append_one_decimal;
use crate::names::append_seconds;
use crate::names::decimal;
use crate::names::seconds_text;
use crate::names::with_one_decimal;
use std::time::Duration;
use std::time::Instant;
use vstd::prelude::*;
use vstd::string::StringExecFns;

verus! {

/// `std::time::Instant`, carried through as an opaque value.
#[verifier::external_type_specification]
#[verifier::external_body]
pub struct ExInstant(std::time::Instant);

/// `Instant::now` reads the clock: nothing is claimed of the value it returns.
pub assume_specification[ std::time::Instant::now ]() -> Instant;

/// `Instant::elapsed` reads the clock: nothing is claimed of the value it returns.
pub assume_specification[ std::time::Instant::elapsed ](start: &Instant) -> Duration;

/// `Duration::as_millis` gives the whole milliseconds of an opaque duration:
/// nothing is claimed of the value it returns.
pub assume_specification[ core::time::Duration::as_millis ](d: &Duration) -> u128;

/// The result of one job: produced once per work item and handed to the
/// aggregator once.
#[derive(Debug)]
pub enum JobOutcome {
    Success,
    Failure { message: String },
}

impl JobOutcome {
    /// Whether the job succeeded.
    pub open spec fn succeeded(&self) -> bool {
        self is Success
    }

    /// Whether the job succeeded.
    pub fn is_success(&self) -> (ok: bool)
        ensures
            ok == self.succeeded(),
    {
        match self {
            JobOutcome::Success => true,
            JobOutcome::Failure { .. } => false,
        }
    }
}

/// One failure record as contracts see it: the item and the message.
pub type Record = (Seq<char>, Seq<char>);

/// The first line of a report section, tagged with the run's timestamp.
pub open spec fn section_header(stamp: Seq<char>) -> Seq<char> {
    "\n=== Failed Downloads Report "@ + stamp + " ===\n"@
}

/// The block of one failure record.
pub open spec fn record_block(record: Record) -> Seq<char> {
    "URL: "@ + record.0 + "\nError: "@ + record.1 + "\n---\n"@
}

/// The blocks of all records, in the order in which they were recorded.
pub open spec fn record_blocks(records: Seq<Record>) -> Seq<char>
    decreases records.len(),
{
    if records.len() == 0 {
        Seq::empty()
    } else {
        record_blocks(records.drop_last()) + record_block(records.last())
    }
}

/// One section of the failure report: the header, then one block per record.
pub open spec fn section_text(stamp: Seq<char>, records: Seq<Record>) -> Seq<char> {
    section_header(stamp) + record_blocks(records)
}

/// What an export adds to the sink: nothing without records, else one section.
pub open spec fn exported_text(stamp: Seq<char>, records: Seq<Record>) -> Seq<char> {
    if records.len() == 0 {
        Seq::empty()
    } else {
        section_text(stamp, records)
    }
}

/// Tenths of a percent of `completed` out of `total`, rounded to the nearest;
/// 0 for an empty batch.
pub open spec fn percent_tenths(completed: nat, total: nat) -> nat {
    if total == 0 {
        0
    } else {
        (completed * 1000 + total / 2) / total
    }
}

/// Estimated remaining milliseconds: the elapsed time times the number of
/// jobs still to complete, divided by the number of completed ones (the
/// average time per completed job for each job that is left); 0 while
/// nothing has completed.
pub open spec fn remaining_millis(elapsed_ms: nat, completed: nat, total: nat) -> nat {
    if completed == 0 || total < completed {
        0
    } else {
        (elapsed_ms * ((total - completed) as nat)) / completed
    }
}

/// The numbers of one progress line.
#[derive(Clone, Copy, Debug, PartialEq, Eq, Structural)]
pub struct ProgressReport {
    pub completed: usize,
    pub total: usize,
    pub percent_tenths: u128,
    pub elapsed_ms: u64,
    pub remaining_ms: u128,
    pub succeeded: usize,
    pub failed: usize,
}

/// The text of a progress line: the completions out of the total with their
/// percentage, the elapsed and the estimated remaining time in seconds,
/// rounded to tenths, the counts of successes and failures, and a rule.
pub open spec fn progress_text(report: ProgressReport) -> Seq<char> {
    "Progress: "@ + decimal(report.completed as nat) + "/"@ + decimal(report.total as nat)
        + " videos completed ("@ + with_one_decimal(report.percent_tenths as nat)
        + "%)\nElapsed time: "@ + seconds_text(report.elapsed_ms as nat)
        + "s\nEstimated time remaining: "@ + seconds_text(report.remaining_ms as nat)
        + "s\nSuccessful: "@ + decimal(report.succeeded as nat) + ", Failed: "@
        + decimal(report.failed as nat) + "\n----------------------------------------\n"@
}

impl ProgressReport {
    /// The text of the progress line.
    pub fn render(&self) -> (text: String)
        ensures
            text@ == progress_text(*self),
    {
        let mut text = String::new();
        text.append("Progress: ");
        append_decimal(&mut text, self.completed as u128);
        text.append("/");
        append_decimal(&mut text, self.total as u128);
        text.append(" videos completed (");
        append_one_decimal(&mut text, self.percent_tenths);
        text.append("%)\nElapsed time: ");
        append_seconds(&mut text, self.elapsed_ms as u128);
        text.append("s\nEstimated time remaining: ");
        append_seconds(&mut text, self.remaining_ms);
        text.append("s\nSuccessful: ");
        append_decimal(&mut text, self.succeeded as u128);
        text.append(", Failed: ");
        append_decimal(&mut text, self.failed as u128);
        text.append("\n----------------------------------------\n");
        assert(text@ =~= progress_text(*self));
        text
    }
}

/// Shared state of one batch: counts, failure records and the start time.
pub struct DownloadProgress {
    pub total_videos: usize,
    pub completed: usize,
    pub start_time: Instant,
    pub errors: usize,
    pub failed_urls: Vec<(String, String)>,
}

impl DownloadProgress {
    /// The failure records, oldest first.
    pub open spec fn failures(&self) -> Seq<Record> {
        self.failed_urls.deep_view()
    }

    /// The counts are in range: `errors <= completed <= total_videos`.
    pub open spec fn wf(&self) -> bool {
        self.errors <= self.completed <= self.total_videos
    }

    /// Every counted failure has its record.
    pub open spec fn consistent(&self) -> bool {
        self.wf() && self.failures().len() == self.errors
    }

    /// The progress line after `elapsed_ms` milliseconds.
    pub open spec fn report_spec(&self, elapsed_ms: u64) -> ProgressReport {
        ProgressReport {
            completed: self.completed,
            total: self.total_videos,
            percent_tenths: percent_tenths(self.completed as nat, self.total_videos as nat) as u128,
            elapsed_ms,
            remaining_ms: remaining_millis(
                elapsed_ms as nat,
                self.completed as nat,
                self.total_videos as nat,
            ) as u128,
            succeeded: (self.completed - self.errors) as usize,
            failed: self.errors,
        }
    }

    /// A fresh aggregator for a batch of `total_videos` items.
    pub fn new(total_videos: usize) -> (progress: Self)
        ensures
            progress.total_videos == total_videos,
            progress.completed == 0,
            progress.errors == 0,
            progress.failures() == Seq::<Record>::empty(),
            progress.consistent(),
    {
        let progress = Self {
            total_videos,
            completed: 0,
            start_time: Instant::now(),
            errors: 0,
            failed_urls: Vec::new(),
        };
        assert(progress.failed_urls.deep_view() =~= Seq::<Record>::empty());
        progress
    }

    /// Counts one completed job, and one error if it did not succeed.
    pub fn update(&mut self, success: bool)
        requires
            old(self).wf(),
            old(self).completed < old(self).total_videos,
        ensures
            final(self).completed == old(self).completed + 1,
            final(self).errors == old(self).errors + (if success { 0int } else { 1int }),
            final(self).total_videos == old(self).total_videos,
            final(self).start_time == old(self).start_time,
            final(self).failures() == old(self).failures(),
            final(self).wf(),
    {
        self.completed += 1;
        if !success {
            self.errors += 1;
        }
    }

    /// Appends one failure record; the counts stay as they are.
    pub fn record_failure(&mut self, url: &String, error: String)
        ensures
            final(self).failures() == old(self).failures().push((url@, error@)),
            final(self).total_videos == old(self).total_videos,
            final(self).completed == old(self).completed,
            final(self).errors == old(self).errors,
            final(self).start_time == old(self).start_time,
    {
        self.failed_urls.push((url.clone(), error));
        assert(self.failed_urls.deep_view() =~= old(self).failed_urls.deep_view().push(
            (url@, error@),
        ));
    }

    /// Records the outcome of one job: one more completion and, for a
    /// failure, one more error with its record.
    pub fn record_outcome(&mut self, item: &String, outcome: JobOutcome)
        requires
            old(self).wf(),
            old(self).completed < old(self).total_videos,
        ensures
            final(self).completed == old(self).completed + 1,
            final(self).total_videos == old(self).total_videos,
            final(self).start_time == old(self).start_time,
            final(self).wf(),
            old(self).consistent() ==> final(self).consistent(),
            match outcome {
                JobOutcome::Success => {
                    &&& final(self).errors == old(self).errors
                    &&& final(self).failures() == old(self).failures()
                },
                JobOutcome::Failure { message } => {
                    &&& final(self).errors == old(self).errors + 1
                    &&& final(self).failures() == old(self).failures().push((item@, message@))
                },
            },
    {
        match outcome {
            JobOutcome::Success => {
                self.update(true);
            },
            JobOutcome::Failure { message } => {
                self.record_failure(item, message);
                self.update(false);
            },
        }
    }

    /// A copy of the state as it is now.
    pub fn snapshot(&self) -> (copy: Self)
        ensures
            copy.total_videos == self.total_videos,
            copy.completed == self.completed,
            copy.errors == self.errors,
            copy.start_time == self.start_time,
            copy.failures() == self.failures(),
    {
        let mut records: Vec<(String, String)> = Vec::new();
        let mut i: usize = 0;
        while i < self.failed_urls.len()
            invariant
                i <= self.failed_urls.len(),
                records.deep_view() == self.failures().take(i as int),
            decreases self.failed_urls.len() - i,
        {
            let ghost before = records.deep_view();
            let record = &self.failed_urls[i];
            let url = record.0.clone();
            let error = record.1.clone();
            records.push((url, error));
            proof {
                assert(self.failures()[i as int] == (record.0@, record.1@));
                assert(records.deep_view() =~= before.push((url@, error@)));
                assert(self.failures().take(i + 1) =~= before.push(self.failures()[i as int]));
            }
            i += 1;
        }
        assert(self.failures().take(i as int) =~= self.failures());
        DownloadProgress {
            total_videos: self.total_videos,
            completed: self.completed,
            start_time: self.start_time,
            errors: self.errors,
            failed_urls: records,
        }
    }

    /// The failure records, oldest first.
    pub fn failed_urls(&self) -> (records: &Vec<(String, String)>)
        ensures
            records.deep_view() == self.failures(),
    {
        &self.failed_urls
    }

    /// The progress line after `elapsed_ms` milliseconds.
    pub fn report_at(&self, elapsed_ms: u64) -> (report: ProgressReport)
        requires
            self.wf(),
        ensures
            report == self.report_spec(elapsed_ms),
    {
        let completed: u128 = self.completed as u128;
        let total: u128 = self.total_videos as u128;
        let percent: u128 = if total == 0 {
            0
        } else {
            (completed * 1000 + total / 2) / total
        };
        let remaining: u128 = if self.completed == 0 {
            0
        } else {
            let elapsed: u128 = elapsed_ms as u128;
            let left: u128 = total - completed;
            assert(elapsed * left <= 0xffff_ffff_ffff_ffff * 0xffff_ffff_ffff_ffff)
                by (nonlinear_arith)
                requires
                    0 <= elapsed <= 0xffff_ffff_ffff_ffff,
                    0 <= left <= 0xffff_ffff_ffff_ffff,
            ;
            (elapsed * left) / completed
        };
        ProgressReport {
            completed: self.completed,
            total: self.total_videos,
            percent_tenths: percent,
            elapsed_ms,
            remaining_ms: remaining,
            succeeded: self.completed - self.errors,
            failed: self.errors,
        }
    }

    /// The progress line now. The elapsed time comes from the clock, capped
    /// at `u64::MAX` milliseconds; the rest follows from it.
    pub fn progress_report(&self) -> (report: ProgressReport)
        requires
            self.wf(),
        ensures
            report == self.report_spec(report.elapsed_ms),
    {
        let elapsed: Duration = self.start_time.elapsed();
        let millis: u128 = elapsed.as_millis();
        let capped: u64 = if millis > u64::MAX as u128 {
            u64::MAX
        } else {
            millis as u64
        };
        self.report_at(capped)
    }

    /// Appends the failure report of this batch to `sink`, tagged with
    /// `stamp`, the time of the run as the caller read it: nothing without
    /// failures, else one section after what `sink` held.
    pub fn export_failures(&self, sink: &mut String, stamp: &str) -> (wrote: bool)
        ensures
            wrote == (self.failures().len() > 0),
            final(sink)@ == old(sink)@ + exported_text(stamp@, self.failures()),
    {
        let n: usize = self.failed_urls.len();
        if n == 0 {
            assert(sink@ + Seq::<char>::empty() =~= sink@);
            return false;
        }
        sink.append("\n=== Failed Downloads Report ");
        sink.append(stamp);
        sink.append(" ===\n");
        assert(sink@ =~= old(sink)@ + section_header(stamp@));
        let mut i: usize = 0;
        assert(self.failures().take(0) =~= Seq::<Record>::empty());
        assert(sink@ + Seq::<char>::empty() =~= sink@);
        while i < n
            invariant
                n == self.failed_urls.len(),
                n == self.failures().len(),
                i <= n,
                sink@ == old(sink)@ + section_header(stamp@) + record_blocks(
                    self.failures().take(i as int),
                ),
            decreases n - i,
        {
            let ghost before = sink@;
            let record = &self.failed_urls[i];
            sink.append("URL: ");
            sink.append(record.0.as_str());
            sink.append("\nError: ");
            sink.append(record.1.as_str());
            sink.append("\n---\n");
            proof {
                let records = self.failures();
                let next = records.take(i + 1);
                assert(next.drop_last() =~= records.take(i as int));
                assert(next.last() == records[i as int]);
                assert(records[i as int] == (record.0@, record.1@));
                assert(sink@ =~= before + record_block(records[i as int]));
                assert(sink@ =~= old(sink)@ + section_header(stamp@) + record_blocks(next));
            }
            i += 1;
        }
        proof {
            assert(self.failures().take(n as int) =~= self.failures());
            assert(sink@ =~= old(sink)@ + section_text(stamp@, self.failures()));
        }
        true
    }
}

/// Exporting appends and never overwrites: after two exports of the same
/// non-empty records, the sink holds what it held before, then the first
/// section, then the second, each whole and in its place.
pub proof fn lemma_export_twice_appends(
    sink: Seq<char>,
    records: Seq<Record>,
    first_stamp: Seq<char>,
    second_stamp: Seq<char>,
)
    requires
        records.len() > 0,
    ensures
        ({
            let first = exported_text(first_stamp, records);
            let second = exported_text(second_stamp, records);
            let after_first = sink + first;
            let after_second = after_first + second;
            &&& first.len() > 0
            &&& second.len() > 0
            &&& after_second.len() == sink.len() + first.len() + second.len()
            &&& after_second.subrange(0, sink.len() as int) == sink
            &&& after_second.subrange(sink.len() as int, after_first.len() as int) == first
            &&& after_second.subrange(after_first.len() as int, after_second.len() as int)
                == second
        }),
{
    let first = exported_text(first_stamp, records);
    let second = exported_text(second_stamp, records);
    let after_first = sink + first;
    let after_second = after_first + second;
    lemma_section_nonempty(first_stamp, records);
    lemma_section_nonempty(second_stamp, records);
    assert(after_second.subrange(0, sink.len() as int) =~= sink);
    assert(after_second.subrange(sink.len() as int, after_first.len() as int) =~= first);
    assert(after_second.subrange(after_first.len() as int, after_second.len() as int)
        =~= second);
}

/// A section of at least one record is never empty.
pub proof fn lemma_section_nonempty(stamp: Seq<char>, records: Seq<Record>)
    requires
        records.len() > 0,
    ensures
        section_text(stamp, records).len() > 0,
{
    reveal_strlit("\n---\n");
    assert(record_block(records.last()).len() >= 5);
}

} // verus!
