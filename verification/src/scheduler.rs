//! Admission of work items under a concurrency limit.
//!
//! The scheduler decides; the caller acts. The caller asks for the next item
//! to launch until none is admitted, runs the admitted jobs concurrently, and
//! reports each job's outcome when it settles. The batch is over when every
//! item has reported.
use crate::counter::ActiveCounter;
use crate::counter::DownloadGuard;
use crate::names::append_decimal;
use crate::names::append_seconds;
use crate::names::decimal;
use crate::names::seconds_text;
use crate::progress::DownloadProgress;
use crate::progress::JobOutcome;
use crate::progress::ProgressReport;
use crate::progress::Record;
use vstd::prelude::*;
use vstd::string::StringExecFns;

verus! {

/// One submitted item: its identifier and its 1-based place in the batch.
#[derive(Debug)]
pub struct WorkItem {
    pub url: String,
    pub position: usize,
}

/// The totals of a batch.
#[derive(Clone, Copy, Debug, PartialEq, Eq, Structural)]
pub struct BatchSummary {
    pub total_items: usize,
    pub completed: usize,
    pub failed: usize,
}

/// The line that tells that the job at `position` succeeded after
/// `elapsed_ms` milliseconds, in seconds rounded to tenths.
pub open spec fn completion_text(position: nat, elapsed_ms: nat) -> Seq<char> {
    "Video "@ + decimal(position) + " completed in "@ + seconds_text(elapsed_ms) + "s\n"@
}

/// The line that tells that the job at `position` succeeded after
/// `elapsed_ms` milliseconds.
pub fn completion_line(position: usize, elapsed_ms: u64) -> (text: String)
    ensures
        text@ == completion_text(position as nat, elapsed_ms as nat),
{
    let mut text = String::new();
    text.append("Video ");
    append_decimal(&mut text, position as u128);
    text.append(" completed in ");
    append_seconds(&mut text, elapsed_ms as u128);
    text.append("s\n");
    assert(text@ =~= completion_text(position as nat, elapsed_ms as nat));
    text
}

/// The text of a batch's summary: the time it took in seconds, rounded to
/// tenths, and the counts of successes and failures.
pub open spec fn summary_text(summary: BatchSummary, elapsed_ms: nat) -> Seq<char> {
    "\nDownload Summary:\nTotal time: "@ + seconds_text(elapsed_ms)
        + "s\nSuccessfully downloaded: "@ + decimal((summary.completed - summary.failed) as nat)
        + "\nFailed downloads: "@ + decimal(summary.failed as nat) + "\n"@
}

impl BatchSummary {
    /// The text of the summary of a batch that took `elapsed_ms` milliseconds.
    pub fn render(&self, elapsed_ms: u64) -> (text: String)
        requires
            self.failed <= self.completed,
        ensures
            text@ == summary_text(*self, elapsed_ms as nat),
    {
        let mut text = String::new();
        text.append("\nDownload Summary:\nTotal time: ");
        append_seconds(&mut text, elapsed_ms as u128);
        text.append("s\nSuccessfully downloaded: ");
        append_decimal(&mut text, (self.completed - self.failed) as u128);
        text.append("\nFailed downloads: ");
        append_decimal(&mut text, self.failed as u128);
        text.append("\n");
        assert(text@ =~= summary_text(*self, elapsed_ms as nat));
        text
    }
}

/// How many entries of `flags` are set.
pub open spec fn count_set(flags: Seq<bool>) -> nat
    decreases flags.len(),
{
    if flags.len() == 0 {
        0
    } else {
        count_set(flags.drop_last()) + if flags.last() {
            1nat
        } else {
            0nat
        }
    }
}

/// Setting an entry that was clear raises the count by one.
pub proof fn lemma_count_set_one_more(flags: Seq<bool>, at: int)
    requires
        0 <= at < flags.len(),
        !flags[at],
    ensures
        count_set(flags.update(at, true)) == count_set(flags) + 1,
    decreases flags.len(),
{
    let after = flags.update(at, true);
    if at == flags.len() - 1 {
        assert(after.drop_last() =~= flags.drop_last());
    } else {
        lemma_count_set_one_more(flags.drop_last(), at);
        assert(after.drop_last() =~= flags.drop_last().update(at, true));
    }
}

/// Where every entry from `bound` on is clear, at most `bound` are set.
pub proof fn lemma_count_set_bounded(flags: Seq<bool>, bound: int)
    requires
        0 <= bound <= flags.len(),
        forall|i: int| bound <= i < flags.len() ==> !flags[i],
    ensures
        count_set(flags) <= bound,
    decreases flags.len(),
{
    if flags.len() > 0 {
        if bound == flags.len() {
            lemma_count_set_bounded(flags.drop_last(), bound - 1);
        } else {
            lemma_count_set_bounded(flags.drop_last(), bound);
        }
    }
}

/// The failure records of a batch whose jobs report in submission order:
/// for each failed outcome, the item and the failure's message.
pub open spec fn failure_records(urls: Seq<Seq<char>>, outcomes: Seq<JobOutcome>) -> Seq<Record>
    recommends
        urls.len() == outcomes.len(),
    decreases outcomes.len(),
{
    if outcomes.len() == 0 || urls.len() == 0 {
        Seq::empty()
    } else {
        let before = failure_records(urls.drop_last(), outcomes.drop_last());
        match outcomes.last() {
            JobOutcome::Success => before,
            JobOutcome::Failure { message } => before.push((urls.last(), message@)),
        }
    }
}

/// The state of one batch run.
pub struct BatchScheduler {
    urls: Vec<String>,
    limit: usize,
    launched: usize,
    finished: Vec<bool>,
    active: ActiveCounter,
    guards: Vec<DownloadGuard>,
    progress: DownloadProgress,
}

impl BatchScheduler {
    /// The submitted identifiers, in submission order.
    pub closed spec fn urls(&self) -> Seq<Seq<char>> {
        self.urls.deep_view()
    }

    /// The number of submitted items.
    pub closed spec fn total(&self) -> nat {
        self.urls.len() as nat
    }

    /// The concurrency limit.
    pub closed spec fn limit(&self) -> nat {
        self.limit as nat
    }

    /// The number of items admitted so far: items are admitted in
    /// submission order.
    pub closed spec fn launched(&self) -> nat {
        self.launched as nat
    }

    /// For each item, whether its outcome has been reported.
    pub closed spec fn finished(&self) -> Seq<bool> {
        self.finished@
    }

    /// The number of jobs in flight.
    pub closed spec fn active(&self) -> nat {
        self.active.value()
    }

    /// The aggregated progress.
    pub closed spec fn progress_view(&self) -> DownloadProgress {
        self.progress
    }

    /// The number of reported outcomes.
    pub open spec fn completed(&self) -> nat {
        self.progress_view().completed as nat
    }

    /// The number of reported failures.
    pub open spec fn failed(&self) -> nat {
        self.progress_view().errors as nat
    }

    /// The failure records, in the order in which they were reported.
    pub open spec fn failures(&self) -> Seq<Record> {
        self.progress_view().failures()
    }

    /// The invariant of a run.
    pub closed spec fn wf(&self) -> bool {
        &&& self.limit > 0
        &&& self.finished@.len() == self.urls@.len()
        &&& self.progress.total_videos == self.urls@.len()
        &&& self.launched <= self.urls@.len()
        &&& forall|i: int| self.launched <= i < self.finished@.len() ==> !self.finished@[i]
        &&& self.progress.completed == count_set(self.finished@)
        &&& self.active.value() + self.progress.completed == self.launched
        &&& self.active.value() <= self.limit
        &&& self.guards@.len() == self.active.value()
        &&& self.progress.consistent()
    }

    /// Whether the item at `position` (1-based) has been admitted and has
    /// not reported yet.
    pub open spec fn running(&self, position: int) -> bool {
        1 <= position <= self.launched() && !self.finished()[position - 1]
    }

    /// Whether an item can be admitted now: one is left and a slot is free.
    pub open spec fn can_launch(&self) -> bool {
        self.launched() < self.total() && self.active() < self.limit()
    }

    /// Whether every item has reported its outcome.
    pub open spec fn done(&self) -> bool {
        self.completed() == self.total()
    }

    /// A scheduler for `urls` with at most `concurrency_limit` jobs in
    /// flight at a time. Nothing is admitted yet.
    pub fn new(urls: Vec<String>, concurrency_limit: usize) -> (scheduler: Self)
        requires
            concurrency_limit > 0,
        ensures
            scheduler.wf(),
            scheduler.urls() == urls.deep_view(),
            scheduler.total() == urls@.len(),
            scheduler.limit() == concurrency_limit,
            scheduler.launched() == 0,
            scheduler.active() == 0,
            scheduler.completed() == 0,
            scheduler.failed() == 0,
            scheduler.failures() == Seq::<Record>::empty(),
            scheduler.finished() == Seq::new(urls@.len(), |i: int| false),
    {
        let total: usize = urls.len();
        let mut finished: Vec<bool> = Vec::new();
        let mut i: usize = 0;
        while i < total
            invariant
                i <= total,
                finished@ == Seq::new(i as nat, |k: int| false),
                count_set(finished@) == 0,
            decreases total - i,
        {
            let ghost before = finished@;
            finished.push(false);
            proof {
                assert(finished@.drop_last() =~= before);
                assert(finished@ =~= Seq::new((i + 1) as nat, |k: int| false));
            }
            i += 1;
        }
        BatchScheduler {
            urls,
            limit: concurrency_limit,
            launched: 0,
            finished,
            active: ActiveCounter::new(),
            guards: Vec::new(),
            progress: DownloadProgress::new(total),
        }
    }

    /// Admits the next item if one is left and a slot is free, and counts it
    /// as in flight. `None` means: wait for a running job to report, or, if
    /// the batch is done, stop.
    pub fn next_launch(&mut self) -> (admitted: Option<WorkItem>)
        requires
            old(self).wf(),
        ensures
            final(self).wf(),
            admitted is Some <==> old(self).can_launch(),
            final(self).urls() == old(self).urls(),
            final(self).total() == old(self).total(),
            final(self).limit() == old(self).limit(),
            final(self).finished() == old(self).finished(),
            final(self).progress_view() == old(self).progress_view(),
            match admitted {
                Some(item) => {
                    &&& item.position == old(self).launched() + 1
                    &&& item.url@ == old(self).urls()[old(self).launched() as int]
                    &&& final(self).launched() == old(self).launched() + 1
                    &&& final(self).active() == old(self).active() + 1
                    &&& final(self).running(item.position as int)
                },
                None => {
                    &&& final(self).launched() == old(self).launched()
                    &&& final(self).active() == old(self).active()
                },
            },
    {
        if self.launched >= self.urls.len() || self.active.get() >= self.limit {
            return None;
        }
        let url = self.urls[self.launched].clone();
        let guard = DownloadGuard::new(&mut self.active);
        self.guards.push(guard);
        self.launched += 1;
        Some(WorkItem { url, position: self.launched })
    }

    /// Takes the outcome of the job at `position`: the job leaves the count
    /// of jobs in flight, its slot is free again, and the outcome is
    /// aggregated. A failure is recorded and changes nothing else. The
    /// result is the progress line to emit for this completion.
    pub fn job_finished(&mut self, position: usize, outcome: JobOutcome) -> (report:
        ProgressReport)
        requires
            old(self).wf(),
            old(self).running(position as int),
        ensures
            final(self).wf(),
            final(self).urls() == old(self).urls(),
            final(self).total() == old(self).total(),
            final(self).limit() == old(self).limit(),
            final(self).launched() == old(self).launched(),
            final(self).finished() == old(self).finished().update(position - 1, true),
            final(self).active() == old(self).active() - 1,
            final(self).completed() == old(self).completed() + 1,
            report == final(self).progress_view().report_spec(report.elapsed_ms),
            match outcome {
                JobOutcome::Success => {
                    &&& final(self).failed() == old(self).failed()
                    &&& final(self).failures() == old(self).failures()
                },
                JobOutcome::Failure { message } => {
                    &&& final(self).failed() == old(self).failed() + 1
                    &&& final(self).failures() == old(self).failures().push(
                        (old(self).urls()[position - 1], message@),
                    )
                },
            },
    {
        let index: usize = position - 1;
        proof {
            lemma_count_set_one_more(self.finished@, index as int);
            lemma_count_set_bounded(self.finished@.update(index as int, true), self.launched as int);
        }
        self.finished.set(index, true);
        let guard = self.guards.pop().unwrap();
        guard.release(&mut self.active);
        self.progress.record_outcome(&self.urls[index], outcome);
        self.progress.progress_report()
    }

    /// Runs a whole batch whose jobs' outcomes are given: `outcomes[i]` is
    /// the outcome of the item at position `i + 1`. Items are admitted up to
    /// the limit and report in submission order. Every item reports, no job
    /// is left in flight, and each failure is recorded with its item.
    pub fn run_in_order(
        urls: Vec<String>,
        concurrency_limit: usize,
        outcomes: Vec<JobOutcome>,
    ) -> (settled: Self)
        requires
            concurrency_limit > 0,
            outcomes@.len() == urls@.len(),
        ensures
            settled.wf(),
            settled.done(),
            settled.urls() == urls.deep_view(),
            settled.total() == urls@.len(),
            settled.limit() == concurrency_limit,
            settled.completed() == urls@.len(),
            settled.launched() == urls@.len(),
            settled.active() == 0,
            settled.failures() == failure_records(urls.deep_view(), outcomes@),
            settled.failed() == failure_records(urls.deep_view(), outcomes@).len(),
    {
        let ghost items = urls.deep_view();
        let ghost total = urls@.len();
        let ghost given = outcomes@;
        let mut outcomes = outcomes;
        let mut scheduler = BatchScheduler::new(urls, concurrency_limit);
        let mut reported: usize = 0;
        proof {
            assert(scheduler.finished() =~= Seq::new(total, |i: int| i < 0));
            assert(given.take(0) =~= Seq::<JobOutcome>::empty());
            assert(given.skip(0) =~= given);
        }
        while !scheduler.is_done()
            invariant
                scheduler.wf(),
                scheduler.urls() == items,
                items.len() == total,
                given.len() == total,
                scheduler.total() == total,
                scheduler.limit() == concurrency_limit,
                scheduler.completed() == reported,
                reported <= scheduler.launched(),
                scheduler.finished() == Seq::new(total, |i: int| i < reported),
                outcomes@ == given.skip(reported as int),
                scheduler.failures() == failure_records(
                    items.take(reported as int),
                    given.take(reported as int),
                ),
            decreases total - reported,
        {
            loop
                invariant
                    scheduler.wf(),
                    scheduler.urls() == items,
                    scheduler.total() == total,
                    scheduler.limit() == concurrency_limit,
                    scheduler.completed() == reported,
                    reported <= scheduler.launched(),
                    scheduler.finished() == Seq::new(total, |i: int| i < reported),
                    scheduler.failures() == failure_records(
                        items.take(reported as int),
                        given.take(reported as int),
                    ),
                ensures
                    !scheduler.can_launch(),
                decreases scheduler.total() - scheduler.launched(),
            {
                let admitted = scheduler.next_launch();
                if admitted.is_none() {
                    break;
                }
            }
            let ghost before = scheduler.failures();
            let outcome = outcomes.remove(0);
            proof {
                assert(outcome == given[reported as int]);
                assert(outcomes@ =~= given.skip(reported + 1));
                let next_items = items.take(reported + 1);
                let next_given = given.take(reported + 1);
                assert(next_items.drop_last() =~= items.take(reported as int));
                assert(next_given.drop_last() =~= given.take(reported as int));
                assert(next_items.last() == items[reported as int]);
                assert(next_given.last() == outcome);
            }
            let _ = scheduler.job_finished(reported + 1, outcome);
            proof {
                assert(scheduler.finished() =~= Seq::new(total, |i: int| i < reported + 1));
            }
            reported += 1;
        }
        proof {
            assert(items.take(reported as int) =~= items);
            assert(given.take(reported as int) =~= given);
        }
        scheduler
    }

    /// Whether the item at `position` (1-based) has been admitted and has
    /// not reported yet.
    pub fn is_running(&self, position: usize) -> (yes: bool)
        requires
            self.wf(),
        ensures
            yes == self.running(position as int),
    {
        1 <= position && position <= self.launched && !self.finished[position - 1]
    }

    /// Whether every item has reported its outcome.
    pub fn is_done(&self) -> (yes: bool)
        ensures
            yes == self.done(),
    {
        self.progress.completed == self.urls.len()
    }

    /// The number of jobs in flight.
    pub fn active_jobs(&self) -> (n: usize)
        ensures
            n == self.active(),
    {
        self.active.get()
    }

    /// The aggregated progress.
    pub fn progress(&self) -> (progress: &DownloadProgress)
        ensures
            *progress == self.progress_view(),
    {
        &self.progress
    }

    /// The totals so far; the totals of the batch once it is done.
    pub fn summary(&self) -> (summary: BatchSummary)
        ensures
            summary.total_items == self.total(),
            summary.completed == self.completed(),
            summary.failed == self.failed(),
    {
        BatchSummary {
            total_items: self.urls.len(),
            completed: self.progress.completed,
            failed: self.progress.errors,
        }
    }
}

/// At every point of a run the jobs in flight are at most the limit, the
/// admitted items are those in flight and those that reported, and the
/// counts are in range with one record per failure.
pub proof fn lemma_run_invariant(scheduler: &BatchScheduler)
    requires
        scheduler.wf(),
    ensures
        scheduler.limit() >= 1,
        scheduler.active() <= scheduler.limit(),
        scheduler.active() + scheduler.completed() == scheduler.launched(),
        scheduler.launched() <= scheduler.total(),
        scheduler.failed() <= scheduler.completed() <= scheduler.total(),
        scheduler.failures().len() == scheduler.failed(),
        scheduler.completed() == count_set(scheduler.finished()),
        scheduler.finished().len() == scheduler.total(),
        scheduler.urls().len() == scheduler.total(),
        scheduler.progress_view().total_videos == scheduler.total(),
{
}

/// When every item has reported, every item was admitted, no job is in
/// flight, and the failures are among the completions: whatever the mix of
/// successes and failures.
pub proof fn lemma_done_is_settled(scheduler: &BatchScheduler)
    requires
        scheduler.wf(),
        scheduler.done(),
    ensures
        scheduler.completed() == scheduler.total(),
        scheduler.failed() <= scheduler.completed(),
        scheduler.launched() == scheduler.total(),
        scheduler.active() == 0,
        !scheduler.can_launch(),
{
}

/// A run that is not done is never stuck: an item can be admitted, or a job
/// is in flight whose report will come.
pub proof fn lemma_never_stuck(scheduler: &BatchScheduler)
    requires
        scheduler.wf(),
        !scheduler.done(),
    ensures
        scheduler.can_launch() || scheduler.active() > 0,
{
}

/// With a limit of at least the batch's size no item ever waits for a slot:
/// as long as one is left it can be admitted.
pub proof fn lemma_wide_limit_never_waits(scheduler: &BatchScheduler)
    requires
        scheduler.wf(),
        scheduler.limit() >= scheduler.total(),
        scheduler.launched() < scheduler.total(),
    ensures
        scheduler.can_launch(),
{
}

} // verus!
