use batch_downloader::counter::ActiveCounter;
use batch_downloader::counter::DownloadGuard;
use batch_downloader::progress::JobOutcome;
use batch_downloader::scheduler::BatchScheduler;
use batch_downloader::scheduler::completion_line;
use batch_downloader::scheduler::BatchSummary;

fn urls(n: usize) -> Vec<String> {
    let mut all = Vec::new();
    for i in 0..n {
        all.push(format!("http://item/{}", i + 1));
    }
    all
}

fn failure(message: &str) -> JobOutcome {
    JobOutcome::Failure { message: message.to_string() }
}

#[test]
fn guard_counts_in_and_out() {
    let mut counter = ActiveCounter::new();
    assert_eq!(counter.get(), 0);
    let first = DownloadGuard::new(&mut counter);
    let second = DownloadGuard::new(&mut counter);
    assert_eq!(first.entered_at(), 1);
    assert_eq!(second.entered_at(), 2);
    assert_eq!(counter.get(), 2);
    first.release(&mut counter);
    assert_eq!(counter.get(), 1);
    second.release(&mut counter);
    assert_eq!(counter.get(), 0);
}

#[test]
fn empty_batch_is_done_at_once() {
    let mut scheduler = BatchScheduler::new(Vec::new(), 3);
    assert!(scheduler.is_done());
    assert!(scheduler.next_launch().is_none());
    assert_eq!(scheduler.active_jobs(), 0);
    assert_eq!(scheduler.summary(), BatchSummary { total_items: 0, completed: 0, failed: 0 });
    let mut sink = String::new();
    assert!(!scheduler.progress().export_failures(&mut sink, "now"));
    assert!(sink.is_empty());
}

#[test]
fn five_items_two_slots_two_failures() {
    let mut scheduler = BatchScheduler::new(urls(5), 2);
    let mut artifacts = 0;
    let mut most_active = 0;
    let mut running: Vec<usize> = Vec::new();
    while !scheduler.is_done() {
        while let Some(item) = scheduler.next_launch() {
            assert_eq!(item.url, format!("http://item/{}", item.position));
            running.push(item.position);
        }
        assert!(scheduler.active_jobs() <= 2);
        assert_eq!(scheduler.active_jobs(), running.len());
        if scheduler.active_jobs() > most_active {
            most_active = scheduler.active_jobs();
        }
        let position = running.remove(0);
        assert!(scheduler.is_running(position));
        if position == 2 || position == 4 {
            scheduler.job_finished(position, failure("metadata could not be resolved"));
        } else {
            artifacts += 1;
            scheduler.job_finished(position, JobOutcome::Success);
        }
        assert!(!scheduler.is_running(position));
    }
    assert_eq!(most_active, 2);
    assert_eq!(scheduler.summary(), BatchSummary { total_items: 5, completed: 5, failed: 2 });
    assert_eq!(scheduler.active_jobs(), 0);
    assert_eq!(artifacts, 3);
    assert_eq!(
        scheduler.progress().failed_urls(),
        &vec![
            ("http://item/2".to_string(), "metadata could not be resolved".to_string()),
            ("http://item/4".to_string(), "metadata could not be resolved".to_string()),
        ]
    );
    let mut sink = String::new();
    assert!(scheduler.progress().export_failures(&mut sink, "now"));
    assert_eq!(sink.matches("URL: ").count(), 2);
}

#[test]
fn admission_stops_at_the_limit() {
    let mut scheduler = BatchScheduler::new(urls(4), 2);
    assert_eq!(scheduler.next_launch().map(|item| item.position), Some(1));
    assert_eq!(scheduler.next_launch().map(|item| item.position), Some(2));
    assert!(scheduler.next_launch().is_none());
    assert_eq!(scheduler.active_jobs(), 2);
    scheduler.job_finished(2, JobOutcome::Success);
    assert_eq!(scheduler.active_jobs(), 1);
    assert_eq!(scheduler.next_launch().map(|item| item.position), Some(3));
    assert!(scheduler.next_launch().is_none());
    assert!(scheduler.is_running(1));
    assert!(!scheduler.is_running(2));
    assert!(scheduler.is_running(3));
    assert!(!scheduler.is_running(4));
    assert!(!scheduler.is_running(0));
    assert!(!scheduler.is_running(5));
}

#[test]
fn wide_limit_admits_every_item_at_once() {
    let mut scheduler = BatchScheduler::new(urls(3), 10);
    for position in 1..=3 {
        let item = scheduler.next_launch();
        assert_eq!(item.map(|item| item.position), Some(position));
    }
    assert!(scheduler.next_launch().is_none());
    assert_eq!(scheduler.active_jobs(), 3);
    scheduler.job_finished(3, JobOutcome::Success);
    scheduler.job_finished(1, JobOutcome::Success);
    scheduler.job_finished(2, JobOutcome::Success);
    assert!(scheduler.is_done());
    assert_eq!(scheduler.active_jobs(), 0);
    assert_eq!(scheduler.summary(), BatchSummary { total_items: 3, completed: 3, failed: 0 });
}

#[test]
fn every_job_failing_still_settles() {
    let mut scheduler = BatchScheduler::new(urls(3), 1);
    for position in 1..=3 {
        let item = scheduler.next_launch().unwrap();
        assert_eq!(item.position, position);
        assert!(scheduler.next_launch().is_none());
        assert_eq!(scheduler.active_jobs(), 1);
        scheduler.job_finished(position, failure("down"));
    }
    assert!(scheduler.is_done());
    assert_eq!(scheduler.active_jobs(), 0);
    assert_eq!(scheduler.summary(), BatchSummary { total_items: 3, completed: 3, failed: 3 });
    assert_eq!(scheduler.progress().failed_urls().len(), 3);
}

#[test]
fn failures_are_recorded_in_completion_order() {
    let mut scheduler = BatchScheduler::new(urls(2), 2);
    scheduler.next_launch();
    scheduler.next_launch();
    scheduler.job_finished(2, failure("second item"));
    scheduler.job_finished(1, failure("first item"));
    assert_eq!(
        scheduler.progress().failed_urls(),
        &vec![
            ("http://item/2".to_string(), "second item".to_string()),
            ("http://item/1".to_string(), "first item".to_string()),
        ]
    );
}

#[test]
fn run_in_order_settles_the_whole_batch() {
    let outcomes = vec![
        JobOutcome::Success,
        failure("two"),
        JobOutcome::Success,
        failure("four"),
        JobOutcome::Success,
    ];
    let settled = BatchScheduler::run_in_order(urls(5), 2, outcomes);
    assert!(settled.is_done());
    assert_eq!(settled.active_jobs(), 0);
    assert_eq!(settled.summary(), BatchSummary { total_items: 5, completed: 5, failed: 2 });
    assert_eq!(
        settled.progress().failed_urls(),
        &vec![
            ("http://item/2".to_string(), "two".to_string()),
            ("http://item/4".to_string(), "four".to_string()),
        ]
    );
}

#[test]
fn run_in_order_of_nothing() {
    let settled = BatchScheduler::run_in_order(Vec::new(), 1, Vec::new());
    assert!(settled.is_done());
    assert_eq!(settled.summary(), BatchSummary { total_items: 0, completed: 0, failed: 0 });
    assert!(settled.progress().failed_urls().is_empty());
}

#[test]
fn run_in_order_with_every_limit() {
    for limit in 1..=7 {
        let outcomes = vec![failure("a"), JobOutcome::Success, failure("c"), failure("d")];
        let settled = BatchScheduler::run_in_order(urls(4), limit, outcomes);
        assert_eq!(settled.summary(), BatchSummary { total_items: 4, completed: 4, failed: 3 });
        assert_eq!(settled.active_jobs(), 0);
    }
}

#[test]
fn snapshot_copies_the_state() {
    let mut scheduler = BatchScheduler::new(urls(2), 2);
    scheduler.next_launch();
    scheduler.job_finished(1, failure("first"));
    let copy = scheduler.progress().snapshot();
    scheduler.next_launch();
    scheduler.job_finished(2, failure("second"));
    assert_eq!((copy.total_videos, copy.completed, copy.errors), (2, 1, 1));
    assert_eq!(copy.failed_urls(), &vec![("http://item/1".to_string(), "first".to_string())]);
    assert_eq!(copy.start_time, scheduler.progress().start_time);
    assert_eq!(scheduler.progress().failed_urls().len(), 2);
}

#[test]
fn job_finished_gives_the_progress_line() {
    let mut scheduler = BatchScheduler::new(urls(4), 2);
    scheduler.next_launch();
    scheduler.next_launch();
    let report = scheduler.job_finished(2, failure("x"));
    assert_eq!(report, scheduler.progress().report_at(report.elapsed_ms));
    assert_eq!((report.completed, report.total, report.succeeded, report.failed), (1, 4, 0, 1));
    assert_eq!(report.percent_tenths, 250);
    let report = scheduler.job_finished(1, JobOutcome::Success);
    assert_eq!((report.completed, report.total, report.succeeded, report.failed), (2, 4, 1, 1));
    assert_eq!(report.percent_tenths, 500);
}

#[test]
fn summary_text() {
    let summary = BatchSummary { total_items: 5, completed: 5, failed: 2 };
    assert_eq!(
        summary.render(12345),
        "\nDownload Summary:\nTotal time: 12.3s\nSuccessfully downloaded: 3\nFailed downloads: 2\n"
    );
}

#[test]
fn summary_text_rounds_the_time() {
    let summary = BatchSummary { total_items: 1, completed: 1, failed: 0 };
    assert_eq!(
        summary.render(1260),
        "\nDownload Summary:\nTotal time: 1.3s\nSuccessfully downloaded: 1\nFailed downloads: 0\n"
    );
}

#[test]
fn completion_line_text() {
    assert_eq!(completion_line(3, 1260), "Video 3 completed in 1.3s\n");
    assert_eq!(completion_line(12, 0), "Video 12 completed in 0.0s\n");
    assert_eq!(
        completion_line(1, u64::MAX),
        "Video 1 completed in 18446744073709551.6s\n"
    );
}
