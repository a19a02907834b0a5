//! The lifecycle of one job.
//!
//! A job resolves its item's metadata, fetches the audio and the video part
//! where the metadata offers them, combines them, and deletes the temporary
//! files. The runner decides which step comes next; the caller performs the
//! step and hands back how it went.
use crate::names::file_names_of;
use crate::names::final_name;
use crate::names::video_name;
use crate::names::FileNames;
use crate::names::FileNamesView;
use crate::progress::JobOutcome;
use crate::scheduler::WorkItem;
use vstd::prelude::*;

verus! {

/// What the lifecycle reads of an item's resolved metadata.
#[derive(Debug)]
pub struct Metadata {
    pub id: String,
    pub title: String,
    pub has_audio: bool,
    pub has_video: bool,
}

/// The step that the caller has to perform next.
#[derive(Clone, Copy, Debug, PartialEq, Eq, Structural)]
pub enum JobStep {
    ResolveMetadata,
    FetchAudio,
    FetchVideo,
    Combine,
    Cleanup,
    Finished,
}

/// How a step went.
#[derive(Debug)]
pub enum StepResult {
    /// The metadata was resolved.
    Resolved(Metadata),
    /// A step other than the resolution succeeded.
    Completed,
    /// The step failed.
    Failed { message: String },
}

/// A step's result as contracts see it.
pub enum StepResultView {
    Resolved { id: Seq<char>, title: Seq<char>, has_audio: bool, has_video: bool },
    Completed,
    Failed { message: Seq<char> },
}

impl View for StepResult {
    type V = StepResultView;

    open spec fn view(&self) -> StepResultView {
        match self {
            StepResult::Resolved(meta) => StepResultView::Resolved {
                id: meta.id@,
                title: meta.title@,
                has_audio: meta.has_audio,
                has_video: meta.has_video,
            },
            StepResult::Completed => StepResultView::Completed,
            StepResult::Failed { message } => StepResultView::Failed { message: message@ },
        }
    }
}

/// A job as contracts see it.
pub struct JobView {
    pub position: nat,
    pub step: JobStep,
    pub has_audio: bool,
    pub has_video: bool,
    pub names: Option<FileNamesView>,
    pub failure: Option<Seq<char>>,
}

/// The first transfer after the resolution, or the combination if the
/// metadata offers neither part.
pub open spec fn first_transfer(has_audio: bool, has_video: bool) -> JobStep {
    if has_audio {
        JobStep::FetchAudio
    } else if has_video {
        JobStep::FetchVideo
    } else {
        JobStep::Combine
    }
}

/// Whether `result` can be the result of the step that `job` is at: the
/// resolution gives metadata or fails, every other step succeeds or fails,
/// and a finished job takes no result.
pub open spec fn accepts(job: JobView, result: StepResultView) -> bool {
    match job.step {
        JobStep::ResolveMetadata => !(result is Completed),
        JobStep::Finished => false,
        _ => !(result is Resolved),
    }
}

/// The job after the step that it was at has ended in `result`.
///
/// A failed resolution finishes the job at once: no file was named yet. A
/// failed transfer or combination goes on to the cleanup. The cleanup
/// finishes the job however it went, and never changes the outcome.
pub open spec fn next_job(job: JobView, result: StepResultView) -> JobView {
    match job.step {
        JobStep::ResolveMetadata => match result {
            StepResultView::Resolved { id, title, has_audio, has_video } => JobView {
                step: first_transfer(has_audio, has_video),
                has_audio,
                has_video,
                names: Some(file_names_of(job.position, id, title)),
                ..job
            },
            StepResultView::Failed { message } => JobView {
                step: JobStep::Finished,
                failure: Some(message),
                ..job
            },
            StepResultView::Completed => job,
        },
        JobStep::FetchAudio => match result {
            StepResultView::Failed { message } => JobView {
                step: JobStep::Cleanup,
                failure: Some(message),
                ..job
            },
            _ => JobView {
                step: if job.has_video {
                    JobStep::FetchVideo
                } else {
                    JobStep::Combine
                },
                ..job
            },
        },
        JobStep::FetchVideo => match result {
            StepResultView::Failed { message } => JobView {
                step: JobStep::Cleanup,
                failure: Some(message),
                ..job
            },
            _ => JobView { step: JobStep::Combine, ..job },
        },
        JobStep::Combine => match result {
            StepResultView::Failed { message } => JobView {
                step: JobStep::Cleanup,
                failure: Some(message),
                ..job
            },
            _ => JobView { step: JobStep::Cleanup, ..job },
        },
        JobStep::Cleanup => JobView { step: JobStep::Finished, ..job },
        JobStep::Finished => job,
    }
}

/// What holds of a job at every point of its lifecycle. The file names are
/// known from the first transfer to the cleanup, and not before the
/// resolution has succeeded. A part is fetched only if the metadata offers
/// it. A job that has failed is at the cleanup or finished, and a job that
/// finished without its names failed at the resolution.
pub open spec fn job_wf(job: JobView) -> bool {
    &&& job.step == JobStep::ResolveMetadata ==> job.names is None && job.failure is None
    &&& (job.step == JobStep::FetchAudio || job.step == JobStep::FetchVideo || job.step
        == JobStep::Combine || job.step == JobStep::Cleanup) ==> job.names is Some
    &&& job.step == JobStep::FetchAudio ==> job.has_audio
    &&& job.step == JobStep::FetchVideo ==> job.has_video
    &&& (job.step == JobStep::FetchAudio || job.step == JobStep::FetchVideo || job.step
        == JobStep::Combine) ==> job.failure is None
    &&& job.step == JobStep::Finished && job.names is None ==> job.failure is Some
}

/// What the combination takes: the temporary files that were fetched, and
/// the name of the final artifact.
#[derive(Debug)]
pub struct CombineInputs {
    pub audio: Option<String>,
    pub video: Option<String>,
    pub output: String,
}

/// The inputs of a combination as contracts see them.
pub struct CombineInputsView {
    pub audio: Option<Seq<char>>,
    pub video: Option<Seq<char>>,
    pub output: Seq<char>,
}

impl View for CombineInputs {
    type V = CombineInputsView;

    open spec fn view(&self) -> CombineInputsView {
        CombineInputsView {
            audio: match self.audio {
                Some(name) => Some(name@),
                None => None,
            },
            video: match self.video {
                Some(name) => Some(name@),
                None => None,
            },
            output: self.output@,
        }
    }
}

/// The inputs of the combination of `job`, once its names are known: the
/// temporary audio file only if the metadata offers an audio part, the
/// temporary video file only if it offers a video part, and the final name.
/// A part that the metadata lacks was never fetched, so it is no input.
pub open spec fn combine_inputs_of(job: JobView) -> Option<CombineInputsView> {
    match job.names {
        None => None,
        Some(names) => Some(
            CombineInputsView {
                audio: if job.has_audio {
                    Some(names.audio)
                } else {
                    None
                },
                video: if job.has_video {
                    Some(names.video)
                } else {
                    None
                },
                output: names.name,
            },
        ),
    }
}

/// The most steps that a job at `step` still has before it is finished.
pub open spec fn steps_left(step: JobStep) -> nat {
    match step {
        JobStep::ResolveMetadata => 5,
        JobStep::FetchAudio => 4,
        JobStep::FetchVideo => 3,
        JobStep::Combine => 2,
        JobStep::Cleanup => 1,
        JobStep::Finished => 0,
    }
}

/// The outcome of a job, as contracts see it: `None` for success, else the
/// failure's message.
pub open spec fn outcome_message(outcome: JobOutcome) -> Option<Seq<char>> {
    match outcome {
        JobOutcome::Success => None,
        JobOutcome::Failure { message } => Some(message@),
    }
}

/// Runs the lifecycle of one work item.
pub struct JobRunner {
    position: usize,
    step: JobStep,
    has_audio: bool,
    has_video: bool,
    names: Option<FileNames>,
    failure: Option<String>,
}

impl View for JobRunner {
    type V = JobView;

    closed spec fn view(&self) -> JobView {
        JobView {
            position: self.position as nat,
            step: self.step,
            has_audio: self.has_audio,
            has_video: self.has_video,
            names: match self.names {
                Some(names) => Some(names@),
                None => None,
            },
            failure: match self.failure {
                Some(message) => Some(message@),
                None => None,
            },
        }
    }
}

impl JobRunner {
    /// A job for `item`, about to resolve the item's metadata.
    pub fn new(item: &WorkItem) -> (runner: Self)
        ensures
            runner@ == (JobView {
                position: item.position as nat,
                step: JobStep::ResolveMetadata,
                has_audio: false,
                has_video: false,
                names: None,
                failure: None,
            }),
            job_wf(runner@),
    {
        JobRunner {
            position: item.position,
            step: JobStep::ResolveMetadata,
            has_audio: false,
            has_video: false,
            names: None,
            failure: None,
        }
    }

    /// The step that the caller has to perform next.
    pub fn step(&self) -> (step: JobStep)
        ensures
            step == self@.step,
    {
        self.step
    }

    /// The job's file names, known once the metadata is resolved.
    pub fn names(&self) -> (names: Option<&FileNames>)
        ensures
            match names {
                Some(n) => self@.names == Some(n@),
                None => self@.names is None,
            },
    {
        self.names.as_ref()
    }

    /// What the combination takes, known once the metadata is resolved: the
    /// temporary files of the parts that the metadata offers, and the final
    /// name.
    pub fn combine_inputs(&self) -> (inputs: Option<CombineInputs>)
        ensures
            match inputs {
                Some(found) => combine_inputs_of(self@) == Some(found@),
                None => combine_inputs_of(self@) is None,
            },
    {
        match &self.names {
            None => None,
            Some(names) => {
                let audio = if self.has_audio {
                    Some(names.audio.clone())
                } else {
                    None
                };
                let video = if self.has_video {
                    Some(names.video.clone())
                } else {
                    None
                };
                Some(CombineInputs { audio, video, output: names.name.clone() })
            },
        }
    }

    /// Whether `result` can be the result of the step that the job is at.
    pub fn accepts(&self, result: &StepResult) -> (yes: bool)
        ensures
            yes == accepts(self@, result@),
    {
        match self.step {
            JobStep::ResolveMetadata => match result {
                StepResult::Completed => false,
                _ => true,
            },
            JobStep::Finished => false,
            _ => match result {
                StepResult::Resolved(_) => false,
                _ => true,
            },
        }
    }

    /// Takes the result of the step that the job was at, and gives the step
    /// to perform next.
    pub fn advance(&mut self, result: StepResult) -> (step: JobStep)
        requires
            accepts(old(self)@, result@),
        ensures
            final(self)@ == next_job(old(self)@, result@),
            step == final(self)@.step,
            job_wf(old(self)@) ==> job_wf(final(self)@),
    {
        match self.step {
            JobStep::ResolveMetadata => match result {
                StepResult::Resolved(meta) => {
                    self.names = Some(
                        FileNames::new(self.position, meta.id.as_str(), meta.title.as_str()),
                    );
                    self.has_audio = meta.has_audio;
                    self.has_video = meta.has_video;
                    self.step = if meta.has_audio {
                        JobStep::FetchAudio
                    } else if meta.has_video {
                        JobStep::FetchVideo
                    } else {
                        JobStep::Combine
                    };
                },
                StepResult::Failed { message } => {
                    self.failure = Some(message);
                    self.step = JobStep::Finished;
                },
                StepResult::Completed => {},
            },
            JobStep::FetchAudio => match result {
                StepResult::Failed { message } => {
                    self.failure = Some(message);
                    self.step = JobStep::Cleanup;
                },
                _ => {
                    self.step = if self.has_video {
                        JobStep::FetchVideo
                    } else {
                        JobStep::Combine
                    };
                },
            },
            JobStep::FetchVideo => match result {
                StepResult::Failed { message } => {
                    self.failure = Some(message);
                    self.step = JobStep::Cleanup;
                },
                _ => {
                    self.step = JobStep::Combine;
                },
            },
            JobStep::Combine => match result {
                StepResult::Failed { message } => {
                    self.failure = Some(message);
                    self.step = JobStep::Cleanup;
                },
                _ => {
                    self.step = JobStep::Cleanup;
                },
            },
            JobStep::Cleanup => {
                self.step = JobStep::Finished;
            },
            JobStep::Finished => {},
        }
        self.step
    }

    /// The outcome of a finished job: success unless a step before the
    /// cleanup failed, else that step's message.
    pub fn outcome(self) -> (outcome: JobOutcome)
        requires
            self@.step == JobStep::Finished,
        ensures
            outcome_message(outcome) == self@.failure,
    {
        match self.failure {
            None => JobOutcome::Success,
            Some(message) => JobOutcome::Failure { message },
        }
    }
}

/// Every accepted result brings the job nearer to its end, so a job is
/// finished after five steps at most. The cleanup leaves the failure as it
/// is, and a job without a failure gets one only from a failed step.
pub proof fn lemma_job_advances(job: JobView, result: StepResultView)
    requires
        accepts(job, result),
    ensures
        steps_left(next_job(job, result).step) < steps_left(job.step),
        next_job(job, result).position == job.position,
        job.step == JobStep::Cleanup ==> next_job(job, result).failure == job.failure,
        job.failure is None && !(result is Failed) ==> next_job(job, result).failure is None,
{
}

/// Every accepted result keeps what holds of a job at every point: from the
/// first transfer to the cleanup the names are known, and only parts that
/// the metadata offers are fetched.
pub proof fn lemma_job_stays_wf(job: JobView, result: StepResultView)
    requires
        job_wf(job),
        accepts(job, result),
    ensures
        job_wf(next_job(job, result)),
{
}

/// A failed resolution ends the job at once with that failure: nothing is
/// fetched, combined or deleted.
pub proof fn lemma_failed_resolution_finishes(job: JobView, message: Seq<char>)
    requires
        job.step == JobStep::ResolveMetadata,
    ensures
        next_job(job, StepResultView::Failed { message }).step == JobStep::Finished,
        next_job(job, StepResultView::Failed { message }).failure == Some(message),
{
}

/// A failure of a transfer or of the combination leads to the cleanup, and
/// the cleanup finishes the job with that failure however the cleanup went.
pub proof fn lemma_cleanup_follows_failure(
    job: JobView,
    message: Seq<char>,
    cleanup: StepResultView,
)
    requires
        job.step == JobStep::FetchAudio || job.step == JobStep::FetchVideo || job.step
            == JobStep::Combine,
    ensures
        next_job(job, StepResultView::Failed { message }).step == JobStep::Cleanup,
        next_job(next_job(job, StepResultView::Failed { message }), cleanup).step
            == JobStep::Finished,
        next_job(next_job(job, StepResultView::Failed { message }), cleanup).failure == Some(
            message,
        ),
{
}

/// The cleanup never changes a job's outcome, whether the deletion worked
/// or not.
pub proof fn lemma_cleanup_keeps_outcome(job: JobView, cleanup: StepResultView)
    requires
        job.step == JobStep::Cleanup,
    ensures
        next_job(job, cleanup).step == JobStep::Finished,
        next_job(job, cleanup).failure == job.failure,
{
}

/// Without an audio part the audio transfer is skipped: the job goes from
/// the resolution to the video transfer, still combines, with the video
/// file as the only input and the final name as the output, and succeeds
/// when these steps do.
pub proof fn lemma_missing_audio_is_skipped(
    job: JobView,
    id: Seq<char>,
    title: Seq<char>,
    cleanup: StepResultView,
)
    requires
        job.step == JobStep::ResolveMetadata,
        job.failure is None,
    ensures
        ({
            let resolved = next_job(
                job,
                StepResultView::Resolved { id, title, has_audio: false, has_video: true },
            );
            let fetched = next_job(resolved, StepResultView::Completed);
            let combined = next_job(fetched, StepResultView::Completed);
            let cleaned = next_job(combined, cleanup);
            &&& resolved.step == JobStep::FetchVideo
            &&& fetched.step == JobStep::Combine
            &&& combine_inputs_of(fetched) == Some(
                CombineInputsView {
                    audio: None,
                    video: Some(video_name(id)),
                    output: final_name(job.position, id, title),
                },
            )
            &&& combined.step == JobStep::Cleanup
            &&& cleaned.step == JobStep::Finished
            &&& cleaned.failure is None
        }),
{
}

} // verus!
