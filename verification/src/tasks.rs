//! The background worker: one job at a time, each with a note in the store on how it ended.
use crate::effect::{Effect, EffectView, Reply, ReplyView};
use crate::link::LinkView;
use crate::process::{ProcessLink, ProcessView};
use crate::process_laws;
use vstd::prelude::*;

verus! {

/// What the worker is at.
#[derive(Debug)]
pub enum TaskStage {
    /// It waits for a link.
    Waiting,
    /// It has a job under way.
    Processing(ProcessLink),
    /// The job is over, and the worker waits for a connection to the store.
    Connecting(ProcessLink),
    /// It notes how the job ended.
    Settling(ProcessLink),
    /// No link will come any more.
    Closed,
}

/// The model of a [`TaskStage`].
pub enum TaskStageView {
    Waiting,
    Processing(ProcessView),
    Connecting(ProcessView),
    Settling(ProcessView),
    Closed,
}

impl View for TaskStage {
    type V = TaskStageView;

    open spec fn view(&self) -> TaskStageView {
        match self {
            TaskStage::Waiting => TaskStageView::Waiting,
            TaskStage::Processing(job) => TaskStageView::Processing(job@),
            TaskStage::Connecting(job) => TaskStageView::Connecting(job@),
            TaskStage::Settling(job) => TaskStageView::Settling(job@),
            TaskStage::Closed => TaskStageView::Closed,
        }
    }
}

/// The background worker.
#[derive(Debug)]
pub struct TaskManager {
    pub download_folder: String,
    pub transcode_folder: String,
    pub stage: TaskStage,
}

/// The model of a [`TaskManager`].
pub struct TaskView {
    pub download_folder: Seq<char>,
    pub transcode_folder: Seq<char>,
    pub stage: TaskStageView,
}

impl View for TaskManager {
    type V = TaskView;

    open spec fn view(&self) -> TaskView {
        TaskView {
            download_folder: self.download_folder@,
            transcode_folder: self.transcode_folder@,
            stage: self.stage@,
        }
    }
}

/// The note on a job that is over: why it failed, or that it is done.
pub open spec fn note_on(job: ProcessView) -> EffectView {
    match job.outcome() {
        Some(Err(error)) => EffectView::SetError { id: job.link.id, error: error.text() },
        _ => EffectView::SetFinished { id: job.link.id },
    }
}

impl TaskView {
    /// Only a job that is over is settled, and only one that is not is under way.
    pub open spec fn well_formed(self) -> bool {
        match self.stage {
            TaskStageView::Processing(job) => job.outcome() is None,
            TaskStageView::Connecting(job) => job.outcome() is Some,
            TaskStageView::Settling(job) => job.outcome() is Some,
            _ => true,
        }
    }

    /// The effect that the worker waits for. Once the queue is closed it waits for none.
    pub open spec fn effect(self) -> Option<EffectView> {
        match self.stage {
            TaskStageView::Waiting => Some(EffectView::Receive),
            TaskStageView::Processing(job) => job.effect(),
            TaskStageView::Connecting(_) => Some(EffectView::Connect),
            TaskStageView::Settling(job) => Some(note_on(job)),
            TaskStageView::Closed => None,
        }
    }

    /// The stage after `reply`. Neither a job that failed nor a note that could not be made keeps
    /// the worker from the next link.
    pub open spec fn stage_after(self, reply: ReplyView) -> TaskStageView {
        match (self.stage, reply) {
            (
                TaskStageView::Waiting,
                ReplyView::Received(Some(link)),
            ) => TaskStageView::Processing(
                ProcessView::start(link, self.download_folder, self.transcode_folder),
            ),
            (TaskStageView::Waiting, ReplyView::Received(None)) => TaskStageView::Closed,
            (TaskStageView::Processing(job), _) => {
                let next = job.after(reply);
                if next.outcome() is Some {
                    TaskStageView::Connecting(next)
                } else {
                    TaskStageView::Processing(next)
                }
            },
            (
                TaskStageView::Connecting(job),
                ReplyView::Connected(Ok(())),
            ) => TaskStageView::Settling(job),
            (
                TaskStageView::Connecting(_),
                ReplyView::Connected(Err(_)),
            ) => TaskStageView::Waiting,
            (TaskStageView::Settling(_), ReplyView::Written(_)) => TaskStageView::Waiting,
            _ => self.stage,
        }
    }

    /// The worker after `reply`.
    pub open spec fn after(self, reply: ReplyView) -> TaskView {
        TaskView { stage: self.stage_after(reply), ..self }
    }
}

/// The note on a job that is over.
fn note(job: &ProcessLink) -> (effect: Effect)
    ensures
        effect@ == note_on(job@),
{
    let id = job.link().id.clone();
    match job.outcome() {
        Some(Err(error)) => Effect::SetError { id, error: error.describe() },
        _ => Effect::SetFinished { id },
    }
}

impl TaskManager {
    /// A worker that waits for its first link.
    pub fn start(download_folder: String, transcode_folder: String) -> (worker: TaskManager)
        ensures
            worker@ == (TaskView {
                download_folder: download_folder@,
                transcode_folder: transcode_folder@,
                stage: TaskStageView::Waiting,
            }),
            worker@.well_formed(),
    {
        TaskManager { download_folder, transcode_folder, stage: TaskStage::Waiting }
    }

    /// The effect that the worker waits for.
    pub fn effect(&self) -> (effect: Option<Effect>)
        ensures
            match effect {
                Some(effect) => self@.effect() == Some(effect@),
                None => self@.effect() is None,
            },
    {
        match &self.stage {
            TaskStage::Waiting => Some(Effect::Receive),
            TaskStage::Processing(job) => job.effect(),
            TaskStage::Connecting(_) => Some(Effect::Connect),
            TaskStage::Settling(job) => Some(note(job)),
            TaskStage::Closed => None,
        }
    }

    /// The worker after `reply`.
    pub fn resume(self, reply: Reply) -> (worker: TaskManager)
        ensures
            worker@ == self@.after(reply@),
            self@.well_formed() ==> worker@.well_formed(),
    {
        let download_folder = self.download_folder;
        let transcode_folder = self.transcode_folder;
        let stage = match (self.stage, reply) {
            (TaskStage::Waiting, Reply::Received(Some(link))) => {
                TaskStage::Processing(
                    ProcessLink::start(link, download_folder.clone(), transcode_folder.clone()),
                )
            },
            (TaskStage::Waiting, Reply::Received(None)) => TaskStage::Closed,
            (TaskStage::Processing(job), reply) => {
                let next = job.resume(reply);
                if next.outcome().is_some() {
                    TaskStage::Connecting(next)
                } else {
                    TaskStage::Processing(next)
                }
            },
            (TaskStage::Connecting(job), Reply::Connected(Ok(()))) => TaskStage::Settling(job),
            (TaskStage::Connecting(_), Reply::Connected(Err(_))) => TaskStage::Waiting,
            (TaskStage::Settling(_), Reply::Written(_)) => TaskStage::Waiting,
            (stage, _) => stage,
        };
        TaskManager { download_folder, transcode_folder, stage }
    }
}

/// The worker after all these replies.
pub open spec fn run(worker: TaskView, replies: Seq<ReplyView>) -> TaskView
    decreases replies.len(),
{
    if replies.len() == 0 {
        worker
    } else {
        run(worker, replies.drop_last()).after(replies.last())
    }
}

/// A worker in good order waits for something as long as its queue is open.
pub proof fn lemma_worker_waits_until_its_queue_is_closed(worker: TaskView)
    requires
        worker.well_formed(),
    ensures
        worker.effect() is None <==> worker.stage is Closed,
{
}

/// While a job is under way, the replies to the worker are replies to the job. With the last of
/// them the worker turns to the store.
pub proof fn lemma_worker_runs_the_job(
    worker: TaskView,
    link: LinkView,
    replies: Seq<ReplyView>,
)
    requires
        worker.stage is Waiting,
        process_laws::answered(
            ProcessView::start(link, worker.download_folder, worker.transcode_folder),
            replies,
        ),
    ensures
        ({
            let job = process_laws::run(
                ProcessView::start(link, worker.download_folder, worker.transcode_folder),
                replies,
            );
            let busy = run(worker.after(ReplyView::Received(Some(link))), replies);
            busy.stage == if job.outcome() is Some {
                TaskStageView::Connecting(job)
            } else {
                TaskStageView::Processing(job)
            }
        }),
    decreases replies.len(),
{
    if replies.len() > 0 {
        lemma_worker_runs_the_job(worker, link, replies.drop_last());
    }
}

/// Every link that the worker takes gets a note under its own identifier on how its job ended, if
/// only the store can be reached, and whatever happened the worker then waits for the next link.
pub proof fn lemma_every_job_is_settled(
    worker: TaskView,
    link: LinkView,
    replies: Seq<ReplyView>,
    connected: ReplyView,
    written: ReplyView,
)
    requires
        worker.stage is Waiting,
        ({
            let start = ProcessView::start(link, worker.download_folder, worker.transcode_folder);
            &&& process_laws::answered(start, replies)
            &&& process_laws::run(start, replies).outcome() is Some
        }),
        connected is Connected,
        written is Written,
    ensures
        ({
            let job = process_laws::run(
                ProcessView::start(link, worker.download_folder, worker.transcode_folder),
                replies,
            );
            let done = run(worker.after(ReplyView::Received(Some(link))), replies);
            let reached = done.after(connected);
            &&& job.link == link
            &&& done.effect() == Some(EffectView::Connect)
            &&& connected->Connected_0 is Ok ==> {
                &&& reached.effect() == Some(note_on(job))
                &&& reached.after(written).stage is Waiting
            }
            &&& connected->Connected_0 is Err ==> reached.stage is Waiting
        }),
{
    let start = ProcessView::start(link, worker.download_folder, worker.transcode_folder);
    lemma_worker_runs_the_job(worker, link, replies);
    process_laws::lemma_job_keeps_its_link(start, replies);
}

/// The model of the worker has its folders, and its job where it is at one.
pub proof fn lemma_model_of_the_worker(worker: TaskManager)
    ensures
        worker@.download_folder == worker.download_folder@,
        worker@.transcode_folder == worker.transcode_folder@,
        match worker.stage {
            TaskStage::Waiting => worker@.stage is Waiting,
            TaskStage::Processing(job) => worker@.stage == TaskStageView::Processing(job@),
            TaskStage::Connecting(job) => worker@.stage == TaskStageView::Connecting(job@),
            TaskStage::Settling(job) => worker@.stage == TaskStageView::Settling(job@),
            TaskStage::Closed => worker@.stage is Closed,
        },
{
}

} // verus!
