//! What holds of the background worker over its whole queue, whatever the outside world replies.
use crate::effect;
use crate::effect::ReplyView;
use crate::link::LinkView;
use crate::process::ProcessView;
use crate::process_laws;
use crate::tasks;
use crate::tasks::{TaskStageView, TaskView};
use vstd::prelude::*;

verus! {

/// The links that the worker took from its queue, in order.
pub open spec fn taken(worker: TaskView, replies: Seq<ReplyView>) -> Seq<LinkView>
    decreases replies.len(),
{
    if replies.len() == 0 {
        seq![]
    } else {
        let earlier = replies.drop_last();
        match (tasks::run(worker, earlier).stage, replies.last()) {
            (TaskStageView::Waiting, ReplyView::Received(Some(link))) => taken(
                worker,
                earlier,
            ).push(link),
            _ => taken(worker, earlier),
        }
    }
}

/// The jobs that the worker began, in order: those that it had under way and had not just before.
pub open spec fn begun(worker: TaskView, replies: Seq<ReplyView>) -> Seq<ProcessView>
    decreases replies.len(),
{
    if replies.len() == 0 {
        seq![]
    } else {
        let earlier = replies.drop_last();
        match (tasks::run(worker, earlier).stage, tasks::run(worker, replies).stage) {
            (TaskStageView::Processing(_), _) => begun(worker, earlier),
            (_, TaskStageView::Processing(job)) => begun(worker, earlier).push(job),
            _ => begun(worker, earlier),
        }
    }
}

/// The jobs, as they were when they were over, on which the worker attempted a note, in order. An
/// attempt ends where no connection is had, or else with what the store says to the note.
pub open spec fn noted(worker: TaskView, replies: Seq<ReplyView>) -> Seq<ProcessView>
    decreases replies.len(),
{
    if replies.len() == 0 {
        seq![]
    } else {
        let earlier = replies.drop_last();
        match (tasks::run(worker, earlier).stage, replies.last()) {
            (TaskStageView::Connecting(job), ReplyView::Connected(Err(_))) => noted(
                worker,
                earlier,
            ).push(job),
            (TaskStageView::Settling(job), ReplyView::Written(_)) => noted(worker, earlier).push(
                job,
            ),
            _ => noted(worker, earlier),
        }
    }
}

/// The job that the worker is at, under way or over.
pub open spec fn current(worker: TaskView) -> Option<ProcessView> {
    match worker.stage {
        TaskStageView::Processing(job) => Some(job),
        TaskStageView::Connecting(job) => Some(job),
        TaskStageView::Settling(job) => Some(job),
        _ => None,
    }
}

/// Some replies take the first job to where the second is.
pub open spec fn leads_to(start: ProcessView, job: ProcessView) -> bool {
    exists|replies: Seq<ReplyView>| #[trigger] process_laws::run(start, replies) == job
}

proof fn lemma_leads_further(start: ProcessView, job: ProcessView, reply: ReplyView)
    requires
        leads_to(start, job),
    ensures
        leads_to(start, job.after(reply)),
{
    let replies = choose|replies: Seq<ReplyView>| #[trigger]
        process_laws::run(start, replies) == job;
    let further = replies.push(reply);
    assert(further.drop_last() =~= replies);
    assert(process_laws::run(start, further) == job.after(reply));
}

/// The worker keeps to its folders.
pub proof fn lemma_worker_keeps_its_folders(worker: TaskView, replies: Seq<ReplyView>)
    ensures
        tasks::run(worker, replies).download_folder == worker.download_folder,
        tasks::run(worker, replies).transcode_folder == worker.transcode_folder,
    decreases replies.len(),
{
    if replies.len() > 0 {
        lemma_worker_keeps_its_folders(worker, replies.drop_last());
    }
}

/// The jobs that the worker begins are exactly those on the links that it takes, in their order.
pub proof fn lemma_each_link_gets_its_job(worker: TaskView, replies: Seq<ReplyView>)
    requires
        worker.stage is Waiting,
    ensures
        begun(worker, replies).len() == taken(worker, replies).len(),
        forall|i: int|
            0 <= i < taken(worker, replies).len() ==> #[trigger] begun(worker, replies)[i]
                == ProcessView::start(
                taken(worker, replies)[i],
                worker.download_folder,
                worker.transcode_folder,
            ),
    decreases replies.len(),
{
    if replies.len() > 0 {
        lemma_each_link_gets_its_job(worker, replies.drop_last());
        lemma_worker_keeps_its_folders(worker, replies.drop_last());
    }
}

/// The worker has at most one job at a time. On every job that it began, but for the one that it is
/// at, a note was attempted, in the order of the jobs and of how that very job ended. The one that
/// it is at is the last that it began.
pub proof fn lemma_one_job_at_a_time(worker: TaskView, replies: Seq<ReplyView>)
    requires
        worker.stage is Waiting,
    ensures
        ({
            let now = tasks::run(worker, replies);
            let jobs = begun(worker, replies);
            let notes = noted(worker, replies);
            &&& now.well_formed()
            &&& jobs.len() == notes.len() + if current(now) is Some {
                1nat
            } else {
                0nat
            }
            &&& forall|i: int|
                0 <= i < notes.len() ==> (#[trigger] notes[i]).outcome() is Some && leads_to(
                    jobs[i],
                    notes[i],
                )
            &&& current(now) matches Some(job) ==> leads_to(jobs.last(), job)
        }),
    decreases replies.len(),
{
    if replies.len() > 0 {
        let earlier = replies.drop_last();
        let before = tasks::run(worker, earlier);
        let now = tasks::run(worker, replies);
        lemma_one_job_at_a_time(worker, earlier);
        match before.stage {
            TaskStageView::Processing(job) => {
                lemma_leads_further(begun(worker, earlier).last(), job, replies.last());
            },
            TaskStageView::Waiting => {
                if let TaskStageView::Processing(job) = now.stage {
                    assert(process_laws::run(job, seq![]) == job);
                    assert(leads_to(job, job));
                    assert(begun(worker, replies).last() == job);
                }
            },
            _ => {},
        }
        let jobs = begun(worker, replies);
        let notes = noted(worker, replies);
        assert forall|i: int| 0 <= i < notes.len() implies (#[trigger] notes[i]).outcome() is Some
            && leads_to(jobs[i], notes[i]) by {
            if i < noted(worker, earlier).len() {
                assert(notes[i] == noted(worker, earlier)[i]);
                assert(jobs[i] == begun(worker, earlier)[i]);
            } else {
                assert(jobs[i] == begun(worker, earlier).last());
            }
        }
    }
}

/// A job begins only once a note was attempted on every job before it, and so on the last of them.
pub proof fn lemma_job_begins_after_the_note(worker: TaskView, replies: Seq<ReplyView>)
    requires
        worker.stage is Waiting,
        replies.len() > 0,
        begun(worker, replies).len() > begun(worker, replies.drop_last()).len(),
    ensures
        begun(worker, replies).len() == begun(worker, replies.drop_last()).len() + 1,
        noted(worker, replies.drop_last()).len() == begun(worker, replies.drop_last()).len(),
        forall|i: int|
            0 <= i < begun(worker, replies.drop_last()).len() ==> leads_to(
                begun(worker, replies.drop_last())[i],
                #[trigger] noted(worker, replies.drop_last())[i],
            ),
{
    lemma_one_job_at_a_time(worker, replies.drop_last());
    lemma_one_job_at_a_time(worker, replies);
}

/// Whether the `k`-th of these replies told a waiting worker that its queue is closed.
pub open spec fn closed_at(worker: TaskView, replies: Seq<ReplyView>, k: int) -> bool {
    &&& 0 <= k < replies.len()
    &&& tasks::run(worker, replies.take(k)).stage is Waiting
    &&& replies[k] == ReplyView::Received(None)
}

/// The worker ends exactly when it is told, while it waits, that its queue is closed. By then it
/// has attempted a note on every link that it took.
pub proof fn lemma_worker_ends_with_its_queue(worker: TaskView, replies: Seq<ReplyView>)
    requires
        worker.stage is Waiting,
    ensures
        tasks::run(worker, replies).effect() is None <==> exists|k: int|
            closed_at(worker, replies, k),
        tasks::run(worker, replies).effect() is None ==> noted(worker, replies).len() == taken(
            worker,
            replies,
        ).len(),
    decreases replies.len(),
{
    lemma_one_job_at_a_time(worker, replies);
    lemma_each_link_gets_its_job(worker, replies);
    tasks::lemma_worker_waits_until_its_queue_is_closed(tasks::run(worker, replies));
    if replies.len() > 0 {
        let earlier = replies.drop_last();
        let last: int = replies.len() - 1;
        lemma_worker_ends_with_its_queue(worker, earlier);
        lemma_one_job_at_a_time(worker, earlier);
        tasks::lemma_worker_waits_until_its_queue_is_closed(tasks::run(worker, earlier));
        assert(replies.take(last) =~= earlier);
        if exists|k: int| closed_at(worker, earlier, k) {
            let k = choose|k: int| closed_at(worker, earlier, k);
            assert(replies.take(k) =~= earlier.take(k));
            assert(closed_at(worker, replies, k));
        } else if tasks::run(worker, replies).stage is Closed {
            assert(closed_at(worker, replies, last));
        }
        if exists|k: int| closed_at(worker, replies, k) {
            let k = choose|k: int| closed_at(worker, replies, k);
            if k < last {
                assert(replies.take(k) =~= earlier.take(k));
                assert(closed_at(worker, earlier, k));
            }
        }
    }
}

/// Whether the worker holds a connection to the store after these replies.
pub open spec fn connected(worker: TaskView, replies: Seq<ReplyView>) -> bool {
    effect::connected(|earlier: Seq<ReplyView>| tasks::run(worker, earlier).effect(), replies)
}

/// The worker connects to the store anew for every job and for every note: whatever it waits for,
/// other than the next link and a connection itself, it holds one.
pub proof fn lemma_worker_connects_first(worker: TaskView, replies: Seq<ReplyView>)
    requires
        worker.stage is Waiting,
    ensures
        tasks::run(worker, replies).effect() matches Some(effect) ==> effect is Connect
            || effect is Receive || connected(worker, replies),
    decreases replies.len(),
{
    if replies.len() > 0 {
        lemma_worker_connects_first(worker, replies.drop_last());
        lemma_one_job_at_a_time(worker, replies.drop_last());
    }
}

} // verus!
