//! The request that names an address and waits for the file itself.
use crate::effect;
use crate::effect::{Effect, EffectView, Reply, ReplyView};
use crate::error;
use crate::error::{Failure, FailureView};
use crate::link;
use crate::link::{Link, LinkView};
use crate::link_id;
use crate::process::{ProcessLink, ProcessView};
use crate::process_laws;
use vstd::prelude::*;
use vstd::string::*;

verus! {

/// The address that a request names: the rest of its path, and its query where it has one.
pub open spec fn requested_url(root_url: Seq<char>, query: Option<Seq<char>>) -> Seq<char> {
    match query {
        Some(query) => root_url.push('?') + query,
        None => root_url,
    }
}

/// The address that a request names.
pub fn request_url(root_url: String, query: Option<String>) -> (url: String)
    ensures
        url@ == requested_url(root_url@, query.deep_view()),
        query matches Some(text) ==> url@ == root_url@ + "?"@ + text@,
        query is None ==> url@ == root_url@,
{
    match query {
        Some(query) => {
            let ghost root = root_url@;
            let mut url = root_url;
            url.append("?");
            proof {
                reveal_strlit("?");
                assert(url@ =~= root.push('?'));
            }
            url.append(query.as_str());
            assert(url@ =~= root + "?"@ + query@);
            url
        },
        None => root_url,
    }
}

/// The headers under which a transcoded file is sent.
#[derive(Debug)]
pub struct Attachment {
    pub content_type: String,
    pub content_disposition: String,
}

/// The model of an [`Attachment`].
pub struct AttachmentView {
    pub content_type: Seq<char>,
    pub content_disposition: Seq<char>,
}

impl View for Attachment {
    type V = AttachmentView;

    open spec fn view(&self) -> AttachmentView {
        AttachmentView {
            content_type: self.content_type@,
            content_disposition: self.content_disposition@,
        }
    }
}

/// The headers of an MP4 file that the client is to save.
pub open spec fn video_attachment() -> AttachmentView {
    AttachmentView {
        content_type: "video/mp4"@,
        content_disposition: "attachment; filename=\"video.mp4\""@,
    }
}

/// The request for the file behind an address.
#[derive(Debug)]
pub struct DirectRequest {
    pub download_folder: String,
    pub transcode_folder: String,
    pub stage: DirectStage,
}

/// How far such a request has come.
#[derive(Debug)]
pub enum DirectStage {
    /// The request waits for a connection to the store.
    Connecting { url: String },
    /// It waits for the links to its address.
    Finding { url: String },
    /// There was none: it adds one.
    Inserting { link: Link },
    /// It waits for the job on its link.
    Processing(ProcessLink),
    /// It opens the transcoded file.
    Opening { path: String },
    /// It is answered.
    Finished(Result<Attachment, Failure>),
}

/// The model of a [`DirectRequest`].
pub struct DirectView {
    pub download_folder: Seq<char>,
    pub transcode_folder: Seq<char>,
    pub stage: DirectStageView,
}

/// The model of a [`DirectStage`].
pub enum DirectStageView {
    Connecting { url: Seq<char> },
    Finding { url: Seq<char> },
    Inserting { link: LinkView },
    Processing(ProcessView),
    Opening { path: Seq<char> },
    Finished(Result<AttachmentView, FailureView>),
}

impl View for DirectStage {
    type V = DirectStageView;

    open spec fn view(&self) -> DirectStageView {
        match self {
            DirectStage::Connecting { url } => DirectStageView::Connecting { url: url@ },
            DirectStage::Finding { url } => DirectStageView::Finding { url: url@ },
            DirectStage::Inserting { link } => DirectStageView::Inserting { link: link@ },
            DirectStage::Processing(job) => DirectStageView::Processing(job@),
            DirectStage::Opening { path } => DirectStageView::Opening { path: path@ },
            DirectStage::Finished(Ok(attachment)) => DirectStageView::Finished(Ok(attachment@)),
            DirectStage::Finished(Err(failure)) => DirectStageView::Finished(Err(failure@)),
        }
    }
}

impl View for DirectRequest {
    type V = DirectView;

    open spec fn view(&self) -> DirectView {
        DirectView {
            download_folder: self.download_folder@,
            transcode_folder: self.transcode_folder@,
            stage: self.stage@,
        }
    }
}

/// The stage of a request whose job has come this far. Once that is over, the request goes on with
/// the transcoded file, or fails as the job did.
pub open spec fn stage_of_job(job: ProcessView) -> DirectStageView {
    match job.outcome() {
        None => DirectStageView::Processing(job),
        Some(Ok(())) => DirectStageView::Opening { path: job.transcode_path() },
        Some(Err(error)) => DirectStageView::Finished(Err(FailureView::internal(error.text()))),
    }
}

impl DirectView {
    /// A request for the file behind `url` that has not begun.
    pub open spec fn start(
        url: Seq<char>,
        download_folder: Seq<char>,
        transcode_folder: Seq<char>,
    ) -> DirectView {
        DirectView {
            download_folder,
            transcode_folder,
            stage: DirectStageView::Connecting { url },
        }
    }

    /// A job that the request waits for is not over.
    pub open spec fn well_formed(self) -> bool {
        self.stage matches DirectStageView::Processing(job) ==> job.outcome() is None
    }

    /// The effect that the request waits for. One that is answered waits for none.
    pub open spec fn effect(self) -> Option<EffectView> {
        match self.stage {
            DirectStageView::Connecting { .. } => Some(EffectView::Connect),
            DirectStageView::Finding { url } => Some(EffectView::FindByUrl { url }),
            DirectStageView::Inserting { link } => Some(EffectView::InsertLink(link)),
            DirectStageView::Processing(job) => job.effect(),
            DirectStageView::Opening { path } => Some(EffectView::OpenFile { path }),
            DirectStageView::Finished(_) => None,
        }
    }

    /// Whether `reply` makes the request add a link of its own.
    pub open spec fn adds_link(self, reply: ReplyView) -> bool {
        &&& self.stage is Finding
        &&& reply matches ReplyView::Rows(Ok(links)) && links.len() == 0
    }

    /// The job on `link`.
    pub open spec fn job_on(self, link: LinkView) -> ProcessView {
        ProcessView::start(link, self.download_folder, self.transcode_folder)
    }

    /// The stage after `reply`, where a link that is added gets the identifier `id`.
    pub open spec fn stage_after(self, reply: ReplyView, id: Seq<char>) -> DirectStageView {
        match (self.stage, reply) {
            (
                DirectStageView::Connecting { url },
                ReplyView::Connected(Ok(())),
            ) => DirectStageView::Finding { url },
            (
                DirectStageView::Connecting { .. },
                ReplyView::Connected(Err(fault)),
            ) => DirectStageView::Finished(Err(FailureView::internal(fault.display))),
            (DirectStageView::Finding { url }, ReplyView::Rows(Ok(links))) => if links.len() > 0 {
                DirectStageView::Processing(self.job_on(links[0]))
            } else {
                DirectStageView::Inserting { link: link::unseen_link(url, id) }
            },
            (
                DirectStageView::Finding { .. },
                ReplyView::Rows(Err(fault)),
            ) => DirectStageView::Finished(Err(FailureView::of_store(fault))),
            (
                DirectStageView::Inserting { link },
                ReplyView::Row(Ok(_)),
            ) => DirectStageView::Processing(self.job_on(link)),
            (
                DirectStageView::Inserting { .. },
                ReplyView::Row(Err(fault)),
            ) => DirectStageView::Finished(Err(FailureView::of_store(fault))),
            (DirectStageView::Processing(job), _) => stage_of_job(job.after(reply)),
            (
                DirectStageView::Opening { .. },
                ReplyView::Opened(Ok(())),
            ) => DirectStageView::Finished(Ok(video_attachment())),
            (
                DirectStageView::Opening { .. },
                ReplyView::Opened(Err(message)),
            ) => DirectStageView::Finished(
                Err(
                    FailureView {
                        status: error::NOT_FOUND,
                        message: "File not found: "@ + message,
                    },
                ),
            ),
            _ => self.stage,
        }
    }

    /// The request after `reply`, where a link that is added gets the identifier `id`.
    pub open spec fn after(self, reply: ReplyView, id: Seq<char>) -> DirectView {
        DirectView { stage: self.stage_after(reply, id), ..self }
    }
}

/// The stage of a request whose job has come this far.
fn with_job(job: ProcessLink) -> (stage: DirectStage)
    ensures
        stage@ == stage_of_job(job@),
{
    match job.outcome() {
        Some(Ok(())) => DirectStage::Opening { path: job.transcode_path() },
        Some(Err(error)) => DirectStage::Finished(
            Err(Failure { status: error::INTERNAL_SERVER_ERROR, message: error.describe() }),
        ),
        None => DirectStage::Processing(job),
    }
}

impl DirectRequest {
    /// A request for the file behind `url` that has not begun.
    pub fn start(url: String, download_folder: String, transcode_folder: String) -> (request:
        DirectRequest)
        ensures
            request@ == DirectView::start(url@, download_folder@, transcode_folder@),
            request@.well_formed(),
    {
        DirectRequest { download_folder, transcode_folder, stage: DirectStage::Connecting { url } }
    }

    /// The effect that the request waits for.
    pub fn effect(&self) -> (effect: Option<Effect>)
        ensures
            match effect {
                Some(effect) => self@.effect() == Some(effect@),
                None => self@.effect() is None,
            },
    {
        match &self.stage {
            DirectStage::Connecting { .. } => Some(Effect::Connect),
            DirectStage::Finding { url } => Some(Effect::FindByUrl { url: url.clone() }),
            DirectStage::Inserting { link } => Some(Effect::InsertLink(link.clone())),
            DirectStage::Processing(job) => job.effect(),
            DirectStage::Opening { path } => Some(Effect::OpenFile { path: path.clone() }),
            DirectStage::Finished(_) => None,
        }
    }

    /// The request after `reply`, where a link that is added gets the identifier `id`.
    pub fn resume_with_id(self, reply: Reply, id: String) -> (request: DirectRequest)
        ensures
            request@ == self@.after(reply@, id@),
            self@.well_formed() ==> request@.well_formed(),
    {
        let download_folder = self.download_folder;
        let transcode_folder = self.transcode_folder;
        let stage = match (self.stage, reply) {
            (DirectStage::Connecting { url }, Reply::Connected(Ok(()))) => {
                DirectStage::Finding { url }
            },
            (DirectStage::Connecting { url: _ }, Reply::Connected(Err(fault))) => {
                DirectStage::Finished(Err(error::internal_error(fault)))
            },
            (DirectStage::Finding { url }, Reply::Rows(Ok(links))) => {
                if links.len() > 0 {
                    let job = ProcessLink::start(
                        links[0].clone(),
                        download_folder.clone(),
                        transcode_folder.clone(),
                    );
                    DirectStage::Processing(job)
                } else {
                    DirectStage::Inserting { link: Link::with_id(url, id) }
                }
            },
            (DirectStage::Finding { url: _ }, Reply::Rows(Err(fault))) => {
                DirectStage::Finished(Err(Failure::of_store(fault)))
            },
            (DirectStage::Inserting { link }, Reply::Row(Ok(_))) => {
                let job = ProcessLink::start(
                    link,
                    download_folder.clone(),
                    transcode_folder.clone(),
                );
                DirectStage::Processing(job)
            },
            (DirectStage::Inserting { link: _ }, Reply::Row(Err(fault))) => {
                DirectStage::Finished(Err(Failure::of_store(fault)))
            },
            (DirectStage::Processing(job), reply) => {
                with_job(job.resume(reply))
            },
            (DirectStage::Opening { path: _ }, Reply::Opened(Ok(()))) => {
                DirectStage::Finished(
                    Ok(
                        Attachment {
                            content_type: "video/mp4".to_owned(),
                            content_disposition: "attachment; filename=\"video.mp4\"".to_owned(),
                        },
                    ),
                )
            },
            (DirectStage::Opening { path: _ }, Reply::Opened(Err(text))) => {
                let mut message = "File not found: ".to_owned();
                message.append(text.as_str());
                DirectStage::Finished(Err(Failure { status: error::NOT_FOUND, message }))
            },
            (stage, _) => stage,
        };
        DirectRequest { download_folder, transcode_folder, stage }
    }

    /// Whether `reply` makes the request add a link of its own.
    fn adds_link(&self, reply: &Reply) -> (res: bool)
        ensures
            res == self@.adds_link(reply@),
    {
        match (&self.stage, reply) {
            (DirectStage::Finding { .. }, Reply::Rows(Ok(links))) => links.len() == 0,
            _ => false,
        }
    }

    /// The request after `reply`. A link that is added gets a new random identifier.
    pub fn resume(self, reply: Reply) -> (request: DirectRequest)
        ensures
            exists|id: Seq<char>|
                (self@.adds_link(reply@) ==> link_id::is_link_id(id)) && request@ == #[trigger] self@.after(
                    reply@,
                    id,
                ),
            self@.well_formed() ==> request@.well_formed(),
    {
        let id = if self.adds_link(&reply) {
            link_id::new_link_id()
        } else {
            String::new()
        };
        let ghost id_view = id@;
        let request = self.resume_with_id(reply, id);
        assert(request@ == self@.after(reply@, id_view));
        request
    }

    /// The answer, once there is one.
    pub fn answer(self) -> (answer: Option<Result<Attachment, Failure>>)
        ensures
            match answer {
                Some(Ok(attachment)) => self@.stage == DirectStageView::Finished(Ok(attachment@)),
                Some(Err(failure)) => self@.stage == DirectStageView::Finished(Err(failure@)),
                None => !(self@.stage is Finished),
            },
    {
        match self.stage {
            DirectStage::Finished(answer) => Some(answer),
            _ => None,
        }
    }
}

/// The request after all these replies, where a link that is added gets the identifier `id`.
pub open spec fn run(request: DirectView, replies: Seq<ReplyView>, id: Seq<char>) -> DirectView
    decreases replies.len(),
{
    if replies.len() == 0 {
        request
    } else {
        run(request, replies.drop_last(), id).after(replies.last(), id)
    }
}

/// Each of these replies is one to the effect that the request waited for when it came.
pub open spec fn answered(request: DirectView, replies: Seq<ReplyView>, id: Seq<char>) -> bool
    decreases replies.len(),
{
    replies.len() > 0 ==> {
        &&& answered(request, replies.drop_last(), id)
        &&& run(request, replies.drop_last(), id).effect() matches Some(effect)
        &&& effect::answers(effect, replies.last())
    }
}

/// How many replies a request in this stage waits for at most.
pub open spec fn remaining(stage: DirectStageView) -> nat {
    match stage {
        DirectStageView::Connecting { .. } => 17,
        DirectStageView::Finding { .. } => 16,
        DirectStageView::Inserting { .. } => 15,
        DirectStageView::Processing(job) => 1 + process_laws::remaining(job.stage),
        DirectStageView::Opening { .. } => 1,
        DirectStageView::Finished(_) => 0,
    }
}

/// A request in good order waits for something until it is answered.
pub proof fn lemma_request_waits_until_it_is_answered(request: DirectView)
    requires
        request.well_formed(),
    ensures
        request.effect() is None <==> request.stage is Finished,
{
}

/// A request is answered after at most seventeen replies, whatever they say.
pub proof fn lemma_request_ends(request: DirectView, replies: Seq<ReplyView>, id: Seq<char>)
    requires
        request.stage is Connecting,
        answered(request, replies, id),
    ensures
        replies.len() + remaining(run(request, replies, id).stage) <= 17,
        replies.len() == 17 ==> run(request, replies, id).stage is Finished,
        run(request, replies, id).well_formed(),
    decreases replies.len(),
{
    if replies.len() > 0 {
        let before = run(request, replies.drop_last(), id);
        lemma_request_ends(request, replies.drop_last(), id);
        if let DirectStageView::Processing(job) = before.stage {
            process_laws::lemma_only_answers_count(job, replies.last());
        }
    }
}

/// Whether the request holds a connection to the store after these replies.
pub open spec fn connected(request: DirectView, replies: Seq<ReplyView>, id: Seq<char>) -> bool {
    effect::connected(|earlier: Seq<ReplyView>| run(request, earlier, id).effect(), replies)
}

/// A request, and the job that it waits for, connect to the store before anything else: whatever
/// else is waited for, a connection is held.
pub proof fn lemma_request_connects_first(
    request: DirectView,
    replies: Seq<ReplyView>,
    id: Seq<char>,
)
    requires
        request.stage is Connecting,
    ensures
        run(request, replies, id).effect() matches Some(effect) ==> effect is Connect || connected(
            request,
            replies,
            id,
        ),
    decreases replies.len(),
{
    if replies.len() > 0 {
        lemma_request_connects_first(request, replies.drop_last(), id);
    }
}

/// Whether the `k`-th of these replies ended the request's job well, and left its transcoded file
/// at `path`.
pub open spec fn job_succeeds_at(
    request: DirectView,
    replies: Seq<ReplyView>,
    id: Seq<char>,
    k: int,
    path: Seq<char>,
) -> bool {
    &&& 0 <= k < replies.len()
    &&& run(request, replies.take(k), id).stage matches DirectStageView::Processing(job)
    &&& process_laws::succeeded(job.after(replies[k]))
    &&& job.transcode_path() == path
}

proof fn lemma_opening_follows_a_job(request: DirectView, replies: Seq<ReplyView>, id: Seq<char>)
    requires
        request.stage is Connecting,
    ensures
        run(request, replies, id).stage matches DirectStageView::Opening { path } ==> exists|k: int|
            job_succeeds_at(request, replies, id, k, path),
    decreases replies.len(),
{
    if replies.len() > 0 {
        let earlier = replies.drop_last();
        let last: int = replies.len() - 1;
        lemma_opening_follows_a_job(request, earlier, id);
        assert(replies.take(last) =~= earlier);
        if let DirectStageView::Opening { path } = run(request, replies, id).stage {
            if run(request, earlier, id).stage is Processing {
                assert(job_succeeds_at(request, replies, id, last, path));
            } else {
                let k = choose|k: int| job_succeeds_at(request, earlier, id, k, path);
                assert(replies.take(k) =~= earlier.take(k));
                assert(job_succeeds_at(request, replies, id, k, path));
            }
        }
    }
}

/// A file is sent only where the job on the request's link succeeded, and it is that job's
/// transcoded file, which was there to be opened. It goes out as an MP4 to be saved.
pub proof fn lemma_file_is_sent_after_its_job(
    request: DirectView,
    replies: Seq<ReplyView>,
    id: Seq<char>,
    attachment: AttachmentView,
)
    requires
        request.stage is Connecting,
        run(request, replies, id).stage == DirectStageView::Finished(
            Ok::<AttachmentView, FailureView>(attachment),
        ),
    ensures
        attachment == video_attachment(),
        exists|n: int, k: int, path: Seq<char>|
            {
                &&& 0 <= k < n < replies.len()
                &&& run(request, replies.take(n), id).stage == (DirectStageView::Opening { path })
                &&& (replies[n] matches ReplyView::Opened(result) && result is Ok)
                &&& #[trigger] job_succeeds_at(request, replies.take(n), id, k, path)
            },
    decreases replies.len(),
{
    let earlier = replies.drop_last();
    let last: int = replies.len() - 1;
    assert(replies.take(last) =~= earlier);
    if let DirectStageView::Opening { path } = run(request, earlier, id).stage {
        lemma_opening_follows_a_job(request, earlier, id);
        let k = choose|k: int| job_succeeds_at(request, earlier, id, k, path);
        assert(job_succeeds_at(request, replies.take(last), id, k, path));
    } else {
        lemma_file_is_sent_after_its_job(request, earlier, id, attachment);
        let (n, k, path) = choose|n: int, k: int, path: Seq<char>|
            {
                &&& 0 <= k < n < earlier.len()
                &&& run(request, earlier.take(n), id).stage == (DirectStageView::Opening { path })
                &&& (earlier[n] matches ReplyView::Opened(result) && result is Ok)
                &&& #[trigger] job_succeeds_at(request, earlier.take(n), id, k, path)
            };
        assert(earlier.take(n) =~= replies.take(n));
        assert(job_succeeds_at(request, replies.take(n), id, k, path));
    }
}

/// A query follows the path behind a question mark, as it is. Without one the path stands alone.
pub proof fn lemma_address_keeps_its_query(root_url: Seq<char>, query: Seq<char>)
    ensures
        requested_url(root_url, Some(query)) == root_url + "?"@ + query,
        requested_url(root_url, None) == root_url,
{
    reveal_strlit("?");
    assert("?"@ =~= seq!['?']);
    assert(requested_url(root_url, Some(query)) =~= root_url + "?"@ + query);
}

/// The model of a direct request has its folders and is at the same point, with the same address,
/// link, job, path and answer.
pub proof fn lemma_model_of_a_direct_request(request: DirectRequest)
    ensures
        request@.download_folder == request.download_folder@,
        request@.transcode_folder == request.transcode_folder@,
        match request.stage {
            DirectStage::Connecting { url } => request@.stage == (DirectStageView::Connecting {
                url: url@,
            }),
            DirectStage::Finding { url } => request@.stage == (DirectStageView::Finding {
                url: url@,
            }),
            DirectStage::Inserting { link } => request@.stage == (DirectStageView::Inserting {
                link: link@,
            }),
            DirectStage::Processing(job) => request@.stage == DirectStageView::Processing(job@),
            DirectStage::Opening { path } => request@.stage == (DirectStageView::Opening {
                path: path@,
            }),
            DirectStage::Finished(answer) => {
                &&& request@.stage matches DirectStageView::Finished(model)
                &&& model is Ok <==> answer is Ok
                &&& answer is Ok ==> model->Ok_0.content_type == answer->Ok_0.content_type@
                &&& answer is Ok ==> model->Ok_0.content_disposition
                    == answer->Ok_0.content_disposition@
                &&& answer is Err ==> model->Err_0 == answer->Err_0@
            },
        },
{
}

/// A transcoded file goes out as an MP4 that the client is to save as `video.mp4`.
pub proof fn lemma_headers_of_a_video(attachment: Attachment)
    ensures
        video_attachment().content_type == "video/mp4"@,
        video_attachment().content_disposition == "attachment; filename=\"video.mp4\""@,
        attachment@.content_type == attachment.content_type@,
        attachment@.content_disposition == attachment.content_disposition@,
{
}

} // verus!
