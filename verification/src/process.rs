//! The job behind every link: download it, recognise what is known already, transcode the rest.
use crate::command;
use crate::command::Picture;
use crate::digest;
use crate::effect::{Effect, EffectView, Reply, ReplyView};
use crate::error::{CustomErrors, CustomErrorsView, StoreFaultView};
use crate::hexadecimal;
use crate::link::{Link, LinkView};
use crate::path;
use crate::probe;
use vstd::prelude::*;
use vstd::string::*;

verus! {

/// How far a job has come.
#[derive(Debug)]
pub enum Stage {
    /// The job waits for a connection to the store.
    Connecting,
    /// It waits for the other links to the same address.
    FindingTwins,
    /// It records the hash of such a link as its own.
    AdoptingHash(Option<String>),
    /// It downloads the file.
    Downloading,
    /// It looks whether that left a file.
    CheckingDownload,
    /// It reads the file to hash it.
    Hashing,
    /// It waits for the links with the same hash.
    FindingCopies(String),
    /// It records the hash. A known one needs no transcoding.
    RecordingHash { hash: String, known: bool },
    /// It waits for the report on the file's streams.
    Probing,
    /// It extracts the cover image of a file without moving pictures.
    ExtractingCover,
    /// It looks whether there was one.
    CheckingCover,
    /// It removes the image.
    RemovingCover { found: bool },
    /// It transcodes the file.
    Transcoding(Picture),
    /// It removes the downloaded file.
    RemovingDownload,
    /// It is over.
    Finished(Result<(), CustomErrors>),
}

/// The model of a [`Stage`].
pub enum StageView {
    Connecting,
    FindingTwins,
    AdoptingHash(Option<Seq<char>>),
    Downloading,
    CheckingDownload,
    Hashing,
    FindingCopies(Seq<char>),
    RecordingHash { hash: Seq<char>, known: bool },
    Probing,
    ExtractingCover,
    CheckingCover,
    RemovingCover { found: bool },
    Transcoding(Picture),
    RemovingDownload,
    Finished(Result<(), CustomErrorsView>),
}

/// The model of a job's outcome.
pub open spec fn outcome_view(outcome: Result<(), CustomErrors>) -> Result<(), CustomErrorsView> {
    match outcome {
        Ok(()) => Ok(()),
        Err(error) => Err(error@),
    }
}

impl View for Stage {
    type V = StageView;

    open spec fn view(&self) -> StageView {
        match self {
            Stage::Connecting => StageView::Connecting,
            Stage::FindingTwins => StageView::FindingTwins,
            Stage::AdoptingHash(hash) => StageView::AdoptingHash(hash.deep_view()),
            Stage::Downloading => StageView::Downloading,
            Stage::CheckingDownload => StageView::CheckingDownload,
            Stage::Hashing => StageView::Hashing,
            Stage::FindingCopies(hash) => StageView::FindingCopies(hash@),
            Stage::RecordingHash { hash, known } => StageView::RecordingHash {
                hash: hash@,
                known: *known,
            },
            Stage::Probing => StageView::Probing,
            Stage::ExtractingCover => StageView::ExtractingCover,
            Stage::CheckingCover => StageView::CheckingCover,
            Stage::RemovingCover { found } => StageView::RemovingCover { found: *found },
            Stage::Transcoding(picture) => StageView::Transcoding(*picture),
            Stage::RemovingDownload => StageView::RemovingDownload,
            Stage::Finished(outcome) => StageView::Finished(outcome_view(*outcome)),
        }
    }
}

/// A job that works on one link.
#[derive(Debug)]
pub struct ProcessLink {
    pub link: Link,
    pub download_folder: String,
    pub transcode_folder: String,
    pub stage: Stage,
}

/// The model of a [`ProcessLink`].
pub struct ProcessView {
    pub link: LinkView,
    pub download_folder: Seq<char>,
    pub transcode_folder: Seq<char>,
    pub stage: StageView,
}

impl View for ProcessLink {
    type V = ProcessView;

    open spec fn view(&self) -> ProcessView {
        ProcessView {
            link: self.link@,
            download_folder: self.download_folder@,
            transcode_folder: self.transcode_folder@,
            stage: self.stage@,
        }
    }
}

/// The end of a job whose store failed.
pub open spec fn store_failed(fault: StoreFaultView) -> StageView {
    StageView::Finished(Err(CustomErrorsView::of_store(fault)))
}

/// The end of a job for which something else failed.
pub open spec fn failed(message: Seq<char>) -> StageView {
    StageView::Finished(Err(CustomErrorsView::Custom(message)))
}

impl StageView {
    /// The stage that follows when `reply` comes in. What is no reply to the effect that the stage
    /// waits for changes nothing.
    pub open spec fn after(self, reply: ReplyView) -> StageView {
        match (self, reply) {
            (StageView::Connecting, ReplyView::Connected(Ok(()))) => StageView::FindingTwins,
            (StageView::Connecting, ReplyView::Connected(Err(fault))) => StageView::Finished(
                Err(CustomErrorsView::DeadpoolPool(fault.debug)),
            ),
            (StageView::FindingTwins, ReplyView::Rows(Ok(twins))) => if twins.len() > 0 {
                StageView::AdoptingHash(twins[0].original_hash)
            } else {
                StageView::Downloading
            },
            (StageView::FindingTwins, ReplyView::Rows(Err(fault))) => store_failed(fault),
            (StageView::AdoptingHash(_), ReplyView::Written(Ok(()))) => StageView::Finished(
                Ok(()),
            ),
            (StageView::AdoptingHash(_), ReplyView::Written(Err(fault))) => store_failed(fault),
            (StageView::Downloading, ReplyView::Ran(_)) => StageView::CheckingDownload,
            (StageView::CheckingDownload, ReplyView::Checked(found)) => if found {
                StageView::Hashing
            } else {
                failed("downloaded file not found"@)
            },
            (StageView::Hashing, ReplyView::Content(Ok(content))) => StageView::FindingCopies(
                hexadecimal::hex_text(digest::sha256(content)),
            ),
            (StageView::Hashing, ReplyView::Content(Err(message))) => failed(message),
            (StageView::FindingCopies(hash), ReplyView::Rows(Ok(copies))) =>
                StageView::RecordingHash { hash, known: copies.len() > 0 },
            (StageView::FindingCopies(_), ReplyView::Rows(Err(fault))) => store_failed(fault),
            (
                StageView::RecordingHash { known, .. },
                ReplyView::Written(Ok(())),
            ) => if known {
                StageView::RemovingDownload
            } else {
                StageView::Probing
            },
            (
                StageView::RecordingHash { .. },
                ReplyView::Written(Err(fault)),
            ) => store_failed(fault),
            (StageView::Probing, ReplyView::Probed(Ok(streams))) => if probe::choice_of(
                streams,
            ).video is Some {
                StageView::Transcoding(Picture::Video)
            } else {
                StageView::ExtractingCover
            },
            (StageView::Probing, ReplyView::Probed(Err(message))) => failed(message),
            (StageView::ExtractingCover, ReplyView::Ran(Ok(()))) => StageView::CheckingCover,
            (StageView::ExtractingCover, ReplyView::Ran(Err(message))) => failed(message),
            (StageView::CheckingCover, ReplyView::Checked(found)) => StageView::RemovingCover {
                found,
            },
            (StageView::RemovingCover { found }, ReplyView::Removed(Ok(()))) =>
                StageView::Transcoding(
                if found {
                    Picture::Cover
                } else {
                    Picture::Scope
                },
            ),
            (StageView::RemovingCover { .. }, ReplyView::Removed(Err(message))) => failed(message),
            (StageView::Transcoding(_), ReplyView::Ran(Ok(()))) => StageView::RemovingDownload,
            (StageView::Transcoding(_), ReplyView::Ran(Err(message))) => failed(message),
            (StageView::RemovingDownload, ReplyView::Removed(Ok(()))) => StageView::Finished(
                Ok(()),
            ),
            (StageView::RemovingDownload, ReplyView::Removed(Err(message))) => failed(message),
            _ => self,
        }
    }
}

impl ProcessView {
    /// A job that has not begun.
    pub open spec fn start(
        link: LinkView,
        download_folder: Seq<char>,
        transcode_folder: Seq<char>,
    ) -> ProcessView {
        ProcessView { link, download_folder, transcode_folder, stage: StageView::Connecting }
    }

    /// Where the downloaded file is.
    pub open spec fn download_path(self) -> Seq<char> {
        path::joined(self.download_folder, self.link.id)
    }

    /// Where it is while it is downloaded.
    pub open spec fn tmp_path(self) -> Seq<char> {
        path::joined(path::joined(self.download_folder, "tmp"@), self.link.id)
    }

    /// Where its cover image is.
    pub open spec fn cover_path(self) -> Seq<char> {
        path::extended(self.download_path(), "png"@)
    }

    /// Where the transcoded file is.
    pub open spec fn transcode_path(self) -> Seq<char> {
        path::joined(self.transcode_folder, self.link.id)
    }

    /// How the job ended, if it did.
    pub open spec fn outcome(self) -> Option<Result<(), CustomErrorsView>> {
        match self.stage {
            StageView::Finished(outcome) => Some(outcome),
            _ => None,
        }
    }

    /// The effect that the job waits for. One that is over waits for none.
    pub open spec fn effect(self) -> Option<EffectView> {
        match self.stage {
            StageView::Connecting => Some(EffectView::Connect),
            StageView::FindingTwins => Some(
                EffectView::FindTwins { url: self.link.url, id: self.link.id },
            ),
            StageView::AdoptingHash(hash) => Some(
                EffectView::SetHash { id: self.link.id, original_hash: hash },
            ),
            StageView::Downloading => Some(
                EffectView::Run(
                    command::fetch_command(self.link.url, self.tmp_path(), self.download_path()),
                ),
            ),
            StageView::CheckingDownload => Some(
                EffectView::CheckFile { path: self.download_path() },
            ),
            StageView::Hashing => Some(EffectView::ReadFile { path: self.download_path() }),
            StageView::FindingCopies(hash) => Some(EffectView::FindByHash { hash }),
            StageView::RecordingHash { hash, .. } => Some(
                EffectView::SetHash { id: self.link.id, original_hash: Some(hash) },
            ),
            StageView::Probing => Some(
                EffectView::Probe(command::probe_command(self.download_path())),
            ),
            StageView::ExtractingCover => Some(
                EffectView::Run(command::cover_command(self.download_path(), self.cover_path())),
            ),
            StageView::CheckingCover => Some(EffectView::CheckFile { path: self.cover_path() }),
            StageView::RemovingCover { .. } => Some(
                EffectView::RemoveFile { path: self.cover_path() },
            ),
            StageView::Transcoding(picture) => Some(
                EffectView::Run(
                    command::transcode_command(
                        self.download_path(),
                        self.cover_path(),
                        self.transcode_path(),
                        picture,
                    ),
                ),
            ),
            StageView::RemovingDownload => Some(
                EffectView::RemoveFile { path: self.download_path() },
            ),
            StageView::Finished(_) => None,
        }
    }

    /// The job after `reply`.
    pub open spec fn after(self, reply: ReplyView) -> ProcessView {
        ProcessView { stage: self.stage.after(reply), ..self }
    }
}

/// The stage that follows when `reply` comes in.
fn next_stage(stage: Stage, reply: Reply) -> (next: Stage)
    ensures
        next@ == stage@.after(reply@),
{
    match (stage, reply) {
        (Stage::Connecting, Reply::Connected(Ok(()))) => Stage::FindingTwins,
        (Stage::Connecting, Reply::Connected(Err(fault))) => {
            Stage::Finished(Err(CustomErrors::DeadpoolPool(fault.debug)))
        },
        (Stage::FindingTwins, Reply::Rows(Ok(twins))) => {
            if twins.len() > 0 {
                Stage::AdoptingHash(twins[0].original_hash.clone())
            } else {
                Stage::Downloading
            }
        },
        (Stage::FindingTwins, Reply::Rows(Err(fault))) => {
            Stage::Finished(Err(CustomErrors::of_store(fault)))
        },
        (Stage::AdoptingHash(_), Reply::Written(Ok(()))) => Stage::Finished(Ok(())),
        (Stage::AdoptingHash(_), Reply::Written(Err(fault))) => {
            Stage::Finished(Err(CustomErrors::of_store(fault)))
        },
        (Stage::Downloading, Reply::Ran(_)) => Stage::CheckingDownload,
        (Stage::CheckingDownload, Reply::Checked(found)) => {
            if found {
                Stage::Hashing
            } else {
                Stage::Finished(
                    Err(CustomErrors::Custom("downloaded file not found".to_owned())),
                )
            }
        },
        (Stage::Hashing, Reply::Content(Ok(content))) => {
            Stage::FindingCopies(digest::hash_content(content.as_slice()))
        },
        (Stage::Hashing, Reply::Content(Err(message))) => {
            Stage::Finished(Err(CustomErrors::Custom(message)))
        },
        (Stage::FindingCopies(hash), Reply::Rows(Ok(copies))) => {
            Stage::RecordingHash { hash, known: copies.len() > 0 }
        },
        (Stage::FindingCopies(_), Reply::Rows(Err(fault))) => {
            Stage::Finished(Err(CustomErrors::of_store(fault)))
        },
        (Stage::RecordingHash { hash: _, known }, Reply::Written(Ok(()))) => {
            if known {
                Stage::RemovingDownload
            } else {
                Stage::Probing
            }
        },
        (Stage::RecordingHash { hash: _, known: _ }, Reply::Written(Err(fault))) => {
            Stage::Finished(Err(CustomErrors::of_store(fault)))
        },
        (Stage::Probing, Reply::Probed(Ok(report))) => {
            if probe::choose_streams(&report).video.is_some() {
                Stage::Transcoding(Picture::Video)
            } else {
                Stage::ExtractingCover
            }
        },
        (Stage::Probing, Reply::Probed(Err(message))) => {
            Stage::Finished(Err(CustomErrors::Custom(message)))
        },
        (Stage::ExtractingCover, Reply::Ran(Ok(()))) => Stage::CheckingCover,
        (Stage::ExtractingCover, Reply::Ran(Err(message))) => {
            Stage::Finished(Err(CustomErrors::Custom(message)))
        },
        (Stage::CheckingCover, Reply::Checked(found)) => Stage::RemovingCover { found },
        (Stage::RemovingCover { found }, Reply::Removed(Ok(()))) => {
            Stage::Transcoding(
                if found {
                    Picture::Cover
                } else {
                    Picture::Scope
                },
            )
        },
        (Stage::RemovingCover { found: _ }, Reply::Removed(Err(message))) => {
            Stage::Finished(Err(CustomErrors::Custom(message)))
        },
        (Stage::Transcoding(_), Reply::Ran(Ok(()))) => Stage::RemovingDownload,
        (Stage::Transcoding(_), Reply::Ran(Err(message))) => {
            Stage::Finished(Err(CustomErrors::Custom(message)))
        },
        (Stage::RemovingDownload, Reply::Removed(Ok(()))) => Stage::Finished(Ok(())),
        (Stage::RemovingDownload, Reply::Removed(Err(message))) => {
            Stage::Finished(Err(CustomErrors::Custom(message)))
        },
        (stage, _) => stage,
    }
}

impl ProcessLink {
    /// A job for `link` that has not begun.
    pub fn start(link: Link, download_folder: String, transcode_folder: String) -> (job:
        ProcessLink)
        ensures
            job@ == ProcessView::start(link@, download_folder@, transcode_folder@),
    {
        ProcessLink { link, download_folder, transcode_folder, stage: Stage::Connecting }
    }

    /// The job after `reply`.
    pub fn resume(self, reply: Reply) -> (job: ProcessLink)
        ensures
            job@ == self@.after(reply@),
    {
        ProcessLink {
            link: self.link,
            download_folder: self.download_folder,
            transcode_folder: self.transcode_folder,
            stage: next_stage(self.stage, reply),
        }
    }

    /// The link that the job works on.
    pub fn link(&self) -> (link: &Link)
        ensures
            link@ == self@.link,
    {
        &self.link
    }

    /// How the job ended, if it did.
    pub fn outcome(&self) -> (outcome: Option<&Result<(), CustomErrors>>)
        ensures
            match outcome {
                Some(outcome) => self@.outcome() == Some(outcome_view(*outcome)),
                None => self@.outcome() is None,
            },
    {
        match &self.stage {
            Stage::Finished(outcome) => Some(outcome),
            _ => None,
        }
    }

    fn download_path(&self) -> (path: String)
        ensures
            path@ == self@.download_path(),
    {
        path::join_path(self.download_folder.as_str(), self.link.id.as_str())
    }

    fn tmp_path(&self) -> (path: String)
        ensures
            path@ == self@.tmp_path(),
    {
        let tmp_folder = path::join_path(self.download_folder.as_str(), "tmp");
        path::join_path(tmp_folder.as_str(), self.link.id.as_str())
    }

    fn cover_path(&self) -> (path: String)
        ensures
            path@ == self@.cover_path(),
    {
        proof {
            reveal_strlit("png");
        }
        path::add_extension(self.download_path().as_str(), "png")
    }

    /// Where the transcoded file is.
    pub fn transcode_path(&self) -> (path: String)
        ensures
            path@ == self@.transcode_path(),
    {
        path::join_path(self.transcode_folder.as_str(), self.link.id.as_str())
    }

    /// The effect that the job waits for. One that is over waits for none.
    pub fn effect(&self) -> (effect: Option<Effect>)
        ensures
            match effect {
                Some(effect) => self@.effect() == Some(effect@),
                None => self@.effect() is None,
            },
    {
        let effect = match &self.stage {
            Stage::Connecting => Effect::Connect,
            Stage::FindingTwins => Effect::FindTwins {
                url: self.link.url.clone(),
                id: self.link.id.clone(),
            },
            Stage::AdoptingHash(hash) => Effect::SetHash {
                id: self.link.id.clone(),
                original_hash: hash.clone(),
            },
            Stage::Downloading => Effect::Run(
                command::fetch(
                    self.link.url.as_str(),
                    self.tmp_path().as_str(),
                    self.download_path().as_str(),
                ),
            ),
            Stage::CheckingDownload => Effect::CheckFile { path: self.download_path() },
            Stage::Hashing => Effect::ReadFile { path: self.download_path() },
            Stage::FindingCopies(hash) => Effect::FindByHash { hash: hash.clone() },
            Stage::RecordingHash { hash, .. } => Effect::SetHash {
                id: self.link.id.clone(),
                original_hash: Some(hash.clone()),
            },
            Stage::Probing => Effect::Probe(command::probe(self.download_path().as_str())),
            Stage::ExtractingCover => Effect::Run(
                command::extract_cover(
                    self.download_path().as_str(),
                    self.cover_path().as_str(),
                ),
            ),
            Stage::CheckingCover => Effect::CheckFile { path: self.cover_path() },
            Stage::RemovingCover { .. } => Effect::RemoveFile { path: self.cover_path() },
            Stage::Transcoding(picture) => Effect::Run(
                command::transcode(
                    self.download_path().as_str(),
                    self.cover_path().as_str(),
                    self.transcode_path().as_str(),
                    *picture,
                ),
            ),
            Stage::RemovingDownload => Effect::RemoveFile { path: self.download_path() },
            Stage::Finished(_) => {
                return None;
            },
        };
        Some(effect)
    }
}

/// The model of a job has its link and its folders, is over where the job is, and has its outcome.
pub proof fn lemma_model_of_a_job(job: ProcessLink)
    ensures
        job@.link == job.link@,
        job@.download_folder == job.download_folder@,
        job@.transcode_folder == job.transcode_folder@,
        job@.stage == job.stage@,
        job@.outcome() is Some <==> job.stage is Finished,
        job.stage matches Stage::Finished(outcome) ==> {
            &&& job@.outcome() matches Some(model)
            &&& model is Ok <==> outcome is Ok
            &&& outcome is Err ==> model->Err_0 == outcome->Err_0@
        },
{
}

/// The model of an outcome is good where the outcome is, and has its error where it is not.
pub proof fn lemma_model_of_an_outcome(outcome: Result<(), CustomErrors>)
    ensures
        outcome_view(outcome) is Ok <==> outcome is Ok,
        outcome matches Err(error) ==> outcome_view(outcome) == Err::<(), CustomErrorsView>(error@),
{
}

/// The paths of a job: the file in the download folder under the link's identifier, while it is
/// downloaded the same under `tmp`, its cover next to it with the extension `png`, and the transcoded
/// file in the transcode folder under the link's identifier.
pub proof fn lemma_paths_of_a_job(job: ProcessView)
    ensures
        job.download_path() == path::joined(job.download_folder, job.link.id),
        job.tmp_path() == path::joined(path::joined(job.download_folder, "tmp"@), job.link.id),
        job.cover_path() == path::extended(
            path::joined(job.download_folder, job.link.id),
            "png"@,
        ),
        job.transcode_path() == path::joined(job.transcode_folder, job.link.id),
{
}

} // verus!
