//! What holds of a job as a whole, whatever the outside world replies.
use crate::command;
use crate::command::Picture;
use crate::digest;
use crate::effect;
use crate::effect::{EffectView, ReplyView};
use crate::error::CustomErrorsView;
use crate::hexadecimal;
use crate::link::LinkView;
use crate::probe;
use crate::process::{ProcessView, StageView};
use vstd::prelude::*;

verus! {

/// The job after all these replies.
pub open spec fn run(job: ProcessView, replies: Seq<ReplyView>) -> ProcessView
    decreases replies.len(),
{
    if replies.len() == 0 {
        job
    } else {
        run(job, replies.drop_last()).after(replies.last())
    }
}

/// Each of these replies is one to the effect that the job waited for when it came.
pub open spec fn answered(job: ProcessView, replies: Seq<ReplyView>) -> bool
    decreases replies.len(),
{
    replies.len() > 0 ==> {
        &&& answered(job, replies.drop_last())
        &&& run(job, replies.drop_last()).effect() matches Some(effect)
        &&& effect::answers(effect, replies.last())
    }
}

/// Among the effects that the job waited for, with the replies to them, is one of this kind.
pub open spec fn happened(
    job: ProcessView,
    replies: Seq<ReplyView>,
    kind: spec_fn(EffectView, ReplyView) -> bool,
) -> bool
    decreases replies.len(),
{
    replies.len() > 0 && {
        ||| happened(job, replies.drop_last(), kind)
        ||| run(job, replies.drop_last()).effect() matches Some(effect) && kind(
            effect,
            replies.last(),
        )
    }
}

/// The job is over, and did what it was for.
pub open spec fn succeeded(job: ProcessView) -> bool {
    job.outcome() matches Some(outcome) && outcome is Ok
}

/// The store took what was to be recorded.
pub open spec fn is_written(reply: ReplyView) -> bool {
    reply matches ReplyView::Written(result) && result is Ok
}

/// The file is gone.
pub open spec fn is_removed(reply: ReplyView) -> bool {
    reply matches ReplyView::Removed(result) && result is Ok
}

/// How many replies a job in this stage waits for at most.
pub open spec fn remaining(stage: StageView) -> nat {
    match stage {
        StageView::Connecting => 13,
        StageView::FindingTwins => 12,
        StageView::Downloading => 11,
        StageView::CheckingDownload => 10,
        StageView::Hashing => 9,
        StageView::FindingCopies(_) => 8,
        StageView::RecordingHash { .. } => 7,
        StageView::Probing => 6,
        StageView::ExtractingCover => 5,
        StageView::CheckingCover => 4,
        StageView::RemovingCover { .. } => 3,
        StageView::Transcoding(_) => 2,
        StageView::RemovingDownload => 1,
        StageView::AdoptingHash(_) => 1,
        StageView::Finished(_) => 0,
    }
}

/// A job is over exactly when it waits for nothing: it never gets stuck.
pub proof fn lemma_job_waits_until_it_is_over(job: ProcessView)
    ensures
        job.effect() is None <==> job.outcome() is Some,
{
}

/// A reply to the effect that a job waits for brings it nearer to its end. Any other leaves it as
/// it is.
pub proof fn lemma_only_answers_count(job: ProcessView, reply: ReplyView)
    ensures
        match job.effect() {
            Some(effect) if effect::answers(effect, reply) => remaining(job.after(reply).stage)
                < remaining(job.stage),
            _ => job.after(reply) == job,
        },
{
}

/// A job ends after at most thirteen replies, whatever they say.
pub proof fn lemma_job_ends(job: ProcessView, replies: Seq<ReplyView>)
    requires
        answered(job, replies),
    ensures
        replies.len() + remaining(run(job, replies).stage) <= remaining(job.stage) <= 13,
        replies.len() == 13 ==> run(job, replies).outcome() is Some,
    decreases replies.len(),
{
    if replies.len() > 0 {
        lemma_job_ends(job, replies.drop_last());
        lemma_only_answers_count(run(job, replies.drop_last()), replies.last());
    }
}

/// A job keeps to its link and its folders.
pub proof fn lemma_job_keeps_its_link(job: ProcessView, replies: Seq<ReplyView>)
    ensures
        run(job, replies).link == job.link,
        run(job, replies).download_folder == job.download_folder,
        run(job, replies).transcode_folder == job.transcode_folder,
    decreases replies.len(),
{
    if replies.len() > 0 {
        lemma_job_keeps_its_link(job, replies.drop_last());
    }
}

/// An effect of the job that transcodes its file, whatever the picture.
pub open spec fn transcodes(job: ProcessView, effect: EffectView) -> bool {
    exists|picture: Picture|
        effect == EffectView::Run(
            #[trigger] command::transcode_command(
                job.download_path(),
                job.cover_path(),
                job.transcode_path(),
                picture,
            ),
        )
}

/// An effect that writes nothing but the job's own: in the store, the hash of its own link; among
/// the files, the one that it downloads, that file's cover and its transcoded copy. Other links are
/// at most looked up, by the job's address or by a hash.
pub open spec fn keeps_to_itself(job: ProcessView, effect: EffectView) -> bool {
    match effect {
        EffectView::Connect => true,
        EffectView::FindTwins { url, id } => url == job.link.url && id == job.link.id,
        EffectView::FindByHash { .. } => true,
        EffectView::SetHash { id, .. } => id == job.link.id,
        EffectView::Run(run) => {
            ||| run == command::fetch_command(job.link.url, job.tmp_path(), job.download_path())
            ||| run == command::cover_command(job.download_path(), job.cover_path())
            ||| transcodes(job, effect)
        },
        EffectView::Probe(run) => run == command::probe_command(job.download_path()),
        EffectView::ReadFile { path } => path == job.download_path(),
        EffectView::CheckFile { path } => path == job.download_path() || path
            == job.cover_path(),
        EffectView::RemoveFile { path } => path == job.download_path() || path
            == job.cover_path(),
        _ => false,
    }
}

/// A job never writes to another link, nor touches a file that is not its own.
pub proof fn lemma_job_keeps_to_itself(job: ProcessView, replies: Seq<ReplyView>)
    ensures
        run(job, replies).effect() matches Some(effect) ==> keeps_to_itself(job, effect),
{
    lemma_job_keeps_its_link(job, replies);
    let now = run(job, replies);
    assert(now.download_path() == job.download_path());
    assert(now.cover_path() == job.cover_path());
    assert(now.transcode_path() == job.transcode_path());
    if let StageView::Transcoding(picture) = now.stage {
        assert(now.effect() == Some(
            EffectView::Run(
                command::transcode_command(
                    job.download_path(),
                    job.cover_path(),
                    job.transcode_path(),
                    picture,
                ),
            ),
        ));
    }
}

/// Whether the job holds a connection to the store after these replies.
pub open spec fn connected(job: ProcessView, replies: Seq<ReplyView>) -> bool {
    effect::connected(|earlier: Seq<ReplyView>| run(job, earlier).effect(), replies)
}

/// A job connects to the store before anything else: whatever else it waits for, it holds a
/// connection, and a `Connect` was answered with it.
pub proof fn lemma_job_connects_first(job: ProcessView, replies: Seq<ReplyView>)
    requires
        job.stage is Connecting,
    ensures
        run(job, replies).effect() matches Some(effect) ==> effect is Connect || connected(
            job,
            replies,
        ),
        run(job, replies).effect() matches Some(effect) ==> effect is Connect || happened(
            job,
            replies,
            |effect: EffectView, reply: ReplyView|
                effect is Connect && (reply matches ReplyView::Connected(result) && result is Ok),
        ),
    decreases replies.len(),
{
    if replies.len() > 0 {
        lemma_job_connects_first(job, replies.drop_last());
    }
}

/// The error that a job makes of a reply. That the program which downloads ends badly is none, as
/// long as there is a file.
pub open spec fn cause_of(job: ProcessView, reply: ReplyView) -> Option<CustomErrorsView> {
    match reply {
        ReplyView::Connected(Err(fault)) => Some(CustomErrorsView::DeadpoolPool(fault.debug)),
        ReplyView::Rows(Err(fault)) => Some(CustomErrorsView::of_store(fault)),
        ReplyView::Written(Err(fault)) => Some(CustomErrorsView::of_store(fault)),
        ReplyView::Ran(Err(message)) => if job.stage is Downloading {
            None
        } else {
            Some(CustomErrorsView::Custom(message))
        },
        ReplyView::Checked(found) => if !found && job.stage is CheckingDownload {
            Some(CustomErrorsView::Custom("downloaded file not found"@))
        } else {
            None
        },
        ReplyView::Content(Err(message)) => Some(CustomErrorsView::Custom(message)),
        ReplyView::Probed(Err(message)) => Some(CustomErrorsView::Custom(message)),
        ReplyView::Removed(Err(message)) => Some(CustomErrorsView::Custom(message)),
        _ => None,
    }
}

/// A job fails as soon as a reply gives it cause to, with the error that the reply carries, and
/// for no other reason.
pub proof fn lemma_job_fails_for_a_cause(job: ProcessView, reply: ReplyView)
    requires
        job.effect() matches Some(effect) && effect::answers(effect, reply),
    ensures
        match cause_of(job, reply) {
            Some(error) => job.after(reply).outcome() == Some(Err::<(), CustomErrorsView>(error)),
            None => job.after(reply).outcome() is None || succeeded(job.after(reply)),
        },
{
}

/// None of these replies gave the job cause to fail.
pub open spec fn untroubled(job: ProcessView, replies: Seq<ReplyView>) -> bool
    decreases replies.len(),
{
    replies.len() > 0 ==> {
        &&& untroubled(job, replies.drop_last())
        &&& cause_of(run(job, replies.drop_last()), replies.last()) is None
    }
}

/// A job that nothing gives cause to fail does not fail, and has succeeded once it is over.
pub proof fn lemma_untroubled_job_succeeds(job: ProcessView, replies: Seq<ReplyView>)
    requires
        job.stage is Connecting,
        answered(job, replies),
        untroubled(job, replies),
    ensures
        run(job, replies).outcome() is None || succeeded(run(job, replies)),
        replies.len() == 13 ==> succeeded(run(job, replies)),
    decreases replies.len(),
{
    lemma_job_ends(job, replies);
    if replies.len() > 0 {
        lemma_untroubled_job_succeeds(job, replies.drop_last());
        lemma_job_fails_for_a_cause(run(job, replies.drop_last()), replies.last());
    }
}

/// The downloaded file was read, and held this.
pub open spec fn content_read(
    job: ProcessView,
    replies: Seq<ReplyView>,
    content: Seq<u8>,
) -> bool {
    happened(
        job,
        replies,
        |effect: EffectView, reply: ReplyView|
            effect == (EffectView::ReadFile { path: job.download_path() }) && reply
                == ReplyView::Content(Ok(content)),
    )
}

/// The hash that a job looks up and records is that of the file that it downloaded.
pub proof fn lemma_hash_is_of_the_download(
    job: ProcessView,
    replies: Seq<ReplyView>,
    hash: Seq<char>,
)
    requires
        job.stage is Connecting,
        match run(job, replies).stage {
            StageView::FindingCopies(found) => found == hash,
            StageView::RecordingHash { hash: found, .. } => found == hash,
            _ => false,
        },
    ensures
        exists|content: Seq<u8>| #[trigger]
            content_read(job, replies, content) && hash == hexadecimal::hex_text(
                digest::sha256(content),
            ),
    decreases replies.len(),
{
    if replies.len() > 0 {
        let earlier = replies.drop_last();
        let before = run(job, earlier);
        lemma_job_keeps_its_link(job, earlier);
        if before.stage is Hashing {
            assert(content_read(job, replies, replies.last()->Content_0->Ok_0));
        } else {
            lemma_hash_is_of_the_download(job, earlier, hash);
            let content = choose|content: Seq<u8>| #[trigger]
                content_read(job, earlier, content) && hash == hexadecimal::hex_text(
                    digest::sha256(content),
                );
            assert(content_read(job, replies, content));
        }
    }
}

/// The hash of the link was recorded.
pub open spec fn hash_recorded(job: ProcessView, replies: Seq<ReplyView>) -> bool {
    happened(
        job,
        replies,
        |effect: EffectView, reply: ReplyView|
            effect matches EffectView::SetHash { id, .. } && id == job.link.id && is_written(reply),
    )
}

/// The stages that a job reaches only once its hash is recorded.
pub open spec fn is_past_recording(stage: StageView) -> bool {
    match stage {
        StageView::Probing
        | StageView::ExtractingCover
        | StageView::CheckingCover
        | StageView::RemovingCover { .. }
        | StageView::Transcoding(_)
        | StageView::RemovingDownload => true,
        StageView::Finished(outcome) => outcome is Ok,
        _ => false,
    }
}

/// No file is probed or transcoded, and no job succeeds, before the hash of its link is recorded.
pub proof fn lemma_hash_is_recorded_first(job: ProcessView, replies: Seq<ReplyView>)
    requires
        job.stage is Connecting,
    ensures
        is_past_recording(run(job, replies).stage) ==> hash_recorded(job, replies),
    decreases replies.len(),
{
    if replies.len() > 0 {
        lemma_hash_is_recorded_first(job, replies.drop_last());
        lemma_job_keeps_its_link(job, replies.drop_last());
    }
}

/// Whether an effect concerns a file or a program.
pub open spec fn leaves_the_store(effect: EffectView) -> bool {
    match effect {
        EffectView::Run(_)
        | EffectView::Probe(_)
        | EffectView::CheckFile { .. }
        | EffectView::ReadFile { .. }
        | EffectView::RemoveFile { .. }
        | EffectView::OpenFile { .. } => true,
        _ => false,
    }
}

/// A link to a known address is not downloaded: the job takes over the hash of the other link, and
/// that is all it does.
pub proof fn lemma_known_url_is_not_downloaded(
    job: ProcessView,
    replies: Seq<ReplyView>,
    twins: Seq<LinkView>,
)
    requires
        job.stage is Connecting,
        answered(job, replies),
        replies.len() >= 2,
        replies[1] == ReplyView::Rows(Ok(twins)),
        twins.len() > 0,
    ensures
        replies.len() <= 3,
        run(job, replies.take(2)).stage == StageView::AdoptingHash(twins[0].original_hash),
        run(job, replies.take(2)).effect() == Some(
            EffectView::SetHash { id: job.link.id, original_hash: twins[0].original_hash },
        ),
        !happened(job, replies, |effect: EffectView, reply: ReplyView| leaves_the_store(effect)),
        replies.len() == 3 && is_written(replies[2]) ==> succeeded(run(job, replies)),
    decreases replies.len(),
{
    let before = replies.drop_last();
    if replies.len() == 2 {
        assert(replies.take(2) =~= replies);
        assert(before.drop_last() =~= seq![]);
        reveal_with_fuel(run, 3);
        reveal_with_fuel(answered, 3);
        reveal_with_fuel(happened, 3);
        assert(before[0] == replies[0]);
    } else {
        assert(before[1] == replies[1]);
        assert(before.take(2) =~= replies.take(2));
        lemma_known_url_is_not_downloaded(job, before, twins);
        lemma_job_keeps_its_link(job, before);
        if before.len() == 3 {
            assert(run(job, before).stage is Finished) by {
                assert(before.drop_last() =~= replies.take(2));
                let adopting = run(job, before.drop_last());
                assert(adopting.stage is AdoptingHash);
                assert(answered(job, before));
                lemma_only_answers_count(adopting, before.last());
            }
        }
        assert(before.len() == 2 ==> before =~= replies.take(2));
    }
}

/// The store was asked for links with this hash, and had none.
pub open spec fn hash_was_new(
    job: ProcessView,
    replies: Seq<ReplyView>,
    hash: Seq<char>,
) -> bool {
    happened(
        job,
        replies,
        |effect: EffectView, reply: ReplyView|
            reply matches ReplyView::Rows(Ok(copies)) && copies.len() == 0 && effect == (
            EffectView::FindByHash { hash }),
    )
}

/// The downloaded file was read, and no link had the hash of what it held.
pub open spec fn content_was_new(job: ProcessView, replies: Seq<ReplyView>) -> bool {
    exists|content: Seq<u8>| #[trigger]
        content_read(job, replies, content) && hash_was_new(
            job,
            replies,
            hexadecimal::hex_text(digest::sha256(content)),
        )
}

/// The stages on the way to a transcoded file.
pub open spec fn is_transcoding(stage: StageView) -> bool {
    match stage {
        StageView::RecordingHash { known, .. } => !known,
        StageView::Probing
        | StageView::ExtractingCover
        | StageView::CheckingCover
        | StageView::RemovingCover { .. }
        | StageView::Transcoding(_) => true,
        _ => false,
    }
}

/// Content is transcoded only where no link has its hash yet.
pub proof fn lemma_known_content_is_not_transcoded(job: ProcessView, replies: Seq<ReplyView>)
    requires
        job.stage is Connecting,
    ensures
        is_transcoding(run(job, replies).stage) ==> content_was_new(job, replies),
        happened(job, replies, |effect: EffectView, reply: ReplyView| transcodes(job, effect))
            ==> content_was_new(job, replies),
    decreases replies.len(),
{
    if replies.len() > 0 {
        let earlier = replies.drop_last();
        let before = run(job, earlier);
        lemma_known_content_is_not_transcoded(job, earlier);
        lemma_job_keeps_its_link(job, earlier);
        if content_was_new(job, earlier) {
            let content = choose|content: Seq<u8>| #[trigger]
                content_read(job, earlier, content) && hash_was_new(
                    job,
                    earlier,
                    hexadecimal::hex_text(digest::sha256(content)),
                );
            assert(content_read(job, replies, content));
            assert(hash_was_new(
                job,
                replies,
                hexadecimal::hex_text(digest::sha256(content)),
            ));
        } else if is_transcoding(run(job, replies).stage) {
            let hash = before.stage->FindingCopies_0;
            lemma_hash_is_of_the_download(job, earlier, hash);
            let content = choose|content: Seq<u8>| #[trigger]
                content_read(job, earlier, content) && hash == hexadecimal::hex_text(
                    digest::sha256(content),
                );
            assert(content_read(job, replies, content));
            assert(hash_was_new(job, replies, hash));
        }
        if let Some(effect) = before.effect() {
            if transcodes(job, effect) {
                lemma_only_one_stage_transcodes(job, before, effect);
            }
        }
    }
}

/// Of all stages only `Transcoding` transcodes.
proof fn lemma_only_one_stage_transcodes(job: ProcessView, now: ProcessView, effect: EffectView)
    requires
        now.effect() == Some(effect),
        transcodes(job, effect),
    ensures
        now.stage is Transcoding,
{
    let picture = choose|picture: Picture|
        effect == EffectView::Run(
            #[trigger] command::transcode_command(
                job.download_path(),
                job.cover_path(),
                job.transcode_path(),
                picture,
            ),
        );
    let transcoding = command::transcode_command(
        job.download_path(),
        job.cover_path(),
        job.transcode_path(),
        picture,
    );
    assert(transcoding.args.len() >= 19);
    reveal_strlit("yt-dlp");
    reveal_strlit("ffmpeg");
    assert("yt-dlp"@[0] != "ffmpeg"@[0]);
}

/// The store was asked for the other links to the job's address, and had one.
pub open spec fn address_was_known(job: ProcessView, replies: Seq<ReplyView>) -> bool {
    happened(
        job,
        replies,
        |effect: EffectView, reply: ReplyView|
            reply matches ReplyView::Rows(Ok(twins)) && twins.len() > 0 && effect == (
            EffectView::FindTwins { url: job.link.url, id: job.link.id }),
    )
}

/// The store was asked for links with this hash, and had one.
pub open spec fn hash_was_known(
    job: ProcessView,
    replies: Seq<ReplyView>,
    hash: Seq<char>,
) -> bool {
    happened(
        job,
        replies,
        |effect: EffectView, reply: ReplyView|
            reply matches ReplyView::Rows(Ok(copies)) && copies.len() > 0 && effect == (
            EffectView::FindByHash { hash }),
    )
}

/// The downloaded file was read, and a link had the hash of what it held.
pub open spec fn content_was_known(job: ProcessView, replies: Seq<ReplyView>) -> bool {
    exists|content: Seq<u8>| #[trigger]
        content_read(job, replies, content) && hash_was_known(
            job,
            replies,
            hexadecimal::hex_text(digest::sha256(content)),
        )
}

/// The job's file was transcoded: the program ran to its end.
pub open spec fn was_transcoded(job: ProcessView, replies: Seq<ReplyView>) -> bool {
    happened(
        job,
        replies,
        |effect: EffectView, reply: ReplyView|
            transcodes(job, effect) && (reply matches ReplyView::Ran(result) && result is Ok),
    )
}

proof fn lemma_content_stays_known(job: ProcessView, replies: Seq<ReplyView>)
    requires
        replies.len() > 0,
        content_was_known(job, replies.drop_last()),
    ensures
        content_was_known(job, replies),
{
    let earlier = replies.drop_last();
    let content = choose|content: Seq<u8>| #[trigger]
        content_read(job, earlier, content) && hash_was_known(
            job,
            earlier,
            hexadecimal::hex_text(digest::sha256(content)),
        );
    assert(content_read(job, replies, content));
    assert(hash_was_known(job, replies, hexadecimal::hex_text(digest::sha256(content))));
}

proof fn lemma_end_is_accounted_for(job: ProcessView, replies: Seq<ReplyView>)
    requires
        job.stage is Connecting,
    ensures
        match run(job, replies).stage {
            StageView::AdoptingHash(_) => address_was_known(job, replies),
            StageView::RecordingHash { known, .. } => known ==> content_was_known(job, replies),
            StageView::RemovingDownload => content_was_known(job, replies) || was_transcoded(
                job,
                replies,
            ),
            StageView::Finished(outcome) => outcome is Ok ==> {
                ||| address_was_known(job, replies)
                ||| content_was_known(job, replies)
                ||| was_transcoded(job, replies)
            },
            _ => true,
        },
    decreases replies.len(),
{
    if replies.len() > 0 {
        let earlier = replies.drop_last();
        let before = run(job, earlier);
        lemma_end_is_accounted_for(job, earlier);
        lemma_job_keeps_its_link(job, earlier);
        if content_was_known(job, earlier) {
            lemma_content_stays_known(job, replies);
        }
        match before.stage {
            StageView::FindingCopies(hash) => {
                lemma_hash_is_of_the_download(job, earlier, hash);
                let content = choose|content: Seq<u8>| #[trigger]
                    content_read(job, earlier, content) && hash == hexadecimal::hex_text(
                        digest::sha256(content),
                    );
                assert(content_read(job, replies, content));
                if let ReplyView::Rows(Ok(copies)) = replies.last() {
                    if copies.len() > 0 {
                        assert(hash_was_known(job, replies, hash));
                    }
                }
            },
            StageView::Transcoding(picture) => {
                let transcoding = command::transcode_command(
                    job.download_path(),
                    job.cover_path(),
                    job.transcode_path(),
                    picture,
                );
                assert(before.effect() == Some(EffectView::Run(transcoding)));
                assert(transcodes(job, EffectView::Run(transcoding)));
            },
            _ => {},
        }
    }
}

/// A job that succeeds has not skipped its work: its address was known, or the content that it
/// downloaded was, or it ran its transcoding to the end.
pub proof fn lemma_success_is_accounted_for(job: ProcessView, replies: Seq<ReplyView>)
    requires
        job.stage is Connecting,
    ensures
        succeeded(run(job, replies)) ==> {
            ||| address_was_known(job, replies)
            ||| content_was_known(job, replies)
            ||| was_transcoded(job, replies)
        },
{
    lemma_end_is_accounted_for(job, replies);
}

/// The job's file was probed, and the report did or did not show moving pictures.
pub open spec fn was_probed(job: ProcessView, replies: Seq<ReplyView>, video: bool) -> bool {
    happened(
        job,
        replies,
        |effect: EffectView, reply: ReplyView|
            reply matches ReplyView::Probed(Ok(streams)) && (probe::choice_of(
                streams,
            ).video is Some) == video && effect == EffectView::Probe(
                command::probe_command(job.download_path()),
            ),
    )
}

/// It was looked whether the job's file has a cover image, with this result.
pub open spec fn cover_was_checked(
    job: ProcessView,
    replies: Seq<ReplyView>,
    found: bool,
) -> bool {
    happened(
        job,
        replies,
        |effect: EffectView, reply: ReplyView|
            effect == (EffectView::CheckFile { path: job.cover_path() }) && reply
                == ReplyView::Checked(found),
    )
}

/// The picture of a transcoded file is its own video where the probe found moving pictures. Where
/// it found none, it is the cover image if there was one, and a drawing of the sound if not.
pub proof fn lemma_picture_follows_the_file(job: ProcessView, replies: Seq<ReplyView>)
    requires
        job.stage is Connecting,
    ensures
        match run(job, replies).stage {
            StageView::Transcoding(Picture::Video) => was_probed(job, replies, true),
            StageView::Transcoding(Picture::Cover) => was_probed(job, replies, false)
                && cover_was_checked(job, replies, true),
            StageView::Transcoding(Picture::Scope) => was_probed(job, replies, false)
                && cover_was_checked(job, replies, false),
            StageView::ExtractingCover | StageView::CheckingCover => was_probed(
                job,
                replies,
                false,
            ),
            StageView::RemovingCover { found } => was_probed(job, replies, false)
                && cover_was_checked(job, replies, found),
            _ => true,
        },
    decreases replies.len(),
{
    if replies.len() > 0 {
        lemma_picture_follows_the_file(job, replies.drop_last());
        lemma_job_keeps_its_link(job, replies.drop_last());
    }
}

/// The last act of a job that succeeds is to remove the file that it downloaded, unless it took
/// over the hash of another link and downloaded none.
pub proof fn lemma_success_removes_the_download(job: ProcessView, replies: Seq<ReplyView>)
    requires
        job.stage is Connecting,
        answered(job, replies),
        succeeded(run(job, replies)),
    ensures
        replies.len() > 0,
        ({
            let last = run(job, replies.drop_last());
            ||| last.effect() == Some(EffectView::RemoveFile { path: job.download_path() })
                && is_removed(replies.last())
            ||| last.stage is AdoptingHash && is_written(replies.last())
        }),
{
    lemma_job_keeps_its_link(job, replies.drop_last());
}

/// A cover image is removed before the job goes on to transcode, and a job that cannot remove it
/// fails.
pub proof fn lemma_cover_is_removed_first(job: ProcessView, replies: Seq<ReplyView>)
    requires
        job.stage is Connecting,
    ensures
        run(job, replies).stage matches StageView::Transcoding(picture) && picture
            != Picture::Video ==> happened(
            job,
            replies,
            |effect: EffectView, reply: ReplyView|
                effect == (EffectView::RemoveFile { path: job.cover_path() }) && is_removed(reply),
        ),
    decreases replies.len(),
{
    if replies.len() > 0 {
        lemma_cover_is_removed_first(job, replies.drop_last());
        lemma_job_keeps_its_link(job, replies.drop_last());
    }
}

} // verus!
