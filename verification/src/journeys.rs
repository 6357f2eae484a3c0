//! What each request and each job does from its start to its end, in the effects that it asks for,
//! the replies that it gets and the answer that it gives.
use crate::command;
use crate::command::CommandView;
use crate::digest;
use crate::direct;
use crate::direct::{DirectStageView, DirectView};
use crate::effect;
use crate::effect::{EffectView, ReplyView};
use crate::error::{CustomErrorsView, FailureView, StoreFaultView};
use crate::hexadecimal;
use crate::link::LinkView;
use crate::path;
use crate::probe;
use crate::probe::StreamView;
use crate::process::ProcessView;
use crate::process_laws;
use crate::requests::{CreateView, DeleteView, ListView, ShowView};
use crate::task_laws;
use crate::tasks;
use crate::tasks::{TaskStageView, TaskView};
use vstd::prelude::*;

verus! {

/// A connection was had.
pub open spec fn is_connected(reply: ReplyView) -> bool {
    reply matches ReplyView::Connected(result) && result is Ok
}

/// The program ran to its end.
pub open spec fn has_run(reply: ReplyView) -> bool {
    reply matches ReplyView::Ran(result) && result is Ok
}

/// No link was found.
pub open spec fn is_empty(reply: ReplyView) -> bool {
    reply matches ReplyView::Rows(Ok(links)) && links.len() == 0
}

/// Some stream holds moving pictures: it calls itself "video", and its frame rate is not "0/0".
pub open spec fn has_moving_pictures(streams: Seq<StreamView>) -> bool {
    exists|i: int|
        0 <= i < streams.len() && (#[trigger] streams[i]).codec_type == "video"@
            && streams[i].avg_frame_rate != "0/0"@
}

/// A link to an address that another link has: the job connects, finds the other link, takes over
/// the hash of the first that is found, whatever it is, and is done.
pub proof fn lemma_job_on_a_known_address(
    link: LinkView,
    download_folder: Seq<char>,
    transcode_folder: Seq<char>,
    connected: ReplyView,
    twins: Seq<LinkView>,
    written: ReplyView,
)
    requires
        is_connected(connected),
        twins.len() > 0,
        process_laws::is_written(written),
    ensures
        ({
            let begun = ProcessView::start(link, download_folder, transcode_folder);
            let finding = begun.after(connected);
            let adopting = finding.after(ReplyView::Rows(Ok(twins)));
            let over = adopting.after(written);
            &&& begun.effect() == Some(EffectView::Connect)
            &&& finding.effect() == Some(EffectView::FindTwins { url: link.url, id: link.id })
            &&& adopting.effect() == Some(
                EffectView::SetHash { id: link.id, original_hash: twins[0].original_hash },
            )
            &&& over.effect() is None
            &&& over.outcome() matches Some(outcome) && outcome is Ok
            &&& begun.outcome() is None && finding.outcome() is None && adopting.outcome() is None
        }),
{
}

/// A link to a new address: the job downloads it, to its own path and by way of its own temporary
/// path, whatever the program then says of itself. Where that leaves no file the job fails. Where it
/// leaves one, the job reads it, looks for links with the hash of what it read, and records that
/// hash as the link's own.
pub proof fn lemma_job_downloads_and_hashes(
    link: LinkView,
    download_folder: Seq<char>,
    transcode_folder: Seq<char>,
    connected: ReplyView,
    no_twins: ReplyView,
    ran: ReplyView,
    content: Seq<u8>,
    copies: Seq<LinkView>,
)
    requires
        is_connected(connected),
        is_empty(no_twins),
        ran is Ran,
    ensures
        ({
            let begun = ProcessView::start(link, download_folder, transcode_folder);
            let downloading = begun.after(connected).after(no_twins);
            let checking = downloading.after(ran);
            let missing = checking.after(ReplyView::Checked(false));
            let reading = checking.after(ReplyView::Checked(true));
            let searching = reading.after(ReplyView::Content(Ok(content)));
            let recording = searching.after(ReplyView::Rows(Ok(copies)));
            let file = path::joined(download_folder, link.id);
            let tmp = path::joined(path::joined(download_folder, "tmp"@), link.id);
            let hash = hexadecimal::hex_text(digest::sha256(content));
            &&& downloading.effect() == Some(
                EffectView::Run(
                    CommandView {
                        program: "yt-dlp"@,
                        args: seq![
                            "-o"@,
                            tmp,
                            "--max-downloads"@,
                            "1"@,
                            "-f"@,
                            "ba*"@,
                            "-S"@,
                            "+res:720"@,
                            "--exec"@,
                            "mv {} "@ + file,
                            link.url,
                        ],
                    },
                ),
            )
            &&& downloading.effect()->0->Run_0.args.last() == link.url
            &&& checking.effect() == Some(EffectView::CheckFile { path: file })
            &&& missing.effect() is None
            &&& missing.outcome() == Some(
                Err::<(), CustomErrorsView>(
                    CustomErrorsView::Custom("downloaded file not found"@),
                ),
            )
            &&& reading.effect() == Some(EffectView::ReadFile { path: file })
            &&& searching.effect() == Some(EffectView::FindByHash { hash })
            &&& recording.effect() == Some(
                EffectView::SetHash { id: link.id, original_hash: Some(hash) },
            )
            &&& downloading.outcome() is None && checking.outcome() is None
            &&& reading.outcome() is None && searching.outcome() is None
            &&& recording.outcome() is None
        }),
{
    command::lemma_fetch_arguments(
        link.url,
        path::joined(path::joined(download_folder, "tmp"@), link.id),
        path::joined(download_folder, link.id),
    );
}

/// The job on a new address once its hash is recorded, where the store had these links with it.
pub open spec fn hash_is_recorded(
    link: LinkView,
    download_folder: Seq<char>,
    transcode_folder: Seq<char>,
    before: (ReplyView, ReplyView, ReplyView, Seq<u8>),
    copies: Seq<LinkView>,
    written: ReplyView,
) -> ProcessView {
    ProcessView::start(link, download_folder, transcode_folder).after(before.0).after(
        before.1,
    ).after(before.2).after(ReplyView::Checked(true)).after(
        ReplyView::Content(Ok(before.3)),
    ).after(ReplyView::Rows(Ok(copies))).after(written)
}

/// The replies that lead there: a connection, no other link to the address, and a program that ran
/// or not.
pub open spec fn leads_to_a_file(before: (ReplyView, ReplyView, ReplyView, Seq<u8>)) -> bool {
    is_connected(before.0) && is_empty(before.1) && before.2 is Ran
}

/// Content that some link has: the job removes what it downloaded, and is done.
pub proof fn lemma_job_on_known_content(
    link: LinkView,
    download_folder: Seq<char>,
    transcode_folder: Seq<char>,
    before: (ReplyView, ReplyView, ReplyView, Seq<u8>),
    copies: Seq<LinkView>,
    written: ReplyView,
    removed: ReplyView,
)
    requires
        leads_to_a_file(before),
        copies.len() > 0,
        process_laws::is_written(written),
        process_laws::is_removed(removed),
    ensures
        ({
            let removing = hash_is_recorded(
                link,
                download_folder,
                transcode_folder,
                before,
                copies,
                written,
            );
            let over = removing.after(removed);
            &&& removing.effect() == Some(
                EffectView::RemoveFile { path: path::joined(download_folder, link.id) },
            )
            &&& removing.outcome() is None
            &&& over.effect() is None
            &&& over.outcome() matches Some(outcome) && outcome is Ok
        }),
{
}

/// New content with moving pictures: the job probes the file, transcodes it with its own video to
/// the transcode folder, removes what it downloaded, and is done.
pub proof fn lemma_job_on_a_new_video(
    link: LinkView,
    download_folder: Seq<char>,
    transcode_folder: Seq<char>,
    before: (ReplyView, ReplyView, ReplyView, Seq<u8>),
    written: ReplyView,
    streams: Seq<StreamView>,
    transcoded: ReplyView,
    removed: ReplyView,
)
    requires
        leads_to_a_file(before),
        process_laws::is_written(written),
        has_moving_pictures(streams),
        has_run(transcoded),
        process_laws::is_removed(removed),
    ensures
        ({
            let probing = hash_is_recorded(
                link,
                download_folder,
                transcode_folder,
                before,
                seq![],
                written,
            );
            let transcoding = probing.after(ReplyView::Probed(Ok(streams)));
            let removing = transcoding.after(transcoded);
            let over = removing.after(removed);
            let file = path::joined(download_folder, link.id);
            &&& probing.effect() == Some(
                EffectView::Probe(
                    CommandView {
                        program: "ffprobe"@,
                        args: seq![
                            "-v"@,
                            "quiet"@,
                            "-print_format"@,
                            "json"@,
                            "-show_format"@,
                            "-show_streams"@,
                            file,
                        ],
                    },
                ),
            )
            &&& transcoding.effect() == Some(
                EffectView::Run(
                    CommandView {
                        program: "ffmpeg"@,
                        args: seq![
                            "-i"@,
                            file,
                            "-vf"@,
                            "scale=-2:720:flags=lanczos"@,
                            "-pix_fmt"@,
                            "yuv420p"@,
                            "-movflags"@,
                            "faststart"@,
                            "-c:v"@,
                            "libx264"@,
                            "-preset"@,
                            "veryfast"@,
                            "-crf"@,
                            "28"@,
                            "-c:a"@,
                            "aac"@,
                            "-b:a"@,
                            "280k"@,
                            "-f"@,
                            "mp4"@,
                            path::joined(transcode_folder, link.id),
                        ],
                    },
                ),
            )
            &&& removing.effect() == Some(EffectView::RemoveFile { path: file })
            &&& over.effect() is None
            &&& over.outcome() matches Some(outcome) && outcome is Ok
            &&& probing.outcome() is None && transcoding.outcome() is None
            &&& removing.outcome() is None
        }),
{
    let file = path::joined(download_folder, link.id);
    probe::lemma_choice_follows_the_fields(streams);
    command::lemma_probe_and_cover_arguments(file, path::extended(file, "png"@));
    command::lemma_transcode_arguments(
        file,
        path::extended(file, "png"@),
        path::joined(transcode_folder, link.id),
    );
}

/// New content without moving pictures: the job extracts a cover next to the file, looks whether
/// there is one, removes it, transcodes the file with the cover if there was one and with a drawing
/// of its sound if not, removes what it downloaded, and is done.
pub proof fn lemma_job_on_new_sound(
    link: LinkView,
    download_folder: Seq<char>,
    transcode_folder: Seq<char>,
    before: (ReplyView, ReplyView, ReplyView, Seq<u8>),
    written: ReplyView,
    streams: Seq<StreamView>,
    extracted: ReplyView,
    found: bool,
    cover_removed: ReplyView,
    transcoded: ReplyView,
    removed: ReplyView,
)
    requires
        leads_to_a_file(before),
        process_laws::is_written(written),
        !has_moving_pictures(streams),
        has_run(extracted),
        process_laws::is_removed(cover_removed),
        has_run(transcoded),
        process_laws::is_removed(removed),
    ensures
        ({
            let probing = hash_is_recorded(
                link,
                download_folder,
                transcode_folder,
                before,
                seq![],
                written,
            );
            let extracting = probing.after(ReplyView::Probed(Ok(streams)));
            let checking = extracting.after(extracted);
            let tidying = checking.after(ReplyView::Checked(found));
            let transcoding = tidying.after(cover_removed);
            let removing = transcoding.after(transcoded);
            let over = removing.after(removed);
            let file = path::joined(download_folder, link.id);
            let cover = path::extended(file, "png"@);
            &&& extracting.effect() == Some(
                EffectView::Run(
                    CommandView { program: "ffmpeg"@, args: seq!["-i"@, file, cover] },
                ),
            )
            &&& checking.effect() == Some(EffectView::CheckFile { path: cover })
            &&& tidying.effect() == Some(EffectView::RemoveFile { path: cover })
            &&& found ==> transcoding.effect() == Some(
                EffectView::Run(
                    CommandView {
                        program: "ffmpeg"@,
                        args: seq![
                            "-i"@,
                            file,
                            "-loop"@,
                            "1"@,
                            "-framerate"@,
                            "10"@,
                            "-i"@,
                            cover,
                            "-map"@,
                            "1:v:0"@,
                            "-map"@,
                            "0:a:0"@,
                            "-tune"@,
                            "stillimage"@,
                            "-shortest"@,
                            "-shortest_buf_duration"@,
                            "60"@,
                            "-vf"@,
                            "scale=-2:720:flags=lanczos"@,
                            "-pix_fmt"@,
                            "yuv420p"@,
                            "-movflags"@,
                            "faststart"@,
                            "-c:v"@,
                            "libx264"@,
                            "-preset"@,
                            "veryfast"@,
                            "-crf"@,
                            "28"@,
                            "-c:a"@,
                            "aac"@,
                            "-b:a"@,
                            "280k"@,
                            "-f"@,
                            "mp4"@,
                            path::joined(transcode_folder, link.id),
                        ],
                    },
                ),
            )
            &&& !found ==> transcoding.effect() == Some(
                EffectView::Run(
                    CommandView {
                        program: "ffmpeg"@,
                        args: seq![
                            "-i"@,
                            file,
                            "-filter_complex"@,
                            "[0:a]a3dscope=s=848x480:r=24"@,
                            "-pix_fmt"@,
                            "yuv420p"@,
                            "-movflags"@,
                            "faststart"@,
                            "-c:v"@,
                            "libx264"@,
                            "-preset"@,
                            "veryfast"@,
                            "-crf"@,
                            "28"@,
                            "-c:a"@,
                            "aac"@,
                            "-b:a"@,
                            "280k"@,
                            "-f"@,
                            "mp4"@,
                            path::joined(transcode_folder, link.id),
                        ],
                    },
                ),
            )
            &&& removing.effect() == Some(EffectView::RemoveFile { path: file })
            &&& over.effect() is None
            &&& over.outcome() matches Some(outcome) && outcome is Ok
            &&& extracting.outcome() is None && checking.outcome() is None
            &&& tidying.outcome() is None && transcoding.outcome() is None
            &&& removing.outcome() is None
        }),
{
    let file = path::joined(download_folder, link.id);
    probe::lemma_choice_follows_the_fields(streams);
    command::lemma_probe_and_cover_arguments(file, path::extended(file, "png"@));
    command::lemma_transcode_arguments(
        file,
        path::extended(file, "png"@),
        path::joined(transcode_folder, link.id),
    );
}

/// The request for all links connects, loads them, and answers them all as they were loaded. Any
/// failure on the way is answered with status 500 and its text.
pub proof fn lemma_list_from_start_to_end(
    connected: ReplyView,
    links: Seq<LinkView>,
    failed: ReplyView,
)
    requires
        is_connected(connected),
    ensures
        ({
            let begun = ListView::Connecting;
            let listing = begun.after(connected);
            &&& begun.effect() == Some(EffectView::Connect)
            &&& listing.effect() == Some(EffectView::ListLinks)
            &&& listing.after(ReplyView::Rows(Ok(links))) == ListView::Finished(Ok(links))
            &&& failed matches ReplyView::Connected(Err(fault)) ==> begun.after(failed)
                == ListView::Finished(Err(FailureView { status: 500, message: fault.display }))
            &&& failed matches ReplyView::Rows(Err(fault)) ==> listing.after(failed)
                == ListView::Finished(Err(FailureView { status: 500, message: user_text(fault) }))
        }),
{
}

/// The text that a failure of the store shows to a user.
pub open spec fn user_text(fault: StoreFaultView) -> Seq<char> {
    match fault {
        StoreFaultView::Interact(inner) => inner.display,
        StoreFaultView::Database(inner) => inner.display,
    }
}

/// The request for one link connects, looks for the identifier that it was given, and answers the
/// first link that is found. Where none is, the answer is status 404, and any failure on the way is
/// answered with status 500 and its text.
pub proof fn lemma_show_from_start_to_end(
    id: Seq<char>,
    connected: ReplyView,
    links: Seq<LinkView>,
    failed: ReplyView,
)
    requires
        is_connected(connected),
    ensures
        ({
            let begun = ShowView::Connecting { id };
            let finding = begun.after(connected);
            let answered = finding.after(ReplyView::Rows(Ok(links)));
            &&& begun.effect() == Some(EffectView::Connect)
            &&& finding.effect() == Some(EffectView::FindLink { id })
            &&& links.len() > 0 ==> answered == ShowView::Finished(Ok(links[0]))
            &&& links.len() == 0 ==> answered == ShowView::Finished(
                Err(FailureView { status: 404, message: "File not found"@ }),
            )
            &&& failed matches ReplyView::Connected(Err(fault)) ==> begun.after(failed)
                == ShowView::Finished(Err(FailureView { status: 500, message: fault.display }))
            &&& failed matches ReplyView::Rows(Err(fault)) ==> finding.after(failed)
                == ShowView::Finished(Err(FailureView { status: 500, message: user_text(fault) }))
        }),
{
}

/// The request to create a link connects and adds a link with the given address and identifier and
/// with no hash. What the store says it added is queued, and once it is, that is the answer. Any
/// failure on the way is answered with status 500 and its text.
pub proof fn lemma_create_from_start_to_end(
    url: Seq<char>,
    id: Seq<char>,
    connected: ReplyView,
    row: LinkView,
    enqueued: ReplyView,
    failed: ReplyView,
)
    requires
        is_connected(connected),
        enqueued matches ReplyView::Enqueued(result) && result is Ok,
    ensures
        ({
            let begun = CreateView::start(url, id);
            let inserting = begun.after(connected);
            let queuing = inserting.after(ReplyView::Row(Ok(row)));
            let made = LinkView { id, url, original_hash: None, transcoded_hash: None };
            let kept = inserting.after(ReplyView::Row(Ok(made)));
            &&& begun.effect() == Some(EffectView::Connect)
            &&& inserting.effect() == Some(EffectView::InsertLink(made))
            &&& queuing.effect() == Some(EffectView::Enqueue(row))
            &&& queuing.after(enqueued) == CreateView::Finished(Ok(row))
            &&& kept.effect() == Some(EffectView::Enqueue(made))
            &&& kept.after(enqueued) == CreateView::Finished(Ok(made))
            &&& failed matches ReplyView::Connected(Err(fault)) ==> begun.after(failed)
                == CreateView::Finished(Err(FailureView { status: 500, message: fault.display }))
            &&& failed matches ReplyView::Row(Err(fault)) ==> inserting.after(failed)
                == CreateView::Finished(Err(FailureView { status: 500, message: user_text(fault) }))
            &&& failed matches ReplyView::Enqueued(Err(fault)) ==> queuing.after(failed)
                == CreateView::Finished(Err(FailureView { status: 500, message: fault.display }))
        }),
{
}

/// The request to delete a link connects, removes the row with the identifier that it was given, and
/// then the transcoded file of the row that was removed. Once the row is gone the request is
/// answered well, whether or not there was a file. Any failure before that is answered with status
/// 500 and its text.
pub proof fn lemma_delete_from_start_to_end(
    id: Seq<char>,
    transcode_folder: Seq<char>,
    connected: ReplyView,
    row: LinkView,
    removed: ReplyView,
    failed: ReplyView,
)
    requires
        is_connected(connected),
        removed is Removed,
    ensures
        ({
            let begun = DeleteView::Connecting { id, transcode_folder };
            let deleting = begun.after(connected);
            let tidying = deleting.after(ReplyView::Row(Ok(row)));
            &&& begun.effect() == Some(EffectView::Connect)
            &&& deleting.effect() == Some(EffectView::DeleteLink { id })
            &&& tidying.effect() == Some(
                EffectView::RemoveFile { path: path::joined(transcode_folder, row.id) },
            )
            &&& tidying.after(removed).effect() is None
            &&& tidying.after(removed) matches DeleteView::Finished(answer) && answer is Ok
            &&& failed matches ReplyView::Connected(Err(fault)) ==> begun.after(failed)
                == DeleteView::Finished(Err(FailureView { status: 500, message: fault.display }))
            &&& failed matches ReplyView::Row(Err(fault)) ==> deleting.after(failed)
                == DeleteView::Finished(Err(FailureView { status: 500, message: user_text(fault) }))
        }),
{
}

/// Once the store has removed the row, a request to delete is answered well, whatever came of the
/// file.
pub proof fn lemma_deletion_does_not_depend_on_the_file(
    path: Seq<char>,
    result: Result<(), Seq<char>>,
)
    ensures
        (DeleteView::RemovingFile { path }).after(ReplyView::Removed(result))
            matches DeleteView::Finished(answer) && answer is Ok,
{
}

/// A direct request follows its job: until that is over it asks for what the job asks for. A job
/// that succeeds, whatever its last step was, is followed by opening its transcoded file, and a job
/// that fails by a refusal with status 500 and the rendering of its error.
pub proof fn lemma_request_follows_its_job(
    request: DirectView,
    job: ProcessView,
    replies: Seq<ReplyView>,
    id: Seq<char>,
)
    requires
        request.stage == DirectStageView::Processing(job),
        job.outcome() is None,
        process_laws::answered(job, replies),
    ensures
        ({
            let now = direct::run(request, replies, id);
            let done = process_laws::run(job, replies);
            match done.outcome() {
                None => {
                    &&& now.effect() == done.effect()
                    &&& now.effect() is Some
                    &&& now.stage == DirectStageView::Processing(done)
                },
                Some(Ok(_)) => {
                    &&& now.effect() == Some(
                        EffectView::OpenFile {
                            path: path::joined(job.transcode_folder, job.link.id),
                        },
                    )
                    &&& now.stage is Opening
                },
                Some(Err(error)) => {
                    &&& now.effect() is None
                    &&& now.stage == DirectStageView::Finished(
                        Err(FailureView { status: 500, message: error.text() }),
                    )
                },
            }
        }),
    decreases replies.len(),
{
    if replies.len() > 0 {
        lemma_request_follows_its_job(request, job, replies.drop_last(), id);
        process_laws::lemma_job_keeps_its_link(job, replies);
        process_laws::lemma_job_waits_until_it_is_over(
            process_laws::run(job, replies.drop_last()),
        );
    }
    process_laws::lemma_job_waits_until_it_is_over(process_laws::run(job, replies));
}

/// What becomes of a request whose job on `link` gets these replies: until the job is over the
/// request asks for what the job asks for. If the job succeeds the request opens the transcoded file
/// of the link, answers with it as an MP4 to be saved where it can be opened, and with status 404
/// and the reason where it cannot. If the job fails the answer is status 500 and its error.
pub open spec fn is_served_by_a_job(
    request: DirectView,
    link: LinkView,
    download_folder: Seq<char>,
    transcode_folder: Seq<char>,
    replies: Seq<ReplyView>,
    id: Seq<char>,
    opened: ReplyView,
) -> bool {
    let now = direct::run(request, replies, id);
    let job = process_laws::run(
        ProcessView::start(link, download_folder, transcode_folder),
        replies,
    );
    match job.outcome() {
        None => now.effect() == job.effect() && now.effect() is Some,
        Some(Ok(_)) => {
            &&& now.effect() == Some(
                EffectView::OpenFile { path: path::joined(transcode_folder, link.id) },
            )
            &&& opened matches ReplyView::Opened(result) ==> {
                &&& result is Ok ==> {
                    &&& now.after(opened, id).effect() is None
                    &&& now.after(opened, id).stage matches DirectStageView::Finished(answer)
                    &&& answer is Ok
                    &&& answer->Ok_0.content_type == "video/mp4"@
                    &&& answer->Ok_0.content_disposition
                        == "attachment; filename=\"video.mp4\""@
                }
                &&& result is Err ==> now.after(opened, id).stage == DirectStageView::Finished(
                    Err(
                        FailureView {
                            status: 404,
                            message: "File not found: "@ + result->Err_0,
                        },
                    ),
                )
            }
        },
        Some(Err(error)) => {
            &&& now.effect() is None
            &&& now.stage == DirectStageView::Finished(
                Err(FailureView { status: 500, message: error.text() }),
            )
        },
    }
}

proof fn lemma_request_is_served(
    request: DirectView,
    link: LinkView,
    replies: Seq<ReplyView>,
    id: Seq<char>,
    opened: ReplyView,
)
    requires
        request.stage == DirectStageView::Processing(
            ProcessView::start(link, request.download_folder, request.transcode_folder),
        ),
        process_laws::answered(
            ProcessView::start(link, request.download_folder, request.transcode_folder),
            replies,
        ),
    ensures
        is_served_by_a_job(
            request,
            link,
            request.download_folder,
            request.transcode_folder,
            replies,
            id,
            opened,
        ),
{
    lemma_request_follows_its_job(
        request,
        ProcessView::start(link, request.download_folder, request.transcode_folder),
        replies,
        id,
    );
}

/// A direct request for an address that some link has: it connects, finds the links to the address,
/// and is served by a job on the first of them.
pub proof fn lemma_direct_request_for_a_known_address(
    url: Seq<char>,
    download_folder: Seq<char>,
    transcode_folder: Seq<char>,
    id: Seq<char>,
    connected: ReplyView,
    links: Seq<LinkView>,
    replies: Seq<ReplyView>,
    opened: ReplyView,
)
    requires
        is_connected(connected),
        links.len() > 0,
        process_laws::answered(
            ProcessView::start(links[0], download_folder, transcode_folder),
            replies,
        ),
    ensures
        ({
            let begun = DirectView::start(url, download_folder, transcode_folder);
            let finding = begun.after(connected, id);
            let processing = finding.after(ReplyView::Rows(Ok(links)), id);
            &&& begun.effect() == Some(EffectView::Connect)
            &&& finding.effect() == Some(EffectView::FindByUrl { url })
            &&& !finding.adds_link(ReplyView::Rows(Ok(links)))
            &&& is_served_by_a_job(
                processing,
                links[0],
                download_folder,
                transcode_folder,
                replies,
                id,
                opened,
            )
        }),
{
    let finding = DirectView::start(url, download_folder, transcode_folder).after(connected, id);
    lemma_request_is_served(
        finding.after(ReplyView::Rows(Ok(links)), id),
        links[0],
        replies,
        id,
        opened,
    );
}

/// A direct request for a new address: it connects, finds no link to the address, adds one with the
/// address, the given identifier and no hash, and is served by a job on the link that it made,
/// whatever the store returned for it. A failure on the way is answered with status 500 and its
/// text.
pub proof fn lemma_direct_request_for_a_new_address(
    url: Seq<char>,
    download_folder: Seq<char>,
    transcode_folder: Seq<char>,
    id: Seq<char>,
    connected: ReplyView,
    none: ReplyView,
    row: LinkView,
    replies: Seq<ReplyView>,
    opened: ReplyView,
    failed: ReplyView,
)
    requires
        is_connected(connected),
        is_empty(none),
        process_laws::answered(
            ProcessView::start(
                LinkView { id, url, original_hash: None, transcoded_hash: None },
                download_folder,
                transcode_folder,
            ),
            replies,
        ),
    ensures
        ({
            let made = LinkView { id, url, original_hash: None, transcoded_hash: None };
            let begun = DirectView::start(url, download_folder, transcode_folder);
            let finding = begun.after(connected, id);
            let inserting = finding.after(none, id);
            let processing = inserting.after(ReplyView::Row(Ok(row)), id);
            &&& begun.effect() == Some(EffectView::Connect)
            &&& finding.effect() == Some(EffectView::FindByUrl { url })
            &&& finding.adds_link(none)
            &&& inserting.effect() == Some(EffectView::InsertLink(made))
            &&& is_served_by_a_job(
                processing,
                made,
                download_folder,
                transcode_folder,
                replies,
                id,
                opened,
            )
            &&& failed matches ReplyView::Connected(Err(fault)) ==> begun.after(failed, id).stage
                == DirectStageView::Finished(
                Err(FailureView { status: 500, message: fault.display }),
            )
            &&& failed matches ReplyView::Rows(Err(fault)) ==> finding.after(failed, id).stage
                == DirectStageView::Finished(
                Err(FailureView { status: 500, message: user_text(fault) }),
            )
            &&& failed matches ReplyView::Row(Err(fault)) ==> inserting.after(failed, id).stage
                == DirectStageView::Finished(
                Err(FailureView { status: 500, message: user_text(fault) }),
            )
        }),
{
    let made = LinkView { id, url, original_hash: None, transcoded_hash: None };
    let finding = DirectView::start(url, download_folder, transcode_folder).after(connected, id);
    lemma_request_is_served(
        finding.after(none, id).after(ReplyView::Row(Ok(row)), id),
        made,
        replies,
        id,
        opened,
    );
}

/// What is no reply to the effect that a direct request waits for changes nothing, and an answered
/// request stays as it is.
pub proof fn lemma_request_ignores_other_replies(
    request: DirectView,
    reply: ReplyView,
    id: Seq<char>,
)
    requires
        request.well_formed(),
        request.effect() matches Some(effect) ==> !effect::answers(effect, reply),
    ensures
        request.after(reply, id) == request,
{
    if let DirectStageView::Processing(job) = request.stage {
        process_laws::lemma_only_answers_count(job, reply);
    }
}

/// The worker, from one link to the next. It waits for a link, asks for what the job on that link
/// asks for, and when the job is over connects and notes on the row of that link that it is
/// finished, or why it failed. Whatever becomes of the note, or if no connection is had, it waits for
/// the next link, with the same folders. When there is none it is done.
pub proof fn lemma_worker_from_link_to_link(
    worker: TaskView,
    link: LinkView,
    replies: Seq<ReplyView>,
    connected: ReplyView,
    written: ReplyView,
)
    requires
        worker.stage is Waiting,
        process_laws::answered(
            ProcessView::start(link, worker.download_folder, worker.transcode_folder),
            replies,
        ),
        connected is Connected,
        written is Written,
    ensures
        ({
            let now = tasks::run(worker.after(ReplyView::Received(Some(link))), replies);
            let job = process_laws::run(
                ProcessView::start(link, worker.download_folder, worker.transcode_folder),
                replies,
            );
            let noting = now.after(connected);
            let next = if is_connected(connected) {
                noting.after(written)
            } else {
                noting
            };
            &&& worker.effect() == Some(EffectView::Receive)
            &&& worker.after(ReplyView::Received(None)).effect() is None
            &&& job.outcome() is None ==> now.effect() == job.effect() && now.effect() is Some
            &&& job.outcome() matches Some(outcome) ==> {
                &&& now.effect() == Some(EffectView::Connect)
                &&& is_connected(connected) && outcome is Ok ==> noting.effect() == Some(
                    EffectView::SetFinished { id: link.id },
                )
                &&& is_connected(connected) && outcome is Err ==> noting.effect() == Some(
                    EffectView::SetError { id: link.id, error: outcome->Err_0.text() },
                )
                &&& next.effect() == Some(EffectView::Receive)
                &&& next.stage is Waiting
                &&& next.download_folder == worker.download_folder
                &&& next.transcode_folder == worker.transcode_folder
            }
        }),
{
    let start = ProcessView::start(link, worker.download_folder, worker.transcode_folder);
    tasks::lemma_worker_runs_the_job(worker, link, replies);
    process_laws::lemma_job_keeps_its_link(start, replies);
    process_laws::lemma_job_waits_until_it_is_over(process_laws::run(start, replies));
    task_laws::lemma_worker_keeps_its_folders(
        worker.after(ReplyView::Received(Some(link))),
        replies,
    );
}

/// What is no reply to the effect that the worker waits for changes nothing, and a worker that is
/// done stays so.
pub proof fn lemma_worker_ignores_other_replies(worker: TaskView, reply: ReplyView)
    requires
        worker.well_formed(),
        worker.effect() matches Some(effect) ==> !effect::answers(effect, reply),
    ensures
        worker.after(reply) == worker,
{
    if let TaskStageView::Processing(job) = worker.stage {
        process_laws::lemma_only_answers_count(job, reply);
    }
}

} // verus!
