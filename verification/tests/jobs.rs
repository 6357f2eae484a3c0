use link_server::effect::{Effect, Reply};
use link_server::error::{CustomErrors, Fault, StoreFault};
use link_server::link::Link;
use link_server::probe::{FfprobeOutput, FfprobeStream};
use link_server::process::ProcessLink;
use link_server::tasks::TaskManager;

const ABC: &str = "ba7816bf8f01cfea414140de5dae2223b00361a396177a9cb410ff61f20015ad";

fn link(id: &str, url: &str, hash: Option<&str>) -> Link {
    Link {
        id: id.to_string(),
        url: url.to_string(),
        original_hash: hash.map(|h| h.to_string()),
        transcoded_hash: None,
    }
}

fn fault(debug: &str) -> Fault {
    Fault { display: "shown".to_string(), debug: debug.to_string() }
}

fn database() -> StoreFault {
    StoreFault::Database(fault("NotFound"))
}

fn interact() -> StoreFault {
    StoreFault::Interact(fault("Aborted"))
}

fn report(codec_type: &str, rate: &str) -> FfprobeOutput {
    FfprobeOutput {
        streams: vec![FfprobeStream {
            codec_name: "c".to_string(),
            index: 0,
            avg_frame_rate: rate.to_string(),
            codec_type: codec_type.to_string(),
        }],
    }
}

fn start() -> ProcessLink {
    ProcessLink::start(link("1", "http://a", None), "d".to_string(), "t".to_string())
}

/// The job after the replies that lead to the report on its streams.
fn probing() -> ProcessLink {
    start()
        .resume(Reply::Connected(Ok(())))
        .resume(Reply::Rows(Ok(vec![])))
        .resume(Reply::Ran(Ok(())))
        .resume(Reply::Checked(true))
        .resume(Reply::Content(Ok(b"abc".to_vec())))
        .resume(Reply::Rows(Ok(vec![])))
        .resume(Reply::Written(Ok(())))
}

fn failure(job: &ProcessLink) -> String {
    assert!(job.effect().is_none());
    match job.outcome() {
        Some(Err(error)) => error.describe(),
        other => panic!("no failure: {other:?}"),
    }
}

fn runs(job: &ProcessLink) -> (String, Vec<String>) {
    match job.effect() {
        Some(Effect::Run(command)) => (command.program, command.args),
        other => panic!("nothing to run: {other:?}"),
    }
}

fn removes(job: &ProcessLink) -> String {
    match job.effect() {
        Some(Effect::RemoveFile { path }) => path,
        other => panic!("nothing to remove: {other:?}"),
    }
}

#[test]
fn a_new_video_goes_all_the_way() {
    let job = start();
    assert!(matches!(job.effect(), Some(Effect::Connect)));
    let job = job.resume(Reply::Connected(Ok(())));
    assert!(matches!(
        job.effect(),
        Some(Effect::FindTwins { url, id }) if url == "http://a" && id == "1"
    ));
    let job = job.resume(Reply::Rows(Ok(vec![])));
    let (program, args) = runs(&job);
    assert_eq!(program, "yt-dlp");
    assert_eq!(args[1], "d/tmp/1");
    assert_eq!(args[9], "mv {} d/1");
    assert_eq!(args[10], "http://a");
    // A download that ends badly is no failure as long as there is a file.
    let job = job.resume(Reply::Ran(Err("exit".to_string())));
    assert!(matches!(job.effect(), Some(Effect::CheckFile { path }) if path == "d/1"));
    let job = job.resume(Reply::Checked(true));
    assert!(matches!(job.effect(), Some(Effect::ReadFile { path }) if path == "d/1"));
    let job = job.resume(Reply::Content(Ok(b"abc".to_vec())));
    assert!(matches!(job.effect(), Some(Effect::FindByHash { hash }) if hash == ABC));
    let job = job.resume(Reply::Rows(Ok(vec![])));
    assert!(matches!(
        job.effect(),
        Some(Effect::SetHash { id, original_hash: Some(hash) }) if id == "1" && hash == ABC
    ));
    let job = job.resume(Reply::Written(Ok(())));
    match job.effect() {
        Some(Effect::Probe(command)) => {
            assert_eq!(command.program, "ffprobe");
            assert_eq!(command.args[6], "d/1");
        }
        other => panic!("{other:?}"),
    }
    let job = job.resume(Reply::Probed(Ok(report("video", "25/1"))));
    let (program, args) = runs(&job);
    assert_eq!(program, "ffmpeg");
    assert_eq!(args[2], "-vf");
    assert_eq!(args.last().unwrap(), "t/1");
    let job = job.resume(Reply::Ran(Ok(())));
    assert_eq!(removes(&job), "d/1");
    assert!(job.outcome().is_none());
    let job = job.resume(Reply::Removed(Ok(())));
    assert!(matches!(job.outcome(), Some(Ok(()))));
    assert!(job.effect().is_none());
}

#[test]
fn a_known_address_lends_its_hash() {
    let twins = vec![link("2", "http://a", Some("h2")), link("3", "http://a", None)];
    let job = start().resume(Reply::Connected(Ok(()))).resume(Reply::Rows(Ok(twins)));
    assert!(matches!(
        job.effect(),
        Some(Effect::SetHash { id, original_hash: Some(hash) }) if id == "1" && hash == "h2"
    ));
    let job = job.resume(Reply::Written(Ok(())));
    assert!(matches!(job.outcome(), Some(Ok(()))));
}

#[test]
fn a_known_address_without_a_hash_lends_none() {
    let twins = vec![link("2", "http://a", None)];
    let job = start().resume(Reply::Connected(Ok(()))).resume(Reply::Rows(Ok(twins)));
    assert!(matches!(job.effect(), Some(Effect::SetHash { original_hash: None, .. })));
}

#[test]
fn known_content_is_not_transcoded() {
    let job = start()
        .resume(Reply::Connected(Ok(())))
        .resume(Reply::Rows(Ok(vec![])))
        .resume(Reply::Ran(Ok(())))
        .resume(Reply::Checked(true))
        .resume(Reply::Content(Ok(b"abc".to_vec())))
        .resume(Reply::Rows(Ok(vec![link("9", "http://b", Some(ABC))])));
    assert!(matches!(job.effect(), Some(Effect::SetHash { .. })));
    let job = job.resume(Reply::Written(Ok(())));
    assert_eq!(removes(&job), "d/1");
    let job = job.resume(Reply::Removed(Ok(())));
    assert!(matches!(job.outcome(), Some(Ok(()))));
}

#[test]
fn sound_with_a_cover() {
    let job = probing().resume(Reply::Probed(Ok(report("audio", "0/0"))));
    assert_eq!(
        runs(&job),
        ("ffmpeg".to_string(), vec!["-i".to_string(), "d/1".to_string(), "d/1.png".to_string()])
    );
    let job = job.resume(Reply::Ran(Ok(())));
    assert!(matches!(job.effect(), Some(Effect::CheckFile { path }) if path == "d/1.png"));
    let job = job.resume(Reply::Checked(true));
    assert_eq!(removes(&job), "d/1.png");
    let job = job.resume(Reply::Removed(Ok(())));
    let (_, args) = runs(&job);
    assert_eq!(args[2], "-loop");
    assert_eq!(args[7], "d/1.png");
}

#[test]
fn sound_without_a_cover_fails_on_its_removal() {
    let job = probing()
        .resume(Reply::Probed(Ok(report("audio", "0/0"))))
        .resume(Reply::Ran(Ok(())))
        .resume(Reply::Checked(false));
    assert_eq!(removes(&job), "d/1.png");
    let failed = job.resume(Reply::Removed(Err("No such file".to_string())));
    assert_eq!(failure(&failed), "Custom(\"No such file\")");
}

#[test]
fn sound_without_a_cover_is_drawn_otherwise() {
    let job = probing()
        .resume(Reply::Probed(Ok(report("audio", "0/0"))))
        .resume(Reply::Ran(Ok(())))
        .resume(Reply::Checked(false))
        .resume(Reply::Removed(Ok(())));
    let (_, args) = runs(&job);
    assert_eq!(args[2], "-filter_complex");
    assert!(!args.contains(&"-vf".to_string()));
}

#[test]
fn store_failures_end_the_job() {
    let job = start().resume(Reply::Connected(Err(fault("Timeout"))));
    assert_eq!(failure(&job), "DeadpoolPool(Timeout)");
    let finding = || start().resume(Reply::Connected(Ok(())));
    assert_eq!(failure(&finding().resume(Reply::Rows(Err(database())))), "Diesel(NotFound)");
    assert_eq!(failure(&finding().resume(Reply::Rows(Err(interact())))), "Deadpool(Aborted)");
    let adopting = finding().resume(Reply::Rows(Ok(vec![link("2", "http://a", None)])));
    assert_eq!(failure(&adopting.resume(Reply::Written(Err(database())))), "Diesel(NotFound)");
    let hashed = || {
        finding()
            .resume(Reply::Rows(Ok(vec![])))
            .resume(Reply::Ran(Ok(())))
            .resume(Reply::Checked(true))
            .resume(Reply::Content(Ok(vec![])))
    };
    assert_eq!(failure(&hashed().resume(Reply::Rows(Err(interact())))), "Deadpool(Aborted)");
    let recording = hashed().resume(Reply::Rows(Ok(vec![])));
    assert_eq!(failure(&recording.resume(Reply::Written(Err(interact())))), "Deadpool(Aborted)");
}

#[test]
fn other_failures_end_the_job() {
    let checking = || {
        start()
            .resume(Reply::Connected(Ok(())))
            .resume(Reply::Rows(Ok(vec![])))
            .resume(Reply::Ran(Ok(())))
    };
    let text = || "broken".to_string();
    assert_eq!(
        failure(&checking().resume(Reply::Checked(false))),
        "Custom(\"downloaded file not found\")"
    );
    let hashing = checking().resume(Reply::Checked(true));
    assert_eq!(failure(&hashing.resume(Reply::Content(Err(text())))), "Custom(\"broken\")");
    assert_eq!(failure(&probing().resume(Reply::Probed(Err(text())))), "Custom(\"broken\")");
    let cover = probing().resume(Reply::Probed(Ok(report("audio", "0/0"))));
    assert_eq!(failure(&cover.resume(Reply::Ran(Err(text())))), "Custom(\"broken\")");
    let video = || probing().resume(Reply::Probed(Ok(report("video", "1/1"))));
    assert_eq!(failure(&video().resume(Reply::Ran(Err(text())))), "Custom(\"broken\")");
    let removing = video().resume(Reply::Ran(Ok(())));
    assert_eq!(failure(&removing.resume(Reply::Removed(Err(text())))), "Custom(\"broken\")");
}

#[test]
fn what_is_no_reply_changes_nothing() {
    let job = start().resume(Reply::Checked(true)).resume(Reply::Rows(Ok(vec![])));
    assert!(matches!(job.effect(), Some(Effect::Connect)));
    let over = start().resume(Reply::Connected(Err(fault("x")))).resume(Reply::Connected(Ok(())));
    assert_eq!(failure(&over), "DeadpoolPool(x)");
}

fn worker() -> TaskManager {
    TaskManager::start("d".to_string(), "t".to_string())
}

#[test]
fn a_job_that_succeeds_is_marked_finished() {
    let twins = vec![link("2", "http://a", Some("h"))];
    let worker = worker();
    assert!(matches!(worker.effect(), Some(Effect::Receive)));
    let worker = worker.resume(Reply::Received(Some(link("1", "http://a", None))));
    assert!(matches!(worker.effect(), Some(Effect::Connect)));
    let worker = worker
        .resume(Reply::Connected(Ok(())))
        .resume(Reply::Rows(Ok(twins)))
        .resume(Reply::Written(Ok(())));
    assert!(matches!(worker.effect(), Some(Effect::Connect)));
    let worker = worker.resume(Reply::Connected(Ok(())));
    assert!(matches!(worker.effect(), Some(Effect::SetFinished { id }) if id == "1"));
    let worker = worker.resume(Reply::Written(Err(database())));
    assert!(matches!(worker.effect(), Some(Effect::Receive)));
}

#[test]
fn a_job_that_fails_leaves_its_error() {
    let worker = worker()
        .resume(Reply::Received(Some(link("7", "http://a", None))))
        .resume(Reply::Connected(Err(fault("Timeout"))))
        .resume(Reply::Connected(Ok(())));
    assert!(matches!(
        worker.effect(),
        Some(Effect::SetError { id, error }) if id == "7" && error == "DeadpoolPool(Timeout)"
    ));
    let worker = worker.resume(Reply::Written(Ok(())));
    assert!(matches!(worker.effect(), Some(Effect::Receive)));
}

#[test]
fn a_worker_without_a_store_takes_the_next_link() {
    let worker = worker()
        .resume(Reply::Received(Some(link("7", "http://a", None))))
        .resume(Reply::Connected(Err(fault("Timeout"))))
        .resume(Reply::Connected(Err(fault("Timeout"))));
    assert!(matches!(worker.effect(), Some(Effect::Receive)));
    let worker = worker.resume(Reply::Received(None));
    assert!(worker.effect().is_none());
}

#[test]
fn a_stage_can_be_entered_with_a_given_hash() {
    let job = ProcessLink {
        link: link("1", "http://a", None),
        download_folder: "d".to_string(),
        transcode_folder: "t".to_string(),
        stage: link_server::process::Stage::FindingCopies("00ff".to_string()),
    };
    assert!(matches!(job.effect(), Some(Effect::FindByHash { hash }) if hash == "00ff"));
    let job = job.resume(Reply::Rows(Ok(vec![])));
    assert!(matches!(
        job.effect(),
        Some(Effect::SetHash { original_hash: Some(hash), .. }) if hash == "00ff"
    ));
    assert_eq!(job.link().id, "1");
    assert_eq!(job.transcode_path(), "t/1");
    let ended = job.resume(Reply::Written(Err(database())));
    assert!(matches!(ended.outcome(), Some(Err(CustomErrors::Diesel(_)))));
}

#[test]
fn the_hash_is_that_of_the_downloaded_file() {
    let hashing = start()
        .resume(Reply::Connected(Ok(())))
        .resume(Reply::Rows(Ok(vec![])))
        .resume(Reply::Ran(Ok(())))
        .resume(Reply::Checked(true));
    assert!(matches!(hashing.effect(), Some(Effect::ReadFile { path }) if path == "d/1"));
    let finding = hashing.resume(Reply::Content(Ok(b"abc".to_vec())));
    assert!(matches!(finding.effect(), Some(Effect::FindByHash { hash }) if hash == ABC));
    let recording = finding.resume(Reply::Rows(Ok(vec![])));
    match recording.effect() {
        Some(Effect::SetHash { id, original_hash }) => {
            assert_eq!((id.as_str(), original_hash.as_deref()), ("1", Some(ABC)));
        }
        other => panic!("{other:?}"),
    }
}

#[test]
fn the_longest_job_takes_thirteen_replies() {
    let replies = vec![
        Reply::Connected(Ok(())),
        Reply::Rows(Ok(vec![])),
        Reply::Ran(Err("ignored".to_string())),
        Reply::Checked(true),
        Reply::Content(Ok(vec![])),
        Reply::Rows(Ok(vec![])),
        Reply::Written(Ok(())),
        Reply::Probed(Ok(report("audio", "0/0"))),
        Reply::Ran(Ok(())),
        Reply::Checked(true),
        Reply::Removed(Ok(())),
        Reply::Ran(Ok(())),
        Reply::Removed(Ok(())),
    ];
    assert_eq!(replies.len(), 13);
    let mut job = start();
    for reply in replies {
        assert!(job.effect().is_some() && job.outcome().is_none());
        job = job.resume(reply);
    }
    assert!(job.effect().is_none());
    assert!(matches!(job.outcome(), Some(Ok(()))));
}

#[test]
fn the_worker_serves_its_queue_in_order() {
    let mut worker = worker();
    let mut taken: Vec<&str> = vec![];
    let mut noted: Vec<String> = vec![];
    for id in ["7", "3", "9"] {
        assert!(matches!(worker.effect(), Some(Effect::Receive)));
        assert_eq!(noted.len(), taken.len());
        taken.push(id);
        worker = worker
            .resume(Reply::Received(Some(link(id, "http://a", None))))
            .resume(Reply::Received(Some(link("unasked", "http://b", None))))
            .resume(Reply::Connected(Ok(())));
        assert!(matches!(worker.effect(), Some(Effect::FindTwins { id: own, .. }) if own == id));
        worker = worker
            .resume(Reply::Rows(Err(database())))
            .resume(Reply::Connected(Ok(())));
        match worker.effect() {
            Some(Effect::SetError { id, .. }) => noted.push(id),
            other => panic!("{other:?}"),
        }
        worker = worker.resume(Reply::Written(Ok(())));
    }
    assert_eq!(noted, taken);
    let worker = worker.resume(Reply::Received(None));
    assert!(worker.effect().is_none());
}

#[test]
fn only_a_waiting_worker_is_closed() {
    let busy = worker()
        .resume(Reply::Received(Some(link("1", "http://a", None))))
        .resume(Reply::Received(None));
    assert!(matches!(busy.effect(), Some(Effect::Connect)));
}

#[test]
fn the_store_is_asked_only_over_a_connection() {
    let job = start().resume(Reply::Connected(Err(fault("Timeout"))));
    assert!(job.effect().is_none());
    let worker = worker()
        .resume(Reply::Received(Some(link("1", "http://a", None))))
        .resume(Reply::Connected(Ok(())))
        .resume(Reply::Rows(Err(interact())));
    assert!(matches!(worker.effect(), Some(Effect::Connect)));
    let worker = worker.resume(Reply::Connected(Err(fault("Timeout"))));
    assert!(matches!(worker.effect(), Some(Effect::Receive)));
}

/// Runs a job on the replies and gives the targets of the transcodings on the way.
fn transcoded_by(replies: Vec<Reply>) -> Vec<String> {
    let mut job = start();
    let mut targets: Vec<String> = vec![];
    for reply in replies {
        if let Some(Effect::Run(command)) = job.effect() {
            if command.args.contains(&"libx264".to_string()) {
                assert!(matches!(reply, Reply::Ran(Ok(()))));
                targets.push(command.args.last().unwrap().clone());
            }
        }
        job = job.resume(reply);
    }
    assert!(matches!(job.outcome(), Some(Ok(()))));
    targets
}

#[test]
fn a_job_succeeds_in_one_of_three_ways() {
    let known_address = vec![
        Reply::Connected(Ok(())),
        Reply::Rows(Ok(vec![link("2", "http://a", Some("h"))])),
        Reply::Written(Ok(())),
    ];
    assert!(transcoded_by(known_address).is_empty());
    let downloaded = |copies: Vec<Link>| {
        vec![
            Reply::Connected(Ok(())),
            Reply::Rows(Ok(vec![])),
            Reply::Ran(Ok(())),
            Reply::Checked(true),
            Reply::Content(Ok(b"abc".to_vec())),
            Reply::Rows(Ok(copies)),
            Reply::Written(Ok(())),
        ]
    };
    let mut known_content = downloaded(vec![link("2", "http://b", Some(ABC))]);
    known_content.push(Reply::Removed(Ok(())));
    assert!(transcoded_by(known_content).is_empty());
    let mut new_content = downloaded(vec![]);
    new_content.push(Reply::Probed(Ok(report("video", "25/1"))));
    new_content.push(Reply::Ran(Ok(())));
    new_content.push(Reply::Removed(Ok(())));
    assert_eq!(transcoded_by(new_content), vec!["t/1".to_string()]);
}

#[test]
fn the_picture_follows_the_file() {
    let words = |job: &ProcessLink| runs(job).1.join(" ");
    let video = probing().resume(Reply::Probed(Ok(report("video", "25/1"))));
    assert!(words(&video).starts_with("-i d/1 -vf scale=-2:720:flags=lanczos -pix_fmt"));
    let without = |found: bool| {
        probing()
            .resume(Reply::Probed(Ok(report("video", "0/0"))))
            .resume(Reply::Ran(Ok(())))
            .resume(Reply::Checked(found))
            .resume(Reply::Removed(Ok(())))
    };
    assert!(words(&without(true)).starts_with("-i d/1 -loop 1 -framerate 10 -i d/1.png -map 1:v:0"));
    assert!(words(&without(false)).starts_with("-i d/1 -filter_complex [0:a]a3dscope"));
}
