use link_server::direct::{request_url, DirectRequest};
use link_server::effect::{Effect, Reply};
use link_server::error::{Failure, Fault, StoreFault};
use link_server::link::{Link, NewLink};
use link_server::requests::{CreateLink, DeleteLink, ListLinks, ShowLink};

fn link(id: &str, url: &str) -> Link {
    Link::with_id(url.to_string(), id.to_string())
}

fn fault(display: &str) -> Fault {
    Fault { display: display.to_string(), debug: "D".to_string() }
}

fn missing() -> StoreFault {
    StoreFault::Database(fault("Record not found"))
}

fn refusal(failure: &Failure) -> (u16, &str) {
    (failure.status, failure.message.as_str())
}

#[test]
fn all_links_are_listed() {
    let request = ListLinks::start();
    assert!(matches!(request.effect(), Some(Effect::Connect)));
    let request = request.resume(Reply::Connected(Ok(())));
    assert!(matches!(request.effect(), Some(Effect::ListLinks)));
    let request = request.resume(Reply::Rows(Ok(vec![link("1", "a"), link("2", "b")])));
    assert!(request.effect().is_none());
    match request {
        ListLinks::Finished(Ok(links)) => {
            let ids: Vec<&str> = links.iter().map(|l| l.id.as_str()).collect();
            assert_eq!(ids, vec!["1", "2"]);
        }
        other => panic!("{other:?}"),
    }
}

#[test]
fn a_list_fails_with_the_store() {
    match ListLinks::start().resume(Reply::Connected(Err(fault("no pool")))) {
        ListLinks::Finished(Err(failure)) => assert_eq!(refusal(&failure), (500, "no pool")),
        other => panic!("{other:?}"),
    }
    let listing = ListLinks::start().resume(Reply::Connected(Ok(())));
    match listing.resume(Reply::Rows(Err(StoreFault::Interact(fault("Panic"))))) {
        ListLinks::Finished(Err(failure)) => assert_eq!(refusal(&failure), (500, "Panic")),
        other => panic!("{other:?}"),
    }
}

fn shown(reply: Reply) -> Result<Link, Failure> {
    let request = ShowLink::start("1".to_string());
    assert!(matches!(request.effect(), Some(Effect::Connect)));
    let request = request.resume(Reply::Connected(Ok(())));
    assert!(matches!(request.effect(), Some(Effect::FindLink { id }) if id == "1"));
    let request = request.resume(reply);
    assert!(request.effect().is_none());
    match request {
        ShowLink::Finished(answer) => answer,
        other => panic!("{other:?}"),
    }
}

#[test]
fn the_first_match_is_shown() {
    let found = shown(Reply::Rows(Ok(vec![link("1", "a"), link("1", "b")]))).unwrap();
    assert_eq!((found.id.as_str(), found.url.as_str()), ("1", "a"));
}

#[test]
fn an_unknown_link_is_not_found() {
    let failure = shown(Reply::Rows(Ok(vec![]))).unwrap_err();
    assert_eq!(refusal(&failure), (404, "File not found"));
}

#[test]
fn a_show_fails_with_the_store() {
    let failure = shown(Reply::Rows(Err(missing()))).unwrap_err();
    assert_eq!(refusal(&failure), (500, "Record not found"));
    match ShowLink::start("1".to_string()).resume(Reply::Connected(Err(fault("no pool")))) {
        ShowLink::Finished(Err(failure)) => assert_eq!(refusal(&failure), (500, "no pool")),
        other => panic!("{other:?}"),
    }
}

#[test]
fn a_created_link_is_stored_queued_and_answered() {
    let new_link = NewLink { url: "http://a".to_string() };
    let request = CreateLink::start_with_id(new_link, "5".to_string());
    assert!(matches!(request.effect(), Some(Effect::Connect)));
    let request = request.resume(Reply::Connected(Ok(())));
    assert!(matches!(
        request.effect(),
        Some(Effect::InsertLink(l)) if l.id == "5" && l.url == "http://a" && l.original_hash.is_none()
    ));
    let request = request.resume(Reply::Row(Ok(link("5", "http://a"))));
    assert!(matches!(request.effect(), Some(Effect::Enqueue(l)) if l.id == "5"));
    let request = request.resume(Reply::Enqueued(Ok(())));
    assert!(request.effect().is_none());
    assert!(matches!(request, CreateLink::Finished(Ok(l)) if l.id == "5" && l.url == "http://a"));
}

#[test]
fn a_created_link_gets_a_random_identifier() {
    let start = || CreateLink::start(NewLink { url: "u".to_string() });
    let id = |request: CreateLink| match request.resume(Reply::Connected(Ok(()))).effect() {
        Some(Effect::InsertLink(link)) => link.id,
        other => panic!("{other:?}"),
    };
    let (first, second) = (id(start()), id(start()));
    assert_ne!(first, second);
    assert_eq!((first.len(), second.len()), (32, 32));
}

#[test]
fn a_creation_can_fail_at_each_step() {
    let start = || CreateLink::start_with_id(NewLink { url: "u".to_string() }, "5".to_string());
    let status = |request: CreateLink| match request {
        CreateLink::Finished(Err(failure)) => (failure.status, failure.message),
        other => panic!("{other:?}"),
    };
    let text = |t: &str| (500, t.to_string());
    assert_eq!(status(start().resume(Reply::Connected(Err(fault("no pool"))))), text("no pool"));
    let inserting = || start().resume(Reply::Connected(Ok(())));
    assert_eq!(status(inserting().resume(Reply::Row(Err(missing())))), text("Record not found"));
    let queuing = inserting().resume(Reply::Row(Ok(link("5", "u"))));
    assert_eq!(
        status(queuing.resume(Reply::Enqueued(Err(fault("channel closed"))))),
        text("channel closed")
    );
}

#[test]
fn a_deleted_link_loses_its_file() {
    let request = DeleteLink::start("5".to_string(), "t".to_string());
    assert!(matches!(request.effect(), Some(Effect::Connect)));
    let request = request.resume(Reply::Connected(Ok(())));
    assert!(matches!(request.effect(), Some(Effect::DeleteLink { id }) if id == "5"));
    let request = request.resume(Reply::Row(Ok(link("5", "u"))));
    assert!(matches!(request.effect(), Some(Effect::RemoveFile { path }) if path == "t/5"));
    // A file that was not there is no failure.
    let request = request.resume(Reply::Removed(Err("No such file".to_string())));
    assert!(matches!(request, DeleteLink::Finished(Ok(()))));
}

#[test]
fn a_deletion_fails_with_the_store() {
    let start = || DeleteLink::start("5".to_string(), "t".to_string());
    match start().resume(Reply::Connected(Err(fault("no pool")))) {
        DeleteLink::Finished(Err(failure)) => assert_eq!(refusal(&failure), (500, "no pool")),
        other => panic!("{other:?}"),
    }
    match start().resume(Reply::Connected(Ok(()))).resume(Reply::Row(Err(missing()))) {
        DeleteLink::Finished(Err(failure)) => {
            assert_eq!(refusal(&failure), (500, "Record not found"));
        }
        other => panic!("{other:?}"),
    }
}

#[test]
fn the_address_keeps_its_query() {
    assert_eq!(request_url("http://a/b".to_string(), None), "http://a/b");
    assert_eq!(request_url("http://a/b".to_string(), Some("v=1".to_string())), "http://a/b?v=1");
    assert_eq!(request_url("http://a/b".to_string(), Some(String::new())), "http://a/b?");
}

fn finding() -> DirectRequest {
    let request =
        DirectRequest::start("http://a?b".to_string(), "d".to_string(), "t".to_string());
    assert!(matches!(request.effect(), Some(Effect::Connect)));
    let request = request.resume(Reply::Connected(Ok(())));
    assert!(matches!(request.effect(), Some(Effect::FindByUrl { url }) if url == "http://a?b"));
    request
}

/// The request after a job that took over the hash of another link.
fn opening() -> DirectRequest {
    finding()
        .resume(Reply::Rows(Ok(vec![link("3", "http://a?b")])))
        .resume(Reply::Connected(Ok(())))
        .resume(Reply::Rows(Ok(vec![link("4", "http://a?b")])))
        .resume(Reply::Written(Ok(())))
}

#[test]
fn a_known_address_is_processed_again() {
    let request = finding().resume(Reply::Rows(Ok(vec![link("3", "http://a?b")])));
    assert!(matches!(request.effect(), Some(Effect::Connect)));
    let request = request.resume(Reply::Connected(Ok(())));
    assert!(matches!(
        request.effect(),
        Some(Effect::FindTwins { url, id }) if url == "http://a?b" && id == "3"
    ));
    assert!(request.answer().is_none());
}

#[test]
fn a_new_address_is_added_first() {
    let request = finding().resume_with_id(Reply::Rows(Ok(vec![])), "8".to_string());
    assert!(matches!(
        request.effect(),
        Some(Effect::InsertLink(l)) if l.id == "8" && l.url == "http://a?b"
    ));
    // The job works on the link as it was made, not on what the store returned.
    let request = request
        .resume(Reply::Row(Ok(link("other", "other"))))
        .resume(Reply::Connected(Ok(())));
    assert!(matches!(request.effect(), Some(Effect::FindTwins { id, .. }) if id == "8"));
}

#[test]
fn a_new_address_gets_a_random_identifier() {
    match finding().resume(Reply::Rows(Ok(vec![]))).effect() {
        Some(Effect::InsertLink(link)) => {
            assert_eq!(link.id.len(), 32);
            assert_eq!(link.url, "http://a?b");
        }
        other => panic!("{other:?}"),
    }
}

#[test]
fn the_transcoded_file_is_sent() {
    let request = opening();
    assert!(matches!(request.effect(), Some(Effect::OpenFile { path }) if path == "t/3"));
    let answer = request.resume(Reply::Opened(Ok(()))).answer().unwrap().unwrap();
    assert_eq!(answer.content_type, "video/mp4");
    assert_eq!(answer.content_disposition, "attachment; filename=\"video.mp4\"");
}

#[test]
fn a_file_that_cannot_be_opened_is_not_found() {
    let request = opening().resume(Reply::Opened(Err("No such file".to_string())));
    assert!(request.effect().is_none());
    let failure = request.answer().unwrap().unwrap_err();
    assert_eq!(refusal(&failure), (404, "File not found: No such file"));
}

#[test]
fn a_direct_request_fails_with_the_store() {
    let start = DirectRequest::start("u".to_string(), "d".to_string(), "t".to_string());
    let failure =
        start.resume(Reply::Connected(Err(fault("no pool")))).answer().unwrap().unwrap_err();
    assert_eq!(refusal(&failure), (500, "no pool"));
    let failure = finding().resume(Reply::Rows(Err(missing()))).answer().unwrap().unwrap_err();
    assert_eq!(refusal(&failure), (500, "Record not found"));
    let inserting = finding().resume(Reply::Rows(Ok(vec![])));
    let failure = inserting.resume(Reply::Row(Err(missing()))).answer().unwrap().unwrap_err();
    assert_eq!(refusal(&failure), (500, "Record not found"));
}

#[test]
fn a_direct_request_fails_with_its_job() {
    let request = finding()
        .resume(Reply::Rows(Ok(vec![link("3", "http://a?b")])))
        .resume(Reply::Connected(Ok(())))
        .resume(Reply::Rows(Ok(vec![])))
        .resume(Reply::Ran(Ok(())))
        .resume(Reply::Checked(false));
    let failure = request.answer().unwrap().unwrap_err();
    assert_eq!(refusal(&failure), (500, "Custom(\"downloaded file not found\")"));
}

#[test]
fn requests_ignore_what_is_no_reply() {
    let list = ListLinks::start().resume(Reply::Checked(true));
    assert!(matches!(list.effect(), Some(Effect::Connect)));
    let show = ShowLink::start("1".to_string()).resume(Reply::Rows(Ok(vec![link("1", "a")])));
    assert!(matches!(show.effect(), Some(Effect::Connect)));
    let new_link = NewLink { url: "a".to_string() };
    let create = CreateLink::start_with_id(new_link, "1".to_string())
        .resume(Reply::Connected(Ok(())))
        .resume(Reply::Enqueued(Ok(())));
    assert!(matches!(create.effect(), Some(Effect::InsertLink(l)) if l.id == "1" && l.url == "a"));
    let delete = DeleteLink::start("1".to_string(), "t".to_string())
        .resume(Reply::Connected(Ok(())))
        .resume(Reply::Removed(Ok(())));
    assert!(matches!(delete.effect(), Some(Effect::DeleteLink { id }) if id == "1"));
    let over = ListLinks::start()
        .resume(Reply::Connected(Err(fault("no pool"))))
        .resume(Reply::Connected(Ok(())));
    assert!(over.effect().is_none());
}

#[test]
fn the_list_and_a_lookup_agree() {
    let table = || vec![link("1", "a"), link("2", "b")];
    let listing = ListLinks::start().resume(Reply::Connected(Ok(())));
    let listed = match listing.resume(Reply::Rows(Ok(table()))) {
        ListLinks::Finished(Ok(links)) => links,
        other => panic!("{other:?}"),
    };
    for id in ["1", "2", "3"] {
        let found: Vec<Link> = table().into_iter().filter(|l| l.id == id).collect();
        let answer = ShowLink::start(id.to_string())
            .resume(Reply::Connected(Ok(())))
            .resume(Reply::Rows(Ok(found)));
        match (answer, listed.iter().find(|l| l.id == id)) {
            (ShowLink::Finished(Ok(shown)), Some(entry)) => {
                assert_eq!((&shown.id, &shown.url), (&entry.id, &entry.url));
            }
            (ShowLink::Finished(Err(failure)), None) => {
                assert_eq!(refusal(&failure), (404, "File not found"));
            }
            other => panic!("{other:?}"),
        }
    }
}

#[test]
fn a_known_address_is_not_added_whatever_is_known_of_it() {
    let known = Link {
        original_hash: Some("00ff".to_string()),
        ..link("3", "http://a?b")
    };
    let request = finding().resume(Reply::Rows(Ok(vec![known, link("4", "http://a?b")])));
    let request = request.resume(Reply::Connected(Ok(())));
    assert!(matches!(request.effect(), Some(Effect::FindTwins { id, .. }) if id == "3"));
}

#[test]
fn no_request_goes_on_without_a_connection() {
    let refused = || Reply::Connected(Err(fault("no pool")));
    assert!(ListLinks::start().resume(refused()).effect().is_none());
    assert!(ShowLink::start("1".to_string()).resume(refused()).effect().is_none());
    let new_link = NewLink { url: "u".to_string() };
    let create = CreateLink::start_with_id(new_link, "1".to_string());
    assert!(create.resume(refused()).effect().is_none());
    let delete = DeleteLink::start("1".to_string(), "t".to_string());
    assert!(delete.resume(refused()).effect().is_none());
    let direct = finding().resume(Reply::Rows(Ok(vec![link("3", "http://a?b")])));
    assert!(direct.resume(refused()).effect().is_none());
}
