use link_server::config::{Folders, PORT, QUEUE_CAPACITY};
use link_server::digest::hash_content;
use link_server::error::{internal_error, render_variant, CustomErrors, Failure, Fault, StoreFault};
use link_server::hexadecimal::to_hex;
use link_server::link::Link;
use link_server::link_id::{link_id, new_link_id};
use link_server::path::{add_extension, join_path};
use std::path::PathBuf;

fn fault(display: &str, debug: &str) -> Fault {
    Fault { display: display.to_string(), debug: debug.to_string() }
}

#[test]
fn bytes_become_lower_case_hexadecimal() {
    assert_eq!(to_hex(&[]), "");
    assert_eq!(to_hex(&[0x00, 0x0f, 0xa0, 0xff, 0x9c]), "000fa0ff9c");
    assert_eq!(to_hex(b"Hello world!"), "48656c6c6f20776f726c6421");
}

#[test]
fn content_is_hashed_with_sha256() {
    assert_eq!(
        hash_content(b""),
        "e3b0c44298fc1c149afbf4c8996fb92427ae41e4649b934ca495991b7852b855"
    );
    assert_eq!(
        hash_content(b"abc"),
        "ba7816bf8f01cfea414140de5dae2223b00361a396177a9cb410ff61f20015ad"
    );
}

#[test]
fn identifier_is_the_text_of_its_bytes() {
    let bytes: [u8; 16] = [
        0x12, 0x3e, 0x45, 0x67, 0xe8, 0x9b, 0x42, 0xd3, 0xa4, 0x56, 0x42, 0x66, 0x14, 0x17, 0x40, 0x00,
    ];
    assert_eq!(link_id(&bytes), "123e4567e89b42d3a456426614174000");
}

#[test]
fn new_identifiers_are_random_uuids() {
    let first = new_link_id();
    let second = new_link_id();
    assert_ne!(first, second);
    for id in [&first, &second] {
        assert_eq!(id.len(), 32);
        assert!(id.chars().all(|c| c.is_ascii_digit() || ('a'..='f').contains(&c)));
        assert_eq!(&id[12..13], "4");
        assert!(["8", "9", "a", "b"].contains(&&id[16..17]));
    }
}

#[test]
fn names_are_joined_as_std_joins_them() {
    let bases = ["", "/", "a", "a/", "./download", "/srv/x", "a//"];
    let names = ["", "b", "/b", "b/c", ".", "..", "b/"];
    for base in bases {
        for name in names {
            let expected = PathBuf::from(base).join(name);
            assert_eq!(join_path(base, name), expected.to_str().unwrap(), "{base:?} {name:?}");
        }
    }
    assert_eq!(join_path("./download", "ab"), "./download/ab");
}

#[test]
fn extensions_are_added_as_std_adds_them() {
    let paths = [
        "", "/", ".", "..", "a", "a/", "a//", "a/.", "a/./.", "./.", "/.", "a/..", "a/...", "./a",
        "a.mp4", ".a", "a.", "d/e.f", "d/e/./", "//", "...", "a/../b", "h\u{e9}/\u{fc}",
    ];
    for path in paths {
        for extension in ["png", ""] {
            let mut expected = PathBuf::from(path);
            expected.add_extension(extension);
            assert_eq!(add_extension(path, extension), expected.to_str().unwrap(), "{path:?}");
        }
    }
    assert_eq!(add_extension("./download/ab", "png"), "./download/ab.png");
}

#[test]
fn errors_are_rendered_for_the_programmer() {
    assert_eq!(render_variant("Diesel", "NotFound"), "Diesel(NotFound)");
    assert_eq!(CustomErrors::Diesel("NotFound".to_string()).describe(), "Diesel(NotFound)");
    assert_eq!(CustomErrors::Deadpool("Aborted".to_string()).describe(), "Deadpool(Aborted)");
    assert_eq!(CustomErrors::DeadpoolPool("Closed".to_string()).describe(), "DeadpoolPool(Closed)");
    assert_eq!(
        CustomErrors::Custom("downloaded file not found".to_string()).describe(),
        "Custom(\"downloaded file not found\")"
    );
    let tricky = CustomErrors::Custom("a \"b\"\n\\".to_string());
    assert_eq!(tricky.describe(), "Custom(\"a \\\"b\\\"\\n\\\\\")");
    assert_eq!(tricky.describe(), format!("{:?}", tricky));
}

#[test]
fn store_faults_become_job_errors_by_their_debug_text() {
    let error = CustomErrors::of_store(StoreFault::Interact(fault("Aborted", "Aborted!")));
    assert!(matches!(error, CustomErrors::Deadpool(text) if text == "Aborted!"));
    let error = CustomErrors::of_store(StoreFault::Database(fault("no row", "NotFound")));
    assert!(matches!(error, CustomErrors::Diesel(text) if text == "NotFound"));
}

#[test]
fn faults_become_failures_by_their_display_text() {
    let Failure { status, message } = internal_error(fault("gone", "Gone"));
    assert_eq!((status, message.as_str()), (500, "gone"));
    let failure = Failure::of_store(StoreFault::Interact(fault("Aborted", "x")));
    assert_eq!((failure.status, failure.message.as_str()), (500, "Aborted"));
    let failure = Failure::of_store(StoreFault::Database(fault("Record not found", "NotFound")));
    assert_eq!((failure.status, failure.message.as_str()), (500, "Record not found"));
}

#[test]
fn links_start_without_hashes() {
    let link = Link::with_id("http://a".to_string(), "1".to_string());
    assert_eq!(link.id, "1");
    assert_eq!(link.url, "http://a");
    assert!(link.original_hash.is_none() && link.transcoded_hash.is_none());
    let empty = Link::default();
    assert_eq!((empty.id.as_str(), empty.url.as_str()), ("", ""));
    assert!(empty.original_hash.is_none() && empty.transcoded_hash.is_none());
}

#[test]
fn clones_of_links_keep_everything() {
    let link = Link {
        id: "1".to_string(),
        url: "u".to_string(),
        original_hash: Some("h".to_string()),
        transcoded_hash: Some("t".to_string()),
    };
    assert_eq!(format!("{:?}", link.clone()), format!("{:?}", link));
}

#[test]
fn folders_have_defaults() {
    let folders = Folders::from_settings(None, None, None);
    assert_eq!(folders.download, "./download");
    assert_eq!(folders.transcode, "./transcode");
    assert_eq!(folders.frontend, "./frontend");
    assert_eq!(folders.fallback_page(), "./frontend/200.html");
    let folders = Folders::from_settings(
        Some("/d".to_string()),
        Some("/t".to_string()),
        Some("/f".to_string()),
    );
    assert_eq!(folders.download, "/d");
    assert_eq!(folders.transcode, "/t");
    assert_eq!(folders.frontend, "/f");
    assert_eq!(folders.fallback_page(), "/f/200.html");
    assert_eq!((PORT, QUEUE_CAPACITY), (3000, 128));
}
