use snatchr::cache::{
    check_artifact, check_content_id, entry_path, lookup, marker_path, Artifact, FileEntry,
};

fn file(name: &str, len: u64) -> FileEntry {
    FileEntry { name: name.to_string(), is_file: true, len }
}

fn directory(name: &str) -> FileEntry {
    FileEntry { name: name.to_string(), is_file: false, len: 4096 }
}

#[test]
fn artifact_needs_a_regular_file_with_extension_and_content() {
    assert!(check_artifact(&file("title.mp4", 1)));
    assert!(check_artifact(&file("a.b.mp4", 10)));
    assert!(check_artifact(&file("..mp4", 10)));
    assert!(!check_artifact(&file("title.mp4", 0)));
    assert!(!check_artifact(&directory("title.mp4")));
    assert!(!check_artifact(&file("title.mkv", 10)));
    assert!(!check_artifact(&file("title.MP4", 10)));
    assert!(!check_artifact(&file("titlemp4", 10)));
    assert!(!check_artifact(&file("mp4", 10)));
    assert!(!check_artifact(&file("", 10)));
    assert!(!check_artifact(&file("title.mp4.part", 10)));
}

#[test]
fn artifact_may_be_named_by_the_extension_alone() {
    assert!(check_artifact(&file(".mp4", 10)));
    assert!(!check_artifact(&file(".mp4", 0)));
    assert!(!check_artifact(&directory(".mp4")));
    let entries = vec![file(".last_accessed", 0), file(".mp4", 3)];
    assert_eq!(
        lookup("abc", Some(&entries)),
        Some(Artifact { content_id: "abc".to_string(), file_name: ".mp4".to_string() })
    );
}

#[test]
fn lookup_without_a_directory_is_a_miss() {
    assert_eq!(lookup("abc", None), None);
}

#[test]
fn lookup_in_an_empty_directory_is_a_miss() {
    let entries: Vec<FileEntry> = vec![];
    assert_eq!(lookup("abc", Some(&entries)), None);
}

#[test]
fn lookup_with_only_unusable_files_is_a_miss() {
    let entries = vec![
        file(".last_accessed", 0),
        file("title.mp4", 0),
        directory("sub.mp4"),
        file("title.part", 100),
    ];
    assert_eq!(lookup("abc", Some(&entries)), None);
}

#[test]
fn lookup_returns_the_first_usable_artifact() {
    let entries = vec![
        file(".last_accessed", 0),
        file("broken.mp4", 0),
        file("first.mp4", 5),
        file("second.mp4", 7),
    ];
    assert_eq!(
        lookup("abc", Some(&entries)),
        Some(Artifact { content_id: "abc".to_string(), file_name: "first.mp4".to_string() })
    );
}

#[test]
fn lookup_is_repeatable() {
    let entries = vec![file("title.mp4", 5)];
    let first = lookup("abc", Some(&entries));
    let second = lookup("abc", Some(&entries));
    assert_eq!(first, second);
    assert!(first.is_some());
}

#[test]
fn content_id_accepts_letters_digits_hyphen_underscore() {
    assert!(check_content_id("dQw4w9WgXcQ"));
    assert!(check_content_id("-_aZ09"));
    assert!(check_content_id("a"));
}

#[test]
fn content_id_refuses_what_cannot_name_an_entry() {
    assert!(!check_content_id(""));
    assert!(!check_content_id(".."));
    assert!(!check_content_id("a/b"));
    assert!(!check_content_id("a b"));
    assert!(!check_content_id("a.b"));
    assert!(!check_content_id("\u{e9}"));
    assert!(!check_content_id("cache"));
    assert!(check_content_id("cache1"));
    assert!(check_content_id("Cache"));
}

#[test]
fn paths_are_relative_to_the_cache_root() {
    assert_eq!(entry_path("abc", "title.mp4"), "abc/title.mp4");
    assert_eq!(entry_path("abc", ""), "abc/");
    assert_eq!(marker_path("abc"), "abc/.last_accessed");
}
