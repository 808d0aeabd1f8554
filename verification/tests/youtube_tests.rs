use snatchr::youtube::{
    check_url_shape, is_valid_youtube_url, validate_and_extract_video_id, video_id_from_captures,
};

fn some(s: &str) -> Option<String> {
    Some(s.to_string())
}

#[test]
fn extracts_the_id_of_a_watch_url() {
    assert_eq!(
        validate_and_extract_video_id("https://www.youtube.com/watch?v=dQw4w9WgXcQ"),
        some("dQw4w9WgXcQ")
    );
    assert_eq!(
        validate_and_extract_video_id("http://youtube.com/watch?v=dQw4w9WgXcQ&t=10"),
        some("dQw4w9WgXcQ")
    );
    assert_eq!(
        validate_and_extract_video_id("https://m.youtube.com/watch?v=a-b_c-d_e-f"),
        some("a-b_c-d_e-f")
    );
}

#[test]
fn extracts_the_id_of_a_shorts_url() {
    assert_eq!(
        validate_and_extract_video_id("https://www.youtube.com/shorts/abcdefghijk"),
        some("abcdefghijk")
    );
}

#[test]
fn extracts_the_id_of_a_short_link() {
    assert_eq!(
        validate_and_extract_video_id("https://youtu.be/dQw4w9WgXcQ"),
        some("dQw4w9WgXcQ")
    );
    assert_eq!(
        validate_and_extract_video_id("see https://youtu.be/dQw4w9WgXcQ?t=1 now"),
        some("dQw4w9WgXcQ")
    );
}

#[test]
fn finds_no_id_in_other_texts() {
    assert_eq!(validate_and_extract_video_id(""), None);
    assert_eq!(validate_and_extract_video_id("https://example.com/watch?v=dQw4w9WgXcQ"), None);
    assert_eq!(validate_and_extract_video_id("https://www.youtube.com/watch?v=short"), None);
    assert_eq!(validate_and_extract_video_id("https://youtu.be/"), None);
    assert_eq!(validate_and_extract_video_id("ftp://youtu.be/dQw4w9WgXcQ"), None);
}

#[test]
fn valid_url_means_an_id_was_found() {
    assert!(is_valid_youtube_url("https://www.youtube.com/watch?v=dQw4w9WgXcQ"));
    assert!(is_valid_youtube_url("https://youtu.be/dQw4w9WgXcQ"));
    assert!(!is_valid_youtube_url("https://www.youtube.com/watch?v=short"));
    assert!(!is_valid_youtube_url("not a url"));
}

#[test]
fn id_comes_from_group_one_then_group_two() {
    assert_eq!(video_id_from_captures(&vec![some("whole"), some("one"), some("two")]), some("one"));
    assert_eq!(video_id_from_captures(&vec![some("whole"), None, some("two")]), some("two"));
    assert_eq!(video_id_from_captures(&vec![some("whole"), some("one"), None]), some("one"));
    assert_eq!(video_id_from_captures(&vec![some("whole"), None, None]), None);
    assert_eq!(video_id_from_captures(&vec![some("whole"), None]), None);
    assert_eq!(video_id_from_captures(&vec![some("whole"), some("one")]), some("one"));
    assert_eq!(video_id_from_captures(&vec![some("whole")]), None);
    assert_eq!(video_id_from_captures(&vec![]), None);
}

#[test]
fn url_shape_is_looser_than_the_id_pattern() {
    assert!(check_url_shape("https://www.youtube.com/watch?v=dQw4w9WgXcQ"));
    assert!(check_url_shape("https://www.youtube.com/watch?v=short"));
    assert!(check_url_shape("http://m.youtube.com/shorts/x"));
    assert!(check_url_shape("https://youtu.be/x"));
}

#[test]
fn url_shape_refuses_other_texts() {
    assert!(!check_url_shape(""));
    assert!(!check_url_shape("https://example.com/"));
    assert!(!check_url_shape("https://www.youtube.com/"));
    assert!(!check_url_shape("https://www.youtube.com/watch?v="));
    assert!(!check_url_shape("https://youtu.be/"));
    assert!(!check_url_shape("youtube.com/watch?v=dQw4w9WgXcQ"));
}
