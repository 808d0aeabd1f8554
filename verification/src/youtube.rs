//! Recognising video URLs and the identifier they carry.

use vstd::prelude::*;

verus! {

/// A video URL with its eleven-character identifier captured: group 1 for the
/// long form, group 2 for the short form.
pub const VIDEO_ID_PATTERN: &'static str =
    r"https?://(?:www\.|m\.)?youtube\.com/(?:watch\?v=|shorts/)([a-zA-Z0-9_-]{11})|https?://youtu\.be/([a-zA-Z0-9_-]{11})";

/// The shape a URL must have before a job is started for it.
pub const URL_SHAPE_PATTERN: &'static str =
    r"https?://(?:www\.|m\.)?youtube\.com/(?:watch\?v=|shorts/)[^\s]+|https?://youtu\.be/[^\s]+";

/// The capture groups of the leftmost match of a regular expression in a text, as
/// the `regex` crate finds them: group 0 is the whole match, and a group that took
/// no part in the match is `None`. `None` when the text holds no match or the
/// pattern does not compile.
pub uninterp spec fn regex_captures(pattern: Seq<char>, text: Seq<char>) -> Option<
    Seq<Option<Seq<char>>>,
>;

/// Whether a regular expression compiles and matches somewhere in a text, as the
/// `regex` crate decides it.
pub uninterp spec fn regex_is_match(pattern: Seq<char>, text: Seq<char>) -> bool;

/// The text of an optional string.
pub open spec fn text_of(s: Option<String>) -> Option<Seq<char>> {
    match s {
        Some(s) => Some(s@),
        None => None,
    }
}

/// The texts of a list of optional strings.
pub open spec fn texts_of(groups: Seq<Option<String>>) -> Seq<Option<Seq<char>>> {
    groups.map_values(|g: Option<String>| text_of(g))
}

/// Compiles `pattern` with `regex::Regex::new` and runs `Regex::captures` on
/// `text`. The groups of the match come back in order, each as the text it
/// matched; nothing is claimed of them beyond their name.
#[verifier::external_body]
fn captures(pattern: &str, text: &str) -> (r: Option<Vec<Option<String>>>)
    ensures
        match r {
            Some(groups) => regex_captures(pattern@, text@) == Some(texts_of(groups@)),
            None => regex_captures(pattern@, text@) is None,
        },
{
    match regex::Regex::new(pattern) {
        Ok(re) => re.captures(text).map(
            |found| found.iter().map(|g| g.map(|m| m.as_str().to_string())).collect(),
        ),
        Err(_) => None,
    }
}

/// Compiles `pattern` with `regex::Regex::new` and runs `Regex::is_match` on
/// `text`; `false` when the pattern does not compile.
#[verifier::external_body]
fn is_match(pattern: &str, text: &str) -> (r: bool)
    ensures
        r == regex_is_match(pattern@, text@),
{
    match regex::Regex::new(pattern) {
        Ok(re) => re.is_match(text),
        Err(_) => false,
    }
}

/// The identifier among the capture groups of a video URL: group 1 where it took
/// part in the match, else group 2.
pub open spec fn captured_id(groups: Seq<Option<Seq<char>>>) -> Option<Seq<char>> {
    if groups.len() > 1 && groups[1] is Some {
        groups[1]
    } else if groups.len() > 2 {
        groups[2]
    } else {
        None
    }
}

/// The identifier that a video URL carries, `None` where the text holds no video
/// URL.
pub open spec fn video_id(url: Seq<char>) -> Option<Seq<char>> {
    match regex_captures(VIDEO_ID_PATTERN@, url) {
        Some(groups) => captured_id(groups),
        None => None,
    }
}

/// Picks the identifier out of the capture groups of a match of
/// [`VIDEO_ID_PATTERN`].
pub fn video_id_from_captures(groups: &Vec<Option<String>>) -> (id: Option<String>)
    ensures
        text_of(id) == captured_id(texts_of(groups@)),
{
    if groups.len() > 1 {
        if let Some(id) = &groups[1] {
            return Some(id.clone());
        }
    }
    if groups.len() > 2 {
        if let Some(id) = &groups[2] {
            return Some(id.clone());
        }
    }
    None
}

/// Finds a video URL in `url` and returns its identifier.
pub fn validate_and_extract_video_id(url: &str) -> (id: Option<String>)
    ensures
        text_of(id) == video_id(url@),
{
    match captures(VIDEO_ID_PATTERN, url) {
        Some(groups) => video_id_from_captures(&groups),
        None => None,
    }
}

/// Whether `url` holds a video URL with an identifier.
pub fn is_valid_youtube_url(url: &str) -> (r: bool)
    ensures
        r == video_id(url@).is_some(),
{
    validate_and_extract_video_id(url).is_some()
}

/// Whether `url` has the shape of a video URL, which a job needs to start.
pub open spec fn has_url_shape(url: Seq<char>) -> bool {
    regex_is_match(URL_SHAPE_PATTERN@, url)
}

/// Tests the shape of a URL before any work is done for it.
pub fn check_url_shape(url: &str) -> (r: bool)
    ensures
        r == has_url_shape(url@),
{
    is_match(URL_SHAPE_PATTERN, url)
}

} // verus!
