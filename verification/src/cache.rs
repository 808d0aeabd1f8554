//! The content cache: entries keyed by content identifier, each a directory that
//! holds one artifact and an access marker.

use vstd::prelude::*;
use crate::filename::{alphanumeric, is_alphanumeric};
use crate::text::{chars_of, ends_with, push_text, same_chars, string_of};

verus! {

/// Name of the shared scratch directory under the cache root. It is no cache
/// entry, and no content identifier may take its name.
pub const RESERVED_DIRECTORY: &'static str = "cache";

/// Name of the file inside an entry whose modification time is the time of the
/// entry's last use.
pub const MARKER_NAME: &'static str = ".last_accessed";

/// The extension of a media artifact, with its dot.
pub const MEDIA_SUFFIX: &'static str = ".mp4";

/// The name of the reserved directory.
pub open spec fn reserved_directory() -> Seq<char> {
    RESERVED_DIRECTORY@
}

/// The name of an entry's access marker.
pub open spec fn marker_name() -> Seq<char> {
    MARKER_NAME@
}

/// The media extension with its dot.
pub open spec fn media_suffix() -> Seq<char> {
    MEDIA_SUFFIX@
}

/// A file of a cache entry, as a directory listing shows it.
#[derive(Debug, Clone, PartialEq, Eq)]
pub struct FileEntry {
    pub name: String,
    pub is_file: bool,
    pub len: u64,
}

pub struct FileEntryView {
    pub name: Seq<char>,
    pub is_file: bool,
    pub len: u64,
}

impl View for FileEntry {
    type V = FileEntryView;

    open spec fn view(&self) -> FileEntryView {
        FileEntryView { name: self.name@, is_file: self.is_file, len: self.len }
    }
}

/// The listing of an entry's directory, file by file.
pub open spec fn listing(entries: Seq<FileEntry>) -> Seq<FileEntryView> {
    entries.map_values(|e: FileEntry| e@)
}

/// A cached artifact: the entry it belongs to and its file name inside the entry.
#[derive(Debug, Clone, PartialEq, Eq)]
pub struct Artifact {
    pub content_id: String,
    pub file_name: String,
}

pub struct ArtifactView {
    pub content_id: Seq<char>,
    pub file_name: Seq<char>,
}

impl View for Artifact {
    type V = ArtifactView;

    open spec fn view(&self) -> ArtifactView {
        ArtifactView { content_id: self.content_id@, file_name: self.file_name@ }
    }
}

/// A content identifier is usable as a directory name: it is not empty, holds only
/// letters, digits, hyphens and underscores, and is not the reserved name.
pub open spec fn is_content_id(id: Seq<char>) -> bool {
    &&& id.len() > 0
    &&& forall|i: int|
        0 <= i < id.len() ==> is_alphanumeric(#[trigger] id[i]) || id[i] == '-' || id[i] == '_'
    &&& id != reserved_directory()
}

/// A file name carries the media extension: it ends with it. The name may be the
/// extension alone, which is the name of an artifact whose title gave no stem.
pub open spec fn has_media_extension(name: Seq<char>) -> bool {
    media_suffix().is_suffix_of(name)
}

/// A listed file is a usable artifact: a regular file with the media extension
/// that is not empty.
pub open spec fn is_valid_artifact(e: FileEntryView) -> bool {
    e.is_file && has_media_extension(e.name) && e.len > 0
}

/// The name of the first usable artifact in a listing.
pub open spec fn cached_artifact(entries: Seq<FileEntryView>) -> Option<Seq<char>>
    decreases entries.len(),
{
    if entries.len() == 0 {
        None
    } else if is_valid_artifact(entries.first()) {
        Some(entries.first().name)
    } else {
        cached_artifact(entries.drop_first())
    }
}

/// A listing yields an artifact exactly when one of its files is usable, and the
/// artifact it yields is such a file.
pub proof fn lemma_cached_artifact(entries: Seq<FileEntryView>)
    ensures
        cached_artifact(entries) is Some <==> exists|i: int|
            0 <= i < entries.len() && is_valid_artifact(#[trigger] entries[i]),
        cached_artifact(entries) matches Some(name) ==> exists|i: int|
            0 <= i < entries.len() && is_valid_artifact(#[trigger] entries[i]) && entries[i].name
                == name,
    decreases entries.len(),
{
    if entries.len() > 0 {
        let rest = entries.drop_first();
        lemma_cached_artifact(rest);
        if is_valid_artifact(entries.first()) {
            assert(is_valid_artifact(entries[0]));
        } else {
            if cached_artifact(rest) is Some {
                let i = choose|i: int| 0 <= i < rest.len() && is_valid_artifact(#[trigger] rest[i])
                    && rest[i].name == cached_artifact(rest)->0;
                assert(entries[i + 1] == rest[i]);
            }
            if exists|i: int| 0 <= i < entries.len() && is_valid_artifact(#[trigger] entries[i]) {
                let i = choose|i: int|
                    0 <= i < entries.len() && is_valid_artifact(#[trigger] entries[i]);
                assert(rest[i - 1] == entries[i]);
            }
        }
    }
}

/// A regular file that is not empty and carries the media extension is found by
/// a lookup: the listing that holds it yields an artifact, and yields this very
/// file where no usable file stands before it.
pub proof fn lemma_stored_artifact_is_found(entries: Seq<FileEntryView>, at: int, stem: Seq<char>)
    requires
        0 <= at < entries.len(),
        entries[at].is_file,
        entries[at].len > 0,
        entries[at].name == stem + media_suffix(),
    ensures
        cached_artifact(entries) is Some,
        (forall|j: int| 0 <= j < at ==> !is_valid_artifact(#[trigger] entries[j]))
            ==> cached_artifact(entries) == Some(stem + media_suffix()),
    decreases entries.len(),
{
    let name = entries[at].name;
    let suffix = media_suffix();
    assert(name.subrange(name.len() - suffix.len(), name.len() as int) == suffix);
    assert(is_valid_artifact(entries[at]));
    lemma_cached_artifact(entries);
    if at > 0 {
        let rest = entries.drop_first();
        assert(rest[at - 1] == entries[at]);
        lemma_stored_artifact_is_found(rest, at - 1, stem);
        if forall|j: int| 0 <= j < at ==> !is_valid_artifact(#[trigger] entries[j]) {
            assert(!is_valid_artifact(entries[0]));
            assert forall|j: int| 0 <= j < at - 1 implies !is_valid_artifact(
                #[trigger] rest[j],
            ) by {
                assert(rest[j] == entries[j + 1]);
            }
        }
    }
}

/// Whether `id` can key a cache entry.
pub fn check_content_id(id: &str) -> (r: bool)
    ensures
        r == is_content_id(id@),
{
    let chars = chars_of(id);
    if chars.len() == 0 {
        return false;
    }
    let mut i: usize = 0;
    while i < chars.len()
        invariant
            i <= chars.len(),
            chars@ == id@,
            forall|j: int|
                0 <= j < i ==> is_alphanumeric(#[trigger] chars@[j]) || chars@[j] == '-'
                    || chars@[j] == '_',
        decreases chars.len() - i,
    {
        let c = chars[i];
        if !(alphanumeric(c) || c == '-' || c == '_') {
            assert(!(is_alphanumeric(chars@[i as int]) || chars@[i as int] == '-' || chars@[i as int]
                == '_'));
            return false;
        }
        i += 1;
    }
    let reserved = chars_of(RESERVED_DIRECTORY);
    !same_chars(&chars, &reserved)
}

/// Whether a listed file is a usable artifact.
pub fn check_artifact(entry: &FileEntry) -> (r: bool)
    ensures
        r == is_valid_artifact(entry@),
{
    if !entry.is_file || entry.len == 0 {
        return false;
    }
    let name = chars_of(entry.name.as_str());
    let suffix = chars_of(MEDIA_SUFFIX);
    ends_with(&name, &suffix)
}

/// Looks for a usable artifact in the listing of an entry's directory, which is
/// `None` when the directory does not exist. Nothing is changed: stamping the
/// entry after a serve is the caller's part.
pub fn lookup(content_id: &str, entries: Option<&Vec<FileEntry>>) -> (found: Option<Artifact>)
    ensures
        match entries {
            Some(entries) => match cached_artifact(listing(entries@)) {
                Some(name) => found matches Some(a) && a@ == (ArtifactView {
                    content_id: content_id@,
                    file_name: name,
                }),
                None => found is None,
            },
            None => found is None,
        },
{
    match entries {
        None => None,
        Some(files) => {
            let mut i: usize = 0;
            assert(listing(files@).skip(0) == listing(files@));
            while i < files.len()
                invariant
                    i <= files.len(),
                    entries == Some(files),
                    cached_artifact(listing(files@)) == cached_artifact(
                        listing(files@).skip(i as int),
                    ),
                decreases files.len() - i,
            {
                let ghost rest = listing(files@).skip(i as int);
                assert(rest.first() == files@[i as int]@);
                assert(rest.drop_first() == listing(files@).skip(i + 1));
                if check_artifact(&files[i]) {
                    return Some(
                        Artifact {
                            content_id: content_id.to_owned(),
                            file_name: files[i].name.clone(),
                        },
                    );
                }
                i += 1;
            }
            None
        },
    }
}

/// Where an artifact lies, relative to the cache root: the entry's directory, a
/// slash, and the file name.
pub open spec fn relative_path(content_id: Seq<char>, file_name: Seq<char>) -> Seq<char> {
    content_id + seq!['/'] + file_name
}

/// The path of a file of an entry, relative to the cache root.
pub fn entry_path(content_id: &str, file_name: &str) -> (path: String)
    ensures
        path@ == relative_path(content_id@, file_name@),
{
    let mut out: Vec<char> = Vec::new();
    push_text(&mut out, content_id);
    out.push('/');
    push_text(&mut out, file_name);
    string_of(&out)
}

/// The path of an entry's access marker, relative to the cache root.
pub fn marker_path(content_id: &str) -> (path: String)
    ensures
        path@ == relative_path(content_id@, marker_name()),
{
    entry_path(content_id, MARKER_NAME)
}

} // verus!
