//! What the service answers: the reply to a download request, the address of a
//! served artifact, and how an artifact is offered to the browser.

use vstd::prelude::*;
use vstd::string::*;
use vstd::utf8::{encode_utf8, is_ascii_chars, is_ascii_chars_encode_utf8};
use crate::cache::{Artifact, ArtifactView};
use crate::config::{address_of, Config, ConfigView};
use crate::dispatch::{DispatchError, DispatchErrorView};
use crate::filename::{artifact_name, is_alphanumeric, lemma_sanitized_is_clean, sanitized};
use crate::text::{chars_of, digit_char, push_text, same_text, string_of};

verus! {

/// A request to fetch a URL.
#[derive(Debug, Clone, PartialEq, Eq)]
pub struct DownloadRequest {
    pub url: String,
}

/// The reply to a download request: the address of the artifact, or why there is
/// none.
#[derive(Debug, Clone, PartialEq, Eq)]
pub struct DownloadResponse {
    pub success: bool,
    pub file_url: Option<String>,
    pub error: Option<String>,
}

pub struct DownloadResponseView {
    pub success: bool,
    pub file_url: Option<Seq<char>>,
    pub error: Option<Seq<char>>,
}

impl View for DownloadResponse {
    type V = DownloadResponseView;

    open spec fn view(&self) -> DownloadResponseView {
        DownloadResponseView {
            success: self.success,
            file_url: match self.file_url {
                Some(url) => Some(url@),
                None => None,
            },
            error: match self.error {
                Some(error) => Some(error@),
                None => None,
            },
        }
    }
}

/// The bytes that stand for themselves in a URL: letters, digits, `-`, `.`, `_`
/// and `~`.
pub open spec fn is_unreserved(b: u8) -> bool {
    ||| 0x30 <= b <= 0x39
    ||| 0x41 <= b <= 0x5a
    ||| 0x61 <= b <= 0x7a
    ||| b == 0x2d
    ||| b == 0x2e
    ||| b == 0x5f
    ||| b == 0x7e
}

/// The upper-case hexadecimal digit for a value below sixteen.
pub open spec fn hex_digit(n: int) -> char {
    if n < 10 {
        digit_char(n)
    } else if n == 10 {
        'A'
    } else if n == 11 {
        'B'
    } else if n == 12 {
        'C'
    } else if n == 13 {
        'D'
    } else if n == 14 {
        'E'
    } else {
        'F'
    }
}

/// How one byte is written in a URL: as itself where it is unreserved, else as a
/// percent sign and its two hexadecimal digits.
pub open spec fn escaped(b: u8) -> Seq<char> {
    if is_unreserved(b) {
        seq![b as char]
    } else {
        seq!['%', hex_digit(b as int / 16), hex_digit(b as int % 16)]
    }
}

/// How a run of bytes is written in a URL, byte by byte.
pub open spec fn percent_encoded(bytes: Seq<u8>) -> Seq<char>
    decreases bytes.len(),
{
    if bytes.len() == 0 {
        Seq::empty()
    } else {
        percent_encoded(bytes.drop_last()) + escaped(bytes.last())
    }
}

/// The characters that a URL takes as they are.
pub open spec fn is_unreserved_char(c: char) -> bool {
    is_alphanumeric(c) || c == '-' || c == '.' || c == '_' || c == '~'
}

proof fn lemma_unreserved_byte(c: char)
    requires
        is_unreserved_char(c),
    ensures
        '\0' <= c <= '\u{7f}',
        is_unreserved(c as u8),
        (c as u8) as char == c,
{
    assert(c as u32 <= 0x7e);
    assert((c as u8) as int == c as int);
}

proof fn lemma_plain_prefix(name: Seq<char>, bytes: Seq<u8>, upto: int)
    requires
        0 <= upto <= name.len(),
        bytes.len() == name.len(),
        forall|i: int| 0 <= i < name.len() ==> is_unreserved_char(#[trigger] name[i]),
        forall|i: int| 0 <= i < name.len() ==> name[i] as u8 == #[trigger] bytes[i],
    ensures
        percent_encoded(bytes.take(upto)) == name.take(upto),
    decreases upto,
{
    if upto == 0 {
        assert(name.take(0) == Seq::<char>::empty());
    } else {
        lemma_plain_prefix(name, bytes, upto - 1);
        let c = name[upto - 1];
        let b = bytes[upto - 1];
        lemma_unreserved_byte(c);
        assert(bytes.take(upto).drop_last() == bytes.take(upto - 1));
        assert(bytes.take(upto).last() == b);
        assert(name.take(upto - 1) + seq![c] == name.take(upto));
    }
}

/// A file name made of unreserved characters alone is written in a URL as it is.
/// Every name that sanitizing gives an artifact is such a name.
pub proof fn lemma_plain_name_is_unchanged(name: Seq<char>)
    requires
        forall|i: int| 0 <= i < name.len() ==> is_unreserved_char(#[trigger] name[i]),
    ensures
        percent_encoded(encode_utf8(name)) == name,
{
    assert(is_ascii_chars(name)) by {
        assert forall|i: int| 0 <= i < name.len() implies '\0' <= #[trigger] name[i]
            <= '\u{7f}' by {
            lemma_unreserved_byte(name[i]);
        }
    }
    is_ascii_chars_encode_utf8(name);
    let bytes = encode_utf8(name);
    lemma_plain_prefix(name, bytes, name.len() as int);
    assert(bytes.take(name.len() as int) == bytes);
    assert(name.take(name.len() as int) == name);
}

/// The address of an artifact that was fetched for a title holds the artifact's
/// file name as it is.
pub proof fn lemma_fetched_artifact_url(base: Seq<char>, content_id: Seq<char>, title: Seq<char>)
    ensures
        file_url_of(base, ArtifactView { content_id, file_name: artifact_name(title) }) == base
            + "/files/"@ + content_id + seq!['/'] + artifact_name(title),
{
    let name = artifact_name(title);
    let stem = sanitized(title);
    lemma_sanitized_is_clean(title);
    reveal_strlit(".mp4");
    assert(name == stem + ".mp4"@);
    assert forall|i: int| 0 <= i < name.len() implies is_unreserved_char(#[trigger] name[i]) by {
        if i < stem.len() {
            assert(name[i] == stem[i]);
        } else {
            assert(name[i] == ".mp4"@[i - stem.len()]);
        }
    }
    lemma_plain_name_is_unchanged(name);
}

/// Calls `urlencoding::encode`, which writes the UTF-8 bytes of `data` one by one:
/// a letter, a digit, `-`, `.`, `_` or `~` as it is, every other byte as `%` and
/// two upper-case hexadecimal digits.
#[verifier::external_body]
fn percent_encode(data: &str) -> (r: String)
    ensures
        r@ == percent_encoded(data.spec_bytes()),
{
    urlencoding::encode(data).into_owned()
}

/// The address under which the service is reached from outside: the external URL
/// where one is set, else scheme, host and port.
pub open spec fn base_url_of(config: ConfigView) -> Seq<char> {
    if config.external_url.len() == 0 {
        (if config.use_https {
            "https"@
        } else {
            "http"@
        }) + "://"@ + address_of(config)
    } else {
        config.external_url
    }
}

/// The address of an artifact under `base`: the entry's identifier and the file
/// name, the file name written as a URL takes it.
pub open spec fn file_url_of(base: Seq<char>, artifact: ArtifactView) -> Seq<char> {
    base + "/files/"@ + artifact.content_id + seq!['/'] + percent_encoded(
        encode_utf8(artifact.file_name),
    )
}

/// What a caller is told of a failed job.
pub open spec fn failure_text(error: DispatchErrorView) -> Seq<char> {
    match error {
        DispatchErrorView::InvalidInput => "Invalid YouTube URL format"@,
        DispatchErrorView::Timeout => "Download timeout"@,
        DispatchErrorView::Resolution(message) => "Download error: "@ + message,
        DispatchErrorView::Engine(error) => "Download error: "@ + error.message,
        DispatchErrorView::CacheIo(message) => "Download error: "@ + message,
        DispatchErrorView::InvalidConfiguration => "Download error: invalid configuration"@,
    }
}

/// The reply to a download request, given how its job ended.
pub open spec fn response_of(
    config: ConfigView,
    outcome: Result<ArtifactView, DispatchErrorView>,
) -> DownloadResponseView {
    match outcome {
        Ok(artifact) => DownloadResponseView {
            success: true,
            file_url: Some(file_url_of(base_url_of(config), artifact)),
            error: None,
        },
        Err(error) => DownloadResponseView {
            success: false,
            file_url: None,
            error: Some(failure_text(error)),
        },
    }
}

/// The address under which the service is reached from outside.
pub fn base_url(config: &Config) -> (url: String)
    ensures
        url@ == base_url_of(config@),
{
    if config.external_url.as_str().is_empty() {
        let mut out: Vec<char> = Vec::new();
        if config.use_https {
            push_text(&mut out, "https");
        } else {
            push_text(&mut out, "http");
        }
        push_text(&mut out, "://");
        push_text(&mut out, config.address().as_str());
        string_of(&out)
    } else {
        config.external_url.clone()
    }
}

/// The address of an artifact under `base`.
pub fn file_url(base: &str, artifact: &Artifact) -> (url: String)
    ensures
        url@ == file_url_of(base@, artifact@),
{
    let mut out = chars_of(base);
    push_text(&mut out, "/files/");
    push_text(&mut out, artifact.content_id.as_str());
    out.push('/');
    push_text(&mut out, percent_encode(artifact.file_name.as_str()).as_str());
    string_of(&out)
}

/// Words the failure of a job for the caller.
pub fn failure_message(error: &DispatchError) -> (text: String)
    ensures
        text@ == failure_text(error@),
{
    let mut out: Vec<char> = Vec::new();
    match error {
        DispatchError::InvalidInput => {
            push_text(&mut out, "Invalid YouTube URL format");
        },
        DispatchError::Timeout => {
            push_text(&mut out, "Download timeout");
        },
        DispatchError::Resolution(message) => {
            push_text(&mut out, "Download error: ");
            push_text(&mut out, message.as_str());
        },
        DispatchError::Engine(error) => {
            push_text(&mut out, "Download error: ");
            push_text(&mut out, error.message.as_str());
        },
        DispatchError::CacheIo(message) => {
            push_text(&mut out, "Download error: ");
            push_text(&mut out, message.as_str());
        },
        DispatchError::InvalidConfiguration => {
            push_text(&mut out, "Download error: invalid configuration");
        },
    }
    string_of(&out)
}

/// Makes the reply to a download request from the way its job ended: the
/// artifact's address for a job that succeeded, the failure in words for one that
/// did not.
pub fn download_response(config: &Config, outcome: &Result<Artifact, DispatchError>) -> (response:
    DownloadResponse)
    ensures
        response@ == response_of(
            config@,
            match *outcome {
                Ok(artifact) => Ok(artifact@),
                Err(error) => Err(error@),
            },
        ),
{
    match outcome {
        Ok(artifact) => DownloadResponse {
            success: true,
            file_url: Some(file_url(base_url(config).as_str(), artifact)),
            error: None,
        },
        Err(error) => DownloadResponse {
            success: false,
            file_url: None,
            error: Some(failure_message(error)),
        },
    }
}

/// How a served artifact is offered: shown in place where the request asks for a
/// stream, else as an attachment under its file name.
pub open spec fn disposition_of(stream: Option<Seq<char>>, file_name: Seq<char>) -> Option<
    Seq<char>,
> {
    if stream == Some("true"@) {
        None
    } else {
        Some("attachment; filename=\""@ + file_name + "\""@)
    }
}

/// The `content-disposition` of a served artifact, `None` where the request asks
/// for a stream by `stream=true`.
pub fn content_disposition(stream: Option<&str>, file_name: &str) -> (header: Option<String>)
    ensures
        match header {
            Some(text) => disposition_of(
                match stream {
                    Some(s) => Some(s@),
                    None => None,
                },
                file_name@,
            ) == Some(text@),
            None => disposition_of(
                match stream {
                    Some(s) => Some(s@),
                    None => None,
                },
                file_name@,
            ) is None,
        },
{
    let streamed = match stream {
        Some(value) => same_text(value, "true"),
        None => false,
    };
    if streamed {
        None
    } else {
        let mut out: Vec<char> = Vec::new();
        push_text(&mut out, "attachment; filename=\"");
        push_text(&mut out, file_name);
        push_text(&mut out, "\"");
        Some(string_of(&out))
    }
}

} // verus!
