//! File names that are safe to place under a cache entry.

use vstd::prelude::*;
use crate::cache::MEDIA_SUFFIX;
use crate::text::{chars_of, push_text, string_of};

verus! {

/// The letters `A`-`Z`, `a`-`z` and the digits `0`-`9`.
pub open spec fn is_alphanumeric(c: char) -> bool {
    let n = c as u32;
    (0x30 <= n <= 0x39) || (0x41 <= n <= 0x5a) || (0x61 <= n <= 0x7a)
}

/// The characters with the Unicode property `White_Space`.
pub open spec fn is_whitespace(c: char) -> bool {
    let n = c as u32;
    n == 0x20 || (0x09 <= n <= 0x0d) || n == 0x85 || n == 0xa0 || n == 0x1680 || (0x2000 <= n
        <= 0x200a) || n == 0x2028 || n == 0x2029 || n == 0x202f || n == 0x205f || n == 0x3000
}

/// Whitespace, hyphen and underscore: the characters that separate words in a title.
pub open spec fn is_separator(c: char) -> bool {
    is_whitespace(c) || c == '-' || c == '_'
}

/// First step: alphanumerics are kept, each separator becomes an underscore, and
/// every other character is dropped.
pub open spec fn normalized(s: Seq<char>) -> Seq<char>
    decreases s.len(),
{
    if s.len() == 0 {
        Seq::empty()
    } else if is_alphanumeric(s.last()) {
        normalized(s.drop_last()).push(s.last())
    } else if is_separator(s.last()) {
        normalized(s.drop_last()).push('_')
    } else {
        normalized(s.drop_last())
    }
}

/// Second step: of each run of underscores only the first stays.
pub open spec fn squeezed(s: Seq<char>) -> Seq<char>
    decreases s.len(),
{
    if s.len() == 0 {
        Seq::empty()
    } else {
        let init = squeezed(s.drop_last());
        if s.last() == '_' && init.len() > 0 && init.last() == '_' {
            init
        } else {
            init.push(s.last())
        }
    }
}

/// `s` without the underscores at its start.
pub open spec fn without_leading(s: Seq<char>) -> Seq<char>
    decreases s.len(),
{
    if s.len() > 0 && s.first() == '_' {
        without_leading(s.drop_first())
    } else {
        s
    }
}

/// `s` without the underscores at its end.
pub open spec fn without_trailing(s: Seq<char>) -> Seq<char>
    decreases s.len(),
{
    if s.len() > 0 && s.last() == '_' {
        without_trailing(s.drop_last())
    } else {
        s
    }
}

/// Third step: underscores at either end are removed.
pub open spec fn trimmed(s: Seq<char>) -> Seq<char> {
    without_trailing(without_leading(s))
}

/// The file-system-safe name made from a title.
pub open spec fn sanitized(s: Seq<char>) -> Seq<char> {
    trimmed(squeezed(normalized(s)))
}

/// Every character is a letter, a digit or an underscore.
pub open spec fn only_name_chars(s: Seq<char>) -> bool {
    forall|i: int| 0 <= i < s.len() ==> is_alphanumeric(#[trigger] s[i]) || s[i] == '_'
}

/// No underscore directly follows another.
pub open spec fn no_double_underscore(s: Seq<char>) -> bool {
    forall|i: int| 0 <= i < s.len() - 1 ==> !(#[trigger] s[i] == '_' && s[i + 1] == '_')
}

/// What every sanitized name looks like: letters, digits and single underscores
/// between them, with no underscore at either end.
pub open spec fn is_clean(s: Seq<char>) -> bool {
    &&& only_name_chars(s)
    &&& no_double_underscore(s)
    &&& s.len() > 0 ==> s.first() != '_' && s.last() != '_'
}

/// Whether `c` is a letter `A`-`Z` or `a`-`z` or a digit.
pub fn alphanumeric(c: char) -> (r: bool)
    ensures
        r == is_alphanumeric(c),
{
    let n: u32 = c as u32;
    (0x30 <= n && n <= 0x39) || (0x41 <= n && n <= 0x5a) || (0x61 <= n && n <= 0x7a)
}

fn separator(c: char) -> (r: bool)
    ensures
        r == is_separator(c),
{
    let n: u32 = c as u32;
    n == 0x20 || (0x09 <= n && n <= 0x0d) || n == 0x85 || n == 0xa0 || n == 0x1680 || (0x2000 <= n
        && n <= 0x200a) || n == 0x2028 || n == 0x2029 || n == 0x202f || n == 0x205f || n == 0x3000
        || c == '-' || c == '_'
}

fn normalize(s: &Vec<char>) -> (out: Vec<char>)
    ensures
        out@ == normalized(s@),
{
    let mut out: Vec<char> = Vec::new();
    let mut i: usize = 0;
    while i < s.len()
        invariant
            i <= s.len(),
            out@ == normalized(s@.take(i as int)),
        decreases s.len() - i,
    {
        let c = s[i];
        assert(s@.take(i + 1).drop_last() == s@.take(i as int));
        if alphanumeric(c) {
            out.push(c);
        } else if separator(c) {
            out.push('_');
        }
        i += 1;
    }
    assert(s@.take(s.len() as int) == s@);
    out
}

fn squeeze(s: &Vec<char>) -> (out: Vec<char>)
    ensures
        out@ == squeezed(s@),
{
    let mut out: Vec<char> = Vec::new();
    let mut i: usize = 0;
    while i < s.len()
        invariant
            i <= s.len(),
            out@ == squeezed(s@.take(i as int)),
        decreases s.len() - i,
    {
        let c = s[i];
        assert(s@.take(i + 1).drop_last() == s@.take(i as int));
        if !(c == '_' && out.len() > 0 && out[out.len() - 1] == '_') {
            out.push(c);
        }
        i += 1;
    }
    assert(s@.take(s.len() as int) == s@);
    out
}

proof fn lemma_without_leading(s: Seq<char>, from: int)
    requires
        0 <= from <= s.len(),
        forall|i: int| 0 <= i < from ==> s[i] == '_',
        from < s.len() ==> s[from] != '_',
    ensures
        without_leading(s) == s.subrange(from, s.len() as int),
    decreases from,
{
    if from == 0 {
        assert(s.subrange(0, s.len() as int) == s);
    } else {
        let rest = s.drop_first();
        lemma_without_leading(rest, from - 1);
        assert(rest.subrange(from - 1, rest.len() as int) == s.subrange(from, s.len() as int));
    }
}

proof fn lemma_without_trailing(s: Seq<char>, to: int)
    requires
        0 <= to <= s.len(),
        forall|i: int| to <= i < s.len() ==> s[i] == '_',
        to > 0 ==> s[to - 1] != '_',
    ensures
        without_trailing(s) == s.subrange(0, to),
    decreases s.len() - to,
{
    if to == s.len() {
        assert(s.subrange(0, s.len() as int) == s);
    } else {
        let rest = s.drop_last();
        lemma_without_trailing(rest, to);
        assert(rest.subrange(0, to) == s.subrange(0, to));
    }
}

fn trim(s: &Vec<char>) -> (out: Vec<char>)
    ensures
        out@ == trimmed(s@),
{
    let mut from: usize = 0;
    while from < s.len() && s[from] == '_'
        invariant
            from <= s.len(),
            forall|i: int| 0 <= i < from ==> s@[i] == '_',
        decreases s.len() - from,
    {
        from += 1;
    }
    let mut to: usize = s.len();
    while to > from && s[to - 1] == '_'
        invariant
            from <= to <= s.len(),
            forall|i: int| to <= i < s.len() ==> s@[i] == '_',
        decreases to,
    {
        to -= 1;
    }
    let mut out: Vec<char> = Vec::new();
    let mut i: usize = from;
    while i < to
        invariant
            from <= i <= to <= s.len(),
            out@ == s@.subrange(from as int, i as int),
        decreases to - i,
    {
        out.push(s[i]);
        i += 1;
    }
    proof {
        let lead = s@.subrange(from as int, s.len() as int);
        lemma_without_leading(s@, from as int);
        lemma_without_trailing(lead, to - from);
        assert(lead.subrange(0, to - from) == s@.subrange(from as int, to as int));
    }
    out
}

proof fn lemma_normalized_chars(s: Seq<char>)
    ensures
        only_name_chars(normalized(s)),
    decreases s.len(),
{
    if s.len() > 0 {
        lemma_normalized_chars(s.drop_last());
    }
}

proof fn lemma_normalized_fixed(s: Seq<char>)
    requires
        only_name_chars(s),
    ensures
        normalized(s) == s,
    decreases s.len(),
{
    if s.len() > 0 {
        lemma_normalized_fixed(s.drop_last());
        assert(is_alphanumeric(s[s.len() - 1]) || s[s.len() - 1] == '_');
        assert(s.drop_last().push(s.last()) == s);
    }
}

proof fn lemma_squeezed_shape(s: Seq<char>)
    ensures
        squeezed(s).len() <= s.len(),
        only_name_chars(s) ==> only_name_chars(squeezed(s)),
        no_double_underscore(squeezed(s)),
    decreases s.len(),
{
    if s.len() > 0 {
        lemma_squeezed_shape(s.drop_last());
        if only_name_chars(s) {
            assert forall|i: int| 0 <= i < s.drop_last().len() implies is_alphanumeric(
                #[trigger] s.drop_last()[i],
            ) || s.drop_last()[i] == '_' by {
                assert(s.drop_last()[i] == s[i]);
            }
            assert(is_alphanumeric(s[s.len() - 1]) || s[s.len() - 1] == '_');
        }
    }
}

proof fn lemma_squeezed_fixed(s: Seq<char>)
    requires
        no_double_underscore(s),
    ensures
        squeezed(s) == s,
    decreases s.len(),
{
    if s.len() > 0 {
        let init = s.drop_last();
        assert forall|i: int| 0 <= i < init.len() - 1 implies !(#[trigger] init[i] == '_' && init[i
            + 1] == '_') by {
            assert(init[i] == s[i] && init[i + 1] == s[i + 1]);
        }
        lemma_squeezed_fixed(init);
        if init.len() > 0 {
            assert(!(s[s.len() - 2] == '_' && s[s.len() - 2 + 1] == '_'));
            assert(init.last() == s[s.len() - 2]);
        }
        assert(init.push(s.last()) == s);
    }
}

proof fn lemma_leading_bounds(s: Seq<char>) -> (from: int)
    ensures
        0 <= from <= s.len(),
        without_leading(s) == s.subrange(from, s.len() as int),
        from < s.len() ==> s[from] != '_',
    decreases s.len(),
{
    if s.len() > 0 && s.first() == '_' {
        let rest = s.drop_first();
        let k = lemma_leading_bounds(rest);
        assert(rest.subrange(k, rest.len() as int) == s.subrange(k + 1, s.len() as int));
        k + 1
    } else {
        assert(s.subrange(0, s.len() as int) == s);
        0
    }
}

proof fn lemma_trailing_bounds(s: Seq<char>) -> (to: int)
    ensures
        0 <= to <= s.len(),
        without_trailing(s) == s.subrange(0, to),
        to > 0 ==> s[to - 1] != '_',
    decreases s.len(),
{
    if s.len() > 0 && s.last() == '_' {
        let rest = s.drop_last();
        let k = lemma_trailing_bounds(rest);
        assert(rest.subrange(0, k) == s.subrange(0, k));
        k
    } else {
        assert(s.subrange(0, s.len() as int) == s);
        s.len() as int
    }
}

proof fn lemma_trimmed_shape(s: Seq<char>)
    ensures
        only_name_chars(s) ==> only_name_chars(trimmed(s)),
        no_double_underscore(s) ==> no_double_underscore(trimmed(s)),
        trimmed(s).len() > 0 ==> trimmed(s).first() != '_' && trimmed(s).last() != '_',
{
    let from = lemma_leading_bounds(s);
    let lead = s.subrange(from, s.len() as int);
    let to = lemma_trailing_bounds(lead);
    let t = trimmed(s);
    assert(t == lead.subrange(0, to));
    assert forall|i: int| 0 <= i < t.len() implies #[trigger] t[i] == s[from + i] by {
        assert(t[i] == lead[i]);
    }
    if only_name_chars(s) {
        assert forall|i: int| 0 <= i < t.len() implies is_alphanumeric(#[trigger] t[i]) || t[i]
            == '_' by {
            assert(t[i] == s[from + i]);
        }
    }
    if no_double_underscore(s) {
        assert forall|i: int| 0 <= i < t.len() - 1 implies !(#[trigger] t[i] == '_' && t[i + 1]
            == '_') by {
            assert(t[i] == s[from + i]);
            assert(t[i + 1] == s[from + i + 1]);
            assert(!(s[from + i] == '_' && s[from + i + 1] == '_'));
        }
    }
    if t.len() > 0 {
        assert(t.first() == s[from]);
        assert(t.last() == lead[to - 1]);
    }
}

/// A sanitized name holds only letters, digits and underscores, never two
/// underscores in a row, and no underscore at its start or end.
pub proof fn lemma_sanitized_is_clean(s: Seq<char>)
    ensures
        is_clean(sanitized(s)),
        forall|i: int|
            0 <= i < sanitized(s).len() ==> is_alphanumeric(#[trigger] sanitized(s)[i])
                || sanitized(s)[i] == '_',
        forall|i: int|
            0 <= i < sanitized(s).len() - 1 ==> !(#[trigger] sanitized(s)[i] == '_' && sanitized(
                s,
            )[i + 1] == '_'),
        sanitized(s).len() > 0 ==> sanitized(s).first() != '_' && sanitized(s).last() != '_',
{
    lemma_normalized_chars(s);
    lemma_squeezed_shape(normalized(s));
    lemma_trimmed_shape(squeezed(normalized(s)));
}

/// Sanitizing leaves a name unchanged that already has the shape of a sanitized
/// name.
pub proof fn lemma_clean_is_fixed(s: Seq<char>)
    requires
        is_clean(s),
    ensures
        sanitized(s) == s,
{
    lemma_normalized_fixed(s);
    lemma_squeezed_fixed(s);
}

/// Sanitizing twice gives what sanitizing once gives.
pub proof fn lemma_sanitize_idempotent(s: Seq<char>)
    ensures
        sanitized(sanitized(s)) == sanitized(s),
{
    lemma_sanitized_is_clean(s);
    lemma_clean_is_fixed(sanitized(s));
}

/// Makes a file-system-safe name from a title: letters and digits are kept, each
/// run of whitespace, hyphens and underscores becomes one underscore, underscores
/// at either end are removed, and every other character is dropped.
pub fn sanitize(title: &str) -> (name: String)
    ensures
        name@ == sanitized(title@),
        is_clean(name@),
{
    proof {
        lemma_sanitized_is_clean(title@);
    }
    let chars = chars_of(title);
    let kept = normalize(&chars);
    let single = squeeze(&kept);
    let inner = trim(&single);
    string_of(&inner)
}

/// What `sanitize_filename::sanitize_with_options` makes of a name when it
/// truncates, replaces with nothing, and applies the Windows rules or leaves them
/// out.
pub uninterp spec fn stripped(name: Seq<char>, windows: bool) -> Seq<char>;

/// Calls `sanitize_filename::sanitize_with_options` with truncation on and an
/// empty replacement: characters that no file name may hold are removed, and so
/// are reserved names. `windows` switches the rules for Windows names on; the
/// crate's default is to apply them on Windows only. The result is known by its
/// name alone.
#[verifier::external_body]
fn strip_illegal(name: &str, windows: bool) -> (r: String)
    ensures
        r@ == stripped(name@, windows),
{
    sanitize_filename::sanitize_with_options(
        name,
        sanitize_filename::Options { windows, truncate: true, replacement: "" },
    )
}

/// The file name of the artifact fetched for a title: the sanitized title and the
/// media extension.
pub open spec fn artifact_name(title: Seq<char>) -> Seq<char> {
    sanitized(title) + MEDIA_SUFFIX@
}

/// The file name under which the artifact for a title is stored, once the
/// characters that no file name may hold are gone from the title.
pub open spec fn destination_name(title: Seq<char>, windows: bool) -> Seq<char> {
    artifact_name(stripped(title, windows))
}

/// Gives an artifact its file name: the sanitized title and the media extension.
pub fn artifact_file_name(title: &str) -> (name: String)
    ensures
        name@ == artifact_name(title@),
{
    let mut out = chars_of(sanitize(title).as_str());
    push_text(&mut out, MEDIA_SUFFIX);
    string_of(&out)
}

/// The file name under which the artifact for a title is stored. `windows` says
/// whether names reserved on Windows are to be avoided too.
pub fn destination_file_name(title: &str, windows: bool) -> (name: String)
    ensures
        name@ == destination_name(title@, windows),
{
    let safe = strip_illegal(title, windows);
    artifact_file_name(safe.as_str())
}

} // verus!
