//! XML files (`pom.xml` and the like): the first `<version>` element.

use vstd::prelude::*;
use crate::text::{chars_of, occurs_at, push_all, string_of, trim, trim_chars};
use super::{FormatError, VersionFile};

verus! {

#[verifier::external_type_specification]
#[verifier::external_body]
pub struct ExRegexError(regex::Error);

/// Whether `regex::Regex::new` accepts the pattern.
pub uninterp spec fn regex_compiles(pattern: Seq<char>) -> bool;

/// The text of capture group 1 in the leftmost-first match of the pattern
/// in the haystack (`None` when there is no match or the group took no
/// part in it).
pub uninterp spec fn regex_first_group(pattern: Seq<char>, haystack: Seq<char>) -> Option<
    Seq<char>,
>;

/// The haystack with the leftmost-first match of the pattern replaced by
/// the replacement taken literally (the haystack itself when nothing
/// matches).
pub uninterp spec fn regex_replace_first(
    pattern: Seq<char>,
    haystack: Seq<char>,
    replacement: Seq<char>,
) -> Seq<char>;

/// The pattern of a version element: `<version>`, at least one character
/// other than `<`, `</version>`; the text in between is captured.
pub open spec fn version_pattern() -> Seq<char> {
    "<version>([^<]+)</version>"@
}

/// The opening tag of a version element.
pub open spec fn open_tag() -> Seq<char> {
    "<version>"@
}

/// The closing tag of a version element.
pub open spec fn close_tag() -> Seq<char> {
    "</version>"@
}

/// The first `<` at or after position `j` (the length when there is none).
pub open spec fn next_lt(h: Seq<char>, j: int) -> int
    decreases h.len() - j,
{
    if j >= h.len() {
        h.len() as int
    } else if h[j] == '<' {
        j
    } else {
        next_lt(h, j + 1)
    }
}

/// Where the text of an element starting at `i` ends: the first `<` after
/// its opening tag.
pub open spec fn text_end(h: Seq<char>, i: int) -> int {
    next_lt(h, i + 9)
}

/// A version element starts at `i`: the opening tag, a non-empty run of
/// characters other than `<`, and the closing tag. (This is what the
/// version pattern matches at `i`; `[^<]+` cannot run past a `<`, and the
/// closing tag starts with one, so the run ends at the first `<`.)
pub open spec fn element_at(h: Seq<char>, i: int) -> bool {
    &&& occurs_at(h, open_tag(), i)
    &&& text_end(h, i) > i + 9
    &&& occurs_at(h, close_tag(), text_end(h, i))
}

/// The first position at or after `i` where an element starts.
pub open spec fn first_element_from(h: Seq<char>, i: int) -> Option<int>
    decreases h.len() + 1 - i,
{
    if i < 0 || i > h.len() {
        None
    } else if element_at(h, i) {
        Some(i)
    } else {
        first_element_from(h, i + 1)
    }
}

/// Where the leftmost version element starts, if there is one.
pub open spec fn first_element(h: Seq<char>) -> Option<int> {
    first_element_from(h, 0)
}

/// The text of the element starting at `i` (capture group 1).
pub open spec fn element_text(h: Seq<char>, i: int) -> Seq<char> {
    h.subrange(i + 9, text_end(h, i))
}

/// `h` with its leftmost version element replaced by `replacement` (`h`
/// itself when it has none).
pub open spec fn with_first_element_replaced(h: Seq<char>, replacement: Seq<char>) -> Seq<char> {
    match first_element(h) {
        Some(i) => h.take(i) + replacement + h.skip(text_end(h, i) + 10),
        None => h,
    }
}

/// Compiles the pattern with `regex::Regex::new` and returns capture group
/// 1 of `Regex::captures` on the haystack. Claims: it fails exactly when
/// the pattern is refused, which the version pattern (valid syntax, far
/// below the default size limit) never is, and otherwise gives the named
/// group. For the version pattern the group is stated: the text of the
/// leftmost version element (`regex` matches leftmost-first).
#[verifier::external_body]
fn first_group(pattern: &str, haystack: &str) -> (res: Result<Option<String>, regex::Error>)
    ensures
        res is Ok <==> regex_compiles(pattern@),
        pattern@ == version_pattern() ==> res is Ok,
        res matches Ok(g) ==> match g {
            Some(s) => regex_first_group(pattern@, haystack@) == Some(s@),
            None => regex_first_group(pattern@, haystack@) is None,
        },
        res matches Ok(g) ==> (pattern@ == version_pattern() ==> match first_element(haystack@) {
            Some(i) => g matches Some(t) && t@ == element_text(haystack@, i),
            None => g is None,
        }),
{
    regex::Regex::new(pattern).map(
        |re| re.captures(haystack).and_then(|c| c.get(1)).map(|m| m.as_str().to_string()),
    )
}

/// Compiles the pattern with `regex::Regex::new` and calls `Regex::replace`
/// with the replacement wrapped in `regex::NoExpand`, so that it is taken
/// literally. Claims: it fails exactly when the pattern is refused, which
/// the version pattern never is, and otherwise gives the named text. For
/// the version pattern the text is stated: the leftmost version element
/// replaced (`Regex::replace` replaces at most the first match).
#[verifier::external_body]
fn replace_first(pattern: &str, haystack: &str, replacement: &str) -> (res: Result<String, regex::Error>)
    ensures
        res is Ok <==> regex_compiles(pattern@),
        pattern@ == version_pattern() ==> res is Ok,
        res matches Ok(s) ==> s@ == regex_replace_first(pattern@, haystack@, replacement@),
        res matches Ok(s) ==> (pattern@ == version_pattern() ==> s@ == with_first_element_replaced(
            haystack@,
            replacement@,
        )),
{
    regex::Regex::new(pattern).map(
        |re| re.replace(haystack, regex::NoExpand(replacement)).into_owned(),
    )
}

/// The element that carries `version`.
pub open spec fn version_element(version: Seq<char>) -> Seq<char> {
    open_tag() + version + close_tag()
}

/// Files whose version is the text of their first `<version>` element.
pub struct XmlVersionFile;

/// Reading: the trimmed text of the first version element, or
/// `NoVersionTag` when there is none.
pub open spec fn xml_read_outcome(content: Seq<char>, res: Result<String, FormatError>) -> bool {
    match first_element(content) {
        Some(i) => res matches Ok(s) && s@ == trim(element_text(content, i)),
        None => res matches Err(FormatError::NoVersionTag),
    }
}

/// Writing: the first version element replaced by one carrying `version`,
/// or `NoVersionTagToUpdate` when there is none.
pub open spec fn xml_write_outcome(
    content: Seq<char>,
    version: Seq<char>,
    res: Result<String, FormatError>,
) -> bool {
    match first_element(content) {
        Some(_) => res matches Ok(s) && s@ == with_first_element_replaced(
            content,
            version_element(version),
        ),
        None => res matches Err(FormatError::NoVersionTagToUpdate),
    }
}

impl VersionFile for XmlVersionFile {
    open spec fn writable(&self, content: Seq<char>) -> bool {
        true
    }

    fn read_version(&self, content: &str) -> (res: Result<String, FormatError>)
        ensures
            xml_read_outcome(content@, res),
    {
        // The version pattern always compiles (see `first_group`), so the
        // error arm is never taken.
        match first_group("<version>([^<]+)</version>", content) {
            Ok(Some(g)) => {
                let chars = chars_of(g.as_str());
                let trimmed = trim_chars(chars.as_slice());
                Ok(string_of(trimmed.as_slice()))
            },
            _ => Err(FormatError::NoVersionTag),
        }
    }

    fn write_version(&self, content: &str, version: &str) -> (res: Result<String, FormatError>)
        ensures
            xml_write_outcome(content@, version@, res),
    {
        match first_group("<version>([^<]+)</version>", content) {
            Ok(Some(_)) => {
                let mut element = "<version>".to_owned();
                push_all(&mut element, version);
                push_all(&mut element, "</version>");
                match replace_first("<version>([^<]+)</version>", content, element.as_str()) {
                    Ok(s) => Ok(s),
                    // The version pattern always compiles; never taken.
                    Err(_) => Err(FormatError::NoVersionTagToUpdate),
                }
            },
            _ => Err(FormatError::NoVersionTagToUpdate),
        }
    }
}


proof fn lemma_tags()
    ensures
        open_tag() == seq!['<', 'v', 'e', 'r', 's', 'i', 'o', 'n', '>'],
        close_tag() == seq!['<', '/', 'v', 'e', 'r', 's', 'i', 'o', 'n', '>'],
{
    reveal_strlit("<version>");
    reveal_strlit("</version>");
    assert(open_tag() =~= seq!['<', 'v', 'e', 'r', 's', 'i', 'o', 'n', '>']);
    assert(close_tag() =~= seq!['<', '/', 'v', 'e', 'r', 's', 'i', 'o', 'n', '>']);
}

proof fn lemma_first_from_found(h: Seq<char>, j: int, i: int)
    requires
        0 <= j <= i <= h.len(),
        element_at(h, i),
        forall|k: int| j <= k < i ==> !element_at(h, k),
    ensures
        first_element_from(h, j) == Some(i),
    decreases i - j,
{
    if j < i {
        lemma_first_from_found(h, j + 1, i);
    }
}

proof fn lemma_first_from_none_before(h: Seq<char>, j: int, i: int)
    requires
        0 <= j,
        first_element_from(h, j) == Some(i),
    ensures
        j <= i,
        element_at(h, i),
        forall|k: int| j <= k < i ==> !element_at(h, k),
    decreases h.len() + 1 - j,
{
    if j <= h.len() && !element_at(h, j) {
        lemma_first_from_none_before(h, j + 1, i);
    }
}

proof fn lemma_next_lt_skip(h: Seq<char>, j: int, m: int)
    requires
        0 <= j <= m <= h.len(),
        forall|k: int| j <= k < m ==> h[k] != '<',
        m == h.len() || h[m] == '<',
    ensures
        next_lt(h, j) == m,
    decreases m - j,
{
    if j < m {
        lemma_next_lt_skip(h, j + 1, m);
    }
}

proof fn lemma_next_lt_agree(a: Seq<char>, b: Seq<char>, j: int, m: int)
    requires
        0 <= j <= m,
        m < a.len(),
        m < b.len(),
        forall|k: int| j <= k <= m ==> a[k] == b[k],
        a[m] == '<',
    ensures
        next_lt(a, j) == next_lt(b, j),
        j <= next_lt(a, j) <= m,
    decreases m - j,
{
    if j < m && a[j] != '<' {
        lemma_next_lt_agree(a, b, j + 1, m);
    }
}

/// The content after `version` is written into `content`.
pub open spec fn xml_written(content: Seq<char>, version: Seq<char>) -> Seq<char> {
    with_first_element_replaced(content, version_element(version))
}

/// A version that reads back as it is: not empty, without `<`.
pub open spec fn plain_version(version: Seq<char>) -> bool {
    version.len() > 0 && forall|k: int| 0 <= k < version.len() ==> version[k] != '<'
}

/// How the written content is laid out, character by character.
proof fn lemma_written_layout(c: Seq<char>, v: Seq<char>, i: int)
    requires
        element_at(c, i),
        0 <= i,
        first_element(c) == Some(i),
    ensures
        ({
            let w = xml_written(c, v);
            let e = text_end(c, i) + 10;
            &&& e <= c.len()
            &&& w.len() == i + 19 + v.len() + (c.len() - e)
            &&& forall|k: int| 0 <= k < i + 9 ==> #[trigger] w[k] == c[k]
            &&& forall|k: int| 0 <= k < 9 ==> #[trigger] w[i + k] == open_tag()[k]
            &&& forall|k: int| 0 <= k < v.len() ==> #[trigger] w[i + 9 + k] == v[k]
            &&& forall|k: int| 0 <= k < 10 ==> #[trigger] w[i + 9 + v.len() + k] == close_tag()[k]
            &&& w.take(i) == c.take(i)
            &&& w.skip(i + 19 + v.len()) == c.skip(e)
        }),
{
    lemma_tags();
    let open = open_tag();
    let close = close_tag();
    let e = text_end(c, i) + 10;
    let big = version_element(v);
    let w = xml_written(c, v);
    assert(w == c.take(i) + big + c.skip(e));
    assert forall|k: int| 0 <= k < 9 implies #[trigger] w[i + k] == open[k] by {
        assert(big[k] == open[k]);
    }
    assert forall|k: int| 0 <= k < v.len() implies #[trigger] w[i + 9 + k] == v[k] by {
        assert(big[9 + k] == v[k]);
    }
    assert forall|k: int| 0 <= k < 10 implies #[trigger] w[i + 9 + v.len() + k] == close[k] by {
        assert(big[9 + v.len() + k] == close[k]);
    }
    assert forall|k: int| 0 <= k < i + 9 implies #[trigger] w[k] == c[k] by {
        if k >= i {
            assert(c.subrange(i, i + 9)[k - i] == c[k]);
            assert(w[i + (k - i)] == open[k - i]);
        }
    }
    assert(w.take(i) =~= c.take(i));
    assert(w.skip(i + 19 + v.len()) =~= c.skip(e));
}

/// In the written content an element starts at `i`, with the new text.
proof fn lemma_written_element(w: Seq<char>, v: Seq<char>, i: int)
    requires
        0 <= i,
        plain_version(v),
        i + 19 + v.len() <= w.len(),
        forall|k: int| 0 <= k < 9 ==> #[trigger] w[i + k] == open_tag()[k],
        forall|k: int| 0 <= k < v.len() ==> #[trigger] w[i + 9 + k] == v[k],
        forall|k: int| 0 <= k < 10 ==> #[trigger] w[i + 9 + v.len() + k] == close_tag()[k],
    ensures
        element_at(w, i),
        text_end(w, i) == i + 9 + v.len(),
        element_text(w, i) == v,
{
    lemma_tags();
    let open = open_tag();
    let close = close_tag();
    assert(w.subrange(i, i + 9) =~= open) by {
        assert forall|k: int| 0 <= k < 9 implies w.subrange(i, i + 9)[k] == open[k] by {
            assert(w[i + k] == open[k]);
        }
    }
    let m = i + 9 + v.len();
    assert forall|k: int| i + 9 <= k < m implies w[k] != '<' by {
        assert(w[i + 9 + (k - i - 9)] == v[k - i - 9]);
    }
    assert(w[m] == '<') by {
        assert(w[i + 9 + v.len() + 0] == close[0]);
    }
    lemma_next_lt_skip(w, i + 9, m);
    assert(w.subrange(m, m + 10) =~= close) by {
        assert forall|k: int| 0 <= k < 10 implies w.subrange(m, m + 10)[k] == close[k] by {
            assert(w[i + 9 + v.len() + k] == close[k]);
        }
    }
    assert(element_text(w, i) =~= v) by {
        assert forall|k: int| 0 <= k < v.len() implies element_text(w, i)[k] == v[k] by {
            assert(w[i + 9 + k] == v[k]);
        }
    }
}

/// An element starting before `i` in the written content would start
/// there in the original content too.
proof fn lemma_no_earlier_element(c: Seq<char>, w: Seq<char>, i: int, p: int)
    requires
        0 <= p < i,
        i + 10 <= w.len(),
        i + 9 <= c.len(),
        forall|k: int| 0 <= k < i + 9 ==> #[trigger] w[k] == c[k],
        forall|k: int| 0 <= k < 9 ==> #[trigger] w[i + k] == open_tag()[k],
        !element_at(c, p),
    ensures
        !element_at(w, p),
{
    lemma_tags();
    let open = open_tag();
    let close = close_tag();
    if element_at(w, p) {
        assert(w[i + 0] == open[0]);
        if p + 9 > i {
            let d = i - p;
            assert(w.subrange(p, p + 9)[d] == open[d]);
            assert(false);
        } else {
            assert(c.subrange(p, p + 9) =~= open) by {
                assert forall|k: int| 0 <= k < 9 implies c.subrange(p, p + 9)[k] == open[k] by {
                    assert(w.subrange(p, p + 9)[k] == open[k]);
                    assert(w[p + k] == c[p + k]);
                }
            }
            lemma_next_lt_agree(w, c, p + 9, i);
            let kp = text_end(w, p);
            assert(text_end(c, p) == kp);
            if kp == i {
                assert(w.subrange(kp, kp + 10)[1] == close[1]);
                assert(w[i + 1] == open[1]);
                assert(false);
            }
            assert(c.subrange(kp, kp + 10) =~= close) by {
                assert forall|k: int| 0 <= k < 10 implies c.subrange(kp, kp + 10)[k]
                    == close[k] by {
                    assert(w.subrange(kp, kp + 10)[k] == close[k]);
                    assert(w[kp + k] == c[kp + k]);
                }
            }
            assert(element_at(c, p));
        }
    }
}

proof fn lemma_written_shape(c: Seq<char>, v: Seq<char>, i: int)
    requires
        first_element(c) == Some(i),
        plain_version(v),
    ensures
        first_element(xml_written(c, v)) == Some(i),
        text_end(xml_written(c, v), i) == i + 9 + v.len(),
        element_text(xml_written(c, v), i) == v,
        xml_written(c, v).take(i) == c.take(i),
        xml_written(c, v).skip(i + 19 + v.len()) == c.skip(text_end(c, i) + 10),
{
    lemma_first_from_none_before(c, 0, i);
    lemma_written_layout(c, v, i);
    let w = xml_written(c, v);
    lemma_written_element(w, v, i);
    assert(c.subrange(i, i + 9).len() == 9);
    assert forall|p: int| 0 <= p < i implies !element_at(w, p) by {
        lemma_no_earlier_element(c, w, i, p);
    }
    lemma_first_from_found(w, 0, i);
}

/// Writing a version and reading it back gives that version, for a
/// version that is not empty, holds no `<` and has no surrounding white
/// space (other versions change on the way: `<` ends the element, white
/// space is trimmed when read).
pub proof fn xml_reads_back_written_version(
    content: Seq<char>,
    version: Seq<char>,
    written: Seq<char>,
    read: Result<String, FormatError>,
)
    requires
        first_element(content) is Some,
        written == xml_written(content, version),
        plain_version(version),
        trim(version) == version,
        xml_read_outcome(written, read),
    ensures
        read matches Ok(s) && s@ == version,
{
    lemma_written_shape(content, version, first_element(content)->0);
}

/// Writing the same version twice leaves the content as writing it once,
/// for a version that is not empty and holds no `<`.
pub proof fn xml_writing_twice_equals_once(content: Seq<char>, version: Seq<char>)
    requires
        first_element(content) is Some,
        plain_version(version),
    ensures
        first_element(xml_written(content, version)) is Some,
        xml_written(xml_written(content, version), version) == xml_written(content, version),
{
    let i = first_element(content)->0;
    lemma_written_shape(content, version, i);
    let w = xml_written(content, version);
    lemma_tags();
    assert(version_element(version).len() == 19 + version.len());
    assert(xml_written(w, version) =~= w);
}

/// What a successful write gives, for use with the laws above: an element
/// was found and the result is [`xml_written`].
pub proof fn xml_write_gives_written(content: Seq<char>, version: Seq<char>, res: Result<String, FormatError>)
    requires
        xml_write_outcome(content, version, res),
        res is Ok,
    ensures
        first_element(content) is Some,
        res matches Ok(s) && s@ == xml_written(content, version),
{
}

} // verus!
