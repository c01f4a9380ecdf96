//! The `url` crate, as far as the library relies on it.
//!
//! Nothing in this file is proved. Each item says in its comment which
//! function of the crate it stands for and what is claimed of it.

use vstd::prelude::*;

verus! {

/// `url::Url`, a parsed URL. Its inside is not visible to the verifier.
#[verifier::external_type_specification]
#[verifier::external_body]
pub struct ExUrl(url::Url);

/// `url::ParseError`, the reason why `Url::parse` refused an input.
#[verifier::external_type_specification]
#[verifier::external_body]
pub struct ExParseError(url::ParseError);

/// The serialization that a `Url` holds: the text that `Url::as_str` hands
/// out, and by which alone the crate tells two URLs apart.
pub uninterp spec fn url_text(u: url::Url) -> Seq<char>;

/// What `Url::parse` makes of `input`: the serialization of the parsed URL,
/// or `None` where the input is refused.
pub uninterp spec fn parsed_text(input: Seq<char>) -> Option<Seq<char>>;

/// The serialization after `Url::set_query(Some(query))` on a URL whose
/// serialization was `text`.
pub uninterp spec fn text_with_query(text: Seq<char>, query: Seq<char>) -> Seq<char>;

/// A character that a path segment keeps as it is: an ASCII letter or
/// digit, a hyphen or an underscore.
pub open spec fn plain_segment_char(c: char) -> bool {
    ||| 'a' <= c <= 'z'
    ||| 'A' <= c <= 'Z'
    ||| '0' <= c <= '9'
    ||| c == '-'
    ||| c == '_'
}

/// A path segment that is not empty and holds only characters that are kept.
pub open spec fn plain_segment(segment: Seq<char>) -> bool {
    &&& segment.len() > 0
    &&& forall|i: int| 0 <= i < segment.len() ==> plain_segment_char(#[trigger] segment[i])
}

/// A character that a query keeps as it is: printable ASCII other than the
/// space, the two quotes, the number sign and the angle brackets.
pub open spec fn plain_query_char(c: char) -> bool {
    &&& '!' <= c <= '~'
    &&& c != '"'
    &&& c != '#'
    &&& c != '\''
    &&& c != '<'
    &&& c != '>'
}

/// A query that holds only characters that are kept.
pub open spec fn plain_query(query: Seq<char>) -> bool {
    forall|i: int| 0 <= i < query.len() ==> plain_query_char(#[trigger] query[i])
}

/// No query and no fragment: neither delimiter occurs in the text.
pub open spec fn bare(text: Seq<char>) -> bool {
    forall|i: int| 0 <= i < text.len() ==> #[trigger] text[i] != '?' && text[i] != '#'
}

/// The text begins with `http://` or `https://`.
pub open spec fn web_scheme(text: Seq<char>) -> bool {
    ||| text.len() >= 7 && text.subrange(0, 7) == seq!['h', 't', 't', 'p', ':', '/', '/']
    ||| text.len() >= 8 && text.subrange(0, 8) == seq!['h', 't', 't', 'p', 's', ':', '/', '/']
}

/// A web address that a segment can be appended to with a slash between:
/// it has no query or fragment and does not end in a slash.
pub open spec fn open_ended(text: Seq<char>) -> bool {
    &&& web_scheme(text)
    &&& bare(text)
    &&& text.last() != '/'
}

/// Whether a serialization of `text_len` characters stays within the four
/// gigabytes that the positions inside a `Url` can address when `added_len`
/// more characters are escaped into it: a character takes up to four bytes,
/// and each of them up to three when escaped.
pub open spec fn within_reach(text_len: nat, added_len: nat) -> bool {
    4 * text_len + 12 * added_len + 2 <= u32::MAX
}

/// The serialization after a query was set on `text`: the query behind a
/// question mark where nothing has to be removed or escaped.
pub open spec fn query_set(text: Seq<char>, query: Seq<char>) -> Seq<char> {
    if bare(text) && plain_query(query) {
        text + seq!['?'] + query
    } else {
        text_with_query(text, query)
    }
}

/// `Url::parse`. The input alone decides whether there is a URL, and what
/// its serialization is; nothing more is claimed.
#[verifier::external_body]
pub(crate) fn parse(input: &str) -> (parsed: Result<url::Url, url::ParseError>)
    ensures
        match parsed {
            Ok(u) => parsed_text(input@) == Some(url_text(u)),
            Err(_) => parsed_text(input@) is None,
        },
{
    url::Url::parse(input)
}

/// `Url::as_str`: the serialization, borrowed.
#[verifier::external_body]
pub(crate) fn text(u: &url::Url) -> (serialization: &str)
    ensures
        serialization@ == url_text(*u),
{
    u.as_str()
}

/// `Url::path_segments_mut` and, on what it hands out, `PathSegmentsMut::push`
/// with `segment`. Tells whether the URL took the segment.
///
/// Claimed of the crate: only a URL that cannot be a base refuses, one whose
/// scheme and colon no slash follows, so a web address never does; a URL
/// that refuses stays as it was. The segment goes behind the path after a
/// slash, unless the path is the single slash, and in it the crate escapes
/// controls, the space, the characters ``" # % / < > ? \ ` { }`` and whatever
/// is not ASCII, and passes over a segment of one or two dots. So behind an
/// open-ended web address a plain segment stands as it is. For schemes other
/// than the web's nothing is claimed: a `file` URL treats drive letters in
/// its own way.
///
/// The crate keeps positions inside a URL in 32 bits and panics on more;
/// the bound rules that out.
#[verifier::external_body]
pub(crate) fn push_segment(u: &mut url::Url, segment: &str) -> (pushed: bool)
    requires
        within_reach(url_text(*old(u)).len(), segment@.len()),
    ensures
        web_scheme(url_text(*old(u))) ==> pushed,
        !pushed ==> url_text(*final(u)) == url_text(*old(u)),
        pushed && open_ended(url_text(*old(u))) && plain_segment(segment@) ==> url_text(*final(u))
            == url_text(*old(u)) + seq!['/'] + segment@,
{
    match u.path_segments_mut() {
        Ok(mut path) => {
            path.push(segment);
            true
        },
        Err(()) => false,
    }
}

/// `Url::set_query` with `Some(query)`.
///
/// Claimed of the crate: the old serialization and the query decide the new
/// one. An old query is removed, the new one goes behind a question mark,
/// and a fragment goes back behind that. In the query the crate drops tabs
/// and line ends and escapes controls, the space, the characters
/// `" # < >`, the apostrophe where the scheme is one of the web's, and
/// whatever is not ASCII. So on a URL without query and fragment, a query
/// with none of these in it is appended behind a question mark as it is.
///
/// The bound keeps the positions inside the URL within 32 bits, as for
/// `push_segment`.
#[verifier::external_body]
pub(crate) fn set_query(u: &mut url::Url, query: &str)
    requires
        within_reach(url_text(*old(u)).len(), query@.len()),
    ensures
        url_text(*final(u)) == text_with_query(url_text(*old(u)), query@),
        bare(url_text(*old(u))) && plain_query(query@) ==> url_text(*final(u)) == url_text(
            *old(u),
        ) + seq!['?'] + query@,
{
    u.set_query(Some(query))
}

} // verus!
