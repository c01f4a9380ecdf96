//! The address of a request: the base of the service, the path segment of
//! an endpoint, and the country as the query.

use vstd::prelude::*;
use vstd::std_specs::iter::IteratorSpec;
use vstd::string::StrSliceExecFns;
use vstd::string::StringExecFns;
use crate::endpoint::joined;
use crate::endpoint::Endpoint;
use crate::errors::NewsAPIError;
use crate::errors::UrlError;
use crate::web::bare;
use crate::web::open_ended;
use crate::web::parse;
use crate::web::parsed_text;
use crate::web::plain_query;
use crate::web::plain_query_char;
use crate::web::plain_segment;
use crate::web::push_segment;
use crate::web::query_set;
use crate::web::set_query;
use crate::web::text;
use crate::web::url_text;
use crate::web::web_scheme;

verus! {

/// The query that asks for the news of `country`.
pub open spec fn country_query(country: Seq<char>) -> Seq<char> {
    "country="@ + country
}

/// `text` with `parts` behind it, a slash before each.
pub open spec fn with_parts(text: Seq<char>, parts: Seq<Seq<char>>) -> Seq<char> {
    if parts.len() == 0 {
        text
    } else {
        text + seq!['/'] + joined(parts)
    }
}

/// The address stays within what a URL can hold, however much of the
/// country has to be escaped.
pub open spec fn fits(text: Seq<char>, endpoint: Endpoint, country: Seq<char>) -> bool {
    4 * text.len() + 12 * (endpoint.segment().len() + country.len() + 9) + 2 <= u32::MAX
}

/// What becomes of an attempt to assemble an address.
pub enum Assembly {
    /// The base is no URL.
    Refused,
    /// The base is a URL that nothing can be appended to.
    Unfit,
    /// The address would be too long.
    TooLong,
    /// The address.
    Built(Seq<char>),
}

/// The address of the request for `endpoint` and `country` at the service
/// whose base address is `base`.
pub open spec fn assembled(base: Seq<char>, endpoint: Endpoint, country: Seq<char>) -> Assembly {
    match parsed_text(base) {
        None => Assembly::Refused,
        Some(text) => if !open_ended(text) {
            Assembly::Unfit
        } else if !fits(text, endpoint, country) {
            Assembly::TooLong
        } else {
            Assembly::Built(
                query_set(text + seq!['/'] + endpoint.segment(), country_query(country)),
            )
        },
    }
}

/// Whether `address` reports `assembly`: the text where one was built, and
/// otherwise the error that says why none was.
pub open spec fn reports(address: Result<String, NewsAPIError>, assembly: Assembly) -> bool {
    match assembly {
        Assembly::Refused => address matches Err(NewsAPIError::UrlParsing(UrlError::Parse(_))),
        Assembly::Unfit => address == Err::<String, NewsAPIError>(
            NewsAPIError::UrlParsing(UrlError::UnfitBase),
        ),
        Assembly::TooLong => address == Err::<String, NewsAPIError>(
            NewsAPIError::UrlParsing(UrlError::TooLong),
        ),
        Assembly::Built(text) => address matches Ok(built) && built@ == text,
    }
}

/// Where the first question mark of `text` stands, or its length if it has
/// none.
pub open spec fn query_mark(text: Seq<char>) -> int
    decreases text.len(),
{
    if text.len() == 0 {
        0
    } else if text[0] == '?' {
        0
    } else {
        1 + query_mark(text.drop_first())
    }
}

/// What stands before the first question mark of an address: scheme, host
/// and path.
pub open spec fn before_query(address: Seq<char>) -> Seq<char> {
    address.subrange(0, query_mark(address))
}

/// What stands behind the first question mark of an address; nothing, if
/// it has none.
pub open spec fn query_of(address: Seq<char>) -> Seq<char> {
    if query_mark(address) < address.len() {
        address.subrange(query_mark(address) + 1, address.len() as int)
    } else {
        Seq::empty()
    }
}

/// Whether `address` asks `endpoint` about `country`: what stands before
/// its query ends in a slash and the segment of the endpoint, and its query
/// is `country=` and the country, character for character.
pub open spec fn asks(address: Seq<char>, endpoint: Endpoint, country: Seq<char>) -> bool {
    &&& (seq!['/'] + endpoint.segment()).is_suffix_of(before_query(address))
    &&& query_of(address) == country_query(country)
}

/// An open-ended address stays open-ended when a plain segment follows it.
pub proof fn lemma_open_ended_grows(text: Seq<char>, segment: Seq<char>)
    requires
        open_ended(text),
        plain_segment(segment),
    ensures
        open_ended(text + seq!['/'] + segment),
{
    let longer = text + seq!['/'] + segment;
    assert(longer.last() == segment.last());
    if text.len() >= 7 && text.subrange(0, 7) == seq!['h', 't', 't', 'p', ':', '/', '/'] {
        assert(longer.subrange(0, 7) =~= text.subrange(0, 7));
    } else {
        assert(longer.subrange(0, 8) =~= text.subrange(0, 8));
    }
    assert forall|i: int| 0 <= i < longer.len() implies #[trigger] longer[i] != '?' && longer[i]
        != '#' by {
        if i < text.len() {
            assert(longer[i] == text[i]);
        } else if i > text.len() {
            assert(longer[i] == segment[i - text.len() - 1]);
        }
    }
}

/// Joining more of the parts never gives a shorter text.
pub proof fn lemma_joined_grows(parts: Seq<Seq<char>>, k: int)
    requires
        0 <= k <= parts.len(),
    ensures
        joined(parts.take(k)).len() <= joined(parts).len(),
    decreases parts.len() - k,
{
    if k == parts.len() {
        assert(parts.take(k) =~= parts);
    } else {
        lemma_joined_grows(parts, k + 1);
        let more = parts.take(k + 1);
        assert(more.drop_last() =~= parts.take(k));
        if k == 0 {
            assert(joined(parts.take(0)).len() == 0);
        }
    }
}

/// Every part of every endpoint's segment is a plain segment.
pub proof fn lemma_parts_are_plain(endpoint: Endpoint)
    ensures
        endpoint.parts().len() >= 1,
        forall|i: int|
            0 <= i < endpoint.parts().len() ==> plain_segment(#[trigger] endpoint.parts()[i]),
{
    reveal_strlit("top-headlines");
    reveal_strlit("everything");
    reveal_strlit("sources");
}

/// An open-ended address stays open-ended when plain segments follow it,
/// a slash before each.
pub proof fn lemma_parts_keep_open(text: Seq<char>, parts: Seq<Seq<char>>)
    requires
        open_ended(text),
        parts.len() >= 1,
        forall|i: int| 0 <= i < parts.len() ==> plain_segment(#[trigger] parts[i]),
    ensures
        open_ended(text + seq!['/'] + joined(parts)),
    decreases parts.len(),
{
    if parts.len() == 1 {
        lemma_open_ended_grows(text, parts[0]);
    } else {
        let front = parts.drop_last();
        assert forall|i: int| 0 <= i < front.len() implies plain_segment(#[trigger] front[i]) by {
            assert(front[i] == parts[i]);
        }
        lemma_parts_keep_open(text, front);
        let stem = text + seq!['/'] + joined(front);
        lemma_open_ended_grows(stem, parts.last());
        assert(stem + seq!['/'] + parts.last() =~= text + seq!['/'] + joined(parts));
    }
}

/// An open-ended address stays open-ended behind the segment of an endpoint.
pub proof fn lemma_segment_keeps_open(text: Seq<char>, endpoint: Endpoint)
    requires
        open_ended(text),
    ensures
        open_ended(text + seq!['/'] + endpoint.segment()),
{
    lemma_parts_are_plain(endpoint);
    endpoint.lemma_segment_joins_parts();
    lemma_parts_keep_open(text, endpoint.parts());
}

/// Behind a text without question mark, the mark is the first one.
pub proof fn lemma_query_mark(stem: Seq<char>, query: Seq<char>)
    requires
        bare(stem),
    ensures
        query_mark(stem + seq!['?'] + query) == stem.len(),
    decreases stem.len(),
{
    let whole = stem + seq!['?'] + query;
    if stem.len() == 0 {
        assert(whole[0] == '?');
    } else {
        assert(whole[0] == stem[0]);
        let rest = stem.drop_first();
        assert forall|i: int| 0 <= i < rest.len() implies #[trigger] rest[i] != '?' && rest[i]
            != '#' by {
            assert(rest[i] == stem[i + 1]);
        }
        assert(whole.drop_first() =~= rest + seq!['?'] + query);
        lemma_query_mark(rest, query);
    }
}

/// The query for a country that holds nothing to escape holds nothing to
/// escape either.
pub proof fn lemma_country_query_is_plain(country: Seq<char>)
    requires
        plain_query(country),
    ensures
        plain_query(country_query(country)),
{
    reveal_strlit("country=");
    let query = country_query(country);
    assert forall|i: int| 0 <= i < query.len() implies plain_query_char(#[trigger] query[i]) by {
        if i >= 8 {
            assert(query[i] == country[i - 8]);
        }
    }
}

/// Every address that is built for a country with nothing to escape in it
/// is the parsed base, a slash, the segment of the endpoint, a question
/// mark and `country=` with the country behind it. So what stands before
/// the query ends in a slash and the segment, and the query is `country=`
/// and the country, character for character.
pub proof fn lemma_address_shape(
    base: Seq<char>,
    endpoint: Endpoint,
    country: Seq<char>,
    address: Seq<char>,
)
    requires
        assembled(base, endpoint, country) == Assembly::Built(address),
        plain_query(country),
    ensures
        parsed_text(base) is Some,
        address == parsed_text(base)->0 + seq!['/'] + endpoint.segment() + seq!['?']
            + country_query(country),
        before_query(address) == parsed_text(base)->0 + seq!['/'] + endpoint.segment(),
        query_of(address) == country_query(country),
        asks(address, endpoint, country),
{
    let text = parsed_text(base)->0;
    let stem = text + seq!['/'] + endpoint.segment();
    let query = country_query(country);
    lemma_segment_keeps_open(text, endpoint);
    lemma_country_query_is_plain(country);
    lemma_query_mark(stem, query);
    assert(address == stem + seq!['?'] + query);
    assert(before_query(address) =~= stem);
    assert(query_of(address) =~= query);
    let tail = seq!['/'] + endpoint.segment();
    assert(tail =~= stem.subrange(stem.len() - tail.len(), stem.len() as int));
}

/// Two addresses built from one base for one endpoint and two countries,
/// neither with anything to escape in it, are the same up to the query, and
/// each query names its own country.
pub proof fn lemma_country_changes_the_query_only(
    base: Seq<char>,
    endpoint: Endpoint,
    first: Seq<char>,
    second: Seq<char>,
    first_address: Seq<char>,
    second_address: Seq<char>,
)
    requires
        assembled(base, endpoint, first) == Assembly::Built(first_address),
        assembled(base, endpoint, second) == Assembly::Built(second_address),
        plain_query(first),
        plain_query(second),
    ensures
        before_query(first_address) == before_query(second_address),
        query_of(first_address) == country_query(first),
        query_of(second_address) == country_query(second),
{
    lemma_address_shape(base, endpoint, first, first_address);
    lemma_address_shape(base, endpoint, second, second_address);
}

/// Whether `text` is a web address without query, fragment or closing slash.
pub fn is_open_ended(text: &str) -> (open: bool)
    ensures
        open == open_ended(text@),
{
    broadcast use vstd::string::group_string_axioms;

    let mut chars = text.chars();
    let mut head: Vec<char> = Vec::new();
    let mut last: char = '/';
    let ghost mut seen: int = 0;
    loop
        invariant
            0 <= seen <= text@.len(),
            chars.obeys_prophetic_iter_laws(),
            chars.decrease() is Some,
            chars.remaining() == text@.skip(seen),
            forall|j: int| 0 <= j < seen ==> #[trigger] text@[j] != '?' && text@[j] != '#',
            head@ == text@.take(if seen < 8 { seen } else { 8 }),
            seen > 0 ==> last == text@[seen - 1],
        decreases chars.decrease()->0,
    {
        match chars.next() {
            Some(c) => {
                assert(c == text@[seen]);
                if c == '?' || c == '#' {
                    return false;
                }
                if head.len() < 8 {
                    head.push(c);
                }
                last = c;
                proof {
                    assert(text@.skip(seen).drop_first() =~= text@.skip(seen + 1));
                    if seen < 8 {
                        assert(text@.take(seen).push(c) =~= text@.take(seen + 1));
                    }
                    seen = seen + 1;
                }
            },
            None => {
                assert(seen == text@.len());
                let plain = head.len() >= 7 && head[0] == 'h' && head[1] == 't' && head[2] == 't'
                    && head[3] == 'p' && head[4] == ':' && head[5] == '/' && head[6] == '/';
                let secure = head.len() >= 8 && head[0] == 'h' && head[1] == 't' && head[2] == 't'
                    && head[3] == 'p' && head[4] == 's' && head[5] == ':' && head[6] == '/'
                    && head[7] == '/';
                proof {
                    if head.len() >= 7 {
                        let short = text@.subrange(0, 7);
                        assert(short =~= head@.subrange(0, 7));
                        if plain {
                            assert(short =~= seq!['h', 't', 't', 'p', ':', '/', '/']);
                        } else {
                            assert(seq!['h', 't', 't', 'p', ':', '/', '/'] =~= short ==> plain);
                        }
                    }
                    if head.len() >= 8 {
                        let long = text@.subrange(0, 8);
                        assert(long =~= head@.subrange(0, 8));
                        if secure {
                            assert(long =~= seq!['h', 't', 't', 'p', 's', ':', '/', '/']);
                        } else {
                            assert(seq!['h', 't', 't', 'p', 's', ':', '/', '/'] =~= long
                                ==> secure);
                        }
                    }
                    assert((plain || secure) == web_scheme(text@));
                }
                return (plain || secure) && last != '/';
            },
        }
    }
}

/// Whether the address for `endpoint` and `country` behind `text` fits.
fn has_room(text: &str, endpoint: Endpoint, country: &str) -> (room: bool)
    ensures
        room == fits(text@, endpoint, country@),
{
    let segment = endpoint.to_string();
    let limit: u64 = 0xffff_ffff;
    let text_len: u64 = text.unicode_len() as u64;
    let segment_len: u64 = segment.as_str().unicode_len() as u64;
    let country_len: u64 = country.unicode_len() as u64;
    if text_len > limit || segment_len > limit || country_len > limit {
        return false;
    }
    4 * text_len + 12 * (segment_len + country_len + 9) + 2 <= limit
}

/// Assembles the address of the request for `endpoint` and `country` at the
/// service whose base address is `base`.
///
/// The base has to be a web address without query, fragment or closing
/// slash. The segment of the endpoint goes behind it, part by part, and the
/// country becomes the query.
pub fn assemble_url(base: &str, endpoint: Endpoint, country: &str) -> (address: Result<
    String,
    NewsAPIError,
>)
    ensures
        reports(address, assembled(base@, endpoint, country@)),
        match address {
            Ok(built) => plain_query(country@) ==> asks(built@, endpoint, country@),
            Err(_) => true,
        },
{
    let mut url = match parse(base) {
        Ok(url) => url,
        Err(e) => {
            return Err(NewsAPIError::UrlParsing(UrlError::Parse(e)));
        },
    };
    if !is_open_ended(text(&url)) {
        return Err(NewsAPIError::UrlParsing(UrlError::UnfitBase));
    }
    if !has_room(text(&url), endpoint, country) {
        return Err(NewsAPIError::UrlParsing(UrlError::TooLong));
    }
    let pieces = endpoint.path_segments();
    let ghost start = url_text(url);
    let ghost parts = endpoint.parts();
    proof {
        lemma_parts_are_plain(endpoint);
        endpoint.lemma_segment_joins_parts();
        assert(parts.take(0).len() == 0);
    }
    let mut i: usize = 0;
    while i < pieces.len()
        invariant
            i <= pieces@.len(),
            pieces@.len() == parts.len(),
            forall|j: int| 0 <= j < pieces@.len() ==> (#[trigger] pieces@[j])@ == parts[j],
            forall|j: int| 0 <= j < parts.len() ==> plain_segment(#[trigger] parts[j]),
            open_ended(url_text(url)),
            url_text(url) == with_parts(start, parts.take(i as int)),
            4 * start.len() + 12 * (joined(parts).len() + 1) + 2 <= u32::MAX,
        decreases pieces@.len() - i,
    {
        let ghost before = url_text(url);
        let ghost piece = parts[i as int];
        proof {
            lemma_joined_grows(parts, i as int + 1);
            let more = parts.take(i as int + 1);
            assert(more.drop_last() =~= parts.take(i as int));
            assert(more.last() == piece);
            if i == 0 {
                assert(joined(more) == piece);
            } else {
                assert(joined(more) == joined(parts.take(i as int)) + seq!['/'] + piece);
            }
            assert(with_parts(start, more) =~= before + seq!['/'] + piece);
            lemma_open_ended_grows(before, piece);
        }
        let pushed = push_segment(&mut url, pieces[i]);
        if !pushed {
            return Err(NewsAPIError::UrlParsing(UrlError::UnfitBase));
        }
        i += 1;
    }
    let mut query = "country=".to_owned();
    query.append(country);
    proof {
        reveal_strlit("country=");
        assert(parts.take(i as int) =~= parts);
        assert(url_text(url) == start + seq!['/'] + endpoint.segment());
    }
    set_query(&mut url, query.as_str());
    proof {
        if plain_query(country@) {
            lemma_address_shape(base@, endpoint, country@, url_text(url));
        }
    }
    Ok(text(&url).to_owned())
}

} // verus!
