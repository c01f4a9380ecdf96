//! The operations that the service offers, and where each one lives.

use vstd::prelude::*;

verus! {

/// One of the remote operations of the service.
#[derive(Clone, Copy, Debug, PartialEq, Eq, Structural)]
pub enum Endpoint {
    Everything,
    TopHeadline,
    Sources,
}

/// The items of `parts`, each followed by nothing and preceded, from the
/// second on, by a slash.
pub open spec fn joined(parts: Seq<Seq<char>>) -> Seq<char>
    decreases parts.len(),
{
    if parts.len() == 0 {
        Seq::empty()
    } else if parts.len() == 1 {
        parts[0]
    } else {
        joined(parts.drop_last()) + seq!['/'] + parts.last()
    }
}

impl Endpoint {
    /// The path segment that identifies the endpoint.
    pub open spec fn segment(self) -> Seq<char> {
        match self {
            Endpoint::TopHeadline => "top-headlines"@,
            Endpoint::Everything => "everything"@,
            Endpoint::Sources => "top-headlines/sources"@,
        }
    }

    /// The segment, cut at its slashes.
    pub open spec fn parts(self) -> Seq<Seq<char>> {
        match self {
            Endpoint::TopHeadline => seq!["top-headlines"@],
            Endpoint::Everything => seq!["everything"@],
            Endpoint::Sources => seq!["top-headlines"@, "sources"@],
        }
    }

    /// The path segment of the endpoint, as text.
    pub fn to_string(&self) -> (text: String)
        ensures
            text@ == self.segment(),
    {
        match self {
            Endpoint::TopHeadline => "top-headlines".to_owned(),
            Endpoint::Everything => "everything".to_owned(),
            Endpoint::Sources => "top-headlines/sources".to_owned(),
        }
    }

    /// The pieces of the segment between its slashes, first to last.
    pub fn path_segments(&self) -> (pieces: Vec<&'static str>)
        ensures
            pieces@.len() == self.parts().len(),
            forall|i: int| 0 <= i < pieces@.len() ==> (#[trigger] pieces@[i])@ == self.parts()[i],
    {
        match self {
            Endpoint::TopHeadline => vec!["top-headlines"],
            Endpoint::Everything => vec!["everything"],
            Endpoint::Sources => vec!["top-headlines", "sources"],
        }
    }

    /// The segment of every endpoint is its parts joined by slashes.
    pub proof fn lemma_segment_joins_parts(self)
        ensures
            self.segment() == joined(self.parts()),
    {
        reveal_strlit("top-headlines");
        reveal_strlit("everything");
        reveal_strlit("sources");
        reveal_strlit("top-headlines/sources");
        reveal_with_fuel(joined, 3);
        match self {
            Endpoint::Sources => {
                let parts = self.parts();
                assert(parts.drop_last() =~= seq!["top-headlines"@]);
                assert(joined(parts) =~= "top-headlines"@ + seq!['/'] + "sources"@);
                assert(self.segment() =~= joined(parts));
            },
            _ => {},
        }
    }
}

} // verus!
