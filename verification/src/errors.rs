use vstd::prelude::*;

verus! {

/// The error kinds of the pipeline. Every error is terminal: nothing is
/// retried or downgraded to a partial result.
#[derive(Debug, Clone, Copy, PartialEq, Eq)]
pub enum NewsError {
    /// A selected name was not a key of the source registry.
    RegistryLookupError,
    /// The feed could not be fetched: connection, transport, or a
    /// non-success HTTP status.
    NetworkError,
    /// The fetched bytes are not a well-formed syndication feed document.
    ParseError,
    /// A feed item carries no title; the run is aborted rather than
    /// substituting a fallback.
    MissingTitleError,
}

impl NewsError {
    /// A one-line human-readable message naming which stage failed and why.
    pub fn describe(&self) -> (r: &'static str)
        ensures
            r@ == self.describe_spec(),
    {
        match self {
            NewsError::RegistryLookupError => "registry: the selected source has no configured URL",
            NewsError::NetworkError => "fetch: the feed could not be retrieved",
            NewsError::ParseError => "parse: the document is not a well-formed feed",
            NewsError::MissingTitleError => "project: a feed item has no title",
        }
    }

    /// The message text of each error kind.
    pub open spec fn describe_spec(&self) -> Seq<char> {
        match self {
            NewsError::RegistryLookupError => "registry: the selected source has no configured URL"@,
            NewsError::NetworkError => "fetch: the feed could not be retrieved"@,
            NewsError::ParseError => "parse: the document is not a well-formed feed"@,
            NewsError::MissingTitleError => "project: a feed item has no title"@,
        }
    }
}

} // verus!
