use vstd::prelude::*;

verus! {

/// Why an extension operation failed.
#[derive(Debug, Clone, Copy, PartialEq, Eq, Structural)]
pub enum ExtensionError {
    /// The source URL does not parse, or has no path to read segments from.
    InvalidUrl,
    /// The URL's host is not the one supported hosting provider.
    UnsupportedProvider,
    /// The URL's path holds no repository segment after the owner.
    MissingRepositoryName,
    /// Fetching the source repository failed.
    FetchFailed,
    /// Building the fetched project failed.
    BuildFailed,
    /// A filesystem step (removal or copy) failed.
    IoError,
}

} // verus!
