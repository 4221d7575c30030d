use crate::error::ExtensionError;
use vstd::prelude::*;

verus! {

/// What the logic reads of a parsed URL: its host, and the segments of its
/// path (absent when the path does not start with `/`).
pub struct UrlParts {
    pub host: Option<String>,
    pub segments: Option<Vec<String>>,
}

/// A URL's host and path segments as sequences of characters.
pub type UrlPartsView = (Option<Seq<char>>, Option<Seq<Seq<char>>>);

impl View for UrlParts {
    type V = UrlPartsView;

    open spec fn view(&self) -> UrlPartsView {
        (
            match self.host {
                Some(h) => Some(h@),
                None => None,
            },
            match self.segments {
                Some(s) => Some(s.deep_view()),
                None => None,
            },
        )
    }
}

/// What `url::Url::parse` makes of a string: `None` when it is refused, else
/// the host and path segments of the parsed URL.
pub uninterp spec fn url_parts_of(s: Seq<char>) -> Option<UrlPartsView>;

/// Relies on `url::Url::parse` to parse an absolute URL; the parsed value is
/// read through `Url::host_str` and `Url::path_segments`, each converted to
/// owned strings.
#[verifier::external_body]
fn parse_url(s: &str) -> (r: Option<UrlParts>)
    ensures
        r matches Some(p) ==> url_parts_of(s@) == Some(p@),
        r is None ==> url_parts_of(s@) is None,
{
    match url::Url::parse(s) {
        Ok(u) => Some(UrlParts {
            host: u.host_str().map(|h| h.to_string()),
            segments: u.path_segments().map(|it| it.map(|p| p.to_string()).collect()),
        }),
        Err(_) => None,
    }
}

/// The host name of the one supported hosting provider.
pub open spec fn github_host() -> Seq<char> {
    seq!['g', 'i', 't', 'h', 'u', 'b', '.', 'c', 'o', 'm']
}

/// Whether a URL is hosted on the supported provider.
pub open spec fn is_github(parts: UrlPartsView) -> bool {
    parts.0 == Some(github_host())
}

/// The repository name of a parsed URL, or why there is none: a URL that did
/// not parse is invalid; then the host must be the supported one; then the
/// second path segment (after the owner) must be there and not be empty.
pub open spec fn repository_name_of(parts: Option<UrlPartsView>) -> Result<Seq<char>, ExtensionError> {
    match parts {
        None => Err(ExtensionError::InvalidUrl),
        Some(p) => if !is_github(p) {
            Err(ExtensionError::UnsupportedProvider)
        } else {
            match p.1 {
                None => Err(ExtensionError::InvalidUrl),
                Some(segs) => if segs.len() >= 2 && segs[1].len() > 0 {
                    Ok(segs[1])
                } else {
                    Err(ExtensionError::MissingRepositoryName)
                },
            }
        },
    }
}

/// A result carrying a `String`, seen as one carrying its characters.
pub open spec fn result_view(r: Result<String, ExtensionError>) -> Result<Seq<char>, ExtensionError> {
    match r {
        Ok(s) => Ok(s@),
        Err(e) => Err(e),
    }
}

/// Whether the parsed URL's host is the supported provider.
pub fn is_github_url(url: &UrlParts) -> (r: bool)
    ensures
        r == is_github(url@),
{
    proof {
        reveal_strlit("github.com");
    }
    let github = String::from_str("github.com");
    assert(github@ =~= github_host());
    match &url.host {
        Some(h) => h.eq(&github),
        None => false,
    }
}

/// The repository name read off a parsed URL (`None` when it did not parse).
pub fn repository_name_from_parts(parts: &Option<UrlParts>) -> (r: Result<String, ExtensionError>)
    ensures
        result_view(r) == repository_name_of(
            match parts {
                Some(p) => Some(p@),
                None => None,
            },
        ),
{
    match parts {
        None => Err(ExtensionError::InvalidUrl),
        Some(p) => {
            if !is_github_url(p) {
                Err(ExtensionError::UnsupportedProvider)
            } else {
                match &p.segments {
                    None => Err(ExtensionError::InvalidUrl),
                    Some(segs) => {
                        if segs.len() >= 2 && segs[1].unicode_len() > 0 {
                            let name = segs[1].clone();
                            assert(segs.deep_view()[1] == segs@[1]@);
                            Ok(name)
                        } else {
                            assert(segs.len() >= 2 ==> segs.deep_view()[1] == segs@[1]@);
                            Err(ExtensionError::MissingRepositoryName)
                        }
                    },
                }
            }
        },
    }
}

/// The repository name of a source URL: the path segment after the owner.
/// A string that does not parse as a URL gives `InvalidUrl`, a host other
/// than `github.com` gives `UnsupportedProvider`, and a path without a
/// non-empty second segment gives `MissingRepositoryName`, in that order.
pub fn get_repository_name(url: &str) -> (r: Result<String, ExtensionError>)
    ensures
        result_view(r) == repository_name_of(url_parts_of(url@)),
{
    let parts = parse_url(url);
    repository_name_from_parts(&parts)
}

} // verus!
