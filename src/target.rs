use vstd::prelude::*;

verus! {

/// The scheme of a URL and, where its host is a domain name, that domain.
pub uninterp spec fn url_parts_of(url: Seq<char>) -> Option<(Seq<char>, Option<Seq<char>>)>;

pub const SCHEME_SEPARATOR: &'static str = "://";

pub open spec fn url_parts_view(r: Option<(String, Option<String>)>) -> Option<
    (Seq<char>, Option<Seq<char>>),
> {
    match r {
        Some((scheme, Some(domain))) => Some((scheme@, Some(domain@))),
        Some((scheme, None)) => Some((scheme@, None)),
        None => None,
    }
}

/// Relies on url::Url::parse, with Url::scheme and Url::domain: `None` when
/// the text is no valid URL, else its scheme and its domain, the latter
/// `None` when the host is an IP address or absent.
#[verifier::external_body]
fn url_parts(url: &str) -> (r: Option<(String, Option<String>)>)
    ensures
        url_parts_view(r) == url_parts_of(url@),
{
    let parsed = url::Url::parse(url).ok()?;
    Some((parsed.scheme().to_owned(), parsed.domain().map(|d| d.to_owned())))
}

/// Where the answer goes: the scheme and domain of the requested URL
/// followed by the path that the challenge form names, with no other check
/// of that path.
pub open spec fn submission_url_of(scheme: Seq<char>, domain: Seq<char>, path: Seq<char>) -> Seq<
    char,
> {
    scheme + SCHEME_SEPARATOR@ + domain + path
}

/// The submission URL and the domain of `target`; `None` when `target` is
/// not a URL with a domain name.
pub fn submission_url(target: &str, path: &str) -> (r: Option<(String, String)>)
    ensures
        match url_parts_of(target@) {
            Some((scheme, Some(domain))) => r.is_some() && r.unwrap().0@ == submission_url_of(
                scheme,
                domain,
                path@,
            ) && r.unwrap().1@ == domain,
            _ => r.is_none(),
        },
{
    match url_parts(target) {
        Some((scheme, Some(domain))) => {
            let mut joined = scheme;
            joined.append(SCHEME_SEPARATOR);
            joined.append(domain.as_str());
            joined.append(path);
            Some((joined, domain))
        },
        _ => None,
    }
}

} // verus!
