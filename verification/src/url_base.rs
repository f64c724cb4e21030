//! Absolute URLs, and the site root against which a page's relative links are resolved.
//!
//! URLs are parsed, changed and joined by the `url` crate. In contracts a URL
//! is the text of its serialisation, and what the crate computes has a name.
//! A serialisation stands for its URL only where parsing it gives it back,
//! which the crate does not promise of all that it hands out: a text is taken
//! for a URL after it was parsed and compared.

use vstd::prelude::*;

verus! {

/// The serialisation of the URL that `url::Url::parse` reads from `input`;
/// `None` where it reads none.
pub uninterp spec fn url_parsed(input: Seq<char>) -> Option<Seq<char>>;

/// The serialisation that `url::PathSegmentsMut::clear` leaves of the URL
/// `href`; `None` where `url::Url::path_segments_mut` refuses the URL.
pub uninterp spec fn url_path_cleared(href: Seq<char>) -> Option<Seq<char>>;

/// The serialisation that `url::Url::set_query` with `None` leaves of the URL `href`.
pub uninterp spec fn url_query_removed(href: Seq<char>) -> Seq<char>;

/// The serialisation of the URL that `url::Url::join` reads from `reference`
/// with the URL `base` as its base; `None` where it reads none.
pub uninterp spec fn url_joined(base: Seq<char>, reference: Seq<char>) -> Option<Seq<char>>;

/// What `url::Url::scheme` gives for the URL `href`.
pub uninterp spec fn url_scheme(href: Seq<char>) -> Seq<char>;

/// What `url::Url::host_str` gives for the URL `href`.
pub uninterp spec fn url_host(href: Seq<char>) -> Option<Seq<char>>;

/// What `url::Url::port` gives for the URL `href`.
pub uninterp spec fn url_port(href: Seq<char>) -> Option<u16>;

/// What `url::Url::path` gives for the URL `href`.
pub uninterp spec fn url_path(href: Seq<char>) -> Seq<char>;

/// What `url::Url::query` gives for the URL `href`.
pub uninterp spec fn url_query(href: Seq<char>) -> Option<Seq<char>>;

/// The colon at `i` ends the scheme of `href`: it is the first colon.
pub open spec fn is_scheme_end(href: Seq<char>, i: int) -> bool {
    &&& 0 <= i < href.len()
    &&& href[i] == ':'
    &&& forall|j: int| 0 <= j < i ==> href[j] != ':'
}

/// The URL `href` cannot be a base: no slash follows the colon that ends its
/// scheme. Such a URL has no path segments, and nothing can be resolved
/// against it.
pub open spec fn cannot_be_a_base(href: Seq<char>) -> bool {
    forall|i: int| is_scheme_end(href, i) ==> !(i + 1 < href.len() && href[i + 1] == '/')
}

/// `href` is the serialisation of an absolute URL, and stands for that URL:
/// parsing it gives it back.
pub open spec fn is_absolute_url(href: Seq<char>) -> bool {
    url_parsed(href) == Some(href)
}

/// The URL that a text is read as, where the URL's serialisation stands for
/// it. `None` where the text is read as no URL, and where what is read
/// parses to something else than itself.
pub open spec fn stable_parse(input: Seq<char>) -> Option<Seq<char>> {
    match url_parsed(input) {
        Some(href) => if is_absolute_url(href) {
            Some(href)
        } else {
            None
        },
        None => None,
    }
}

/// The URL that a reference is resolved to against `base`, where the URL's
/// serialisation stands for it.
pub open spec fn stable_join(base: Seq<char>, reference: Seq<char>) -> Option<Seq<char>> {
    match url_joined(base, reference) {
        Some(href) => if is_absolute_url(href) {
            Some(href)
        } else {
            None
        },
        None => None,
    }
}

/// Clearing the path of the URL `href` changes nothing.
pub open spec fn has_cleared_path(href: Seq<char>) -> bool {
    url_path_cleared(href) == Some(href)
}

/// Removing the query of the URL `href` changes nothing.
pub open spec fn has_no_query(href: Seq<char>) -> bool {
    url_query_removed(href) == href
}

/// `href` is a site root: an absolute URL of which neither a path segment
/// nor a query is left to remove.
pub open spec fn is_site_root(href: Seq<char>) -> bool {
    is_absolute_url(href) && has_cleared_path(href) && has_no_query(href)
}

/// The two URLs have the same scheme, host and port.
pub open spec fn same_authority(a: Seq<char>, b: Seq<char>) -> bool {
    url_scheme(a) == url_scheme(b) && url_host(a) == url_host(b) && url_port(a) == url_port(b)
}

/// The path of `cleared` is what clearing leaves of the path of `href`: the
/// root path, or nothing where `href` has an empty path.
pub open spec fn is_root_path_of(cleared: Seq<char>, href: Seq<char>) -> bool {
    url_path(cleared) == seq!['/'] || (url_path(cleared).len() == 0 && url_path(href).len() == 0)
}

/// What is claimed of the serialisation `raw` that clearing the path leaves
/// of the URL `href`: it parses, and what it is read as stands for itself,
/// has no path segment left to clear, the scheme, host and port of `href`,
/// and the root path.
pub open spec fn cleared_as_promised(href: Seq<char>, raw: Seq<char>) -> bool {
    match url_parsed(raw) {
        Some(cleared) => {
            &&& is_absolute_url(cleared)
            &&& has_cleared_path(cleared)
            &&& same_authority(cleared, href)
            &&& is_root_path_of(cleared, href)
        },
        None => false,
    }
}

/// The site root of the URL `href`: what its serialisation with the path
/// cleared is read as, without the query. `None` where the URL cannot be a
/// base.
pub open spec fn site_root_of(href: Seq<char>) -> Option<Seq<char>> {
    match url_path_cleared(href) {
        Some(raw) => match url_parsed(raw) {
            Some(cleared) => Some(url_query_removed(cleared)),
            None => None,
        },
        None => None,
    }
}

/// A site root is its own site root: deriving the site root a second time
/// changes nothing.
pub proof fn lemma_site_root_idempotent(href: Seq<char>)
    requires
        is_site_root(href),
    ensures
        site_root_of(href) == Some(href),
{
}

/// Why a URL could not be derived.
#[derive(Clone, Copy, Debug, PartialEq, Eq)]
pub enum UrlError {
    /// The URL's scheme has no hierarchical path, so the URL has no site root.
    NonSegmentableScheme,
    /// The text is not a URL, or not a reference that can be resolved.
    Unparseable,
}

/// An absolute URL, held as its serialisation.
#[derive(Debug, PartialEq, Eq)]
pub struct AbsoluteUrl {
    href: String,
}

/// The root of a site: an absolute URL with the root path and no query.
#[derive(Debug, PartialEq, Eq)]
pub struct SiteBase {
    href: String,
}

impl View for AbsoluteUrl {
    type V = Seq<char>;

    closed spec fn view(&self) -> Seq<char> {
        self.href@
    }
}

impl View for SiteBase {
    type V = Seq<char>;

    closed spec fn view(&self) -> Seq<char> {
        self.href@
    }
}

/// Calls `url::Url::parse` and hands out the URL's serialisation.
///
/// Taken on trust: the result is a function of `input` alone.
#[verifier::external_body]
fn parse_url(input: &str) -> (r: Option<String>)
    ensures
        r.deep_view() == url_parsed(input@),
{
    url::Url::parse(input).ok().map(String::from)
}

/// Calls `url::Url::path_segments_mut` and `url::PathSegmentsMut::clear` on the
/// URL that `href` serialises, and hands out the serialisation that they
/// leave.
///
/// Taken on trust: the result is a function of `href` alone; it is `None`
/// exactly where the URL cannot be a base; and what `cleared_as_promised`
/// says of it. What is left need not parse to itself: `clear` keeps the
/// prefix that guards a leading empty segment.
#[verifier::external_body]
fn clear_path_segments(href: &str) -> (r: Option<String>)
    requires
        is_absolute_url(href@),
    ensures
        r.deep_view() == url_path_cleared(href@),
        r is None <==> cannot_be_a_base(href@),
        r matches Some(raw) ==> cleared_as_promised(href@, raw@),
{
    let mut url = url::Url::parse(href).ok()?;
    url.path_segments_mut().ok()?.clear();
    Some(url.into())
}

/// Calls `url::Url::set_query` with `None` on the URL that `href` serialises;
/// `href` parses, being the serialisation of a URL. It is called for URLs
/// with a cleared path only: of a URL that cannot be a base `set_query` may
/// trim the path.
///
/// Taken on trust: the result is a function of `href` alone; the URL that is
/// left stands for itself and has no query, so that removing the query again
/// changes nothing; scheme, host, port and path are not touched, so that a
/// cleared path stays one.
#[verifier::external_body]
fn remove_query(href: &str) -> (r: String)
    requires
        is_absolute_url(href@),
        has_cleared_path(href@),
    ensures
        r@ == url_query_removed(href@),
        is_site_root(r@),
        same_authority(r@, href@),
        url_path(r@) == url_path(href@),
        url_query(r@) is None,
{
    let mut url = url::Url::parse(href).unwrap();
    url.set_query(None);
    url.into()
}

/// Calls `url::Url::join` on the URL that `base` serialises.
///
/// Taken on trust: the result is a function of `base` and `reference` alone.
#[verifier::external_body]
fn join_reference(base: &str, reference: &str) -> (r: Option<String>)
    requires
        is_absolute_url(base@),
    ensures
        r.deep_view() == url_joined(base@, reference@),
{
    url::Url::parse(base).ok()?.join(reference).ok().map(String::from)
}

/// Calls `url::Url::scheme` on the URL that `href` serialises.
#[verifier::external_body]
fn scheme_of(href: &str) -> (r: String)
    requires
        is_absolute_url(href@),
    ensures
        r@ == url_scheme(href@),
{
    url::Url::parse(href).unwrap().scheme().to_owned()
}

/// Calls `url::Url::host_str` on the URL that `href` serialises.
#[verifier::external_body]
fn host_of(href: &str) -> (r: Option<String>)
    requires
        is_absolute_url(href@),
    ensures
        r.deep_view() == url_host(href@),
{
    url::Url::parse(href).unwrap().host_str().map(str::to_owned)
}

/// Calls `url::Url::port` on the URL that `href` serialises.
#[verifier::external_body]
fn port_of(href: &str) -> (r: Option<u16>)
    requires
        is_absolute_url(href@),
    ensures
        r == url_port(href@),
{
    url::Url::parse(href).unwrap().port()
}

/// Calls `url::Url::path` on the URL that `href` serialises.
#[verifier::external_body]
fn path_of(href: &str) -> (r: String)
    requires
        is_absolute_url(href@),
    ensures
        r@ == url_path(href@),
{
    url::Url::parse(href).unwrap().path().to_owned()
}

/// Calls `url::Url::query` on the URL that `href` serialises.
#[verifier::external_body]
fn query_of(href: &str) -> (r: Option<String>)
    requires
        is_absolute_url(href@),
    ensures
        r.deep_view() == url_query(href@),
{
    url::Url::parse(href).unwrap().query().map(str::to_owned)
}

impl Clone for AbsoluteUrl {
    fn clone(&self) -> (r: AbsoluteUrl)
        ensures
            r@ == self@,
    {
        proof {
            use_type_invariant(self);
        }
        AbsoluteUrl { href: self.href.clone() }
    }
}

impl Clone for SiteBase {
    fn clone(&self) -> (r: SiteBase)
        ensures
            r@ == self@,
    {
        proof {
            use_type_invariant(self);
        }
        SiteBase { href: self.href.clone() }
    }
}

impl AbsoluteUrl {
    #[verifier::type_invariant]
    spec fn well_formed(self) -> bool {
        is_absolute_url(self.href@)
    }

    /// Takes a serialisation for the URL it stands for, after parsing it to
    /// see that it does.
    fn from_serialisation(href: String) -> (r: Option<AbsoluteUrl>)
        ensures
            match r {
                Some(url) => url@ == href@ && is_absolute_url(href@),
                None => !is_absolute_url(href@),
            },
    {
        match parse_url(href.as_str()) {
            Some(again) => if again == href {
                Some(AbsoluteUrl { href })
            } else {
                None
            },
            None => None,
        }
    }

    /// Reads an absolute URL from `input`.
    ///
    /// A URL is held as its serialisation. A text that is read as a URL whose
    /// serialisation is read as another URL is refused.
    pub fn parse(input: &str) -> (r: Result<AbsoluteUrl, UrlError>)
        ensures
            match r {
                Ok(url) => stable_parse(input@) == Some(url@),
                Err(e) => e == UrlError::Unparseable && stable_parse(input@) is None,
            },
    {
        let parsed = match parse_url(input) {
            Some(href) => Self::from_serialisation(href),
            None => None,
        };
        match parsed {
            Some(url) => Ok(url),
            None => Err(UrlError::Unparseable),
        }
    }

    /// The URL's serialisation.
    pub fn as_str(&self) -> (r: &str)
        ensures
            r@ == self@,
            is_absolute_url(self@),
    {
        proof {
            use_type_invariant(self);
        }
        self.href.as_str()
    }

    /// The URL's scheme.
    pub fn scheme(&self) -> (r: String)
        ensures
            r@ == url_scheme(self@),
    {
        scheme_of(self.as_str())
    }

    /// The URL's host, if it has one.
    pub fn host(&self) -> (r: Option<String>)
        ensures
            r.deep_view() == url_host(self@),
    {
        host_of(self.as_str())
    }

    /// The URL's port, if it names one that is not its scheme's own.
    pub fn port(&self) -> (r: Option<u16>)
        ensures
            r == url_port(self@),
    {
        port_of(self.as_str())
    }

    /// The URL's path.
    pub fn path(&self) -> (r: String)
        ensures
            r@ == url_path(self@),
    {
        path_of(self.as_str())
    }

    /// The URL's query, if it has one.
    pub fn query(&self) -> (r: Option<String>)
        ensures
            r.deep_view() == url_query(self@),
    {
        query_of(self.as_str())
    }
}

impl SiteBase {
    #[verifier::type_invariant]
    spec fn well_formed(self) -> bool {
        is_site_root(self.href@)
    }

    /// The site root's serialisation.
    pub fn as_str(&self) -> (r: &str)
        ensures
            r@ == self@,
            is_site_root(self@),
    {
        proof {
            use_type_invariant(self);
        }
        self.href.as_str()
    }

    /// The site root as the absolute URL that it is.
    pub fn to_url(&self) -> (r: AbsoluteUrl)
        ensures
            r@ == self@,
    {
        proof {
            use_type_invariant(self);
        }
        AbsoluteUrl { href: self.href.clone() }
    }
}

/// The site root of a page: the page's URL with the segments of its path
/// removed and without its query. Scheme, host and port stay as they are.
///
/// Fails exactly where the URL cannot be a base, so that its path has no
/// segments. A site root is its own site root.
pub fn derive_site_root(page_url: &AbsoluteUrl) -> (r: Result<SiteBase, UrlError>)
    ensures
        r is Err <==> cannot_be_a_base(page_url@),
        match r {
            Ok(base) => {
                &&& site_root_of(page_url@) == Some(base@)
                &&& is_site_root(base@)
                &&& site_root_of(base@) == Some(base@)
                &&& same_authority(base@, page_url@)
                &&& is_root_path_of(base@, page_url@)
                &&& url_query(base@) is None
            },
            Err(e) => e == UrlError::NonSegmentableScheme && site_root_of(page_url@) is None,
        },
{
    match clear_path_segments(page_url.as_str()) {
        Some(raw) => {
            let cleared = match parse_url(raw.as_str()) {
                Some(cleared) => cleared,
                None => unreached(),
            };
            let href = remove_query(cleared.as_str());
            proof {
                lemma_site_root_idempotent(href@);
            }
            Ok(SiteBase { href })
        },
        None => Err(UrlError::NonSegmentableScheme),
    }
}

/// Resolves a reference found on a page against the page's site root.
///
/// A reference that is resolved to a URL whose serialisation is read as
/// another URL is refused like one that cannot be resolved.
pub fn resolve(base: &SiteBase, relative_ref: &str) -> (r: Result<AbsoluteUrl, UrlError>)
    ensures
        match r {
            Ok(url) => stable_join(base@, relative_ref@) == Some(url@),
            Err(e) => e == UrlError::Unparseable && stable_join(base@, relative_ref@) is None,
        },
{
    let joined = match join_reference(base.as_str(), relative_ref) {
        Some(href) => AbsoluteUrl::from_serialisation(href),
        None => None,
    };
    match joined {
        Some(url) => Ok(url),
        None => Err(UrlError::Unparseable),
    }
}

} // verus!
