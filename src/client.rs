//! Request shapes and addresses the web client uses to reach the link API.
use vstd::prelude::*;

use crate::links::LinkCreateRequest;

verus! {

/// Page size the client asks for when it names none.
pub const CLIENT_LINKS_PER_PAGE: u64 = 10;

/// Characters that percent-encoding leaves as they are.
pub open spec fn is_unreserved(c: char) -> bool {
    ||| '0' <= c && c <= '9'
    ||| 'A' <= c && c <= 'Z'
    ||| 'a' <= c && c <= 'z'
    ||| c == '-' || c == '.' || c == '_' || c == '~'
}

/// What `urlencoding::encode` makes of a string.
pub uninterp spec fn url_encoded(s: Seq<char>) -> Seq<char>;

/// Relies on `urlencoding::encode`: percent-encodes every byte of the UTF-8
/// form except ASCII letters, digits and `-`, `.`, `_`, `~`; a string made of
/// those alone comes back as it is.
#[verifier::external_body]
fn percent_encode(s: &str) -> (r: String)
    ensures
        r@ == url_encoded(s@),
        (forall|i: int| 0 <= i < s@.len() ==> is_unreserved(#[trigger] s@[i])) ==> r@ == s@,
{
    urlencoding::encode(s).into_owned()
}

/// Decimal digits of `n`, most significant first.
pub open spec fn decimal(n: nat) -> Seq<char>
    decreases n,
{
    let digit = (('0' as u32) + n % 10) as char;
    if n < 10 {
        seq![digit]
    } else {
        decimal(n / 10).push(digit)
    }
}

/// Relies on the `Display` impl of `u64` (through `to_string`): the decimal
/// digits of the value, without sign or leading zeros.
#[verifier::external_body]
fn decimal_string(n: u64) -> (r: String)
    ensures
        r@ == decimal(n as nat),
{
    n.to_string()
}

/// Base address of the link API: the configured one, or "/api".
pub fn api_url(configured: Option<&'static str>) -> (r: &'static str)
    ensures
        r@ == match configured {
            Some(u) => u@,
            None => "/api"@,
        },
{
    match configured {
        Some(u) => u,
        None => "/api",
    }
}

/// Client of the link API.
#[derive(Clone, Copy, Debug)]
pub struct ShrtApi;

impl ShrtApi {
    /// Address of the link with slug `slug`.
    pub fn link_url(base: &str, slug: &str) -> (r: String)
        ensures
            r@ == base@ + "/links/"@ + url_encoded(slug@),
    {
        let encoded = percent_encode(slug);
        String::from_str(base).concat("/links/").concat(encoded.as_str())
    }

    /// Address of the existence check for slug `slug`.
    pub fn link_exists_url(base: &str, slug: &str) -> (r: String)
        ensures
            r@ == base@ + "/links/"@ + url_encoded(slug@) + "/exists"@,
    {
        ShrtApi::link_url(base, slug).concat("/exists")
    }

    /// Address of one page of the listing; the page defaults to 1 and the page
    /// size to 10.
    pub fn links_url(base: &str, page: Option<u64>, links_per_page: Option<u64>) -> (r: String)
        ensures
            r@ == base@ + "/links?page="@ + decimal(
                match page {
                    Some(p) => p as nat,
                    None => 1nat,
                },
            ) + "&links_per_page="@ + decimal(
                match links_per_page {
                    Some(n) => n as nat,
                    None => CLIENT_LINKS_PER_PAGE as nat,
                },
            ),
    {
        let page = match page {
            Some(p) => p,
            None => 1,
        };
        let links_per_page = match links_per_page {
            Some(n) => n,
            None => CLIENT_LINKS_PER_PAGE,
        };
        let page_text = decimal_string(page);
        let size_text = decimal_string(links_per_page);
        String::from_str(base).concat("/links?page=").concat(page_text.as_str()).concat(
            "&links_per_page=",
        ).concat(size_text.as_str())
    }

    /// Address that accepts new links.
    pub fn create_url(base: &str) -> (r: String)
        ensures
            r@ == base@ + "/links"@,
    {
        String::from_str(base).concat("/links")
    }

    /// The request that shortens `url`; an empty `slug` asks for a generated one.
    pub fn shorten_request(url: &str, slug: &str) -> (r: LinkCreateRequest)
        ensures
            r.url@ == url@,
            slug@.len() == 0 ==> r.slug is None,
            slug@.len() > 0 ==> r.slug is Some && r.slug->Some_0@ == slug@,
    {
        LinkCreateRequest {
            url: String::from_str(url),
            slug: if slug.is_empty() {
                None
            } else {
                Some(String::from_str(slug))
            },
        }
    }
}

} // verus!
