//! Where requests may go.
use vstd::prelude::*;

use crate::backend::url;
use crate::backend::url::UrlView;
use crate::error::ErrorView;
use crate::laws::addresses;

verus! {

/// A URL is accepted as it is if it goes over HTTPS, whatever its host.
pub proof fn https_is_accepted(what: Seq<char>, raw: Seq<char>, url: UrlView)
    requires
        url::url_parts(raw) == Ok::<UrlView, Seq<char>>(url),
        url.scheme == "https"@,
    ensures
        url::checked_url(what, raw) == Ok::<UrlView, ErrorView>(url),
{
}

/// A URL is accepted as it is if its host is this machine, by one of its names or
/// by a dotted address, whatever its scheme.
pub proof fn this_machine_is_accepted(
    what: Seq<char>,
    raw: Seq<char>,
    url: UrlView,
    b: Seq<char>,
    c: Seq<char>,
    d: Seq<char>,
)
    requires
        url::url_parts(raw) == Ok::<UrlView, Seq<char>>(url),
        addresses::is_octet(b),
        addresses::is_octet(c),
        addresses::is_octet(d),
        url.host == Some("localhost"@) || url.host == Some("[::1]"@) || url.host == Some(
            "127"@ + seq!['.'] + b + seq!['.'] + c + seq!['.'] + d,
        ),
    ensures
        url::checked_url(what, raw) == Ok::<UrlView, ErrorView>(url),
{
    addresses::loopback_quads(b, c, d);
}

/// Any other URL is refused: one with another scheme and no host, or with a host
/// that is no name of this machine and does not begin with 127.
pub proof fn plain_http_is_refused(what: Seq<char>, raw: Seq<char>, url: UrlView)
    requires
        url::url_parts(raw) == Ok::<UrlView, Seq<char>>(url),
        url.scheme != "https"@,
        url.host matches Some(host) ==> host != "localhost"@ && host != "[::1]"@ && !(host.len() >= 4 && host[0]
            == '1' && host[1] == '2' && host[2] == '7' && host[3] == '.'),
    ensures
        url::checked_url(what, raw) == Err::<UrlView, ErrorView>(
            ErrorView::InvalidConfig(
                what + " must use HTTPS (HTTP is only allowed for loopback addresses), got: "@ + raw,
            ),
        ),
{
    if url.host is Some {
        addresses::loopback_quads_begin_alike(url.host->Some_0);
    }
}

/// A text that is no URL is refused with the reason.
pub proof fn other_texts_are_no_urls(what: Seq<char>, raw: Seq<char>, message: Seq<char>)
    requires
        url::url_parts(raw) == Err::<UrlView, Seq<char>>(message),
    ensures
        url::checked_url(what, raw) == Err::<UrlView, ErrorView>(
            ErrorView::InvalidConfig("invalid "@ + what + " \""@ + raw + "\": "@ + message),
        ),
{
}

/// A path is put on the base. Where it cannot be, the error says why.
pub proof fn paths_are_put_on_the_base(base: Seq<char>, path: Seq<char>, url: Seq<char>, message: Seq<char>)
    ensures
        url::url_joined(base, path) == Ok::<Seq<char>, Seq<char>>(url) ==> url::legacy_url(base, path) == Ok::<
            Seq<char>,
            ErrorView,
        >(url) && url::new_api_url(base, path) == Ok::<Seq<char>, ErrorView>(url),
        url::url_joined(base, path) == Err::<Seq<char>, Seq<char>>(message) ==> url::legacy_url(base, path)
            == Err::<Seq<char>, ErrorView>(ErrorView::InvalidConfig("failed to build URL: "@ + message))
            && url::new_api_url(base, path) == Err::<Seq<char>, ErrorView>(
            ErrorView::InvalidConfig("invalid new API path '"@ + path + "': "@ + message),
        ),
{
}

/// Two pairs are put into the query in the order in which they are given.
pub proof fn pairs_are_put_into_the_query(
    text: Seq<char>,
    parts: UrlView,
    first: (Seq<char>, Seq<char>),
    second: (Seq<char>, Seq<char>),
    longer: Seq<char>,
    message: Seq<char>,
    e: ErrorView,
)
    requires
        url::url_parts(text) == Ok::<UrlView, Seq<char>>(parts),
        parts.text.len() <= u32::MAX,
    ensures
        url::url_with_pairs(text, first.0, first.1, second.0, second.1) == Ok::<Seq<char>, Seq<char>>(longer)
            ==> url::with_pairs(Ok(text), first, second) == Ok::<Seq<char>, ErrorView>(longer),
        url::url_with_pairs(text, first.0, first.1, second.0, second.1) == Err::<Seq<char>, Seq<char>>(message)
            ==> url::with_pairs(Ok(text), first, second) == Err::<Seq<char>, ErrorView>(
            ErrorView::InvalidConfig("failed to build URL: "@ + message),
        ),
        url::with_pairs(Err(e), first, second) == Err::<Seq<char>, ErrorView>(e),
{
}

} // verus!
