//! URLs of the cloud API.
//!
//! Parsing and joining URLs is done by the `url` crate, through `reqwest::Url`.
use vstd::prelude::*;
use vstd::string::*;

use crate::error;
use crate::error::joined;
use crate::error::ErrorView;
use crate::error::GoveeError;
use crate::net;
use crate::net::loopback_host;
use crate::text;
use crate::text::same;
use crate::types;

verus! {

/// A URL as it is written, with its scheme and its host.
#[derive(Debug)]
pub struct HttpUrl {
    pub text: String,
    pub scheme: String,
    pub host: Option<String>,
}

/// What a URL is.
pub struct UrlView {
    pub text: Seq<char>,
    pub scheme: Seq<char>,
    pub host: Option<Seq<char>>,
}

impl View for HttpUrl {
    type V = UrlView;

    open spec fn view(&self) -> UrlView {
        UrlView { text: self.text@, scheme: self.scheme@, host: types::optional_text(self.host) }
    }
}

/// What `Url::parse` makes of a text, or the text of its error.
pub uninterp spec fn url_parts(raw: Seq<char>) -> Result<UrlView, Seq<char>>;

/// What `Url::join` makes of a base and a reference, or the text of the error.
pub uninterp spec fn url_joined(base: Seq<char>, reference: Seq<char>) -> Result<Seq<char>, Seq<char>>;

/// A URL with two more pairs in its query, or the text of the error.
pub uninterp spec fn url_with_pairs(
    url: Seq<char>,
    first_name: Seq<char>,
    first_value: Seq<char>,
    second_name: Seq<char>,
    second_value: Seq<char>,
) -> Result<Seq<char>, Seq<char>>;

/// Whether a URL, if its scheme is `file`, is read back from its own text.
/// `//127.0.0.1//C:/` under `file` is not: its text is read without the host.
pub open spec fn reads_back(url: UrlView) -> bool {
    url.scheme == "file"@ ==> url_parts(url.text) == Ok::<UrlView, Seq<char>>(url)
}

/// Whether a URL is in order: with a host under any scheme but `file` it is read
/// back from its own text, and under `https` it has a host.
pub open spec fn is_regular(url: UrlView) -> bool {
    &&& url.host is Some && url.scheme != "file"@ ==> url_parts(url.text) == Ok::<UrlView, Seq<char>>(url)
    &&& url.scheme == "https"@ ==> url.host is Some
}

/// Whether `text` is the text of a URL with a host that is read back from it.
pub open spec fn is_hosted(text: Seq<char>) -> bool {
    url_parts(text) matches Ok(url) && url.text == text && url.host is Some
}

/// Whether `longer` is the text of a URL with the scheme and the host of `text`,
/// if `text` is that of a URL with a host.
pub open spec fn keeps_host(text: Seq<char>, longer: Option<Seq<char>>) -> bool {
    is_hosted(text) ==> {
        &&& longer is Some
        &&& is_hosted(longer->Some_0)
        &&& url_parts(longer->Some_0)->Ok_0.scheme == url_parts(text)->Ok_0.scheme
        &&& url_parts(longer->Some_0)->Ok_0.host == url_parts(text)->Ok_0.host
    }
}

/// Whether `c` may stand in a plain host name.
pub open spec fn is_plain_host_char(c: char) -> bool {
    ('a' <= c && c <= 'z') || c == '.' || c == '-'
}

/// Whether `host` is a plain host name: small letters, single dots and single
/// hyphens, with a letter at both ends.
pub open spec fn is_plain_host(host: Seq<char>) -> bool {
    &&& 0 < host.len() <= 253
    &&& forall|i: int| 0 <= i < host.len() ==> is_plain_host_char(#[trigger] host[i])
    &&& 'a' <= host[0] && host[0] <= 'z'
    &&& 'a' <= host.last() && host.last() <= 'z'
    &&& !text::occurs("--"@, host)
    &&& !text::occurs(".."@, host)
}

/// Calls `Url::parse`, and `scheme`, `host_str` and `as_str` of what it gives.
/// They are functions of the text alone. The scheme `https` before a plain host
/// name is accepted as it is, and a slash is put behind the host. Under `https`
/// there is a host. What `as_str` gives for a URL with a host is read as the same
/// URL, unless the scheme is `file`. It has a `#` only where there is one in the
/// text.
#[verifier::external_body]
fn parse_url(raw: &str) -> (r: Result<HttpUrl, String>)
    ensures
        match r {
            Ok(url) => url_parts(raw@) == Ok::<UrlView, Seq<char>>(url@),
            Err(message) => url_parts(raw@) == Err::<UrlView, Seq<char>>(message@),
        },
        forall|host: Seq<char>| #[trigger]
            is_plain_host(host) && raw@ == "https://"@ + host ==> r is Ok && r->Ok_0@ == (UrlView {
                text: "https://"@ + host + "/"@,
                scheme: "https"@,
                host: Some(host),
            }),
        r matches Ok(url) ==> is_regular(url@) && (url.text@.contains('#') ==> raw@.contains('#')),
{
    match reqwest::Url::parse(raw) {
        Ok(url) => Ok(
            HttpUrl {
                text: url.as_str().to_string(),
                scheme: url.scheme().to_string(),
                host: url.host_str().map(|host| host.to_string()),
            },
        ),
        Err(error) => Err(error.to_string()),
    }
}

/// Whether `c` may stand in a plain path.
pub open spec fn is_plain_path_char(c: char) -> bool {
    ('a' <= c && c <= 'z') || ('0' <= c && c <= '9') || c == '/' || c == '-'
}

/// Whether `path` is a plain path below the root of a host: small letters,
/// digits, hyphens and slashes, with no slash at its head.
pub open spec fn is_plain_path(path: Seq<char>) -> bool {
    &&& 0 < path.len() <= 65535
    &&& path[0] != '/'
    &&& forall|i: int| 0 <= i < path.len() ==> is_plain_path_char(#[trigger] path[i])
}

/// A reference without a slash at its head.
pub open spec fn below_root(reference: Seq<char>) -> Seq<char> {
    if reference.len() > 0 && reference[0] == '/' {
        reference.skip(1)
    } else {
        reference
    }
}

/// Whether `joined` is what a plain reference comes to on the root of a plain
/// host over HTTPS: the path is put behind the root.
pub open spec fn joins_plainly(base: Seq<char>, reference: Seq<char>, joined: Option<Seq<char>>) -> bool {
    forall|host: Seq<char>| #[trigger]
        is_plain_host(host) && base == "https://"@ + host + "/"@ && is_plain_path(below_root(reference))
            ==> joined == Some(base + below_root(reference))
}

/// Calls `Url::join` on the URL that `base` denotes. The result is a function of
/// the two texts alone. A plain path, with or without a slash at its head, is
/// put behind the root of a plain host as it is. On any URL with a host, which is
/// read back from its text, it leaves the scheme and the host as they are. The
/// result has a `#` only where there is one in the reference.
#[verifier::external_body]
pub(crate) fn join_url(base: &str, reference: &str) -> (r: Result<String, String>)
    ensures
        match r {
            Ok(url) => url_joined(base@, reference@) == Ok::<Seq<char>, Seq<char>>(url@),
            Err(message) => url_joined(base@, reference@) == Err::<Seq<char>, Seq<char>>(message@),
        },
        match r {
            Ok(url) => joins_plainly(base@, reference@, Some(url@)),
            Err(_) => joins_plainly(base@, reference@, None),
        },
        is_plain_path(below_root(reference@)) ==> match r {
            Ok(url) => keeps_host(base@, Some(url@)),
            Err(_) => keeps_host(base@, None),
        },
        r matches Ok(url) ==> url@.contains('#') ==> reference@.contains('#'),
{
    match reqwest::Url::parse(base).and_then(|url| url.join(reference)) {
        Ok(url) => Ok(url.as_str().to_string()),
        Err(error) => Err(error.to_string()),
    }
}

/// Calls `append_pair` of `Url::query_pairs_mut` twice on the URL that `url`
/// denotes. The result is a function of the five texts alone. The scheme and the
/// host of a URL with a host, which is read back from its text, stay as they are. `query_pairs_mut` panics where the
/// text of the URL is longer than 32 bits can count, or where a fragment is
/// pushed beyond that: so the text is bounded, and has no `#`.
#[verifier::external_body]
fn append_pairs(url: &str, first_name: &str, first_value: &str, second_name: &str, second_value: &str) -> (r:
    Result<String, String>)
    requires
        url_parts(url@) matches Ok(parts) ==> parts.text.len() <= u32::MAX && !parts.text.contains('#'),
    ensures
        (match r {
            Ok(longer) => Ok::<Seq<char>, Seq<char>>(longer@),
            Err(message) => Err(message@),
        }) == url_with_pairs(url@, first_name@, first_value@, second_name@, second_value@),
        match r {
            Ok(longer) => keeps_host(url@, Some(longer@)),
            Err(_) => keeps_host(url@, None),
        },
{
    match reqwest::Url::parse(url) {
        Ok(mut parsed) => {
            parsed.query_pairs_mut().append_pair(first_name, first_value).append_pair(second_name, second_value);
            Ok(parsed.as_str().to_string())
        },
        Err(error) => Err(error.to_string()),
    }
}

/// Whether requests with an API key may be sent to a URL: over HTTPS, or to
/// this machine.
pub open spec fn is_secure(url: UrlView) -> bool {
    url.scheme == "https"@ || (url.host is Some && net::is_loopback_host(url.host->Some_0))
}

/// The URL in `raw`, which is called `what` in messages, or why it is refused.
pub open spec fn checked_url(what: Seq<char>, raw: Seq<char>) -> Result<UrlView, ErrorView> {
    match url_parts(raw) {
        Err(message) => Err(
            ErrorView::InvalidConfig("invalid "@ + what + " \""@ + raw + "\": "@ + message),
        ),
        Ok(url) => if is_secure(url) {
            Ok(url)
        } else {
            Err(
                ErrorView::InvalidConfig(
                    what + " must use HTTPS (HTTP is only allowed for loopback addresses), got: "@ + raw,
                ),
            )
        },
    }
}

/// Parses a base URL and refuses one that would send the API key in the clear
/// to another machine.
pub fn check_url(what: &str, raw: &str) -> (r: Result<HttpUrl, GoveeError>)
    ensures
        error::outcome(r) == checked_url(what@, raw@),
        forall|host: Seq<char>| #[trigger]
            is_plain_host(host) && raw@ == "https://"@ + host ==> r is Ok && r->Ok_0@ == (UrlView {
                text: "https://"@ + host + "/"@,
                scheme: "https"@,
                host: Some(host),
            }),
        r matches Ok(url) ==> is_secure(url@) && is_regular(url@),
{
    match parse_url(raw) {
        Ok(url) => {
            let loopback = match &url.host {
                Some(host) => loopback_host(host.as_str()),
                None => false,
            };
            if !same(url.scheme.as_str(), "https") && !loopback {
                return Err(
                    GoveeError::InvalidConfig(
                        joined(
                            what,
                            " must use HTTPS (HTTP is only allowed for loopback addresses), got: ",
                        ).concat(raw),
                    ),
                );
            }
            Ok(url)
        },
        Err(message) => Err(
            GoveeError::InvalidConfig(
                joined("invalid ", what).concat(" \"").concat(raw).concat("\": ").concat(message.as_str()),
            ),
        ),
    }
}

/// The URL of an endpoint of the legacy API.
pub open spec fn legacy_url(base: Seq<char>, path: Seq<char>) -> Result<Seq<char>, ErrorView> {
    match url_joined(base, path) {
        Ok(url) => Ok(url),
        Err(message) => Err(ErrorView::InvalidConfig("failed to build URL: "@ + message)),
    }
}

/// The URL of an endpoint of the legacy API.
pub fn build_legacy_url(base: &str, path: &str) -> (r: Result<String, GoveeError>)
    ensures
        error::outcome(r) == legacy_url(base@, path@),
        joins_plainly(base@, path@, legacy_url(base@, path@).ok()),
        is_plain_path(below_root(path@)) ==> keeps_host(base@, legacy_url(base@, path@).ok()),
        r matches Ok(url) ==> url@.contains('#') ==> path@.contains('#'),
{
    match join_url(base, path) {
        Ok(url) => Ok(url),
        Err(message) => Err(
            GoveeError::InvalidConfig(joined("failed to build URL: ", message.as_str())),
        ),
    }
}

/// The URL of an endpoint of the new API.
pub open spec fn new_api_url(base: Seq<char>, path: Seq<char>) -> Result<Seq<char>, ErrorView> {
    match url_joined(base, path) {
        Ok(url) => Ok(url),
        Err(message) => Err(
            ErrorView::InvalidConfig("invalid new API path '"@ + path + "': "@ + message),
        ),
    }
}

/// The URL of an endpoint of the new API.
pub fn build_new_api_url(base: &str, path: &str) -> (r: Result<String, GoveeError>)
    ensures
        error::outcome(r) == new_api_url(base@, path@),
        joins_plainly(base@, path@, new_api_url(base@, path@).ok()),
        is_plain_path(below_root(path@)) ==> keeps_host(base@, new_api_url(base@, path@).ok()),
        r matches Ok(url) ==> url@.contains('#') ==> path@.contains('#'),
{
    match join_url(base, path) {
        Ok(url) => Ok(url),
        Err(message) => Err(
            GoveeError::InvalidConfig(
                joined("invalid new API path '", path).concat("': ").concat(message.as_str()),
            ),
        ),
    }
}

/// What is said of a URL whose text is longer than 32 bits can count.
pub const URL_TOO_LONG: &'static str = "failed to build URL: too long";

/// A URL with two more pairs in its query.
pub open spec fn with_pairs(
    url: Result<Seq<char>, ErrorView>,
    first: (Seq<char>, Seq<char>),
    second: (Seq<char>, Seq<char>),
) -> Result<Seq<char>, ErrorView> {
    match url {
        Err(e) => Err(e),
        Ok(url) => match url_parts(url) {
            Err(message) => Err(ErrorView::InvalidConfig("failed to build URL: "@ + message)),
            Ok(parts) => if parts.text.len() > u32::MAX {
                Err(ErrorView::InvalidConfig(URL_TOO_LONG@))
            } else {
                match url_with_pairs(url, first.0, first.1, second.0, second.1) {
                    Ok(longer) => Ok(longer),
                    Err(message) => Err(ErrorView::InvalidConfig("failed to build URL: "@ + message)),
                }
            },
        },
    }
}

/// A URL without a fragment, with two more pairs in its query.
pub fn add_pairs(url: &str, first: (&str, &str), second: (&str, &str)) -> (r: Result<String, GoveeError>)
    requires
        !url@.contains('#'),
    ensures
        error::outcome(r) == with_pairs(Ok(url@), (first.0@, first.1@), (second.0@, second.1@)),
        r matches Ok(longer) ==> keeps_host(url@, Some(longer@)),
{
    match parse_url(url) {
        Ok(parts) => {
            let length: usize = parts.text.as_str().unicode_len();
            if length > 0xffff_ffff {
                return Err(GoveeError::InvalidConfig(URL_TOO_LONG.to_string()));
            }
        },
        Err(message) => return Err(
            GoveeError::InvalidConfig(joined("failed to build URL: ", message.as_str())),
        ),
    }
    match append_pairs(url, first.0, first.1, second.0, second.1) {
        Ok(longer) => Ok(longer),
        Err(message) => Err(
            GoveeError::InvalidConfig(joined("failed to build URL: ", message.as_str())),
        ),
    }
}

/// No URL is accepted that would send the API key in the clear to another
/// machine.
pub proof fn accepted_urls_are_secure(what: Seq<char>, raw: Seq<char>)
    ensures
        checked_url(what, raw) is Ok ==> is_secure(checked_url(what, raw)->Ok_0),
{
}

} // verus!
