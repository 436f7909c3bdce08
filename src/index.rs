//! The landing page served at the root of the HTTP ingress.

use vstd::prelude::*;
use vstd::string::StringExecFns;

verus! {

/// The host that the `url` crate finds in a text, where the text parses as a
/// URL that has one.
pub uninterp spec fn url_host_of(s: Seq<char>) -> Option<Seq<char>>;

/// Relies on `url::Url::parse` and `Url::host_str` (as rouille re-exports
/// them): the host of `s`, where it parses and has one. It depends on the
/// text alone.
#[verifier::external_body]
fn parsed_host(s: &str) -> (r: Option<String>)
    ensures
        r matches Some(h) ==> url_host_of(s@) == Some(h@),
        r is None ==> url_host_of(s@) is None,
{
    rouille::url::Url::parse(s).ok().and_then(|u| u.host_str().map(|h| h.to_string()))
}

/// A guess at the host part of the public base URL, for the landing page:
/// the URL's host, or the whole text where it has none.
pub fn url_host(url: &str) -> (r: String)
    ensures
        r@ == match url_host_of(url@) {
            Some(h) => h,
            None => url@,
        },
{
    match parsed_host(url) {
        Some(h) => h,
        None => String::from_str(url),
    }
}

/// The landing page for a service reached at `host` (byte stream) and `url` (HTTP).
pub open spec fn index_page(host: Seq<char>, url: Seq<char>) -> Seq<char> {
    "gestetner(1)                    GESTETNER                          gestetner(1)\n\n\nNAME\n    gestetner: a netcat and HTTP pastebin.\n\nSYNOPSIS\n    <command> | nc "@
        + host + " 9999\n    <command> | curl --data-binary @- "@ + url
        + "\n\nEXAMPLES\n    ~$ ls -l | curl --data-binary @- "@ + url + "\n       "@ + url
        + "/abcd\n\n    ~$ ls -l | nc "@ + host + " 9999\n        "@ + url
        + "/efgh\n\nSEE ALSO\n    https://github.com/bradfier/gestetner\n\nINSPIRED BY\n    https://github.com/rupa/sprunge\n    https://github.com/solusipse/fiche\n"@
}

/// Renders the landing page, with usage examples for `host` and `url`.
pub fn index_text(host: &str, url: &str) -> (r: String)
    ensures
        r@ == index_page(host@, url@),
{
    let mut r = String::from_str(
        "gestetner(1)                    GESTETNER                          gestetner(1)\n\n\nNAME\n    gestetner: a netcat and HTTP pastebin.\n\nSYNOPSIS\n    <command> | nc ",
    );
    r.append(host);
    r.append(" 9999\n    <command> | curl --data-binary @- ");
    r.append(url);
    r.append("\n\nEXAMPLES\n    ~$ ls -l | curl --data-binary @- ");
    r.append(url);
    r.append("\n       ");
    r.append(url);
    r.append("/abcd\n\n    ~$ ls -l | nc ");
    r.append(host);
    r.append(" 9999\n        ");
    r.append(url);
    r.append(
        "/efgh\n\nSEE ALSO\n    https://github.com/bradfier/gestetner\n\nINSPIRED BY\n    https://github.com/rupa/sprunge\n    https://github.com/solusipse/fiche\n",
    );
    r
}

} // verus!
