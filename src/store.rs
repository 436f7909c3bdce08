//! Naming of new pastes: a fresh slug, and the public URL built from it.

use crate::slug::{is_slug, push_char, random_slug};
use vstd::prelude::*;
use vstd::string::StringExecFns;

verus! {

/// The public URL of the paste named `slug`: `{base}/{slug}`.
pub open spec fn paste_url_of(base: Seq<char>, slug: Seq<char>) -> Seq<char> {
    base.push('/') + slug
}

/// The name of a paste about to be written: its slug, which is also its file
/// name, and its public URL.
pub struct PasteName {
    pub slug: String,
    pub url: String,
}

/// Composes the public URL of the paste named `slug`.
pub fn paste_url(base_url: &str, slug: &str) -> (r: String)
    ensures
        r@ == paste_url_of(base_url@, slug@),
{
    let mut r = String::from_str(base_url);
    push_char(&mut r, '/');
    r.append(slug);
    r
}

/// Names a new paste: a random slug of `slug_length` lowercase letters, and
/// the URL under `base_url` at which it will be served.
pub fn new_paste_name(base_url: &str, slug_length: usize) -> (r: PasteName)
    ensures
        is_slug(r.slug@, slug_length as nat),
        r.url@ == paste_url_of(base_url@, r.slug@),
{
    let slug = random_slug(slug_length);
    let url = paste_url(base_url, slug.as_str());
    PasteName { slug, url }
}

} // verus!
