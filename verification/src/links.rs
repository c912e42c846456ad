//! Stable per-feature links: a feature's report page is named after the
//! feature, passed through a filename sanitizer, with the page suffix
//! appended.

use vstd::prelude::*;

verus! {

/// What the filename sanitizer returns for a given character sequence.
pub uninterp spec fn filenamify_of(s: Seq<char>) -> Seq<char>;

/// Relies on filenamify::filenamify: it replaces characters not allowed in
/// filenames (path separators, reserved punctuation, control characters)
/// and guards reserved device names; the result is a function of the input
/// characters alone, and an empty input stays empty.
#[verifier::external_body]
fn filenamify_str(s: &str) -> (r: String)
    ensures
        r@ == filenamify_of(s@),
        s@.len() == 0 ==> r@.len() == 0,
{
    filenamify::filenamify(s)
}

/// The link of a feature page: the sanitized feature name, then `.html`.
pub open spec fn spec_link_of(name: Seq<char>) -> Seq<char> {
    filenamify_of(name) + ".html"@
}

/// Builds the link of a feature page from the feature's name.
pub fn link_of(name: &str) -> (r: String)
    ensures
        r@ == spec_link_of(name@),
{
    let mut out = filenamify_str(name);
    out.append(".html");
    out
}

} // verus!
