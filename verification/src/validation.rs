//! The rule that decides whether a typed address names a video page.
//!
//! An address is accepted when it holds one of the two known host names
//! anywhere in its text. Nothing else is looked at: no scheme, no host
//! position, no network.

use crate::text::{contains, has_substring, lemma_substring_nonempty};
use vstd::prelude::*;

verus! {

/// The long host name that an accepted address may hold.
pub const LONG_HOST: &'static str = "youtube.com";

/// The short host name that an accepted address may hold.
pub const SHORT_HOST: &'static str = "youtu.be";

/// `url` holds the long or the short host name.
pub open spec fn url_is_valid(url: Seq<char>) -> bool {
    has_substring(url, LONG_HOST@) || has_substring(url, SHORT_HOST@)
}

/// Decides whether `url` is accepted.
pub fn is_valid_url(url: &str) -> (valid: bool)
    ensures
        valid == url_is_valid(url@),
{
    contains(url, LONG_HOST) || contains(url, SHORT_HOST)
}

/// An accepted address is never empty.
pub proof fn lemma_valid_url_nonempty(url: Seq<char>)
    requires
        url_is_valid(url),
    ensures
        url.len() > 0,
{
    reveal_strlit("youtube.com");
    reveal_strlit("youtu.be");
    if has_substring(url, LONG_HOST@) {
        lemma_substring_nonempty(url, LONG_HOST@);
    } else {
        lemma_substring_nonempty(url, SHORT_HOST@);
    }
}

} // verus!
