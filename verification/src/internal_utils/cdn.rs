//! Choosing the image format of a CDN url

use vstd::prelude::*;
use crate::text::{has_prefix, starts_with};

verus! {

/// The format to use for an image with this hash, and whether it is the animated one:
/// the animated format when one is given and the hash starts with `a_`, the static one otherwise.
pub open spec fn picked_format(hash: Seq<char>, static_format: Seq<char>, animated_format: Option<Seq<char>>) -> (Seq<char>, bool) {
    match animated_format {
        Some(a) => if has_prefix(hash, "a_"@) { (a, true) } else { (static_format, false) },
        None => (static_format, false),
    }
}

/// Picks the animated format for an animated image (hash starting with `a_`) when one is given, the static format otherwise
pub fn pick_format(hash: &str, static_format: String, animated_format: Option<String>) -> (r: (String, bool))
    ensures
        (r.0@, r.1) == picked_format(hash@, static_format@, match animated_format { Some(a) => Some(a@), None => None }),
{
    match animated_format {
        None => (static_format, false),
        Some(animated_format) => {
            if starts_with(hash, "a_") {
                (animated_format, true)
            } else {
                (static_format, false)
            }
        },
    }
}

} // verus!
