//! Paths, taken apart by the platform's own rules.
//!
//! How a path divides into components is the platform's matter: which
//! characters separate, what counts as a root or a drive. The crate asks
//! `std::path` and names what it answers; on one platform the answer
//! depends on the text of the path alone.

use vstd::prelude::*;
use crate::text::opt_text;
use crate::text::texts;

verus! {

/// The components of a path, root first, as `std::path::Path::iter`
/// divides the path on the platform the crate is built for.
pub uninterp spec fn path_parts(path: Seq<char>) -> Seq<Seq<char>>;

/// The final component of a path as `std::path::Path::file_name` gives it
/// on the platform the crate is built for; nothing where the path ends in
/// no name.
pub uninterp spec fn path_file_name(path: Seq<char>) -> Option<Seq<char>>;

/// `std::path::Path::iter` on a path given as text: its components, root
/// first, each as text. The division reads nothing but the text and is
/// named by [`path_parts`].
#[verifier::external_body]
pub(crate) fn path_components(path: &str) -> (r: Vec<String>)
    ensures
        texts(r@) == path_parts(path@),
{
    let mut parts = Vec::new();
    for part in std::path::Path::new(path).iter() {
        match part.to_str() {
            Some(text) => parts.push(text.to_string()),
            None => parts.push(String::new()),
        }
    }
    parts
}

/// `std::path::Path::file_name` on a path given as text: the final
/// component, where the path has one. It reads nothing but the text and
/// is named by [`path_file_name`].
#[verifier::external_body]
pub(crate) fn file_name_of(path: &str) -> (r: Option<String>)
    ensures
        opt_text(r) == path_file_name(path@),
{
    match std::path::Path::new(path).file_name() {
        Some(name) => match name.to_str() {
            Some(text) => Some(text.to_string()),
            None => None,
        },
        None => None,
    }
}

} // verus!
