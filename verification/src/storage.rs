//! Where the database lies.
use vstd::prelude::*;

use crate::text::{opt_text, split_char, split_parts, strip_prefix, texts, without_prefix};

verus! {

/// The path of the database file in a `sqlite://` URL: what follows the scheme, up to the
/// question mark that starts the parameters.
pub open spec fn database_path_of(url: Seq<char>) -> Option<Seq<char>> {
    match without_prefix(url, "sqlite://"@) {
        Some(rest) => Some(split_parts(rest, '?')[0]),
        None => None,
    }
}

/// The path of the database file, of which the directory has to exist.
pub fn database_path(url: &str) -> (r: Option<String>)
    ensures
        opt_text(r) == database_path_of(url@),
{
    match strip_prefix(url, "sqlite://") {
        Some(rest) => {
            let parts = split_char(rest.as_str(), '?');
            assert(texts(parts@)[0] == parts@[0]@);
            Some(parts[0].clone())
        },
        None => None,
    }
}

} // verus!
