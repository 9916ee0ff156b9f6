//! Where the source is looked for.

use vstd::prelude::*;

verus! {

/// The value of a setting: the one that was found for it, or `default`
/// where none was found.
pub fn get_env_or_default(found: Option<String>, default: String) -> (value: String)
    ensures
        value == match found {
            Some(set) => set,
            None => default,
        },
{
    match found {
        Some(set) => set,
        None => default,
    }
}

} // verus!
