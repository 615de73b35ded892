//! Text matching on label names.

use vstd::prelude::*;

verus! {

/// The lower-case form of `s`, as `str::to_lowercase` gives it.
pub uninterp spec fn lowercase(s: Seq<char>) -> Seq<char>;

/// Whether `needle` occurs in `haystack` as a run of consecutive characters.
pub open spec fn is_substring(needle: Seq<char>, haystack: Seq<char>) -> bool {
    exists|i: int|
        0 <= i && i + needle.len() <= haystack.len() && #[trigger] haystack.subrange(
            i,
            i + needle.len(),
        ) == needle
}

/// `str::to_lowercase`: the result is the lower-case form of the argument,
/// which depends on the argument alone.
pub assume_specification[ str::to_lowercase ](s: &str) -> (lowered: String)
    ensures
        lowered@ == lowercase(s@),
;

/// `str::contains` with a string as the pattern: true exactly when the
/// pattern occurs somewhere in the text.
#[verifier::external_body]
fn str_contains(haystack: &str, needle: &str) -> (found: bool)
    ensures
        found == is_substring(needle@, haystack@),
{
    haystack.contains(needle)
}

/// Whether `fragment` occurs in one of `names`.
pub open spec fn occurs_in_any(names: Seq<String>, fragment: Seq<char>) -> bool {
    exists|i: int| 0 <= i < names.len() && is_substring(fragment, #[trigger] names[i]@)
}

/// Whether `fragment` occurs in one of `names`, compared character by
/// character.
pub fn any_contains(names: &Vec<String>, fragment: &str) -> (found: bool)
    ensures
        found == occurs_in_any(names@, fragment@),
{
    let mut i: usize = 0;
    while i < names.len()
        invariant
            i <= names.len(),
            forall|j: int| 0 <= j < i ==> !is_substring(fragment@, #[trigger] names[j]@),
        decreases names.len() - i,
    {
        if str_contains(names[i].as_str(), fragment) {
            return true;
        }
        i += 1;
    }
    false
}

} // verus!
