//! The file-name convention of generated metadata, as configured.

use vstd::prelude::*;

verus! {

/// `s` is one of the suffixes that a metadata file may carry: none, `.json`,
/// `.yaml` or `.yml`.
pub open spec fn is_supported_suffix(s: Seq<char>) -> bool {
    s == Seq::<char>::empty() || s == ".json"@ || s == ".yaml"@ || s == ".yml"@
}

/// The suffix in force for a configured value: the value itself where it is
/// supported, else none.
pub open spec fn resolved_suffix(configured: Option<&str>) -> Seq<char> {
    match configured {
        Some(s) => if is_supported_suffix(s@) {
            s@
        } else {
            Seq::<char>::empty()
        },
        None => Seq::<char>::empty(),
    }
}

/// Whether two texts are the same.
pub fn same_text(a: &str, b: &str) -> (r: bool)
    ensures
        r == (a@ == b@),
{
    let x: String = String::from_str(a);
    let y: String = String::from_str(b);
    x == y
}

/// Whether `suffix` is a supported metadata suffix.
pub fn is_supported_metadata_format(suffix: &str) -> (r: bool)
    ensures
        r == is_supported_suffix(suffix@),
{
    proof {
        reveal_strlit("");
        assert(""@ =~= Seq::<char>::empty());
    }
    same_text(suffix, "") || same_text(suffix, ".json") || same_text(suffix, ".yaml") || same_text(
        suffix,
        ".yml",
    )
}

/// The metadata suffix in force, given the configured value, if one is set.
/// An unsupported value counts as not set.
pub fn get_metadata_file_suffix(configured: Option<&str>) -> (r: String)
    ensures
        r@ == resolved_suffix(configured),
        is_supported_suffix(r@),
{
    match configured {
        Some(s) => {
            if is_supported_metadata_format(s) {
                String::from_str(s)
            } else {
                String::new()
            }
        },
        None => String::new(),
    }
}

/// Whether a pass under the suffix `suffix` appends anything to the stems.
pub fn uses_suffix(suffix: &str) -> (r: bool)
    ensures
        r == (suffix@.len() > 0),
{
    suffix.unicode_len() > 0
}

} // verus!
