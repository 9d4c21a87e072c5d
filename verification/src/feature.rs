//! The closed vocabulary of capability tags.
//!
//! Every descriptor in the registry draws its feature tags from this
//! vocabulary; the registry proof holds each catalog entry to it once,
//! so no runtime check is ever needed.

use vstd::prelude::*;

use crate::text::str_eq;

verus! {

/// Whether a tag belongs to the recognized feature vocabulary.
pub open spec fn spec_recognized_feature(tag: Seq<char>) -> bool {
    ||| tag == "battery-care"@
    ||| tag == "fan"@
    ||| tag == "kbd-backlight"@
    ||| tag == "lid-logo"@
    ||| tag == "lights-always-on"@
    ||| tag == "perf"@
}

/// Whether every tag of a feature list is in the recognized vocabulary.
pub open spec fn spec_all_recognized(features: Seq<Seq<char>>) -> bool {
    forall|i: int| 0 <= i < features.len() ==> spec_recognized_feature(#[trigger] features[i])
}

/// Tests one tag against the recognized vocabulary.
pub fn is_recognized_feature(tag: &str) -> (r: bool)
    ensures
        r == spec_recognized_feature(tag@),
{
    str_eq(tag, "battery-care") || str_eq(tag, "fan") || str_eq(tag, "kbd-backlight")
        || str_eq(tag, "lid-logo") || str_eq(tag, "lights-always-on") || str_eq(tag, "perf")
}

/// Tests every tag of a feature list against the recognized vocabulary.
pub fn validate_features(tags: &Vec<&'static str>) -> (r: bool)
    ensures
        r == spec_all_recognized(tags@.map_values(|t: &'static str| t@)),
{
    let ghost mapped = tags@.map_values(|t: &'static str| t@);
    let mut i: usize = 0;
    while i < tags.len()
        invariant
            i <= tags@.len(),
            mapped == tags@.map_values(|t: &'static str| t@),
            forall|j: int| 0 <= j < i ==> spec_recognized_feature(#[trigger] mapped[j]),
        decreases tags@.len() - i,
    {
        if !is_recognized_feature(tags[i]) {
            proof {
                assert(mapped[i as int] == tags@[i as int]@);
            }
            return false;
        }
        proof {
            assert(mapped[i as int] == tags@[i as int]@);
        }
        i = i + 1;
    }
    true
}

} // verus!
