//! Field masks: the fields that a request names as changed.
use crate::text::same_text;
use vstd::prelude::*;

verus! {

/// The mask names the field.
pub open spec fn is_masked(mask: Seq<String>, field: &str) -> bool {
    exists|i: int| 0 <= i < mask.len() && (#[trigger] mask[i])@ == field@
}

/// Whether the mask names the field.
pub fn mask_contains(mask: &Vec<String>, field: &str) -> (r: bool)
    ensures
        r == is_masked(mask@, field),
{
    let mut i: usize = 0;
    while i < mask.len()
        invariant
            i <= mask.len(),
            forall|j: int| 0 <= j < i ==> (#[trigger] mask[j])@ != field@,
        decreases mask.len() - i,
    {
        if same_text(mask[i].as_str(), field) {
            return true;
        }
        i += 1;
    }
    false
}

/// A field is masked where the mask names it, at whatever place.
pub proof fn law_named_field_is_masked(mask: Seq<String>, field: &str, i: int)
    ensures
        0 <= i < mask.len() && mask[i]@ == field@ ==> is_masked(mask, field),
        (forall|j: int| 0 <= j < mask.len() ==> (#[trigger] mask[j])@ != field@) ==> !is_masked(
            mask,
            field,
        ),
{
}

} // verus!
