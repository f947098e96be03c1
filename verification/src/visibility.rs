//! Who sees a board.
//!
//! A public or internal board is open to every caller of the tenant. Any other
//! board is private: it takes an explicit permission to view.
use crate::context::Id;
use crate::text::same_text;
use vstd::prelude::*;

verus! {

/// A board with this visibility is open to every caller of the tenant.
pub open spec fn is_open(visibility: Seq<char>) -> bool {
    visibility == "public"@ || visibility == "internal"@
}

/// Whether a board with this visibility is open to every caller of the tenant.
pub fn is_public_or_internal(visibility: &str) -> (r: bool)
    ensures
        r == is_open(visibility@),
{
    same_text(visibility, "public") || same_text(visibility, "internal")
}

/// The identifier is among those listed.
pub open spec fn is_listed(ids: Seq<Id>, id: Seq<char>) -> bool {
    exists|i: int| 0 <= i < ids.len() && (#[trigger] ids[i])@ == id
}

/// Whether the identifier is among those listed.
pub fn lists_id(ids: &Vec<Id>, id: &Id) -> (r: bool)
    ensures
        r == is_listed(ids@, id@),
{
    let mut i: usize = 0;
    while i < ids.len()
        invariant
            i <= ids.len(),
            forall|j: int| 0 <= j < i ==> (#[trigger] ids[j])@ != id@,
        decreases ids.len() - i,
    {
        if ids[i] == *id {
            return true;
        }
        i += 1;
    }
    false
}

/// A caller who may view the private boards `allowed` sees the board.
pub open spec fn is_visible(id: Seq<char>, visibility: Seq<char>, allowed: Seq<Id>) -> bool {
    is_open(visibility) || is_listed(allowed, id)
}

/// Whether a caller who may view the private boards `allowed` sees the board.
pub fn visible(id: &Id, visibility: &str, allowed: &Vec<Id>) -> (r: bool)
    ensures
        r == is_visible(id@, visibility@, allowed@),
{
    is_public_or_internal(visibility) || lists_id(allowed, id)
}

/// Everyone sees what is public or internal. Anything else is seen by those
/// that it is listed for, at whatever place of the list, and by no one else.
pub proof fn law_hidden_unless_open_or_listed(
    id: Seq<char>,
    visibility: Seq<char>,
    allowed: Seq<Id>,
    i: int,
)
    ensures
        is_open(visibility) <==> visibility == "public"@ || visibility == "internal"@,
        is_open(visibility) ==> is_visible(id, visibility, allowed),
        0 <= i < allowed.len() && allowed[i]@ == id ==> is_listed(allowed, id) && is_visible(
            id,
            visibility,
            allowed,
        ),
        (forall|j: int| 0 <= j < allowed.len() ==> (#[trigger] allowed[j])@ != id) ==> !is_listed(
            allowed,
            id,
        ) && is_visible(id, visibility, allowed) == is_open(visibility),
{
}

} // verus!
