//! Where the head of a repository points after a revision was checked out.

use vstd::prelude::*;
use vstd::string::*;

verus! {

/// What the head of a repository is set to.
pub enum HeadTarget {
    /// The reference of this name.
    Reference(String),
    /// The commit that was checked out, with no reference attached.
    Detached,
}

/// What `head_target` answers, by the name of the reference that the
/// revision resolved to: `None` where it resolved to no reference, and
/// `Some(None)` where the reference has no name that is valid text.
pub open spec fn head_target_of(reference: Option<Option<Seq<char>>>, target: HeadTarget) -> bool {
    match reference {
        Some(Some(name)) => target matches HeadTarget::Reference(n) && n@ == name,
        _ => target is Detached,
    }
}

/// Chooses the head after a checkout: the reference that the revision named,
/// if it named one whose name is valid text, else the bare commit.
pub fn head_target(reference: Option<Option<&str>>) -> (target: HeadTarget)
    ensures
        head_target_of(
            match reference {
                Some(Some(name)) => Some(Some(name@)),
                Some(None) => Some(None),
                None => None,
            },
            target,
        ),
{
    match reference {
        Some(Some(name)) => HeadTarget::Reference(String::from_str(name)),
        _ => HeadTarget::Detached,
    }
}

} // verus!
