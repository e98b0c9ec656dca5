//! Kind identity: the stable runtime tag that stands for one element
//! category (one "kind") wherever a set's members are enumerated.

use vstd::prelude::*;

verus! {

/// A process-stable identity tag for a kind, the distinguishable element
/// category a set is declared over.
///
/// Two references to the same declared kind carry the same tag and always
/// compare equal; distinct kinds must be given distinct tags and then always
/// compare unequal. The tag takes no meaning from program execution order.
#[derive(Clone, Copy, PartialEq, Eq, Structural, Hash, Debug)]
pub struct KindId {
    /// The tag that identifies the kind.
    pub tag: u64,
}

impl KindId {
    /// The identity tag of the kind numbered `tag`.
    pub fn new(tag: u64) -> (r: KindId)
        ensures
            r.tag == tag,
    {
        KindId { tag }
    }
}

} // verus!
