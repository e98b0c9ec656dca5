//! The canonical set: the concrete realization of one declared kind list.

use vstd::prelude::*;

use crate::kind::KindId;
use crate::sets::ARITY_MAX;
use crate::AsSet;

verus! {

/// The canonical realization of a declared kind list.
///
/// The declaration is kept verbatim — order and duplicates included — as the
/// set's identity; it is fixed when the set is built and never changes. The
/// relations read the deduplicated content of that list, while enumeration
/// hands the list back exactly as declared. A set's view is the declared
/// list, as a sequence of kind identities.
pub struct KindSet {
    kinds: Vec<KindId>,
}

impl View for KindSet {
    type V = Seq<KindId>;

    closed spec fn view(&self) -> Seq<KindId> {
        self.kinds@
    }
}

impl KindSet {
    /// A declared set never occupies more than `ARITY_MAX` kind slots.
    #[verifier::type_invariant]
    closed spec fn inv(&self) -> bool {
        self.kinds@.len() <= ARITY_MAX
    }

    /// The builder: realizes the canonical set for the ordered kind list
    /// `kinds`, repeats permitted. A list of more than `ARITY_MAX` kinds is
    /// rejected when the calling code is verified, not when it runs.
    pub fn new(kinds: Vec<KindId>) -> (r: KindSet)
        requires
            kinds@.len() <= ARITY_MAX,
        ensures
            r@ == kinds@,
    {
        KindSet { kinds }
    }

    /// The declared arity: how many slots the declaration occupies, with a
    /// repeated kind counted once per occurrence.
    pub fn arity(&self) -> (r: usize)
        ensures
            r == self@.len(),
            r <= ARITY_MAX,
    {
        proof {
            use_type_invariant(&*self);
        }
        self.kinds.len()
    }

    /// The declared kind list, verbatim and in declaration order.
    pub fn member_list(&self) -> (r: &Vec<KindId>)
        ensures
            r@ == self@,
            r@.len() <= ARITY_MAX,
    {
        proof {
            use_type_invariant(&*self);
        }
        &self.kinds
    }
}

impl AsSet for KindSet {
    /// A canonical set is its own relational identity.
    open spec fn target_decl(&self) -> Seq<KindId> {
        self@
    }

    fn target(&self) -> (r: &KindSet) {
        self
    }
}

} // verus!
