//! Fixed finite sets of kinds, with containment, subset and superset
//! relations that are settled when the code is verified rather than when it
//! runs.
//!
//! A set is declared once, as an ordered list of up to twelve kind
//! identities, and never changes afterwards. The relations between two such
//! sets compare deduplicated content only, while [`Members`] hands back the
//! declared list verbatim, order and duplicates included. A type of the
//! consumer's own can stand in for a declared set by implementing [`AsSet`];
//! every relation and the enumeration then resolve through that target.
//!
//! Each relation query carries an exact contract, so a caller that relies on
//! a relation which does not hold is rejected during verification, before a
//! runnable artifact exists.

use vstd::prelude::*;

pub mod kind;
pub mod set;
pub mod sets;

pub use kind::KindId;
pub use set::KindSet;

verus! {

use crate::sets::ARITY_MAX;
use crate::sets::kinds_contain;
use crate::sets::kinds_subset;
use crate::sets::spec_subset;
use crate::sets::spec_superset;

/// Declares a canonical set as a type's relational identity.
///
/// A type opts into the relation system by naming exactly one [`KindSet`] as
/// its target; it carries no relational state of its own. Containment, subset,
/// superset and enumeration all resolve through the target, so the delegating
/// type answers every query exactly as its target does. A canonical set is its
/// own target, which makes the one generic implementation of each relation
/// serve declared sets and delegating types alike.
pub trait AsSet {
    /// The declared kind list of the target set. An implementation inside
    /// verified code states it openly, so that the relations' contracts can
    /// be discharged; one in unverified code may leave the default, which no
    /// contract is checked against there.
    open spec fn target_decl(&self) -> Seq<KindId> {
        Seq::empty()
    }

    /// The canonical set this type presents as its relational identity.
    fn target(&self) -> (r: &KindSet)
        ensures
            r@ == self.target_decl(),
    ;
}

/// Enumeration of a set's declared kinds.
///
/// This is the one place where declaration order and repetition are
/// observable: the list comes back exactly as declared, and its length is the
/// set's arity. The list is fixed when the set is built and immutable
/// afterwards, so every call observes the same completed list.
pub trait Members: AsSet {
    /// The declared kind identities, in declaration order, duplicates kept.
    fn members(&self) -> (r: &Vec<KindId>)
        ensures
            r@ == self.target_decl(),
            r@.len() <= ARITY_MAX,
    ;
}

impl<T: AsSet> Members for T {
    fn members(&self) -> (r: &Vec<KindId>) {
        self.target().member_list()
    }
}

/// The containment relation.
///
/// A set contains a kind exactly when its declaration lists that kind at
/// least once; position and repetition play no part. There is no other way
/// containment can arise.
pub trait Contains: AsSet {
    /// Whether this set contains the kind `e`.
    fn contains(&self, e: KindId) -> (r: bool)
        ensures
            r == self.target_decl().contains(e),
    ;
}

impl<T: AsSet> Contains for T {
    fn contains(&self, e: KindId) -> (r: bool) {
        kinds_contain(self.target().member_list(), e)
    }
}

/// The subset relation.
///
/// A set is a subset of `S` exactly when every kind it contains is also
/// contained in `S`: a pure content comparison, never a comparison of
/// arities. A repeated kind asks nothing beyond its first occurrence, and
/// the empty set is a subset of every set.
pub trait SubsetOf<S: AsSet>: AsSet {
    /// Whether this set's content is contained in `other`'s.
    fn subset_of(&self, other: &S) -> (r: bool)
        ensures
            r == spec_subset(self.target_decl(), other.target_decl()),
    ;
}

impl<T: AsSet, S: AsSet> SubsetOf<S> for T {
    fn subset_of(&self, other: &S) -> (r: bool) {
        kinds_subset(self.target().member_list(), other.target().member_list())
    }
}

/// The superset relation: the subset relation with its sides exchanged,
/// with no algorithm of its own.
pub trait SupersetOf<S: AsSet>: AsSet {
    /// Whether `other`'s content is contained in this set's.
    fn superset_of(&self, other: &S) -> (r: bool)
        ensures
            r == spec_superset(self.target_decl(), other.target_decl()),
    ;
}

impl<T: AsSet, S: AsSet> SupersetOf<S> for T {
    fn superset_of(&self, other: &S) -> (r: bool) {
        kinds_subset(other.target().member_list(), self.target().member_list())
    }
}

/// Delegation transparency: a delegating type whose target is `t` answers
/// every relation exactly as `t` does, against any other content. Enumeration
/// agrees by the premise itself: the delegating type's declared list is `t`'s.
pub proof fn lemma_delegation_transparent<D: AsSet>(
    d: &D,
    t: &KindSet,
    e: KindId,
    other: Seq<KindId>,
)
    requires
        d.target_decl() == t@,
    ensures
        d.target_decl().contains(e) == t@.contains(e),
        spec_subset(d.target_decl(), other) == spec_subset(t@, other),
        spec_superset(d.target_decl(), other) == spec_superset(t@, other),
{
}

} // verus!
