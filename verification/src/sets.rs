//! The arity requirement chain and the relations derived from it.
//!
//! For each arity `n` there is a structural requirement `R(n)`: `R(0)` holds
//! of every set, and `R(n)` holds exactly when `R(n - 1)` holds and the set
//! contains the `n`-th declared kind. Each level of the chain strictly
//! extends the one below it by a single containment fact, and one relation
//! definition covers every arity by walking the chain instead of naming one
//! rule per pair of arities. [`lemma_requirement_is_subset`] shows that
//! satisfying the full chain for a declaration is the same as containing the
//! declaration's whole content.

use vstd::prelude::*;

use crate::kind::KindId;

verus! {

/// How many kind slots a single declaration may occupy at most. Each slot in
/// the declared list counts, so a repeated kind occupies one slot per
/// occurrence. The ceiling is a convenience limit of the requirement chain,
/// not a fundamental one: the chain extends mechanically.
pub const ARITY_MAX: usize = 12;

/// The arity-`n` structural requirement `R(n)`, instantiated with the first
/// `n` kinds of the declaration `decl` and asked of the content `content`:
/// `R(0)` asks nothing of any content, and `R(n)` asks what `R(n - 1)` asks
/// and that `content` have `decl[n - 1]` as a member.
pub open spec fn requirement(content: Seq<KindId>, decl: Seq<KindId>, n: int) -> bool
    decreases n,
{
    n <= 0 || (requirement(content, decl, n - 1) && content.contains(decl[n - 1]))
}

/// The subset relation over declared contents: every kind that `a` declares,
/// in whatever position and however often, is declared somewhere in `b`.
/// Order, arity and duplicate counts play no part.
pub open spec fn spec_subset(a: Seq<KindId>, b: Seq<KindId>) -> bool {
    forall|i: int| 0 <= i < a.len() ==> b.contains(a[i])
}

/// The superset relation is the subset relation with its sides exchanged; it
/// has no derivation of its own.
pub open spec fn spec_superset(a: Seq<KindId>, b: Seq<KindId>) -> bool {
    spec_subset(b, a)
}

/// Satisfying the requirement chain up to level `n` is the same as containing
/// each of the first `n` declared kinds.
pub proof fn lemma_requirement_iff_prefix(content: Seq<KindId>, decl: Seq<KindId>, n: int)
    requires
        0 <= n <= decl.len(),
    ensures
        requirement(content, decl, n) == (forall|i: int| 0 <= i < n ==> content.contains(decl[i])),
    decreases n,
{
    if n > 0 {
        lemma_requirement_iff_prefix(content, decl, n - 1);
    }
}

/// The structural reading of subset equals the content reading: a content
/// satisfies the full requirement chain of a declaration exactly when the
/// declaration's content is a subset of it. This single equivalence serves
/// every arity from 0 to the ceiling.
pub proof fn lemma_requirement_is_subset(a: Seq<KindId>, b: Seq<KindId>)
    ensures
        requirement(b, a, a.len() as int) == spec_subset(a, b),
{
    lemma_requirement_iff_prefix(b, a, a.len() as int);
}

/// The membership reading of subset: a declaration is a subset of another
/// exactly when every kind that occurs in the first occurs in the second.
/// Each distinct kind matters once, so duplicate counts never tell two
/// declarations of the same content apart.
pub proof fn lemma_subset_elementwise(a: Seq<KindId>, b: Seq<KindId>)
    ensures
        spec_subset(a, b) == (forall|e: KindId| a.contains(e) ==> b.contains(e)),
{
    if spec_subset(a, b) {
        assert forall|e: KindId| a.contains(e) implies b.contains(e) by {
            let i = choose|i: int| 0 <= i < a.len() && a[i] == e;
            assert(b.contains(a[i]));
        }
    }
    if forall|e: KindId| a.contains(e) ==> b.contains(e) {
        assert forall|i: int| 0 <= i < a.len() implies b.contains(a[i]) by {
            assert(a.contains(a[i]));
        }
    }
}

/// The relations compare content only: two declarations over the same kinds —
/// whatever their order, arity and duplicate counts — stand in exactly the
/// same subset relations, on either side.
pub proof fn lemma_relations_content_only(a1: Seq<KindId>, a2: Seq<KindId>, b: Seq<KindId>)
    requires
        forall|e: KindId| a1.contains(e) == a2.contains(e),
    ensures
        spec_subset(a1, b) == spec_subset(a2, b),
        spec_subset(b, a1) == spec_subset(b, a2),
{
    lemma_subset_elementwise(a1, b);
    lemma_subset_elementwise(a2, b);
    lemma_subset_elementwise(b, a1);
    lemma_subset_elementwise(b, a2);
}

/// Reflexivity: every set is a subset and a superset of itself.
pub proof fn lemma_subset_reflexive(a: Seq<KindId>)
    ensures
        spec_subset(a, a),
        spec_superset(a, a),
{
    assert forall|i: int| 0 <= i < a.len() implies a.contains(a[i]) by {
        assert(a[i] == a[i]);
    }
}

/// Superset is the notational inversion of subset: the one relation holds
/// exactly where the other holds with its sides exchanged.
pub proof fn lemma_superset_inverts(a: Seq<KindId>, b: Seq<KindId>)
    ensures
        spec_superset(a, b) == spec_subset(b, a),
{
}

/// The empty declaration is a subset of every set, and a set is a subset of
/// the empty one exactly when its own declaration is empty — so only an
/// empty-content set is both a subset and a superset of the empty set.
pub proof fn lemma_empty_subset(b: Seq<KindId>)
    ensures
        spec_subset(Seq::<KindId>::empty(), b),
        spec_subset(b, Seq::<KindId>::empty()) == (b.len() == 0),
{
    if b.len() > 0 {
        assert(!Seq::<KindId>::empty().contains(b[0]));
    }
}

/// Whether the kind `e` occurs among `kinds`.
pub fn kinds_contain(kinds: &Vec<KindId>, e: KindId) -> (r: bool)
    ensures
        r == kinds@.contains(e),
{
    let mut i: usize = 0;
    while i < kinds.len()
        invariant
            i <= kinds@.len(),
            forall|j: int| 0 <= j < i ==> kinds@[j] != e,
        decreases kinds@.len() - i,
    {
        if kinds[i] == e {
            assert(kinds@.contains(e)) by {
                assert(kinds@[i as int] == e);
            }
            return true;
        }
        i = i + 1;
    }
    false
}

/// Whether the declaration `a` is a subset of the declaration `b`. The check
/// walks `a` and establishes, level by level, that `b`'s content satisfies
/// `a`'s requirement chain, so a `true` answer is the chain satisfied in
/// full.
pub fn kinds_subset(a: &Vec<KindId>, b: &Vec<KindId>) -> (r: bool)
    ensures
        r == spec_subset(a@, b@),
{
    let mut i: usize = 0;
    while i < a.len()
        invariant
            i <= a@.len(),
            requirement(b@, a@, i as int),
        decreases a@.len() - i,
    {
        if !kinds_contain(b, a[i]) {
            assert(!spec_subset(a@, b@)) by {
                assert(!b@.contains(a@[i as int]));
            }
            return false;
        }
        i = i + 1;
    }
    proof {
        lemma_requirement_is_subset(a@, b@);
    }
    true
}

} // verus!
