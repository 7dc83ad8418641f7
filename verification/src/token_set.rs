//! Sets of syntax kinds, used to decide where error recovery may stop.

use crate::syntax_kind::{lemma_ordinal_injective, SyntaxKind};
use vstd::prelude::*;

verus! {

/// An immutable set of syntax kinds, held as one bit per kind.
#[derive(Clone, Copy, Debug, PartialEq, Eq)]
pub struct TokenSet {
    bits: u128,
}

/// Whether bit `i` of `bits` is set.
spec fn bit_at(bits: u128, i: int) -> bool {
    (bits >> (i as u128)) & 1 == 1
}

proof fn lemma_bit_of_zero(i: u128)
    requires
        i < 128,
    ensures
        (0u128 >> i) & 1 == 0,
{
    assert((0u128 >> i) & 1 == 0) by (bit_vector)
        requires
            i < 128,
    ;
}

proof fn lemma_bit_of_one_shifted(i: u128, j: u128)
    requires
        i < 128,
        j < 128,
    ensures
        (((1u128 << i) >> j) & 1 == 1) <==> i == j,
{
    assert((((1u128 << i) >> j) & 1 == 1) <==> i == j) by (bit_vector)
        requires
            i < 128,
            j < 128,
    ;
}

proof fn lemma_bit_of_or(a: u128, b: u128, i: u128)
    requires
        i < 128,
    ensures
        (((a | b) >> i) & 1 == 1) <==> (((a >> i) & 1 == 1) || ((b >> i) & 1 == 1)),
{
    assert((((a | b) >> i) & 1 == 1) <==> (((a >> i) & 1 == 1) || ((b >> i) & 1 == 1)))
        by (bit_vector)
        requires
            i < 128,
    ;
}

impl View for TokenSet {
    type V = Set<SyntaxKind>;

    /// The kinds whose bit is set.
    closed spec fn view(&self) -> Set<SyntaxKind> {
        Set::new(|k: SyntaxKind| bit_at(self.bits, k.ordinal()))
    }
}

impl TokenSet {
    /// The set without members.
    pub fn empty() -> (r: TokenSet)
        ensures
            r@ == Set::<SyntaxKind>::empty(),
    {
        let r = TokenSet { bits: 0 };
        proof {
            assert forall|k: SyntaxKind| !r@.contains(k) by {
                lemma_ordinal_injective(k, k);
                lemma_bit_of_zero(k.ordinal() as u128);
            }
            assert(r@ =~= Set::<SyntaxKind>::empty());
        }
        r
    }

    /// The set whose only member is `kind`.
    pub fn singleton(kind: SyntaxKind) -> (r: TokenSet)
        ensures
            r@ == Set::<SyntaxKind>::empty().insert(kind),
    {
        let i: u8 = kind.to_index();
        let r = TokenSet { bits: 1u128 << i };
        proof {
            assert forall|k: SyntaxKind| r@.contains(k) <==> k == kind by {
                lemma_ordinal_injective(k, kind);
                lemma_ordinal_injective(kind, kind);
                lemma_bit_of_one_shifted(kind.ordinal() as u128, k.ordinal() as u128);
            }
            assert(r@ =~= Set::<SyntaxKind>::empty().insert(kind));
        }
        r
    }

    /// The union of two sets. Neither operand changes.
    pub fn union(self, other: TokenSet) -> (r: TokenSet)
        ensures
            r@ == self@.union(other@),
    {
        let r = TokenSet { bits: self.bits | other.bits };
        proof {
            assert forall|k: SyntaxKind|
                r@.contains(k) <==> (self@.contains(k) || other@.contains(k)) by {
                lemma_ordinal_injective(k, k);
                lemma_bit_of_or(self.bits, other.bits, k.ordinal() as u128);
            }
            assert(r@ =~= self@.union(other@));
        }
        r
    }

    /// The set with `kind` added.
    pub fn with(self, kind: SyntaxKind) -> (r: TokenSet)
        ensures
            r@ == self@.insert(kind),
    {
        let r = self.union(TokenSet::singleton(kind));
        proof {
            assert(r@ =~= self@.insert(kind));
        }
        r
    }

    /// Whether `kind` is a member.
    pub fn contains(&self, kind: SyntaxKind) -> (r: bool)
        ensures
            r == self@.contains(kind),
    {
        let i: u8 = kind.to_index();
        (self.bits >> i) & 1 == 1
    }

    /// The set of the kinds listed in `kinds`.
    pub fn from_kinds(kinds: &[SyntaxKind]) -> (r: TokenSet)
        ensures
            r@ == kinds@.to_set(),
    {
        let mut r = TokenSet::empty();
        let mut i: usize = 0;
        while i < kinds.len()
            invariant
                i <= kinds.len(),
                r@ == kinds@.take(i as int).to_set(),
            decreases kinds.len() - i,
        {
            r = r.with(kinds[i]);
            proof {
                let before = kinds@.take(i as int);
                let after = kinds@.take(i as int + 1);
                assert(after =~= before.push(kinds@[i as int]));
                assert forall|k: SyntaxKind|
                    after.to_set().contains(k) <==> before.to_set().insert(
                        kinds@[i as int],
                    ).contains(k) by {
                    if after.contains(k) {
                        let j = choose|j: int| 0 <= j < after.len() && after[j] == k;
                        if j < before.len() {
                            assert(before[j] == k);
                        }
                    }
                    if before.contains(k) {
                        let j = choose|j: int| 0 <= j < before.len() && before[j] == k;
                        assert(after[j] == k);
                    }
                    assert(after[i as int] == kinds@[i as int]);
                }
                assert(after.to_set() =~= before.to_set().insert(kinds@[i as int]));
            }
            i += 1;
        }
        proof {
            assert(kinds@.take(kinds.len() as int) =~= kinds@);
        }
        r
    }
}

} // verus!
