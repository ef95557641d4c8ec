//! The decisions of one epoch that lie between the capabilities: the local
//! vote on each agreed ciphertext, and the block assembled from the
//! accumulators' resolutions.

use vstd::prelude::*;
use vstd::seq_lib::{lemma_multiset_commutative, to_multiset_build, to_multiset_len, to_multiset_remove};

use crate::accumulator::BadCiphertext;
use crate::capability::{Protocol, ThresholdEncryption};

verus! {

/// The proposals recovered from the accumulators' resolutions, in the order
/// given: each plaintext that decodes, in its decoded form. Bad verdicts and
/// plaintexts that do not decode are left out.
pub open spec fn decoded_proposals<P: Protocol>(
    outcomes: Seq<Result<Vec<u8>, BadCiphertext>>,
) -> Seq<P::Proposal>
    decreases outcomes.len(),
{
    if outcomes.len() == 0 {
        Seq::empty()
    } else {
        let before = decoded_proposals::<P>(outcomes.drop_last());
        match outcomes.last() {
            Ok(p) => match P::decoded(p@) {
                Some(x) => before.push(x),
                None => before,
            },
            Err(_) => before,
        }
    }
}

/// The block an epoch yields from its accumulators' resolutions.
pub open spec fn epoch_block<P: Protocol>(outcomes: Seq<Result<Vec<u8>, BadCiphertext>>) -> P::Block {
    P::combined(decoded_proposals::<P>(outcomes).to_multiset())
}

/// The local node's vote on an agreed ciphertext: its decryption share, or an
/// attestation of invalidity (`None`) where no share can be made.
pub fn local_vote<T: ThresholdEncryption>(tpke: &T, ciphertext: &[u8]) -> (r: Option<T::Share>)
    ensures
        r == tpke.local_share(ciphertext@),
{
    match tpke.decrypt_share(ciphertext) {
        Ok(share) => Some(share),
        Err(_) => None,
    }
}

/// Assemble the block of an epoch from the resolutions of its accumulators:
/// decode every recovered plaintext, leave out what is bad or does not
/// decode, and combine the rest.
pub fn collect_block<P: Protocol>(outcomes: Vec<Result<Vec<u8>, BadCiphertext>>) -> (r: P::Block)
    ensures
        r == epoch_block::<P>(outcomes@),
{
    let mut proposals: Vec<P::Proposal> = Vec::new();
    let mut i: usize = 0;
    while i < outcomes.len()
        invariant
            i <= outcomes.len(),
            proposals@ == decoded_proposals::<P>(outcomes@.take(i as int)),
        decreases outcomes.len() - i,
    {
        proof {
            assert(outcomes@.take(i + 1).drop_last() =~= outcomes@.take(i as int));
        }
        match &outcomes[i] {
            Ok(plaintext) => match P::decode_proposal(plaintext.as_slice()) {
                Ok(proposal) => proposals.push(proposal),
                Err(_) => {},
            },
            Err(_) => {},
        }
        i = i + 1;
    }
    proof {
        assert(outcomes@.take(i as int) =~= outcomes@);
    }
    P::combine_proposals(proposals)
}

/// Decoding commutes with concatenation.
proof fn lemma_decoded_concat<P: Protocol>(
    a: Seq<Result<Vec<u8>, BadCiphertext>>,
    b: Seq<Result<Vec<u8>, BadCiphertext>>,
)
    ensures
        decoded_proposals::<P>(a + b) == decoded_proposals::<P>(a) + decoded_proposals::<P>(b),
    decreases b.len(),
{
    if b.len() == 0 {
        assert(a + b =~= a);
        assert(decoded_proposals::<P>(a) + Seq::empty() =~= decoded_proposals::<P>(a));
    } else {
        assert((a + b).drop_last() =~= a + b.drop_last());
        assert((a + b).last() == b.last());
        lemma_decoded_concat::<P>(a, b.drop_last());
        let da = decoded_proposals::<P>(a);
        let db = decoded_proposals::<P>(b.drop_last());
        assert forall|x: P::Proposal| (da + db).push(x) =~= da + db.push(x) by {}
    }
}

/// Outcomes that are the same up to order decode to proposals that are the
/// same up to order.
proof fn lemma_decoded_permutation<P: Protocol>(
    a: Seq<Result<Vec<u8>, BadCiphertext>>,
    b: Seq<Result<Vec<u8>, BadCiphertext>>,
)
    requires
        a.to_multiset() == b.to_multiset(),
    ensures
        decoded_proposals::<P>(a).to_multiset() == decoded_proposals::<P>(b).to_multiset(),
    decreases a.len(),
{
    broadcast use vstd::multiset::group_multiset_axioms;

    to_multiset_len(a);
    to_multiset_len(b);
    if a.len() == 0 {
        assert(b.len() == 0);
        assert(a =~= b);
    } else {
        let x = a.last();
        let rest = a.drop_last();
        assert(rest.push(x) =~= a);
        to_multiset_build(rest, x);
        assert(b.to_multiset().count(x) > 0);
        vstd::seq_lib::to_multiset_contains(b, x);
        let i = choose|i: int| 0 <= i < b.len() && b[i] == x;
        to_multiset_remove(b, i);
        assert(b.remove(i).to_multiset() =~= rest.to_multiset());
        lemma_decoded_permutation::<P>(rest, b.remove(i));
        let left = b.subrange(0, i);
        let right = b.subrange(i + 1, b.len() as int);
        assert(b =~= left + (seq![x] + right));
        assert(b.remove(i) =~= left + right);
        assert(seq![x].drop_last() =~= Seq::<Result<Vec<u8>, BadCiphertext>>::empty());
        lemma_decoded_concat::<P>(left, seq![x] + right);
        lemma_decoded_concat::<P>(seq![x], right);
        lemma_decoded_concat::<P>(left, right);
        let dl = decoded_proposals::<P>(left);
        let dr = decoded_proposals::<P>(right);
        let dx = decoded_proposals::<P>(seq![x]);
        lemma_multiset_commutative(dl, dx + dr);
        lemma_multiset_commutative(dx, dr);
        lemma_multiset_commutative(dl, dr);
        lemma_multiset_commutative(decoded_proposals::<P>(rest), dx);
        assert(decoded_proposals::<P>(Seq::<Result<Vec<u8>, BadCiphertext>>::empty()) =~= Seq::<
            P::Proposal,
        >::empty());
        assert(seq![x].last() == x);
        assert(decoded_proposals::<P>(a) =~= decoded_proposals::<P>(rest) + dx);
    }
}

/// The block does not depend on the order in which the accumulators
/// resolved: outcomes that are a permutation of one another yield the same
/// block.
pub proof fn lemma_block_order_independent<P: Protocol>(
    a: Seq<Result<Vec<u8>, BadCiphertext>>,
    b: Seq<Result<Vec<u8>, BadCiphertext>>,
)
    requires
        a.to_multiset() == b.to_multiset(),
    ensures
        epoch_block::<P>(a) == epoch_block::<P>(b),
{
    lemma_decoded_permutation::<P>(a, b);
}

} // verus!
