//! The capabilities the epoch core is parametric over. The embedding system
//! implements them; the core relies only on the contracts stated here.

use vstd::multiset::Multiset;
use vstd::prelude::*;

verus! {

/// Errors occurring from threshold decryption.
pub trait ThresholdDecryptionError {
    /// If this error resulted from a failed threshold decryption,
    /// the indices of the invalid shares.
    fn invalid_shares(&self) -> Option<&[usize]>;
}

/// A threshold encryption scheme.
pub trait ThresholdEncryption {
    /// A participant's partial decryption of one ciphertext.
    type Share;
    /// Error on creating a decryption share or combining shares.
    type Error: ThresholdDecryptionError;

    // The spec functions below describe a scheme; each implementation gives
    // them their meaning, and generic code knows nothing more of them.

    /// The number of valid shares needed to decrypt (`f + 1`).
    open spec fn threshold_of(&self) -> int {
        arbitrary()
    }

    /// Whether `share` is a valid decryption share of `ciphertext`.
    open spec fn valid_share(&self, ciphertext: Seq<u8>, share: Self::Share) -> bool {
        arbitrary()
    }

    /// The local node's decryption share of `ciphertext`, if it is well formed.
    open spec fn local_share(&self, ciphertext: Seq<u8>) -> Option<Self::Share> {
        arbitrary()
    }

    /// The plaintext that combining `shares` recovers, if combining succeeds.
    open spec fn decryption(&self, ciphertext: Seq<u8>, shares: Seq<Self::Share>) -> Option<Seq<u8>> {
        arbitrary()
    }

    /// How many shares are required to decrypt.
    fn threshold(&self) -> (r: usize)
        ensures
            r == self.threshold_of(),
    ;

    /// Encrypt a plaintext.
    fn encrypt(&self, plaintext: &[u8]) -> (r: Vec<u8>);

    /// Whether a ciphertext, share combination is good.
    fn share_good(&self, ciphertext: &[u8], share: &Self::Share) -> (r: bool)
        ensures
            r == self.valid_share(ciphertext@, *share),
    ;

    /// Create a decryption share; fails if the ciphertext is malformed.
    fn decrypt_share(&self, ciphertext: &[u8]) -> (r: Result<Self::Share, Self::Error>)
        ensures
            match r {
                Ok(s) => self.local_share(ciphertext@) == Some(s),
                Err(_) => self.local_share(ciphertext@) is None,
            },
    ;

    /// Combine decryption shares; fails if there are fewer than `threshold`
    /// valid shares or the ciphertext is invalid.
    fn decrypt(&self, ciphertext: &[u8], shares: &[Self::Share]) -> (r: Result<Vec<u8>, Self::Error>)
        ensures
            match r {
                Ok(p) => self.decryption(ciphertext@, shares@) == Some(p@),
                Err(_) => self.decryption(ciphertext@, shares@) is None,
            },
    ;
}

/// A threshold encryption scheme seen from the decrypting side: every
/// `ThresholdEncryption` is one.
pub trait ThresholdDecryption: ThresholdEncryption {
}

impl<T: ThresholdEncryption> ThresholdDecryption for T {
}

/// The protocol that an epoch is run for.
pub trait Protocol {
    /// Error decoding a proposal.
    type Error;
    /// A proposal, drawn from a buffer.
    type Proposal;
    /// The block type.
    type Block;

    /// The proposal that `data` decodes to, if it decodes.
    open spec fn decoded(data: Seq<u8>) -> Option<Self::Proposal> {
        arbitrary()
    }

    /// The block that combining the proposals gives: it depends on which
    /// proposals there are, and how often each occurs, not on their order.
    open spec fn combined(proposals: Multiset<Self::Proposal>) -> Self::Block {
        arbitrary()
    }

    /// Decode a proposal.
    fn decode_proposal(data: &[u8]) -> (r: Result<Self::Proposal, Self::Error>)
        ensures
            match r {
                Ok(p) => Self::decoded(data@) == Some(p),
                Err(_) => Self::decoded(data@) is None,
            },
    ;

    /// Combine a set of proposals into a block in such a way that ordering
    /// does not matter.
    fn combine_proposals(proposals: Vec<Self::Proposal>) -> (r: Self::Block)
        ensures
            r == Self::combined(proposals@.to_multiset()),
    ;
}

} // verus!
