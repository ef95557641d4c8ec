use std::cell::RefCell;
use std::rc::Rc;

use honey_badger::{
    local_vote, BadCiphertext, ChannelEvent, ShareAccumulator, ThresholdDecryptionError,
    ThresholdEncryption,
};

#[derive(Debug)]
struct SchemeError;

impl ThresholdDecryptionError for SchemeError {
    fn invalid_shares(&self) -> Option<&[usize]> {
        None
    }
}

/// A share: the participant that made it, and whether it is genuine.
type TestShare = (u32, bool);

/// A toy scheme: a ciphertext is the plaintext with a leading 0 byte; a
/// malformed ciphertext starts with anything else. It records every call of
/// `decrypt`.
#[derive(Clone)]
struct ToyScheme {
    threshold: usize,
    decrypt_calls: Rc<RefCell<Vec<Vec<TestShare>>>>,
}

impl ToyScheme {
    fn new(threshold: usize) -> ToyScheme {
        ToyScheme { threshold, decrypt_calls: Rc::new(RefCell::new(Vec::new())) }
    }
}

impl ThresholdEncryption for ToyScheme {
    type Share = TestShare;
    type Error = SchemeError;

    fn threshold(&self) -> usize {
        self.threshold
    }

    fn encrypt(&self, plaintext: &[u8]) -> Vec<u8> {
        let mut c = vec![0u8];
        c.extend_from_slice(plaintext);
        c
    }

    fn share_good(&self, ciphertext: &[u8], share: &TestShare) -> bool {
        ciphertext.first() == Some(&0) && share.1
    }

    fn decrypt_share(&self, ciphertext: &[u8]) -> Result<TestShare, SchemeError> {
        if ciphertext.first() == Some(&0) {
            Ok((0, true))
        } else {
            Err(SchemeError)
        }
    }

    fn decrypt(&self, ciphertext: &[u8], shares: &[TestShare]) -> Result<Vec<u8>, SchemeError> {
        self.decrypt_calls.borrow_mut().push(shares.to_vec());
        if shares.len() >= self.threshold && ciphertext.first() == Some(&0) {
            Ok(ciphertext[1..].to_vec())
        } else {
            Err(SchemeError)
        }
    }
}

/// A scheme that takes every share as valid and never manages to combine.
#[derive(Clone)]
struct Lenient;

impl ThresholdEncryption for Lenient {
    type Share = TestShare;
    type Error = SchemeError;

    fn threshold(&self) -> usize {
        2
    }

    fn encrypt(&self, plaintext: &[u8]) -> Vec<u8> {
        plaintext.to_vec()
    }

    fn share_good(&self, _ciphertext: &[u8], _share: &TestShare) -> bool {
        true
    }

    fn decrypt_share(&self, _ciphertext: &[u8]) -> Result<TestShare, SchemeError> {
        Err(SchemeError)
    }

    fn decrypt(&self, _ciphertext: &[u8], _shares: &[TestShare]) -> Result<Vec<u8>, SchemeError> {
        Err(SchemeError)
    }
}

fn good(id: u32) -> Option<TestShare> {
    Some((id, true))
}

fn junk(id: u32) -> Option<TestShare> {
    Some((id, false))
}

fn ciphertext() -> Vec<u8> {
    vec![0, 7, 8, 9]
}

#[test]
fn example_a_resolves_good_on_third_good_share() {
    let scheme = ToyScheme::new(3);
    let calls = scheme.decrypt_calls.clone();
    let mut acc = ShareAccumulator::create(scheme, ciphertext(), good(1));
    assert_eq!(acc.resolution(), None);
    assert_eq!(acc.poll(ChannelEvent::Vote(None)), Ok(None));
    assert_eq!(acc.poll(ChannelEvent::Vote(None)), Ok(None));
    assert_eq!(acc.poll(ChannelEvent::Vote(good(2))), Ok(None));
    assert!(calls.borrow().is_empty());
    assert_eq!(acc.poll(ChannelEvent::Vote(good(3))), Ok(Some(vec![7, 8, 9])));
    assert_eq!(*calls.borrow(), vec![vec![(1, true), (2, true), (3, true)]]);
    assert!(acc.is_finished());
    assert_eq!(acc.resolution(), Some(Ok(vec![7, 8, 9])));
}

#[test]
fn example_b_resolves_bad_on_fifth_invalidity_vote() {
    let mut acc = ShareAccumulator::create(ToyScheme::new(3), ciphertext(), None);
    for _ in 0..3 {
        assert_eq!(acc.poll(ChannelEvent::Vote(None)), Ok(None));
    }
    assert_eq!(acc.resolution(), None);
    assert_eq!(acc.poll(ChannelEvent::Vote(None)), Err(BadCiphertext));
}

#[test]
fn bad_quorum_is_not_reopened_by_later_shares() {
    // threshold 2: f = 1, three invalidity votes prove the ciphertext bad
    let mut acc = ShareAccumulator::create(ToyScheme::new(2), ciphertext(), None);
    assert_eq!(acc.poll(ChannelEvent::Vote(None)), Ok(None));
    assert_eq!(acc.poll(ChannelEvent::Vote(good(1))), Ok(None));
    assert_eq!(acc.poll(ChannelEvent::Vote(None)), Err(BadCiphertext));
}

#[test]
fn resolution_is_idempotent() {
    let mut acc = ShareAccumulator::create(ToyScheme::new(1), ciphertext(), good(4));
    assert_eq!(acc.resolution(), Some(Ok(vec![7, 8, 9])));
    assert_eq!(acc.resolution(), Some(Ok(vec![7, 8, 9])));
    assert!(!acc.is_finished());
    assert_eq!(acc.poll(ChannelEvent::NotReady), Ok(Some(vec![7, 8, 9])));
    assert!(acc.is_finished());
    assert_eq!(acc.resolution(), Some(Ok(vec![7, 8, 9])));

    let acc = ShareAccumulator::create(ToyScheme::new(1), ciphertext(), None);
    assert_eq!(acc.resolution(), Some(Err(BadCiphertext)));
    assert_eq!(acc.resolution(), Some(Err(BadCiphertext)));
}

#[test]
fn junk_shares_count_towards_nothing() {
    let scheme = ToyScheme::new(2);
    let calls = scheme.decrypt_calls.clone();
    // threshold 2: three invalidity votes resolve bad, two good shares resolve good
    let mut acc = ShareAccumulator::create(scheme, ciphertext(), junk(1));
    for id in 2..10 {
        assert_eq!(acc.poll(ChannelEvent::Vote(junk(id))), Ok(None));
    }
    assert_eq!(acc.poll(ChannelEvent::Vote(None)), Ok(None));
    assert_eq!(acc.poll(ChannelEvent::Vote(None)), Ok(None));
    assert_eq!(acc.poll(ChannelEvent::Vote(junk(10))), Ok(None));
    assert_eq!(acc.poll(ChannelEvent::Vote(good(11))), Ok(None));
    assert!(calls.borrow().is_empty());
    assert_eq!(acc.poll(ChannelEvent::Vote(good(12))), Ok(Some(vec![7, 8, 9])));
    assert_eq!(*calls.borrow(), vec![vec![(11, true), (12, true)]]);
}

#[test]
fn pending_and_failed_attempts_change_nothing() {
    let mut acc = ShareAccumulator::create(ToyScheme::new(2), ciphertext(), None);
    for _ in 0..5 {
        assert_eq!(acc.poll(ChannelEvent::NotReady), Ok(None));
        assert_eq!(acc.poll(ChannelEvent::Failed), Ok(None));
    }
    // still one invalidity vote short of the quorum of three
    assert_eq!(acc.poll(ChannelEvent::Vote(None)), Ok(None));
    assert_eq!(acc.poll(ChannelEvent::Vote(None)), Err(BadCiphertext));
}

#[test]
fn exhausted_stream_is_bad() {
    let mut acc = ShareAccumulator::create(ToyScheme::new(3), ciphertext(), good(1));
    assert_eq!(acc.poll(ChannelEvent::Vote(good(2))), Ok(None));
    assert_eq!(acc.poll(ChannelEvent::Ended), Err(BadCiphertext));
    assert!(acc.is_finished());
    assert_eq!(acc.resolution(), Some(Err(BadCiphertext)));
    assert_eq!(acc.resolution(), Some(Err(BadCiphertext)));
}

#[test]
fn failed_combination_is_bad() {
    let mut acc = ShareAccumulator::create(Lenient, vec![1, 2], good(1));
    assert_eq!(acc.poll(ChannelEvent::Vote(junk(2))), Err(BadCiphertext));
}

#[test]
fn local_vote_follows_decrypt_share() {
    let scheme = ToyScheme::new(2);
    assert_eq!(local_vote(&scheme, &[0, 1]), Some((0, true)));
    assert_eq!(local_vote(&scheme, &[5, 1]), None);
}

#[test]
fn threshold_support() {
    assert!(ShareAccumulator::supports(&ToyScheme::new(1)));
    assert!(ShareAccumulator::supports(&ToyScheme::new(1000)));
    assert!(!ShareAccumulator::supports(&ToyScheme::new(0)));
    assert!(!ShareAccumulator::supports(&ToyScheme::new(usize::MAX)));
}
