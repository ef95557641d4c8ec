//! Per-ciphertext accumulation of decryption shares and invalidity votes.
//!
//! An accumulator resolves a quorum of votes to a plaintext (`Good`) or to a
//! verdict that the ciphertext is bad. Votes are applied one at a time, in the
//! order the share exchange delivers them; the transition rule is `vote_step`,
//! and `run_votes` folds it over a stream of votes.

use vstd::prelude::*;

use crate::capability::ThresholdEncryption;

verus! {

/// The number of invalidity votes that proves a ciphertext bad: `2f + 1`,
/// where `f = threshold - 1`.
pub open spec fn bad_quorum(threshold: int) -> int {
    2 * (threshold - 1) + 1
}

/// A threshold the accumulator can work with: at least one share is needed,
/// and the bad-vote quorum is a count that fits in `usize`.
pub open spec fn threshold_fits(threshold: int) -> bool {
    1 <= threshold && bad_quorum(threshold) <= usize::MAX
}

/// The abstract state of a share accumulator.
pub enum Phase<S> {
    /// Still collecting: the invalidity votes counted and the valid shares kept.
    Collecting { bad_votes: nat, good_shares: Seq<S> },
    /// Resolved: the ciphertext decrypted to this plaintext.
    Good(Seq<u8>),
    /// Resolved: the ciphertext is bad.
    Bad,
}

/// The state of a fresh accumulator, before any vote.
pub open spec fn fresh<S>() -> Phase<S> {
    Phase::Collecting { bad_votes: 0, good_shares: Seq::empty() }
}

/// Whether a phase is one of the two resolutions.
pub open spec fn is_resolved<S>(p: Phase<S>) -> bool {
    p is Good || p is Bad
}

/// The state after applying one vote to a collecting accumulator.
///
/// An invalidity vote (`None`) counts towards the bad quorum. A share that is
/// not valid for the ciphertext is dropped and counts towards nothing. A valid
/// share is kept; once `threshold` are kept they are combined, and the
/// ciphertext resolves to the plaintext, or to `Bad` where combining fails.
pub open spec fn vote_step<T: ThresholdEncryption>(
    tpke: T,
    ciphertext: Seq<u8>,
    bad_votes: nat,
    good_shares: Seq<T::Share>,
    vote: Option<T::Share>,
) -> Phase<T::Share> {
    match vote {
        None => {
            if bad_votes + 1 >= bad_quorum(tpke.threshold_of()) {
                Phase::Bad
            } else {
                Phase::Collecting { bad_votes: bad_votes + 1, good_shares }
            }
        },
        Some(s) => {
            if !tpke.valid_share(ciphertext, s) {
                Phase::Collecting { bad_votes, good_shares }
            } else if good_shares.len() + 1 >= tpke.threshold_of() {
                match tpke.decryption(ciphertext, good_shares.push(s)) {
                    Some(p) => Phase::Good(p),
                    None => Phase::Bad,
                }
            } else {
                Phase::Collecting { bad_votes, good_shares: good_shares.push(s) }
            }
        },
    }
}

/// The state reached from `phase` by the votes in order. Votes that arrive
/// once the accumulator is resolved are not applied.
pub open spec fn run_votes<T: ThresholdEncryption>(
    tpke: T,
    ciphertext: Seq<u8>,
    phase: Phase<T::Share>,
    votes: Seq<Option<T::Share>>,
) -> Phase<T::Share>
    decreases votes.len(),
{
    if votes.len() == 0 {
        phase
    } else {
        match run_votes(tpke, ciphertext, phase, votes.drop_last()) {
            Phase::Collecting { bad_votes, good_shares } => vote_step(
                tpke,
                ciphertext,
                bad_votes,
                good_shares,
                votes.last(),
            ),
            p => p,
        }
    }
}

/// The number of invalidity votes in `votes`.
pub open spec fn invalidity_votes<S>(votes: Seq<Option<S>>) -> nat
    decreases votes.len(),
{
    if votes.len() == 0 {
        0
    } else {
        invalidity_votes(votes.drop_last()) + if votes.last() is None {
            1nat
        } else {
            0nat
        }
    }
}

/// The shares in `votes` that are valid for `ciphertext`, in delivery order.
pub open spec fn valid_shares<T: ThresholdEncryption>(
    tpke: T,
    ciphertext: Seq<u8>,
    votes: Seq<Option<T::Share>>,
) -> Seq<T::Share>
    decreases votes.len(),
{
    if votes.len() == 0 {
        Seq::empty()
    } else {
        let before = valid_shares(tpke, ciphertext, votes.drop_last());
        match votes.last() {
            Some(s) => if tpke.valid_share(ciphertext, s) {
                before.push(s)
            } else {
                before
            },
            None => before,
        }
    }
}


/// The verdict that a ciphertext is bad: a quorum of invalidity votes, a
/// failed combination, or a vote stream that ended unresolved.
#[derive(Debug, Clone, Copy, PartialEq, Eq, Structural)]
pub struct BadCiphertext;

/// One attempt to draw the next vote from an origin's share exchange.
pub enum ChannelEvent<S> {
    /// No vote is available yet.
    NotReady,
    /// A vote arrived: a share, or an attestation of invalidity (`None`).
    Vote(Option<S>),
    /// The exchange ended: no further vote will arrive.
    Ended,
    /// Drawing a vote failed transiently; the attempt may be repeated.
    Failed,
}

/// A collecting accumulator: the ciphertext, the scheme, and the votes counted
/// so far.
pub struct Accumulating<T: ThresholdEncryption> {
    ciphertext: Vec<u8>,
    tpke: T,
    bad_votes: usize,
    good_shares: Vec<T::Share>,
}

impl<T: ThresholdEncryption> Accumulating<T> {
    /// Counts below their resolution points, every kept share valid.
    pub closed spec fn wf(&self) -> bool {
        let t = self.tpke.threshold_of();
        &&& threshold_fits(t)
        &&& self.bad_votes < bad_quorum(t)
        &&& self.good_shares.len() < t
        &&& forall|i: int|
            0 <= i < self.good_shares.len() ==> #[trigger] self.tpke.valid_share(
                self.ciphertext@,
                self.good_shares@[i],
            )
    }

    /// The abstract state: the invalidity votes and the shares kept.
    pub closed spec fn phase(&self) -> Phase<T::Share> {
        Phase::Collecting { bad_votes: self.bad_votes as nat, good_shares: self.good_shares@ }
    }

    /// The scheme the votes are checked and combined with.
    pub closed spec fn scheme(&self) -> T {
        self.tpke
    }

    /// The ciphertext the votes are about.
    pub closed spec fn ciphertext(&self) -> Seq<u8> {
        self.ciphertext@
    }

    /// Apply one vote.
    pub fn accumulate(self, share: Option<T::Share>) -> (r: ShareAccumulatorState<T>)
        requires
            self.wf(),
        ensures
            r.phase() == vote_step(
                self.scheme(),
                self.ciphertext(),
                self.phase()->bad_votes,
                self.phase()->good_shares,
                share,
            ),
            (r is Accumulating) == (r.phase() is Collecting),
            r matches ShareAccumulatorState::Accumulating(a) ==> {
                &&& a.wf()
                &&& a.scheme() == self.scheme()
                &&& a.ciphertext() == self.ciphertext()
            },
    {
        let mut a = self;
        match share {
            None => {
                a.bad_votes = a.bad_votes + 1;
                let f = a.tpke.threshold() - 1;
                let needed_votes = 2 * f + 1;
                if a.bad_votes >= needed_votes {
                    return ShareAccumulatorState::Bad;
                }
            },
            Some(share) => {
                if a.tpke.share_good(a.ciphertext.as_slice(), &share) {
                    a.good_shares.push(share);
                    if a.good_shares.len() >= a.tpke.threshold() {
                        return match a.tpke.decrypt(a.ciphertext.as_slice(), a.good_shares.as_slice()) {
                            Ok(plaintext) => ShareAccumulatorState::Good(plaintext),
                            // combining checked shares should not fail; a failure is a bad verdict
                            Err(_) => ShareAccumulatorState::Bad,
                        };
                    }
                }
            },
        }
        ShareAccumulatorState::Accumulating(a)
    }
}

/// The concrete state of a share accumulator.
pub enum ShareAccumulatorState<T: ThresholdEncryption> {
    Accumulating(Accumulating<T>),
    Bad,
    Good(Vec<u8>),
}

impl<T: ThresholdEncryption> ShareAccumulatorState<T> {
    /// The abstract state.
    pub open spec fn phase(&self) -> Phase<T::Share> {
        match self {
            ShareAccumulatorState::Accumulating(a) => a.phase(),
            ShareAccumulatorState::Bad => Phase::Bad,
            ShareAccumulatorState::Good(p) => Phase::Good(p@),
        }
    }
}

/// The state an accumulator for `ciphertext` reaches from `votes`, the first
/// of which is the local node's own vote.
pub open spec fn outcome<T: ThresholdEncryption>(
    tpke: T,
    ciphertext: Seq<u8>,
    votes: Seq<Option<T::Share>>,
) -> Phase<T::Share> {
    run_votes(tpke, ciphertext, fresh(), votes)
}

/// The state an accumulator in phase `before` sees after one attempt to draw
/// a vote gave `event`.
pub open spec fn seen_phase<T: ThresholdEncryption>(
    tpke: T,
    ciphertext: Seq<u8>,
    before: Phase<T::Share>,
    event: ChannelEvent<T::Share>,
) -> Phase<T::Share> {
    match before {
        Phase::Collecting { bad_votes, good_shares } => match event {
            ChannelEvent::Vote(v) => vote_step(tpke, ciphertext, bad_votes, good_shares, v),
            ChannelEvent::Ended => Phase::Bad,
            _ => before,
        },
        _ => before,
    }
}

/// What polling reports for a phase: the plaintext or the bad verdict once
/// resolved, nothing yet while collecting.
pub open spec fn reports<S>(p: Phase<S>, r: Result<Option<Vec<u8>>, BadCiphertext>) -> bool {
    match p {
        Phase::Good(pt) => r matches Ok(Some(v)) && v@ == pt,
        Phase::Bad => r == Err::<Option<Vec<u8>>, BadCiphertext>(BadCiphertext),
        Phase::Collecting { .. } => r == Ok::<Option<Vec<u8>>, BadCiphertext>(None),
    }
}

/// Resolves the votes of one origin's share exchange to a plaintext or to a
/// bad verdict. The resolution is handed out once, by `poll`; it can be
/// queried with `resolution` as often as wanted, before and after.
pub struct ShareAccumulator<T: ThresholdEncryption> {
    state: ShareAccumulatorState<T>,
    handed_out: bool,
    scheme: Ghost<T>,
    ciphertext: Ghost<Seq<u8>>,
    votes: Ghost<Seq<Option<T::Share>>>,
    ended: Ghost<bool>,
}

impl<T: ThresholdEncryption> ShareAccumulator<T> {
    /// The scheme the accumulator decrypts with.
    pub closed spec fn scheme(&self) -> T {
        self.scheme@
    }

    /// The ciphertext whose votes are accumulated.
    pub closed spec fn ciphertext(&self) -> Seq<u8> {
        self.ciphertext@
    }

    /// The votes applied so far, the local vote first.
    pub closed spec fn votes(&self) -> Seq<Option<T::Share>> {
        self.votes@
    }

    /// Whether the share exchange ended before the votes resolved the
    /// accumulator.
    pub closed spec fn ended(&self) -> bool {
        self.ended@
    }

    /// Whether `poll` has handed out the resolution.
    pub closed spec fn handed_out(&self) -> bool {
        self.handed_out
    }

    /// The current state.
    pub closed spec fn phase(&self) -> Phase<T::Share> {
        self.state.phase()
    }

    /// The state is the outcome of the votes applied so far, or `Bad` where
    /// the exchange ended first; only a resolution is handed out.
    pub closed spec fn wf(&self) -> bool {
        &&& threshold_fits(self.scheme@.threshold_of())
        &&& self.votes@.len() >= 1
        &&& !self.ended@ ==> self.phase() == outcome(self.scheme@, self.ciphertext@, self.votes@)
        &&& self.ended@ ==> self.phase() is Bad
        &&& self.handed_out ==> is_resolved(self.phase())
        &&& self.state matches ShareAccumulatorState::Accumulating(a) ==> {
            &&& a.wf()
            &&& a.scheme() == self.scheme@
            &&& a.ciphertext() == self.ciphertext@
        }
    }

    /// Whether an accumulator can work with the scheme's threshold.
    pub fn supports(tpke: &T) -> (r: bool)
        ensures
            r == threshold_fits(tpke.threshold_of()),
    {
        let t = tpke.threshold();
        t >= 1 && (t - 1) <= (usize::MAX - 1) / 2
    }

    /// Create an accumulator for `ciphertext`, seeded with the local node's
    /// own vote.
    pub fn create(tpke: T, ciphertext: Vec<u8>, local_vote: Option<T::Share>) -> (r: Self)
        requires
            threshold_fits(tpke.threshold_of()),
        ensures
            r.wf(),
            r.scheme() == tpke,
            r.ciphertext() == ciphertext@,
            r.votes() == seq![local_vote],
            !r.ended(),
            !r.handed_out(),
            r.phase() == vote_step(tpke, ciphertext@, 0, Seq::empty(), local_vote),
            r.phase() == outcome(tpke, ciphertext@, r.votes()),
    {
        let ghost scheme = tpke;
        let ghost ct = ciphertext@;
        let ghost votes = seq![local_vote];
        let a = Accumulating { ciphertext, tpke, bad_votes: 0, good_shares: Vec::new() };
        assert(a.wf());
        let state = a.accumulate(local_vote);
        let r = ShareAccumulator {
            state,
            handed_out: false,
            scheme: Ghost(scheme),
            ciphertext: Ghost(ct),
            votes: Ghost(votes),
            ended: Ghost(false),
        };
        proof {
            assert(votes.drop_last() =~= Seq::<Option<T::Share>>::empty());
            assert(votes.last() == local_vote);
            reveal_with_fuel(run_votes, 2);
        }
        r
    }

    /// The resolution, if the accumulator has resolved: the plaintext, or the
    /// bad verdict. Asking does not change the accumulator, and the answer
    /// stays the same once `poll` has handed the resolution out.
    pub fn resolution(&self) -> (r: Option<Result<Vec<u8>, BadCiphertext>>)
        ensures
            match self.phase() {
                Phase::Good(p) => r matches Some(Ok(v)) && v@ == p,
                Phase::Bad => r == Some(Err::<Vec<u8>, BadCiphertext>(BadCiphertext)),
                Phase::Collecting { .. } => r is None,
            },
    {
        match &self.state {
            ShareAccumulatorState::Good(p) => Some(Ok(p.clone())),
            ShareAccumulatorState::Bad => Some(Err(BadCiphertext)),
            ShareAccumulatorState::Accumulating(_) => None,
        }
    }

    /// Whether `poll` has handed out the resolution; polling again is then a
    /// misuse.
    pub fn is_finished(&self) -> (r: bool)
        ensures
            r == self.handed_out(),
    {
        self.handed_out
    }

    /// Take one attempt to draw a vote into account, and hand out the
    /// resolution as soon as there is one. A vote is applied by `vote_step`;
    /// an exchange that ended before resolution gives the bad verdict; a
    /// pending or failed attempt changes nothing. The resolution is handed
    /// out once: polling after that is refused.
    pub fn poll(&mut self, event: ChannelEvent<T::Share>) -> (r: Result<Option<Vec<u8>>, BadCiphertext>)
        requires
            old(self).wf(),
            !old(self).handed_out(),
        ensures
            final(self).wf(),
            final(self).scheme() == old(self).scheme(),
            final(self).ciphertext() == old(self).ciphertext(),
            final(self).votes() == if old(self).phase() is Collecting && event is Vote {
                old(self).votes().push(event->Vote_0)
            } else {
                old(self).votes()
            },
            final(self).ended() == (old(self).ended() || (old(self).phase() is Collecting
                && event is Ended)),
            !final(self).ended() ==> final(self).phase() == outcome(
                final(self).scheme(),
                final(self).ciphertext(),
                final(self).votes(),
            ),
            final(self).phase() == seen_phase(
                old(self).scheme(),
                old(self).ciphertext(),
                old(self).phase(),
                event,
            ),
            reports(final(self).phase(), r),
            final(self).handed_out() == is_resolved(final(self).phase()),
    {
        let mut state = ShareAccumulatorState::Bad;
        std::mem::swap(&mut self.state, &mut state);
        match state {
            ShareAccumulatorState::Good(p) => {
                let out = p.clone();
                self.state = ShareAccumulatorState::Good(p);
                self.handed_out = true;
                Ok(Some(out))
            },
            ShareAccumulatorState::Bad => {
                self.handed_out = true;
                Err(BadCiphertext)
            },
            ShareAccumulatorState::Accumulating(acc) => {
                match event {
                    ChannelEvent::NotReady => {
                        self.state = ShareAccumulatorState::Accumulating(acc);
                        Ok(None)
                    },
                    ChannelEvent::Failed => {
                        self.state = ShareAccumulatorState::Accumulating(acc);
                        Ok(None)
                    },
                    ChannelEvent::Ended => {
                        self.ended = Ghost(true);
                        self.handed_out = true;
                        Err(BadCiphertext)
                    },
                    ChannelEvent::Vote(v) => {
                        let ghost votes = self.votes@.push(v);
                        proof {
                            assert(votes.drop_last() =~= self.votes@);
                        }
                        self.votes = Ghost(votes);
                        self.state = acc.accumulate(v);
                        match &self.state {
                            ShareAccumulatorState::Good(p) => {
                                self.handed_out = true;
                                Ok(Some(p.clone()))
                            },
                            ShareAccumulatorState::Bad => {
                                self.handed_out = true;
                                Err(BadCiphertext)
                            },
                            ShareAccumulatorState::Accumulating(_) => Ok(None),
                        }
                    },
                }
            },
        }
    }
}

/// Applying `a` and then `b` is applying `a + b`.
pub proof fn lemma_run_concat<T: ThresholdEncryption>(
    tpke: T,
    ciphertext: Seq<u8>,
    phase: Phase<T::Share>,
    a: Seq<Option<T::Share>>,
    b: Seq<Option<T::Share>>,
)
    ensures
        run_votes(tpke, ciphertext, phase, a + b) == run_votes(
            tpke,
            ciphertext,
            run_votes(tpke, ciphertext, phase, a),
            b,
        ),
    decreases b.len(),
{
    if b.len() == 0 {
        assert(a + b =~= a);
    } else {
        assert((a + b).drop_last() =~= a + b.drop_last());
        assert((a + b).last() == b.last());
        lemma_run_concat(tpke, ciphertext, phase, a, b.drop_last());
    }
}

/// A resolved accumulator stays resolved, with the same value, whatever
/// votes arrive afterwards.
pub proof fn lemma_resolved_final<T: ThresholdEncryption>(
    tpke: T,
    ciphertext: Seq<u8>,
    phase: Phase<T::Share>,
    votes: Seq<Option<T::Share>>,
)
    requires
        is_resolved(phase),
    ensures
        run_votes(tpke, ciphertext, phase, votes) == phase,
    decreases votes.len(),
{
    if votes.len() > 0 {
        lemma_resolved_final(tpke, ciphertext, phase, votes.drop_last());
    }
}

/// A share that is not valid for the ciphertext changes nothing: it is
/// counted neither as an invalidity vote nor as a good share.
pub proof fn lemma_invalid_share_ignored<T: ThresholdEncryption>(
    tpke: T,
    ciphertext: Seq<u8>,
    phase: Phase<T::Share>,
    votes: Seq<Option<T::Share>>,
    share: T::Share,
)
    requires
        !tpke.valid_share(ciphertext, share),
    ensures
        run_votes(tpke, ciphertext, phase, votes.push(Some(share))) == run_votes(
            tpke,
            ciphertext,
            phase,
            votes,
        ),
        invalidity_votes(votes.push(Some(share))) == invalidity_votes(votes),
        valid_shares(tpke, ciphertext, votes.push(Some(share))) == valid_shares(
            tpke,
            ciphertext,
            votes,
        ),
{
    assert(votes.push(Some(share)).drop_last() =~= votes);
}

/// Before either resolution point is reached, an accumulator holds exactly
/// the invalidity votes and the valid shares delivered so far.
pub proof fn lemma_collecting<T: ThresholdEncryption>(
    tpke: T,
    ciphertext: Seq<u8>,
    votes: Seq<Option<T::Share>>,
)
    requires
        threshold_fits(tpke.threshold_of()),
        invalidity_votes(votes) < bad_quorum(tpke.threshold_of()),
        valid_shares(tpke, ciphertext, votes).len() < tpke.threshold_of(),
    ensures
        outcome(tpke, ciphertext, votes) == (Phase::Collecting {
            bad_votes: invalidity_votes(votes),
            good_shares: valid_shares(tpke, ciphertext, votes),
        }),
    decreases votes.len(),
{
    if votes.len() > 0 {
        lemma_collecting(tpke, ciphertext, votes.drop_last());
    }
}

/// Once `2f + 1` invalidity votes have arrived before `threshold` valid
/// shares, the accumulator resolves to `Bad`, and no later vote, valid shares
/// included, reopens it.
pub proof fn lemma_bad_quorum_is_final<T: ThresholdEncryption>(
    tpke: T,
    ciphertext: Seq<u8>,
    votes: Seq<Option<T::Share>>,
    later: Seq<Option<T::Share>>,
)
    requires
        threshold_fits(tpke.threshold_of()),
        invalidity_votes(votes) >= bad_quorum(tpke.threshold_of()),
        valid_shares(tpke, ciphertext, votes).len() < tpke.threshold_of(),
    ensures
        outcome(tpke, ciphertext, votes) == Phase::<T::Share>::Bad,
        outcome(tpke, ciphertext, votes + later) == Phase::<T::Share>::Bad,
{
    lemma_bad_quorum_reached(tpke, ciphertext, votes);
    lemma_run_concat(tpke, ciphertext, fresh(), votes, later);
    lemma_resolved_final(tpke, ciphertext, Phase::Bad, later);
}

proof fn lemma_bad_quorum_reached<T: ThresholdEncryption>(
    tpke: T,
    ciphertext: Seq<u8>,
    votes: Seq<Option<T::Share>>,
)
    requires
        threshold_fits(tpke.threshold_of()),
        invalidity_votes(votes) >= bad_quorum(tpke.threshold_of()),
        valid_shares(tpke, ciphertext, votes).len() < tpke.threshold_of(),
    ensures
        outcome(tpke, ciphertext, votes) == Phase::<T::Share>::Bad,
    decreases votes.len(),
{
    let before = votes.drop_last();
    if invalidity_votes(before) >= bad_quorum(tpke.threshold_of()) {
        lemma_bad_quorum_reached(tpke, ciphertext, before);
    } else {
        lemma_collecting(tpke, ciphertext, before);
    }
}

/// Once `threshold` valid shares have arrived, with fewer than `2f + 1`
/// invalidity votes among the votes so far, the accumulator resolves to the
/// plaintext that combining those shares gives (to `Bad` should combining
/// fail), and no later vote changes that.
pub proof fn lemma_threshold_is_final<T: ThresholdEncryption>(
    tpke: T,
    ciphertext: Seq<u8>,
    votes: Seq<Option<T::Share>>,
    later: Seq<Option<T::Share>>,
)
    requires
        threshold_fits(tpke.threshold_of()),
        invalidity_votes(votes) < bad_quorum(tpke.threshold_of()),
        valid_shares(tpke, ciphertext, votes).len() == tpke.threshold_of(),
    ensures
        outcome(tpke, ciphertext, votes + later) == match tpke.decryption(
            ciphertext,
            valid_shares(tpke, ciphertext, votes),
        ) {
            Some(p) => Phase::Good(p),
            None => Phase::<T::Share>::Bad,
        },
{
    lemma_threshold_reached(tpke, ciphertext, votes);
    lemma_run_concat(tpke, ciphertext, fresh(), votes, later);
    lemma_resolved_final(tpke, ciphertext, outcome(tpke, ciphertext, votes), later);
}

proof fn lemma_threshold_reached<T: ThresholdEncryption>(
    tpke: T,
    ciphertext: Seq<u8>,
    votes: Seq<Option<T::Share>>,
)
    requires
        threshold_fits(tpke.threshold_of()),
        invalidity_votes(votes) < bad_quorum(tpke.threshold_of()),
        valid_shares(tpke, ciphertext, votes).len() == tpke.threshold_of(),
    ensures
        outcome(tpke, ciphertext, votes) == match tpke.decryption(
            ciphertext,
            valid_shares(tpke, ciphertext, votes),
        ) {
            Some(p) => Phase::Good(p),
            None => Phase::<T::Share>::Bad,
        },
    decreases votes.len(),
{
    let before = votes.drop_last();
    if valid_shares(tpke, ciphertext, before).len() == tpke.threshold_of() {
        lemma_threshold_reached(tpke, ciphertext, before);
    } else {
        lemma_collecting(tpke, ciphertext, before);
    }
}


/// For an accumulator whose exchange has not ended: once `threshold` valid
/// shares are among its votes, with fewer than `2f + 1` invalidity votes
/// before the last of them, it holds the plaintext that combining those
/// shares gives (`Bad` should combining fail).
pub proof fn lemma_accumulator_threshold<T: ThresholdEncryption>(
    acc: ShareAccumulator<T>,
    votes: Seq<Option<T::Share>>,
    later: Seq<Option<T::Share>>,
)
    requires
        acc.wf(),
        !acc.ended(),
        acc.votes() == votes + later,
        invalidity_votes(votes) < bad_quorum(acc.scheme().threshold_of()),
        valid_shares(acc.scheme(), acc.ciphertext(), votes).len() == acc.scheme().threshold_of(),
    ensures
        acc.phase() == match acc.scheme().decryption(
            acc.ciphertext(),
            valid_shares(acc.scheme(), acc.ciphertext(), votes),
        ) {
            Some(p) => Phase::Good(p),
            None => Phase::<T::Share>::Bad,
        },
{
    lemma_threshold_is_final(acc.scheme(), acc.ciphertext(), votes, later);
}

/// For any accumulator: once `2f + 1` invalidity votes are among its votes
/// before `threshold` valid shares, it holds the bad verdict, whatever votes
/// followed.
pub proof fn lemma_accumulator_bad_quorum<T: ThresholdEncryption>(
    acc: ShareAccumulator<T>,
    votes: Seq<Option<T::Share>>,
    later: Seq<Option<T::Share>>,
)
    requires
        acc.wf(),
        acc.votes() == votes + later,
        invalidity_votes(votes) >= bad_quorum(acc.scheme().threshold_of()),
        valid_shares(acc.scheme(), acc.ciphertext(), votes).len() < acc.scheme().threshold_of(),
    ensures
        acc.phase() == Phase::<T::Share>::Bad,
{
    lemma_bad_quorum_is_final(acc.scheme(), acc.ciphertext(), votes, later);
}

} // verus!
