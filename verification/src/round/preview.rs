//! The host's decision between a round's execute and commit phases.
//!
//! A backend offers each round's licensed tokens before it commits them; the
//! preview answers with a verdict that may narrow the commit. The decision is
//! infinitum's: the backend applies it and commits the same way for the same
//! accepted length. [`Preview`] makes the output-budget decision and keeps the
//! ledger of every round it saw.
use vstd::prelude::*;
use crate::round::token::CountOverflow;
use crate::round::token::TokenCount;
use crate::round::token::TokenId;

verus! {

/// Which kind of round an offer comes from.
#[derive(Debug, Clone, Copy, PartialEq, Eq, Structural, Hash)]
pub enum RoundKind {
    /// A decode round: accepted drafts, then the correction or bonus token.
    Decode,
    /// The one token prefill finalization produced.
    PrefillFinalization,
}

/// One round's licensed tokens, offered before their commit.
#[derive(Debug, Clone, Copy, PartialEq, Eq)]
pub struct RoundOffer<'round> {
    /// The licensed tokens in order.
    licensed: &'round [TokenId],
    /// The round they come from.
    kind: RoundKind,
}

impl<'round> RoundOffer<'round> {
    /// The licensed tokens, in order.
    pub closed spec fn spec_licensed(self) -> Seq<TokenId> {
        self.licensed@
    }

    /// The round's kind.
    pub closed spec fn spec_kind(self) -> RoundKind {
        self.kind
    }

    /// An offer of `licensed` from a round of `kind`.
    pub fn new(licensed: &'round [TokenId], kind: RoundKind) -> (r: Self)
        ensures
            r.spec_licensed() == licensed@,
            r.spec_kind() == kind,
    {
        RoundOffer { licensed, kind }
    }

    /// The licensed tokens.
    pub fn licensed(&self) -> (r: &'round [TokenId])
        ensures
            r@ == self.spec_licensed(),
    {
        self.licensed
    }

    /// The round's kind.
    pub fn kind(&self) -> (r: RoundKind)
        ensures
            r == self.spec_kind(),
    {
        self.kind
    }
}

/// The most tokens of one round a commit may keep: at least one, because a
/// committed round always keeps a token.
#[derive(Debug, Clone, Copy, PartialEq, Eq, Structural, PartialOrd, Ord, Hash)]
pub struct RoundLimit(u32);

impl RoundLimit {
    #[verifier::type_invariant]
    spec fn positive(self) -> bool {
        self.0 > 0
    }

    /// The limit as a number.
    pub closed spec fn view(self) -> nat {
        self.0 as nat
    }

    /// Two limits of one value are one limit.
    pub proof fn lemma_view_injective(a: RoundLimit, b: RoundLimit)
        ensures
            a.view() == b.view() <==> a == b,
    {
    }

    /// The limit `limit`, when it is positive.
    pub fn new(limit: u32) -> (r: Option<Self>)
        ensures
            r is Some <==> limit > 0,
            r matches Some(l) ==> l.view() == limit,
    {
        if limit > 0 {
            Some(RoundLimit(limit))
        } else {
            None
        }
    }

    /// The limit as a number, at least one.
    pub fn get(self) -> (r: u32)
        ensures
            r == self.view(),
            r > 0,
    {
        proof {
            use_type_invariant(&self);
        }
        self.0
    }
}

/// The preview's answer for one round.
#[derive(Debug, Clone, Copy, PartialEq, Eq, Structural, Hash)]
pub enum RoundVerdict {
    /// Leave the round to the backend's output policy.
    Continue,
    /// Commit at most this many licensed tokens and finish the request at
    /// the limit.
    Limit(RoundLimit),
}

/// What the preview saw and decided for one round.
#[derive(Debug, Clone, Copy, PartialEq, Eq, Structural, Hash)]
pub struct RoundRecord {
    /// The round's kind.
    kind: RoundKind,
    /// Tokens the round licensed.
    licensed: TokenCount,
    /// Tokens the verdict admitted: all of them, or the limit.
    admitted: TokenCount,
}

impl RoundRecord {
    /// The round's kind.
    pub closed spec fn spec_kind(self) -> RoundKind {
        self.kind
    }

    /// Tokens the round licensed.
    pub closed spec fn spec_licensed(self) -> nat {
        self.licensed.0 as nat
    }

    /// Tokens the verdict admitted.
    pub closed spec fn spec_admitted(self) -> nat {
        self.admitted.0 as nat
    }

    /// The round's kind.
    pub fn kind(&self) -> (r: RoundKind)
        ensures
            r == self.spec_kind(),
    {
        self.kind
    }

    /// Tokens the round licensed.
    pub fn licensed(&self) -> (r: TokenCount)
        ensures
            r.0 == self.spec_licensed(),
    {
        self.licensed
    }

    /// Tokens the verdict admitted.
    pub fn admitted(&self) -> (r: TokenCount)
        ensures
            r.0 == self.spec_admitted(),
    {
        self.admitted
    }
}

/// The tokens the records admitted, over all of them.
pub open spec fn admitted_total(rounds: Seq<RoundRecord>) -> nat
    decreases rounds.len(),
{
    if rounds.len() == 0 {
        0
    } else {
        admitted_total(rounds.drop_last()) + rounds.last().spec_admitted()
    }
}

/// How many of `licensed` tokens a round admits when `remaining` are left of
/// the budget: all of them when they fit, else the remainder.
pub open spec fn admitted_of(licensed: nat, remaining: nat) -> nat {
    if licensed <= remaining {
        licensed
    } else {
        remaining
    }
}

/// The answer to a round of `licensed` tokens with `remaining` left: a limit
/// at the remainder when the round overruns a budget not yet spent, else
/// continue.
pub open spec fn verdict_is(verdict: RoundVerdict, licensed: nat, remaining: nat) -> bool {
    if licensed <= remaining || remaining == 0 {
        verdict == RoundVerdict::Continue
    } else {
        verdict matches RoundVerdict::Limit(limit) && limit.view() == remaining
    }
}

/// The output-budget decision and the ledger of rounds it made it for.
#[derive(Debug, PartialEq, Eq)]
pub struct Preview {
    /// The most tokens the request may commit.
    budget: TokenCount,
    /// Tokens admitted so far.
    admitted: TokenCount,
    /// Every round reviewed, in order.
    rounds: Vec<RoundRecord>,
    /// Every admitted token, in order.
    tokens: Vec<TokenId>,
}

impl Preview {
    /// The most tokens the request may commit.
    pub closed spec fn spec_budget(&self) -> nat {
        self.budget.0 as nat
    }

    /// Every round reviewed, in order.
    pub closed spec fn spec_rounds(&self) -> Seq<RoundRecord> {
        self.rounds@
    }

    /// Every admitted token, in order.
    pub closed spec fn spec_tokens(&self) -> Seq<TokenId> {
        self.tokens@
    }

    /// Tokens of the budget not yet admitted.
    pub open spec fn spec_remaining(&self) -> nat {
        (self.spec_budget() - self.spec_tokens().len()) as nat
    }

    /// The ledger agrees with itself: the admitted stream is as long as the
    /// records say, never past the budget, and no round admitted more than it
    /// licensed.
    pub closed spec fn well_formed(&self) -> bool {
        &&& self.admitted.0 == self.tokens@.len()
        &&& self.tokens@.len() <= self.budget.0
        &&& admitted_total(self.rounds@) == self.tokens@.len()
        &&& forall|i: int|
            0 <= i < self.rounds@.len() ==> #[trigger] self.rounds@[i].spec_admitted()
                <= self.rounds@[i].spec_licensed()
    }

    /// A preview that admits at most `budget` tokens over the request.
    pub fn new(budget: TokenCount) -> (r: Self)
        ensures
            r.well_formed(),
            r.spec_budget() == budget.0,
            r.spec_rounds() == Seq::<RoundRecord>::empty(),
            r.spec_tokens() == Seq::<TokenId>::empty(),
    {
        Preview { budget, admitted: TokenCount::zero(), rounds: Vec::new(), tokens: Vec::new() }
    }

    /// Review one round: record it, and admit all of its tokens when they fit
    /// what remains of the budget, answering `Continue`; admit the remainder
    /// and answer `Limit` at it when the round overruns. With no budget left
    /// the answer is `Continue` and nothing is admitted: a limit of zero does
    /// not exist. Fails, changing nothing, when the round is longer than a
    /// count can hold.
    pub fn review(&mut self, offer: RoundOffer<'_>) -> (r: Result<RoundVerdict, CountOverflow>)
        requires
            old(self).well_formed(),
        ensures
            final(self).well_formed(),
            final(self).spec_budget() == old(self).spec_budget(),
            offer.spec_licensed().len() > u32::MAX ==> r == Err::<RoundVerdict, CountOverflow>(
                CountOverflow,
            ) && final(self).spec_rounds() == old(self).spec_rounds() && final(self).spec_tokens()
                == old(self).spec_tokens(),
            offer.spec_licensed().len() <= u32::MAX ==> {
                let licensed = offer.spec_licensed().len();
                let admitted = admitted_of(licensed, old(self).spec_remaining());
                &&& r matches Ok(verdict) && verdict_is(
                    verdict,
                    licensed,
                    old(self).spec_remaining(),
                )
                &&& final(self).spec_tokens() == old(self).spec_tokens()
                    + offer.spec_licensed().take(admitted as int)
                &&& final(self).spec_rounds().len() == old(self).spec_rounds().len() + 1
                &&& final(self).spec_rounds().drop_last() == old(self).spec_rounds()
                &&& final(self).spec_rounds().last().spec_kind() == offer.spec_kind()
                &&& final(self).spec_rounds().last().spec_licensed() == licensed
                &&& final(self).spec_rounds().last().spec_admitted() == admitted
            },
    {
        let licensed = match TokenCount::of(offer.licensed) {
            Ok(count) => count,
            Err(overflow) => return Err(overflow),
        };
        let remaining = self.budget.saturating_sub(self.admitted);
        let (admitted, verdict) = if licensed.0 <= remaining.0 {
            (licensed, RoundVerdict::Continue)
        } else {
            match RoundLimit::new(remaining.0) {
                Some(limit) => (remaining, RoundVerdict::Limit(limit)),
                None => (TokenCount::zero(), RoundVerdict::Continue),
            }
        };
        let ghost before = self.tokens@;
        let mut kept: u32 = 0;
        while kept < admitted.0
            invariant
                admitted.0 <= offer.licensed@.len(),
                kept <= admitted.0,
                self.tokens@ == before + offer.licensed@.take(kept as int),
                self.budget == old(self).budget,
                self.admitted == old(self).admitted,
                self.rounds@ == old(self).rounds@,
            decreases admitted.0 - kept,
        {
            self.tokens.push(offer.licensed[kept as usize]);
            kept = kept + 1;
            assert(offer.licensed@.take(kept as int) == offer.licensed@.take((kept - 1) as int).push(
                offer.licensed@[kept - 1],
            ));
        }
        self.admitted = match self.admitted.checked_add(admitted) {
            Ok(sum) => sum,
            Err(overflow) => return Err(overflow),
        };
        let ghost rounds_before = self.rounds@;
        self.rounds.push(RoundRecord { kind: offer.kind, licensed, admitted });
        proof {
            assert(self.rounds@.drop_last() == rounds_before);
            assert forall|i: int| 0 <= i < self.rounds@.len() implies #[trigger] self.rounds@[i].spec_admitted()
                <= self.rounds@[i].spec_licensed() by {
                if i < rounds_before.len() {
                    assert(self.rounds@[i] == rounds_before[i]);
                }
            }
        }
        Ok(verdict)
    }

    /// Every round reviewed, in order.
    pub fn rounds(&self) -> (r: &[RoundRecord])
        ensures
            r@ == self.spec_rounds(),
    {
        self.rounds.as_slice()
    }

    /// Every admitted token, in order.
    pub fn tokens(&self) -> (r: &[TokenId])
        ensures
            r@ == self.spec_tokens(),
    {
        self.tokens.as_slice()
    }
}

/// The admitted stream never outgrows the budget, and it is exactly as long
/// as the rounds' admitted counts add up to, whatever rounds were reviewed.
pub proof fn law_admitted_within_budget(preview: Preview)
    requires
        preview.well_formed(),
    ensures
        preview.spec_tokens().len() <= preview.spec_budget(),
        admitted_total(preview.spec_rounds()) == preview.spec_tokens().len(),
        forall|i: int|
            0 <= i < preview.spec_rounds().len() ==> #[trigger] preview.spec_rounds()[i].spec_admitted()
                <= preview.spec_rounds()[i].spec_licensed(),
{
}

/// A round's admitted count is its limit whenever the verdict limits it: the
/// backend commits exactly the tokens the preview kept.
pub proof fn law_limit_is_admitted(verdict: RoundVerdict, licensed: nat, remaining: nat)
    requires
        verdict_is(verdict, licensed, remaining),
    ensures
        verdict matches RoundVerdict::Limit(limit) ==> limit.view() == admitted_of(licensed, remaining)
            && limit.view() < licensed,
        verdict == RoundVerdict::Continue ==> admitted_of(licensed, remaining) == licensed
            || remaining == 0,
{
}

/// An offer as the preview reads it: the round's kind and the tokens it
/// licensed.
pub type OfferView = (RoundKind, Seq<TokenId>);

/// `after` is `before` after one successful review of `offer`, as
/// [`Preview::review`] states it.
pub open spec fn reviewed(before: Preview, offer: OfferView, after: Preview) -> bool {
    let licensed = offer.1.len();
    let admitted = admitted_of(licensed, before.spec_remaining());
    &&& licensed <= u32::MAX
    &&& after.spec_budget() == before.spec_budget()
    &&& after.spec_tokens() == before.spec_tokens() + offer.1.take(admitted as int)
    &&& after.spec_rounds().len() == before.spec_rounds().len() + 1
    &&& after.spec_rounds().drop_last() == before.spec_rounds()
    &&& after.spec_rounds().last().spec_kind() == offer.0
    &&& after.spec_rounds().last().spec_licensed() == licensed
    &&& after.spec_rounds().last().spec_admitted() == admitted
}

/// The admitted stream of a run of offers: each offer's licensed tokens cut
/// to what its record admitted, in review order.
pub open spec fn admitted_stream(offers: Seq<OfferView>, rounds: Seq<RoundRecord>) -> Seq<TokenId>
    decreases offers.len(),
{
    if offers.len() == 0 {
        Seq::empty()
    } else {
        admitted_stream(offers.drop_last(), rounds) + offers.last().1.take(
            rounds[offers.len() - 1].spec_admitted() as int,
        )
    }
}

/// The admitted stream reads only the records of the offers it covers.
proof fn lemma_stream_reads_its_records(
    offers: Seq<OfferView>,
    a: Seq<RoundRecord>,
    b: Seq<RoundRecord>,
)
    requires
        a.len() >= offers.len(),
        b.len() >= offers.len(),
        forall|i: int| 0 <= i < offers.len() ==> a[i] == b[i],
    ensures
        admitted_stream(offers, a) == admitted_stream(offers, b),
    decreases offers.len(),
{
    if offers.len() > 0 {
        lemma_stream_reads_its_records(offers.drop_last(), a, b);
    }
}

/// After the first `k` reviews of a run, the records are one per offer, in
/// order, each with its offer's kind and licensed count; the tokens are the
/// admitted stream; and every earlier preview's records lead the later ones.
proof fn lemma_reviews_so_far(previews: Seq<Preview>, offers: Seq<OfferView>, k: int)
    requires
        previews.len() == offers.len() + 1,
        previews[0].spec_rounds() == Seq::<RoundRecord>::empty(),
        previews[0].spec_tokens() == Seq::<TokenId>::empty(),
        forall|i: int| 0 <= i < offers.len() ==> reviewed(previews[i], #[trigger] offers[i], previews[i + 1]),
        0 <= k <= offers.len(),
    ensures
        previews[k].spec_rounds().len() == k,
        forall|j: int| 0 <= j <= k ==> (#[trigger] previews[j].spec_rounds()).len() == j,
        forall|i: int|
            0 <= i < k ==> (#[trigger] previews[k].spec_rounds()[i]).spec_kind() == offers[i].0
                && previews[k].spec_rounds()[i].spec_licensed() == offers[i].1.len(),
        previews[k].spec_tokens() == admitted_stream(offers.take(k), previews[k].spec_rounds()),
        forall|j: int|
            0 <= j <= k ==> previews[k].spec_rounds().take(#[trigger] previews[j].spec_rounds().len() as int)
                == previews[j].spec_rounds(),
    decreases k,
{
    if k == 0 {
        assert(offers.take(0) =~= Seq::<OfferView>::empty());
        assert(previews[0].spec_rounds().take(0) =~= previews[0].spec_rounds());
    } else {
        lemma_reviews_so_far(previews, offers, k - 1);
        let before = previews[k - 1];
        let after = previews[k];
        assert(reviewed(previews[k - 1], offers[k - 1], previews[k]));
        assert forall|i: int| 0 <= i < k - 1 implies after.spec_rounds()[i] == before.spec_rounds()[i] by {
            assert(after.spec_rounds().drop_last()[i] == after.spec_rounds()[i]);
        }
        assert(offers.take(k).drop_last() =~= offers.take(k - 1));
        assert(offers.take(k).last() == offers[k - 1]);
        lemma_stream_reads_its_records(offers.take(k - 1), before.spec_rounds(), after.spec_rounds());
        assert forall|j: int| 0 <= j <= k implies after.spec_rounds().take(
            #[trigger] previews[j].spec_rounds().len() as int,
        ) == previews[j].spec_rounds() by {
            if j < k {
                assert(before.spec_rounds().take(previews[j].spec_rounds().len() as int)
                    == previews[j].spec_rounds());
                assert(after.spec_rounds().take(previews[j].spec_rounds().len() as int)
                    =~= before.spec_rounds().take(previews[j].spec_rounds().len() as int));
            } else {
                assert(after.spec_rounds().take(after.spec_rounds().len() as int) =~= after.spec_rounds());
            }
        }
    }
}

/// After any number of successful reviews from a fresh preview, there is
/// one record per review, in order, with its offer's kind and licensed
/// count; a review only appends, never changing an earlier record; and the
/// admitted tokens are each offer's licensed tokens cut to what its record
/// admitted, in review order, never more than the budget.
pub proof fn law_reviews_append(previews: Seq<Preview>, offers: Seq<OfferView>)
    requires
        previews.len() == offers.len() + 1,
        forall|i: int| 0 <= i < previews.len() ==> (#[trigger] previews[i]).well_formed(),
        previews[0].spec_rounds() == Seq::<RoundRecord>::empty(),
        previews[0].spec_tokens() == Seq::<TokenId>::empty(),
        forall|i: int| 0 <= i < offers.len() ==> reviewed(previews[i], #[trigger] offers[i], previews[i + 1]),
    ensures
        ({
            let last = previews.last();
            &&& last.spec_rounds().len() == offers.len()
            &&& forall|i: int|
                0 <= i < offers.len() ==> (#[trigger] last.spec_rounds()[i]).spec_kind()
                    == offers[i].0 && last.spec_rounds()[i].spec_licensed() == offers[i].1.len()
            &&& forall|j: int|
                0 <= j < previews.len() ==> last.spec_rounds().take(
                    #[trigger] previews[j].spec_rounds().len() as int,
                ) == previews[j].spec_rounds()
            &&& last.spec_tokens() == admitted_stream(offers, last.spec_rounds())
            &&& last.spec_tokens().len() <= last.spec_budget()
        }),
{
    let k = offers.len() as int;
    lemma_reviews_so_far(previews, offers, k);
    assert(offers.take(k) =~= offers);
    assert(previews.last() == previews[k]);
    law_admitted_within_budget(previews[k]);
}

} // verus!
