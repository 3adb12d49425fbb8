//! The counterparty's side of a two-message swap, as a state machine: each
//! event that the outside world reports gives the next state and the one
//! action to perform. Nothing here talks to the network or the ledger.

use crate::confidential::AssetId;
use crate::rate::Rate;
use vstd::prelude::*;

verus! {

/// What the initiator proposes: to give `sell_amount` of `sell_asset` for
/// `buy_amount` of `buy_asset`.
#[derive(Clone, Copy, Debug, PartialEq, Eq)]
pub struct Proposal {
    pub sell_asset: AssetId,
    pub buy_asset: AssetId,
    pub sell_amount: u64,
    pub buy_amount: u64,
}

/// Why a swap attempt ended without a transaction.
#[derive(Clone, Copy, Debug, PartialEq, Eq, Structural)]
pub enum Rejection {
    /// The proposal names an asset that this counterparty does not trade.
    UnknownAsset,
    /// The proposal asks for more than the current rate gives.
    AboveQuote,
    /// The ledger found no funding for the counterparty's leg.
    InsufficientFunds,
    /// The funding that the ledger chose is locked by another swap.
    LockConflict,
    /// Balancing or signing the counterparty's leg failed.
    SigningFailed,
    /// An event that the current state does not expect.
    UnexpectedEvent,
}

/// Where a swap attempt stands.
#[derive(Clone, Copy, Debug, PartialEq, Eq)]
pub enum SwapState {
    /// Nothing received yet.
    Idle,
    /// A proposal for known assets came; the rate is being fetched.
    Quoting(Proposal),
    /// The amount is accepted; funding is being selected and locked.
    Funding(Proposal),
    /// Funding is locked; the leg is being balanced and signed.
    Signing(Proposal),
    /// The signed leg was answered (terminal).
    Completed(Proposal),
    /// The attempt failed (terminal).
    Rejected(Rejection),
}

/// What the outside world reports.
#[derive(Clone, Copy, Debug, PartialEq, Eq)]
pub enum Event {
    Proposed(Proposal),
    RateQuoted(Rate),
    FundingLocked,
    FundingUnavailable,
    LockConflict,
    Signed,
    SigningFailed,
}

/// What the counterparty is to do next.
#[derive(Clone, Copy, Debug, PartialEq, Eq)]
pub enum Action {
    /// Ask the rate source for the current rate.
    FetchRate,
    /// Select funding of `amount` of `asset` and lock it against other swaps.
    SelectAndLock { asset: AssetId, amount: u64 },
    /// Compute the balancing blinding factor, sign and answer.
    BalanceAndSign(Proposal),
    /// Answer with the signed leg.
    Answer(Proposal),
    /// Answer with a rejection.
    Reject(Rejection),
    /// Release the funding locked for this attempt, then answer with a rejection.
    ReleaseAndReject(Rejection),
    /// Nothing: the attempt is over.
    Ignore,
}

/// The counterparty: it sells `usdt_asset_id` for `btc_asset_id`.
#[derive(Clone, Copy, Debug, PartialEq, Eq)]
pub struct Counterparty {
    pub btc_asset_id: AssetId,
    pub usdt_asset_id: AssetId,
}

impl Counterparty {
    /// The proposal sells the asset this counterparty buys and asks for the
    /// one it sells.
    pub open spec fn trades(self, p: Proposal) -> bool {
        p.sell_asset.0@ == self.btc_asset_id.0@ && p.buy_asset.0@ == self.usdt_asset_id.0@
    }

    /// The state and action that follow `event` in `state`.
    pub open spec fn step_spec(self, state: SwapState, event: Event) -> (SwapState, Action) {
        let unexpected = (
            SwapState::Rejected(Rejection::UnexpectedEvent),
            Action::Reject(Rejection::UnexpectedEvent),
        );
        match state {
            SwapState::Idle => match event {
                Event::Proposed(p) => if self.trades(p) {
                    (SwapState::Quoting(p), Action::FetchRate)
                } else {
                    (
                        SwapState::Rejected(Rejection::UnknownAsset),
                        Action::Reject(Rejection::UnknownAsset),
                    )
                },
                _ => unexpected,
            },
            SwapState::Quoting(p) => match event {
                Event::RateQuoted(rate) => if p.buy_amount > rate.convert_spec(p.sell_amount as nat) {
                    (
                        SwapState::Rejected(Rejection::AboveQuote),
                        Action::Reject(Rejection::AboveQuote),
                    )
                } else {
                    (
                        SwapState::Funding(p),
                        Action::SelectAndLock { asset: self.usdt_asset_id, amount: p.buy_amount },
                    )
                },
                _ => unexpected,
            },
            SwapState::Funding(p) => match event {
                Event::FundingLocked => (SwapState::Signing(p), Action::BalanceAndSign(p)),
                Event::FundingUnavailable => (
                    SwapState::Rejected(Rejection::InsufficientFunds),
                    Action::Reject(Rejection::InsufficientFunds),
                ),
                Event::LockConflict => (
                    SwapState::Rejected(Rejection::LockConflict),
                    Action::Reject(Rejection::LockConflict),
                ),
                _ => unexpected,
            },
            SwapState::Signing(p) => match event {
                Event::Signed => (SwapState::Completed(p), Action::Answer(p)),
                Event::SigningFailed => (
                    SwapState::Rejected(Rejection::SigningFailed),
                    Action::ReleaseAndReject(Rejection::SigningFailed),
                ),
                _ => (
                    SwapState::Rejected(Rejection::UnexpectedEvent),
                    Action::ReleaseAndReject(Rejection::UnexpectedEvent),
                ),
            },
            SwapState::Completed(_) => (state, Action::Ignore),
            SwapState::Rejected(_) => (state, Action::Ignore),
        }
    }

    /// The state after a run of events, and the actions taken on the way.
    pub open spec fn run(self, state: SwapState, events: Seq<Event>) -> (SwapState, Seq<Action>)
        decreases events.len(),
    {
        if events.len() == 0 {
            (state, Seq::empty())
        } else {
            let (next, action) = self.step_spec(state, events[0]);
            let (last, rest) = self.run(next, events.drop_first());
            (last, seq![action].add(rest))
        }
    }

    /// The state and action that follow `event` in `state`.
    pub fn step(&self, state: SwapState, event: Event) -> (r: (SwapState, Action))
        ensures
            r == self.step_spec(state, event),
    {
        let unexpected = (
            SwapState::Rejected(Rejection::UnexpectedEvent),
            Action::Reject(Rejection::UnexpectedEvent),
        );
        match state {
            SwapState::Idle => match event {
                Event::Proposed(p) => {
                    if same_asset(&p.sell_asset, &self.btc_asset_id) && same_asset(
                        &p.buy_asset,
                        &self.usdt_asset_id,
                    ) {
                        (SwapState::Quoting(p), Action::FetchRate)
                    } else {
                        (
                            SwapState::Rejected(Rejection::UnknownAsset),
                            Action::Reject(Rejection::UnknownAsset),
                        )
                    }
                },
                _ => unexpected,
            },
            SwapState::Quoting(p) => match event {
                Event::RateQuoted(rate) => {
                    let above = match rate.convert(p.sell_amount) {
                        Some(quote) => p.buy_amount > quote,
                        None => false,
                    };
                    if above {
                        (
                            SwapState::Rejected(Rejection::AboveQuote),
                            Action::Reject(Rejection::AboveQuote),
                        )
                    } else {
                        (
                            SwapState::Funding(p),
                            Action::SelectAndLock {
                                asset: self.usdt_asset_id,
                                amount: p.buy_amount,
                            },
                        )
                    }
                },
                _ => unexpected,
            },
            SwapState::Funding(p) => match event {
                Event::FundingLocked => (SwapState::Signing(p), Action::BalanceAndSign(p)),
                Event::FundingUnavailable => (
                    SwapState::Rejected(Rejection::InsufficientFunds),
                    Action::Reject(Rejection::InsufficientFunds),
                ),
                Event::LockConflict => (
                    SwapState::Rejected(Rejection::LockConflict),
                    Action::Reject(Rejection::LockConflict),
                ),
                _ => unexpected,
            },
            SwapState::Signing(p) => match event {
                Event::Signed => (SwapState::Completed(p), Action::Answer(p)),
                Event::SigningFailed => (
                    SwapState::Rejected(Rejection::SigningFailed),
                    Action::ReleaseAndReject(Rejection::SigningFailed),
                ),
                _ => (
                    SwapState::Rejected(Rejection::UnexpectedEvent),
                    Action::ReleaseAndReject(Rejection::UnexpectedEvent),
                ),
            },
            SwapState::Completed(_) => (state, Action::Ignore),
            SwapState::Rejected(_) => (state, Action::Ignore),
        }
    }
}

/// Whether two asset ids are the same 32 bytes.
pub fn same_asset(a: &AssetId, b: &AssetId) -> (r: bool)
    ensures
        r == (a.0@ == b.0@),
{
    let mut i: usize = 0;
    while i < 32
        invariant
            0 <= i <= 32,
            a.0@.len() == 32,
            b.0@.len() == 32,
            forall|j: int| 0 <= j < i ==> a.0@[j] == b.0@[j],
        decreases 32 - i,
    {
        if a.0[i] != b.0[i] {
            return false;
        }
        i = i + 1;
    }
    assert(a.0@ =~= b.0@);
    true
}

/// Whether an action locks funding.
pub open spec fn locks(a: Action) -> bool {
    a is SelectAndLock
}

/// A rejected attempt stays rejected and does nothing more, whatever comes.
pub proof fn lemma_rejected_is_final(c: Counterparty, why: Rejection, events: Seq<Event>)
    ensures
        c.run(SwapState::Rejected(why), events).0 == SwapState::Rejected(why),
        forall|i: int|
            0 <= i < events.len() ==> #[trigger] c.run(SwapState::Rejected(why), events).1[i]
                == Action::Ignore,
        c.run(SwapState::Rejected(why), events).1.len() == events.len(),
    decreases events.len(),
{
    if events.len() > 0 {
        lemma_rejected_is_final(c, why, events.drop_first());
        let rest = c.run(SwapState::Rejected(why), events.drop_first()).1;
        assert forall|i: int| 0 <= i < events.len() implies #[trigger] c.run(
            SwapState::Rejected(why),
            events,
        ).1[i] == Action::Ignore by {
            if i > 0 {
                assert(c.run(SwapState::Rejected(why), events).1[i] == rest[i - 1]);
            }
        }
    }
}

/// A proposal that names an asset this counterparty does not trade is
/// rejected at once, and no funding is ever locked for it, whatever events
/// follow.
pub proof fn lemma_unknown_asset_never_locks(c: Counterparty, p: Proposal, rest: Seq<Event>)
    requires
        !c.trades(p),
    ensures
        c.run(SwapState::Idle, seq![Event::Proposed(p)].add(rest)).0 == SwapState::Rejected(
            Rejection::UnknownAsset,
        ),
        forall|i: int|
            0 <= i < rest.len() + 1 ==> !locks(
                #[trigger] c.run(SwapState::Idle, seq![Event::Proposed(p)].add(rest)).1[i],
            ),
{
    let events = seq![Event::Proposed(p)].add(rest);
    assert(events.drop_first() =~= rest);
    lemma_rejected_is_final(c, Rejection::UnknownAsset, rest);
    let tail = c.run(SwapState::Rejected(Rejection::UnknownAsset), rest).1;
    assert forall|i: int| 0 <= i < rest.len() + 1 implies !locks(
        #[trigger] c.run(SwapState::Idle, events).1[i],
    ) by {
        if i > 0 {
            assert(c.run(SwapState::Idle, events).1[i] == tail[i - 1]);
        }
    }
}

/// When the funding chosen for a swap is locked by another one, the swap is
/// rejected for that reason and never goes on to balance and sign.
pub proof fn lemma_lock_conflict_rejects(c: Counterparty, p: Proposal, rest: Seq<Event>)
    ensures
        c.run(SwapState::Funding(p), seq![Event::LockConflict].add(rest)).0
            == SwapState::Rejected(Rejection::LockConflict),
        forall|i: int|
            0 <= i < rest.len() + 1 ==> !(#[trigger] c.run(
                SwapState::Funding(p),
                seq![Event::LockConflict].add(rest),
            ).1[i] is BalanceAndSign),
{
    let events = seq![Event::LockConflict].add(rest);
    assert(events.drop_first() =~= rest);
    lemma_rejected_is_final(c, Rejection::LockConflict, rest);
    let tail = c.run(SwapState::Rejected(Rejection::LockConflict), rest).1;
    assert forall|i: int| 0 <= i < rest.len() + 1 implies !(#[trigger] c.run(
        SwapState::Funding(p),
        events,
    ).1[i] is BalanceAndSign) by {
        if i > 0 {
            assert(c.run(SwapState::Funding(p), events).1[i] == tail[i - 1]);
        }
    }
}

/// Once funding is locked, every outcome but a signed leg rejects the
/// attempt and releases that funding: no failed attempt keeps outputs locked.
pub proof fn lemma_failure_after_lock_releases(c: Counterparty, p: Proposal, event: Event)
    requires
        event != Event::Signed,
    ensures
        c.step_spec(SwapState::Signing(p), event).0 is Rejected,
        c.step_spec(SwapState::Signing(p), event).1 is ReleaseAndReject,
        c.step_spec(SwapState::Signing(p), event).1->ReleaseAndReject_0 == c.step_spec(
            SwapState::Signing(p),
            event,
        ).0->Rejected_0,
{
}

/// Funding is locked only on the way to signing: a step that locks leaves the
/// attempt waiting for the lock, and the lock is followed by signing, whose
/// failure releases it.
pub proof fn lemma_lock_only_when_accepted(c: Counterparty, state: SwapState, event: Event)
    requires
        locks(c.step_spec(state, event).1),
    ensures
        state is Quoting,
        event is RateQuoted,
        c.step_spec(state, event).0 == SwapState::Funding(state->Quoting_0),
        state->Quoting_0.buy_amount <= event->RateQuoted_0.convert_spec(
            state->Quoting_0.sell_amount as nat,
        ),
{
}

} // verus!
