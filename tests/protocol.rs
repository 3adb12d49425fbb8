use elements_swap::funding::{select_inputs_for, Candidate, OutPoint, TxOut};
use elements_swap::confidential::{
    commitments_balance, AssetBlindingFactor, AssetGenerator, AssetId, ValueBlindingFactor,
    ValueCommitment,
};
use elements_swap::protocol::{
    same_asset, Action, Counterparty, Event, Proposal, Rejection, SwapState,
};
use elements_swap::rate::{fixed_rate, Rate};

const BTC: AssetId = AssetId([0xb7; 32]);
const USDT: AssetId = AssetId([0x75; 32]);
const ONE_BTC: u64 = 100_000_000;

fn bob() -> Counterparty {
    Counterparty { btc_asset_id: BTC, usdt_asset_id: USDT }
}

fn proposal(buy_amount: u64) -> Proposal {
    Proposal { sell_asset: BTC, buy_asset: USDT, sell_amount: ONE_BTC, buy_amount }
}

#[test]
fn unknown_asset_is_rejected_without_lock() {
    let mut p = proposal(ONE_BTC);
    p.buy_asset = AssetId([0x01; 32]);
    let (state, action) = bob().step(SwapState::Idle, Event::Proposed(p));
    assert_eq!(state, SwapState::Rejected(Rejection::UnknownAsset));
    assert_eq!(action, Action::Reject(Rejection::UnknownAsset));
    for event in [Event::RateQuoted(fixed_rate()), Event::FundingLocked] {
        let (next, action) = bob().step(state, event);
        assert_eq!(next, state);
        assert_eq!(action, Action::Ignore);
    }
}

#[test]
fn swapped_assets_are_rejected() {
    let p = Proposal { sell_asset: USDT, buy_asset: BTC, sell_amount: 1, buy_amount: 1 };
    let (state, _) = bob().step(SwapState::Idle, Event::Proposed(p));
    assert_eq!(state, SwapState::Rejected(Rejection::UnknownAsset));
}

#[test]
fn lock_conflict_rejects_second_swap() {
    let first = bob().step(SwapState::Funding(proposal(ONE_BTC)), Event::FundingLocked);
    assert_eq!(first, (SwapState::Signing(proposal(ONE_BTC)), Action::BalanceAndSign(proposal(ONE_BTC))));
    let second = bob().step(SwapState::Funding(proposal(ONE_BTC)), Event::LockConflict);
    assert_eq!(
        second,
        (SwapState::Rejected(Rejection::LockConflict), Action::Reject(Rejection::LockConflict))
    );
}

#[test]
fn missing_funds_and_unexpected_events() {
    let r = bob().step(SwapState::Funding(proposal(1)), Event::FundingUnavailable);
    assert_eq!(r.0, SwapState::Rejected(Rejection::InsufficientFunds));
    let r = bob().step(SwapState::Idle, Event::FundingLocked);
    assert_eq!(r.1, Action::Reject(Rejection::UnexpectedEvent));
}

#[test]
fn request_above_quote_is_rejected() {
    let rate = Rate::new(1, 2).unwrap();
    let r = bob().step(SwapState::Quoting(proposal(ONE_BTC / 2 + 1)), Event::RateQuoted(rate));
    assert_eq!(r, (SwapState::Rejected(Rejection::AboveQuote), Action::Reject(Rejection::AboveQuote)));
    let r = bob().step(SwapState::Quoting(proposal(ONE_BTC / 2)), Event::RateQuoted(rate));
    assert_eq!(r.1, Action::SelectAndLock { asset: USDT, amount: ONE_BTC / 2 });
}

#[test]
fn asset_comparison() {
    assert!(same_asset(&BTC, &BTC));
    let mut near = BTC;
    near.0[31] = 0;
    assert!(!same_asset(&BTC, &near));
}

fn scalar(k: u8) -> [u8; 32] {
    let mut b = [0u8; 32];
    b[31] = k;
    b
}

#[test]
fn end_to_end_swap_balances() {
    // the initiator sells one unit of BTC for USDt at the fixed rate
    let rate = fixed_rate();
    let wanted = rate.convert(ONE_BTC).unwrap();
    let p = proposal(wanted);
    let mut state = SwapState::Idle;
    let mut actions = Vec::new();
    for event in [Event::Proposed(p), Event::RateQuoted(rate), Event::FundingLocked, Event::Signed] {
        let (next, action) = bob().step(state, event);
        state = next;
        actions.push(action);
    }
    assert_eq!(
        actions,
        vec![
            Action::FetchRate,
            Action::SelectAndLock { asset: USDT, amount: ONE_BTC },
            Action::BalanceAndSign(p),
            Action::Answer(p),
        ]
    );
    assert_eq!(state, SwapState::Completed(p));

    let abf = |k| AssetBlindingFactor::from_slice(&scalar(k)).unwrap();
    let vbf = |k| ValueBlindingFactor::from_slice(&scalar(k)).unwrap();
    let commit = |asset: AssetId, v: u64, a: AssetBlindingFactor, b: ValueBlindingFactor| {
        ValueCommitment::new(v, &AssetGenerator::new(asset, a), b).unwrap()
    };
    // alice's BTC input, bob's USDt input; alice's USDt output, bob's BTC output
    let inputs = [(ONE_BTC, abf(1), vbf(2)), (wanted, abf(3), vbf(4))];
    let outputs = [(wanted, abf(5), vbf(6))];
    let last = ValueBlindingFactor::last(ONE_BTC, abf(7), &inputs, &outputs);
    let ins = [commit(BTC, ONE_BTC, abf(1), vbf(2)), commit(USDT, wanted, abf(3), vbf(4))];
    let alice_out = commit(USDT, wanted, abf(5), vbf(6));
    assert_eq!(alice_out, commit(USDT, ONE_BTC, abf(5), vbf(6)));
    let outs = [alice_out, commit(BTC, ONE_BTC, abf(7), last)];
    assert!(commitments_balance(&ins, &outs));
}

#[test]
fn funding_keeps_matching_outputs_in_order() {
    let out = |t: u8| TxOut { asset: vec![0x0a, t], value: vec![0x08, t], nonce: vec![], script_pubkey: vec![0x00, 0x14, t] };
    let c = |t: u8, asset: AssetId| Candidate { outpoint: OutPoint { txid: [t; 32], vout: t as u32 }, txout: out(t), asset };
    let candidates = [c(1, USDT), c(2, BTC), c(3, USDT), c(4, AssetId([0; 32]))];
    let chosen = select_inputs_for(&candidates, USDT);
    assert_eq!(
        chosen,
        vec![
            (OutPoint { txid: [1; 32], vout: 1 }, out(1)),
            (OutPoint { txid: [3; 32], vout: 3 }, out(3)),
        ]
    );
    assert_eq!(out(7).duplicate(), out(7));
    assert!(select_inputs_for(&[], USDT).is_empty());
    assert!(select_inputs_for(&candidates[1..2], USDT).is_empty());
}

#[test]
fn failure_after_lock_releases_funding() {
    let p = proposal(ONE_BTC);
    let r = bob().step(SwapState::Signing(p), Event::SigningFailed);
    assert_eq!(
        r,
        (SwapState::Rejected(Rejection::SigningFailed), Action::ReleaseAndReject(Rejection::SigningFailed))
    );
    let r = bob().step(SwapState::Signing(p), Event::FundingLocked);
    assert_eq!(r.1, Action::ReleaseAndReject(Rejection::UnexpectedEvent));
    let r = bob().step(SwapState::Signing(p), Event::Signed);
    assert_eq!(r, (SwapState::Completed(p), Action::Answer(p)));
    let r = bob().step(SwapState::Completed(p), Event::SigningFailed);
    assert_eq!(r, (SwapState::Completed(p), Action::Ignore));
}
