//! Choosing the funding inputs of a swap leg among the outputs that the
//! ledger's coin selection proposed.

use crate::confidential::AssetId;
use crate::protocol::same_asset;
use vstd::prelude::*;

verus! {

/// A reference to a transaction output: the id of its transaction and its index.
#[derive(Clone, Copy, Debug, PartialEq, Eq)]
pub struct OutPoint {
    pub txid: [u8; 32],
    pub vout: u32,
}

/// A transaction output as it stands on the ledger, each field in its
/// consensus encoding: the (possibly blinded) asset, value and nonce, and
/// the locking script.
#[derive(Clone, Debug, PartialEq, Eq)]
pub struct TxOut {
    pub asset: Vec<u8>,
    pub value: Vec<u8>,
    pub nonce: Vec<u8>,
    pub script_pubkey: Vec<u8>,
}

impl View for TxOut {
    type V = (Seq<u8>, Seq<u8>, Seq<u8>, Seq<u8>);

    open spec fn view(&self) -> Self::V {
        (self.asset@, self.value@, self.nonce@, self.script_pubkey@)
    }
}

impl TxOut {
    /// A copy of the output.
    pub fn duplicate(&self) -> (r: Self)
        ensures
            r@ == self@,
    {
        TxOut {
            asset: self.asset.clone(),
            value: self.value.clone(),
            nonce: self.nonce.clone(),
            script_pubkey: self.script_pubkey.clone(),
        }
    }
}

/// An output that coin selection proposed: where it is, what it is, and the
/// asset it holds once unblinded.
#[derive(Clone, Debug, PartialEq, Eq)]
pub struct Candidate {
    pub outpoint: OutPoint,
    pub txout: TxOut,
    pub asset: AssetId,
}

/// The outpoints and outputs of the candidates that hold `asset`, in their order.
pub open spec fn inputs_of_asset(candidates: Seq<Candidate>, asset: AssetId) -> Seq<
    (OutPoint, (Seq<u8>, Seq<u8>, Seq<u8>, Seq<u8>)),
>
    decreases candidates.len(),
{
    if candidates.len() == 0 {
        Seq::empty()
    } else {
        let rest = inputs_of_asset(candidates.drop_last(), asset);
        if candidates.last().asset.0@ == asset.0@ {
            rest.push((candidates.last().outpoint, candidates.last().txout@))
        } else {
            rest
        }
    }
}

/// The views of a list of selected inputs.
pub open spec fn selected_view(r: Seq<(OutPoint, TxOut)>) -> Seq<
    (OutPoint, (Seq<u8>, Seq<u8>, Seq<u8>, Seq<u8>)),
> {
    r.map_values(|e: (OutPoint, TxOut)| (e.0, e.1@))
}

/// Keeps, in order, the outpoint and output of each candidate that holds
/// `asset`: the others pay for something else and are not this leg's funding.
pub fn select_inputs_for(candidates: &[Candidate], asset: AssetId) -> (r: Vec<(OutPoint, TxOut)>)
    ensures
        selected_view(r@) == inputs_of_asset(candidates@, asset),
{
    let mut r: Vec<(OutPoint, TxOut)> = Vec::new();
    let mut i: usize = 0;
    while i < candidates.len()
        invariant
            0 <= i <= candidates@.len(),
            selected_view(r@) == inputs_of_asset(candidates@.subrange(0, i as int), asset),
        decreases candidates@.len() - i,
    {
        let c = &candidates[i];
        assert(candidates@.subrange(0, i as int + 1).drop_last() =~= candidates@.subrange(
            0,
            i as int,
        ));
        if same_asset(&c.asset, &asset) {
            let ghost before = r@;
            r.push((c.outpoint, c.txout.duplicate()));
            assert(selected_view(r@) =~= selected_view(before).push((c.outpoint, c.txout@)));
        }
        i = i + 1;
    }
    assert(candidates@.subrange(0, candidates@.len() as int) =~= candidates@);
    r
}

/// No two candidates share an outpoint.
pub open spec fn candidates_distinct(cs: Seq<Candidate>) -> bool {
    forall|i: int, j: int|
        0 <= i < j < cs.len() ==> (#[trigger] cs[i]).outpoint != (#[trigger] cs[j]).outpoint
}

proof fn lemma_selected_come_from(cs: Seq<Candidate>, asset: AssetId)
    ensures
        forall|k: int|
            0 <= k < inputs_of_asset(cs, asset).len() ==> exists|j: int|
                0 <= j < cs.len() && (#[trigger] inputs_of_asset(cs, asset)[k]).0
                    == cs[j].outpoint,
    decreases cs.len(),
{
    if cs.len() > 0 {
        let d = cs.drop_last();
        lemma_selected_come_from(d, asset);
        let r = inputs_of_asset(cs, asset);
        let rd = inputs_of_asset(d, asset);
        assert forall|k: int| 0 <= k < r.len() implies exists|j: int|
            0 <= j < cs.len() && (#[trigger] r[k]).0 == cs[j].outpoint by {
            if k < rd.len() {
                assert(r[k] == rd[k]);
                let j = choose|j: int| 0 <= j < d.len() && rd[k].0 == d[j].outpoint;
                assert(d[j] == cs[j]);
            } else {
                assert(r[k].0 == cs[cs.len() - 1].outpoint);
            }
        }
    }
}

/// Selection never repeats an outpoint: where the candidates are distinct,
/// so are the selected inputs.
pub proof fn lemma_selection_distinct(cs: Seq<Candidate>, asset: AssetId)
    requires
        candidates_distinct(cs),
    ensures
        forall|i: int, j: int|
            0 <= i < j < inputs_of_asset(cs, asset).len() ==> (#[trigger] inputs_of_asset(
                cs,
                asset,
            )[i]).0 != (#[trigger] inputs_of_asset(cs, asset)[j]).0,
    decreases cs.len(),
{
    if cs.len() > 0 {
        let d = cs.drop_last();
        assert forall|i: int, j: int| 0 <= i < j < d.len() implies (#[trigger] d[i]).outpoint
            != (#[trigger] d[j]).outpoint by {
            assert(d[i] == cs[i] && d[j] == cs[j]);
        }
        lemma_selection_distinct(d, asset);
        lemma_selected_come_from(d, asset);
        let r = inputs_of_asset(cs, asset);
        let rd = inputs_of_asset(d, asset);
        assert forall|i: int, j: int| 0 <= i < j < r.len() implies (#[trigger] r[i]).0 != (
        #[trigger] r[j]).0 by {
            if j < rd.len() {
                assert(r[i] == rd[i] && r[j] == rd[j]);
            } else {
                assert(r[i] == rd[i]);
                let m = choose|m: int| 0 <= m < d.len() && (#[trigger] rd[i]).0 == d[m].outpoint;
                assert(d[m] == cs[m]);
                assert(cs[m].outpoint != cs[cs.len() - 1].outpoint);
            }
        }
    }
}

} // verus!
