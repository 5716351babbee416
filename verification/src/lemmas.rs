//! Proof support: how sums and upserts over the ledger's sequences behave.

use vstd::prelude::*;

use crate::model::{
    buy_amount, buy_index, buy_sum, buys_after_deposit, buys_unique, lemma_buy_index,
    lemma_buy_index_is, lemma_wl_index, pow10, whitelist_bounded, whitelist_unique,
    whitelist_upsert, whitelist_upsert_all, wl_index, PhaseBuyM, WhitelistUserM,
};

verus! {

/// A sum of nonnegative counters is nonnegative.
pub proof fn lemma_buy_sum_nonneg(bp: Seq<PhaseBuyM>)
    requires
        forall|i: int| 0 <= i < bp.len() ==> 0 <= #[trigger] bp[i].amount,
    ensures
        buy_sum(bp) >= 0,
    decreases bp.len(),
{
    if bp.len() > 0 {
        assert(forall|i: int| 0 <= i < bp.drop_last().len() ==> 0 <= #[trigger] bp.drop_last()[i].amount);
        lemma_buy_sum_nonneg(bp.drop_last());
    }
}

/// Each nonnegative counter is at most the whole sum.
pub proof fn lemma_buy_sum_ge_element(bp: Seq<PhaseBuyM>, i: int)
    requires
        0 <= i < bp.len(),
        forall|k: int| 0 <= k < bp.len() ==> 0 <= #[trigger] bp[k].amount,
    ensures
        bp[i].amount <= buy_sum(bp),
    decreases bp.len(),
{
    assert(forall|k: int| 0 <= k < bp.drop_last().len() ==> 0 <= #[trigger] bp.drop_last()[k].amount);
    if i == bp.len() - 1 {
        lemma_buy_sum_nonneg(bp.drop_last());
    } else {
        lemma_buy_sum_ge_element(bp.drop_last(), i);
    }
}

/// Replacing one counter changes the sum by the difference.
pub proof fn lemma_buy_sum_update(bp: Seq<PhaseBuyM>, i: int, e: PhaseBuyM)
    requires
        0 <= i < bp.len(),
    ensures
        buy_sum(bp.update(i, e)) == buy_sum(bp) - bp[i].amount + e.amount,
    decreases bp.len(),
{
    let b2 = bp.update(i, e);
    if i == bp.len() - 1 {
        assert(b2.drop_last() =~= bp.drop_last());
        assert(b2.last() == e);
    } else {
        assert(b2.drop_last() =~= bp.drop_last().update(i, e));
        assert(b2.last() == bp.last());
        lemma_buy_sum_update(bp.drop_last(), i, e);
    }
}

/// Appending a counter adds its amount to the sum.
pub proof fn lemma_buy_sum_push(bp: Seq<PhaseBuyM>, e: PhaseBuyM)
    ensures
        buy_sum(bp.push(e)) == buy_sum(bp) + e.amount,
{
    assert(bp.push(e).drop_last() =~= bp);
    assert(bp.push(e).last() == e);
}

/// Recording a purchase adds exactly the amount to the counters' sum, keeps
/// names unique and counters nonnegative, and sets the named counter to its
/// old value plus the amount.
pub proof fn lemma_buys_after_deposit(bp: Seq<PhaseBuyM>, name: Seq<char>, amount: int)
    requires
        buys_unique(bp),
        amount >= 0,
        forall|i: int| 0 <= i < bp.len() ==> 0 <= #[trigger] bp[i].amount,
    ensures
        buy_sum(buys_after_deposit(bp, name, amount)) == buy_sum(bp) + amount,
        buys_unique(buys_after_deposit(bp, name, amount)),
        forall|i: int|
            0 <= i < buys_after_deposit(bp, name, amount).len() ==> 0 <= #[trigger] buys_after_deposit(
                bp,
                name,
                amount,
            )[i].amount,
        buy_amount(buys_after_deposit(bp, name, amount), name) == buy_amount(bp, name) + amount,
{
    let b2 = buys_after_deposit(bp, name, amount);
    lemma_buy_index(bp, name);
    match buy_index(bp, name) {
        Some(i) => {
            let e = PhaseBuyM { name: bp[i].name, amount: bp[i].amount + amount };
            lemma_buy_sum_update(bp, i, e);
            assert(b2 == bp.update(i, e));
            assert forall|j: int| 0 <= j < i implies (#[trigger] b2[j]).name != name by {
                assert(b2[j] == bp[j]);
            }
            lemma_buy_index_is(b2, name, i);
            assert(buy_amount(b2, name) == bp[i].amount + amount);
            assert forall|p: int, q: int| 0 <= p < q < b2.len() implies b2[p].name
                != b2[q].name by {
                assert(b2[p].name == bp[p].name);
                assert(b2[q].name == bp[q].name);
            }
        },
        None => {
            lemma_buy_sum_push(bp, PhaseBuyM { name, amount });
            assert(b2 == bp.push(PhaseBuyM { name, amount }));
            let i = bp.len() as int;
            assert(b2[i].name == name);
            assert forall|j: int| 0 <= j < i implies (#[trigger] b2[j]).name != name by {
                assert(b2[j] == bp[j]);
            }
            lemma_buy_index_is(b2, name, i);
            assert(buy_amount(b2, name) == amount);
            assert forall|p: int, q: int| 0 <= p < q < b2.len() implies b2[p].name
                != b2[q].name by {
                if q == bp.len() {
                    assert(bp[p].name != name);
                } else {
                    assert(b2[p].name == bp[p].name);
                    assert(b2[q].name == bp[q].name);
                }
            }
        },
    }
}

/// Upserting one whitelist entry keeps addresses unique and amounts bounded.
pub proof fn lemma_whitelist_upsert_wf(wl: Seq<WhitelistUserM>, e: WhitelistUserM)
    requires
        whitelist_unique(wl),
        whitelist_bounded(wl),
        0 <= e.amount <= u64::MAX,
    ensures
        whitelist_unique(whitelist_upsert(wl, e)),
        whitelist_bounded(whitelist_upsert(wl, e)),
{
    lemma_wl_index(wl, e.address);
    let w2 = whitelist_upsert(wl, e);
    match wl_index(wl, e.address) {
        Some(i) => {
            assert forall|p: int, q: int| 0 <= p < q < w2.len() implies w2[p].address
                != w2[q].address by {
                assert(w2[p].address == wl[p].address);
                assert(w2[q].address == wl[q].address);
            }
        },
        None => {
            assert forall|p: int, q: int| 0 <= p < q < w2.len() implies w2[p].address
                != w2[q].address by {
                if q == wl.len() {
                    assert(wl[p].address != e.address);
                }
            }
        },
    }
}

/// Upserting a batch of bounded entries keeps the whitelist well formed.
pub proof fn lemma_whitelist_upsert_all_wf(wl: Seq<WhitelistUserM>, es: Seq<WhitelistUserM>)
    requires
        whitelist_unique(wl),
        whitelist_bounded(wl),
        forall|i: int| 0 <= i < es.len() ==> 0 <= #[trigger] es[i].amount <= u64::MAX,
    ensures
        whitelist_unique(whitelist_upsert_all(wl, es)),
        whitelist_bounded(whitelist_upsert_all(wl, es)),
    decreases es.len(),
{
    if es.len() > 0 {
        lemma_whitelist_upsert_wf(wl, es[0]);
        assert(forall|i: int|
            0 <= i < es.drop_first().len() ==> 0 <= #[trigger] es.drop_first()[i].amount
                <= u64::MAX);
        lemma_whitelist_upsert_all_wf(whitelist_upsert(wl, es[0]), es.drop_first());
    }
}

/// Ten to a larger power is at least ten to a smaller one.
pub proof fn lemma_pow10_le(a: int, b: int)
    requires
        a <= b,
    ensures
        0 < pow10(a) <= pow10(b),
    decreases b,
{
    if b <= 0 {
    } else if a >= b {
        lemma_pow10_le(a - 1, b - 1);
    } else {
        lemma_pow10_le(a, b - 1);
    }
}

} // verus!
