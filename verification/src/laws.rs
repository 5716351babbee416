//! The laws of the ledger: properties that relate several operations, or a
//! whole run of them, proved once and for all over the spec transitions
//! that the executable functions are tied to.

use vstd::prelude::*;

use crate::error::Error;
use crate::model::{
    active_phase_index, add_phase_spec, add_whitelist_spec, carry_applies, carry_fits,
    claim_payout, claim_spec, deposit_spec, eligible, phases_after_carry, remove_phase_spec,
    remove_whitelist_spec, state_wf, update_phase_spec, wl_amount, CoinM, PhaseM, PhaseUpdateM,
    StateM, TransferInstrM, UserM, UserTokenM, WhitelistUserM,
};

verus! {

/// The records and call data of one deposit.
pub struct DepositEv {
    pub user: UserM,
    pub ledger: Seq<UserTokenM>,
    pub t: int,
    pub sender: Seq<char>,
    pub funds: Seq<CoinM>,
    pub amount: int,
}

/// Does every event in the sequence succeed in order, each resolving to
/// the phase at index `i`, with each merged supply in machine range?
pub open spec fn same_phase_run(s: StateM, i: int, evs: Seq<DepositEv>) -> bool
    decreases evs.len(),
{
    evs.len() == 0 || {
        let e = evs[0];
        &&& carry_fits(s, e.t)
        &&& 0 <= e.amount
        &&& active_phase_index(s.phases, e.t) == Some(i)
        &&& deposit_spec(s, e.user, e.ledger, e.t, e.sender, e.funds, e.amount) is Ok
        &&& same_phase_run(
            deposit_spec(s, e.user, e.ledger, e.t, e.sender, e.funds, e.amount)->Ok_0.state,
            i,
            evs.drop_first(),
        )
    }
}

/// The configuration after a sequence of deposits, each applied to the
/// previous one's result.
pub open spec fn run_deposits(s: StateM, evs: Seq<DepositEv>) -> StateM
    decreases evs.len(),
{
    if evs.len() == 0 {
        s
    } else {
        let e = evs[0];
        match deposit_spec(s, e.user, e.ledger, e.t, e.sender, e.funds, e.amount) {
            Ok(o) => run_deposits(o.state, evs.drop_first()),
            Err(_) => s,
        }
    }
}

/// Sum of the amounts of a sequence of deposits.
pub open spec fn sum_amounts(evs: Seq<DepositEv>) -> int
    decreases evs.len(),
{
    if evs.len() == 0 {
        0
    } else {
        evs[0].amount + sum_amounts(evs.drop_first())
    }
}

/// What one successful deposit does to the phase list: the resolved
/// phase's minted counter grows by exactly the amount and stays within its
/// supply, every other phase is untouched, and the configuration remains
/// well formed.
pub proof fn lemma_deposit_spec_ok(
    s: StateM,
    u: UserM,
    l: Seq<UserTokenM>,
    t: int,
    sender: Seq<char>,
    funds: Seq<CoinM>,
    amount: int,
)
    requires
        state_wf(s),
        carry_fits(s, t),
        0 <= amount,
        deposit_spec(s, u, l, t, sender, funds, amount) is Ok,
    ensures
        active_phase_index(s.phases, t) is Some,
        ({
            let i = active_phase_index(s.phases, t)->0;
            let o = deposit_spec(s, u, l, t, sender, funds, amount)->Ok_0;
            &&& 0 <= i < s.phases.len()
            &&& o.state.phases.len() == s.phases.len()
            &&& o.state.phases[i].total_minted == s.phases[i].total_minted + amount
            &&& o.state.phases[i].total_minted <= o.state.phases[i].supply
            &&& o.state.phases[i].name == s.phases[i].name
            &&& (forall|j: int|
                0 <= j < s.phases.len() && j != i ==> o.state.phases[j] == #[trigger] s.phases[j])
            &&& o.state.whitelist == s.whitelist
            &&& (!carry_applies(s.phases, i) ==> o.state.phases[i].supply == s.phases[i].supply
                && o.state.phases[i].address_list == s.phases[i].address_list)
            &&& state_wf(o.state)
        }),
{
    crate::model::lemma_active_phase_index(s.phases, t);
    let i = active_phase_index(s.phases, t)->0;
    let ps1 = phases_after_carry(s.phases, i);
    let o = deposit_spec(s, u, l, t, sender, funds, amount)->Ok_0;
    assert(o.state.phases == ps1.update(i, PhaseM { total_minted: ps1[i].total_minted + amount, ..ps1[i] }));
    assert forall|j: int| 0 <= j < s.phases.len() && j != i implies o.state.phases[j]
        == #[trigger] s.phases[j] by {
        assert(o.state.phases[j] == ps1[j]);
        assert(ps1[j] == s.phases[j]);
    }
    assert forall|j: int| 0 <= j < o.state.phases.len() implies crate::model::phase_wf(
        #[trigger] o.state.phases[j],
    ) by {
        if j != i {
            assert(o.state.phases[j] == s.phases[j]);
        } else {
            assert(crate::model::phase_wf(s.phases[i]));
            if carry_applies(s.phases, i) {
                assert(crate::model::phase_wf(s.phases[i - 1]));
            }
            assert(ps1[i].total_minted + amount <= ps1[i].supply);
        }
    }
    assert forall|a: int, b: int| 0 <= a < b < o.state.phases.len() implies o.state.phases[a].name
        != o.state.phases[b].name by {
        assert(o.state.phases[a].name == s.phases[a].name);
        assert(o.state.phases[b].name == s.phases[b].name);
    }
}

/// Phase monotonicity: over any run of successful deposits into one phase,
/// its minted counter ends at its starting value plus exactly the sum of
/// the accepted amounts, and never exceeds the phase's supply.
pub proof fn phase_monotonicity(s: StateM, i: int, evs: Seq<DepositEv>)
    requires
        state_wf(s),
        0 <= i < s.phases.len(),
        same_phase_run(s, i, evs),
    ensures
        run_deposits(s, evs).phases.len() == s.phases.len(),
        run_deposits(s, evs).phases[i].total_minted == s.phases[i].total_minted + sum_amounts(evs),
        run_deposits(s, evs).phases[i].total_minted <= run_deposits(s, evs).phases[i].supply,
        state_wf(run_deposits(s, evs)),
    decreases evs.len(),
{
    if evs.len() == 0 {
        assert(crate::model::phase_wf(s.phases[i]));
    } else {
        let e = evs[0];
        lemma_deposit_spec_ok(s, e.user, e.ledger, e.t, e.sender, e.funds, e.amount);
        let o = deposit_spec(s, e.user, e.ledger, e.t, e.sender, e.funds, e.amount)->Ok_0;
        phase_monotonicity(o.state, i, evs.drop_first());
    }
}

/// Carry-over idempotence: once a deposit of a positive amount has gone
/// into a phase, a later deposit into the same phase applies no second
/// merge — the phase's supply and allow-list are exactly what the first
/// deposit left behind.  (A first deposit of amount zero leaves the minted
/// counter at zero, and the merge would run again.)
pub proof fn carry_over_idempotence(
    s: StateM,
    e1: DepositEv,
    e2: DepositEv,
)
    requires
        state_wf(s),
        carry_fits(s, e1.t),
        1 <= e1.amount,
        deposit_spec(s, e1.user, e1.ledger, e1.t, e1.sender, e1.funds, e1.amount) is Ok,
    ensures
        ({
            let i = active_phase_index(s.phases, e1.t)->0;
            let s1 = deposit_spec(s, e1.user, e1.ledger, e1.t, e1.sender, e1.funds, e1.amount)
                ->Ok_0.state;
            active_phase_index(s1.phases, e2.t) == Some(i) && deposit_spec(
                s1,
                e2.user,
                e2.ledger,
                e2.t,
                e2.sender,
                e2.funds,
                e2.amount,
            ) is Ok ==> {
                let s2 = deposit_spec(s1, e2.user, e2.ledger, e2.t, e2.sender, e2.funds, e2.amount)
                    ->Ok_0.state;
                &&& s2.phases[i].supply == s1.phases[i].supply
                &&& s2.phases[i].address_list == s1.phases[i].address_list
            }
        }),
{
    lemma_deposit_spec_ok(s, e1.user, e1.ledger, e1.t, e1.sender, e1.funds, e1.amount);
    let i = active_phase_index(s.phases, e1.t)->0;
    let s1 = deposit_spec(s, e1.user, e1.ledger, e1.t, e1.sender, e1.funds, e1.amount)->Ok_0.state;
    assert(s1.phases[i].total_minted >= 1);
    if active_phase_index(s1.phases, e2.t) == Some(i) && deposit_spec(
        s1,
        e2.user,
        e2.ledger,
        e2.t,
        e2.sender,
        e2.funds,
        e2.amount,
    ) is Ok {
        assert(!carry_applies(s1.phases, i));
        assert(phases_after_carry(s1.phases, i) == s1.phases);
    }
}

/// Payment exactness: a deposit is accepted only with exactly one attached
/// coin, in the configured denomination, whose amount is exactly the
/// phase's price times the purchased amount.
pub proof fn payment_exactness(
    s: StateM,
    u: UserM,
    l: Seq<UserTokenM>,
    t: int,
    sender: Seq<char>,
    funds: Seq<CoinM>,
    amount: int,
)
    requires
        deposit_spec(s, u, l, t, sender, funds, amount) is Ok,
    ensures
        active_phase_index(s.phases, t) is Some,
        ({
            let i = active_phase_index(s.phases, t)->0;
            &&& funds.len() == 1
            &&& funds[0].denom == s.buy_denom
            &&& funds[0].amount == phases_after_carry(s.phases, i)[i].price_per_token * amount
        }),
{
}

/// Whitelist override: with every other check passing, a caller whose
/// override allowance covers the requested amount succeeds even over the
/// phase's limit, while a caller with no allowance is bound strictly by
/// the limit.
pub proof fn whitelist_override(
    s: StateM,
    u: UserM,
    l: Seq<UserTokenM>,
    t: int,
    sender: Seq<char>,
    funds: Seq<CoinM>,
    amount: int,
    i: int,
)
    requires
        state_wf(s),
        s.start_time <= t <= s.end_time,
        active_phase_index(s.phases, t) == Some(i),
        0 <= i < s.phases.len(),
        eligible(phases_after_carry(s.phases, i)[i], sender),
        phases_after_carry(s.phases, i)[i].total_minted + amount <= phases_after_carry(
            s.phases,
            i,
        )[i].supply,
        funds.len() == 1,
        funds[0].denom == s.buy_denom,
        funds[0].amount == phases_after_carry(s.phases, i)[i].price_per_token * amount,
    ensures
        wl_amount(s.whitelist, sender) >= amount ==> deposit_spec(
            s,
            u,
            l,
            t,
            sender,
            funds,
            amount,
        ) is Ok,
        wl_amount(s.whitelist, sender) == 0 && amount > phases_after_carry(s.phases, i)[i].limit
            ==> deposit_spec(s, u, l, t, sender, funds, amount) == Err::<
            crate::model::DepositOkM,
            _,
        >(Error::OverLimit),
{
}

/// Claim exactly-once: a successful claim returns exactly one payout
/// instruction — the scaled balance, sent to the caller — and marks the
/// record claimed, so any second claim under any claimable configuration
/// is rejected as already claimed.
pub proof fn claim_exactly_once(
    s: StateM,
    u: UserM,
    sender: Seq<char>,
    s2: StateM,
    sender2: Seq<char>,
)
    requires
        claim_spec(s, Some(u), sender) is Ok,
    ensures
        ({
            let u1 = claim_spec(s, Some(u), sender)->Ok_0.0;
            let instr = claim_spec(s, Some(u), sender)->Ok_0.1;
            &&& u1.claimed
            &&& instr == TransferInstrM::Cw20 {
                contract: s.token_info.denom->0,
                amount: claim_payout(s, u),
                recipient: sender,
            }
            &&& s2.claimable ==> claim_spec(s2, Some(u1), sender2) == Err::<
                (UserM, TransferInstrM),
                _,
            >(Error::AlreadyClaimed)
        }),
{
}

/// Admin timing gate: any phase or whitelist mutation attempted after the
/// sale's start time is rejected, regardless of the payload; for the admin
/// the rejection is the started-sale error itself.
pub proof fn admin_timing_gate(
    s: StateM,
    t: int,
    sender: Seq<char>,
    p: PhaseM,
    name: Seq<char>,
    c: PhaseUpdateM,
    es: Seq<WhitelistUserM>,
    addr: Seq<char>,
)
    requires
        t > s.start_time,
    ensures
        add_phase_spec(s, t, sender, p) is Err,
        update_phase_spec(s, t, sender, name, c) is Err,
        remove_phase_spec(s, t, sender, name) is Err,
        add_whitelist_spec(s, t, sender, es) is Err,
        remove_whitelist_spec(s, t, sender, addr) is Err,
        sender == s.admin ==> {
            &&& add_phase_spec(s, t, sender, p) == Err::<StateM, _>(Error::LaunchpadStarted)
            &&& update_phase_spec(s, t, sender, name, c) == Err::<StateM, _>(
                Error::LaunchpadStarted,
            )
            &&& remove_phase_spec(s, t, sender, name) == Err::<StateM, _>(Error::LaunchpadStarted)
            &&& add_whitelist_spec(s, t, sender, es) == Err::<StateM, _>(Error::LaunchpadStarted)
            &&& remove_whitelist_spec(s, t, sender, addr) == Err::<(StateM, bool), _>(
                Error::LaunchpadStarted,
            )
        },
{
}

} // verus!
