//! The operations of the sale: deployment, administration, deposits, claim
//! settlement and treasury withdrawal.  Every function is a pure transition
//! over the records the host loaded; its contract ties the result to the
//! corresponding spec transition in `model`.

use vstd::prelude::*;

use crate::error::Error;
use crate::model::{
    add_phase_spec, add_whitelist_spec, bad_phase_index, buy_amount, buys_after_deposit,
    claim_fits, claim_spec, phase_index_by_name, pow10, transfer_instr, user_or_empty,
    withdraw_spec, TokenKind, TransferInstrM, UserM,
    carry_applies, carry_fits, carry_merge, deposit_fits, deposit_spec, eligible,
    flip_claim_spec, instantiate_spec, ledger_after_deposit, lemma_active_phase_index,
    lemma_bad_phase_index, lemma_bad_phase_index_is, lemma_phase_index_by_name, patched_phase,
    phase_error, phase_list_error, phases_after_carry, phases_unique, remove_phase_spec,
    remove_whitelist_spec, update_config_spec, update_phase_spec, whitelist_unique,
    whitelist_upsert, whitelist_upsert_all, DepositOkM, PhaseM, WhitelistUserM,
};
use crate::msg::{
    ConfigUpdate, DepositReceipt, ExecuteMsg, ExecuteOk, InstantiateMsg, LaunchpadResponse,
    PhaseInfoResponse, PhaseInformation, PhaseResp, PhaseUpdate, UserInfoResponse,
};
use crate::state::{Coin, Phase, PhaseBuy, State, TokenInfo, TransferInstr, User, UserToken, WhitelistUser};
use crate::utils::{
    clone_phase, clone_string_vec, contains_addr, find_active_index, find_buy_index,
    find_ledger_index, find_phase_index, find_wl_index, wl_lookup,
};

verus! {

/// Why this one phase is invalid, if it is.
pub fn check_phase(p: &Phase) -> (r: Option<Error>)
    ensures
        r == phase_error(p.deep_view()),
{
    if p.start_time > p.end_time {
        Some(Error::InvalidTimeRange)
    } else if p.supply == 0 {
        Some(Error::SupplyZero)
    } else if p.price_per_token == 0 {
        Some(Error::PriceZero)
    } else if p.total_minted > p.supply {
        Some(Error::MintedExceedsSupply)
    } else {
        None
    }
}

/// Why this phase list is invalid, if it is: some invalid phase, in list
/// order, or two phases sharing a name.
#[verifier::loop_isolation(false)]
pub fn check_phase_list(phases: &Vec<Phase>) -> (r: Option<Error>)
    ensures
        r == phase_list_error(phases.deep_view()),
{
    let mut i: usize = 0;
    while i < phases.len()
        invariant
            i <= phases.len(),
            forall|j: int| 0 <= j < i ==> phase_error(#[trigger] phases.deep_view()[j]) is None,
        decreases phases.len() - i,
    {
        let e = check_phase(&phases[i]);
        if e.is_some() {
            proof {
                lemma_bad_phase_index_is(phases.deep_view(), i as int);
            }
            return e;
        }
        i = i + 1;
    }
    proof {
        lemma_bad_phase_index(phases.deep_view());
        assert(bad_phase_index(phases.deep_view()) is None);
    }
    // no phase is invalid; look for a duplicated name
    let mut a: usize = 0;
    while a < phases.len()
        invariant
            a <= phases.len(),
            forall|p: int, q: int|
                0 <= p < q < phases.deep_view().len() && p < a ==> phases.deep_view()[p].name
                    != phases.deep_view()[q].name,
        decreases phases.len() - a,
    {
        let mut b: usize = a + 1;
        while b < phases.len()
            invariant
                a < b <= phases.len() || (a + 1 == b && b > phases.len()),
                a < phases.len(),
                forall|q: int|
                    a < q < b ==> phases.deep_view()[a as int].name != phases.deep_view()[q].name,
            decreases phases.len() - b,
        {
            if phases[a].name == phases[b].name {
                assert(phases.deep_view()[a as int].name == phases.deep_view()[b as int].name);
                assert(!phases_unique(phases.deep_view()));
                return Some(Error::DuplicatePhase);
            }
            b = b + 1;
        }
        a = a + 1;
    }
    assert(phases_unique(phases.deep_view()));
    None
}

/// Do two whitelist entries share an address?
#[verifier::loop_isolation(false)]
pub fn check_whitelist_unique(wl: &Vec<WhitelistUser>) -> (r: bool)
    ensures
        r == whitelist_unique(wl.deep_view()),
{
    let mut a: usize = 0;
    while a < wl.len()
        invariant
            a <= wl.len(),
            forall|p: int, q: int|
                0 <= p < q < wl.deep_view().len() && p < a ==> wl.deep_view()[p].address
                    != wl.deep_view()[q].address,
        decreases wl.len() - a,
    {
        let mut b: usize = a + 1;
        while b < wl.len()
            invariant
                a < b <= wl.len() || (a + 1 == b && b > wl.len()),
                a < wl.len(),
                forall|q: int|
                    a < q < b ==> wl.deep_view()[a as int].address != wl.deep_view()[q].address,
            decreases wl.len() - b,
        {
            if wl[a].address == wl[b].address {
                assert(wl.deep_view()[a as int].address == wl.deep_view()[b as int].address);
                assert(!whitelist_unique(wl.deep_view()));
                return false;
            }
            b = b + 1;
        }
        a = a + 1;
    }
    assert(whitelist_unique(wl.deep_view()));
    true
}

/// Create the sale's configuration record, once, at deployment.  The global
/// window must be ordered, the phases must form a valid list, and the
/// whitelist addresses must be unique; claiming starts disabled.
pub fn instantiate(msg: InstantiateMsg) -> (r: Result<State, Error>)
    ensures
        match r {
            Ok(state) => instantiate_spec(msg.deep_view()) == Ok::<_, Error>(state.deep_view())
                && state.wf(),
            Err(e) => instantiate_spec(msg.deep_view()) == Err::<crate::model::StateM, _>(e),
        },
{
    let ghost m = msg.deep_view();
    let phases: Vec<Phase> = match msg.phases {
        Some(p) => p,
        None => Vec::new(),
    };
    let whitelist: Vec<WhitelistUser> = match msg.whitelist {
        Some(w) => w,
        None => Vec::new(),
    };
    proof {
        assert(phases.deep_view() =~= (if m.phases is Some {
            m.phases->0
        } else {
            Seq::<PhaseM>::empty()
        }));
        assert(whitelist.deep_view() =~= (if m.whitelist is Some {
            m.whitelist->0
        } else {
            Seq::<WhitelistUserM>::empty()
        }));
    }
    if msg.start_time > msg.end_time {
        return Err(Error::InvalidTimeRange);
    }
    match check_phase_list(&phases) {
        Some(e) => {
            return Err(e);
        },
        None => {},
    }
    if !check_whitelist_unique(&whitelist) {
        return Err(Error::DuplicateWhitelist);
    }
    let state = State {
        admin: msg.admin,
        token_info: msg.token_info,
        buy_denom: msg.buy_denom,
        buy_token_type: msg.buy_token_type,
        tokens_per_buy: msg.tokens_per_buy,
        start_time: msg.start_time,
        end_time: msg.end_time,
        phases,
        claimable: false,
        fees_wallet: msg.fees_wallet,
        fees_percentage: 0,
        withdraw_wallet: msg.withdraw_wallet,
        whitelist,
    };
    proof {
        assert(state.deep_view() =~~= instantiate_spec(m)->Ok_0);
        lemma_valid_phase_list_wf(state.deep_view().phases);
    }
    Ok(state)
}

/// A phase list that passes validation consists of well-formed phases with
/// unique names, provided its counters came from machine integers.
proof fn lemma_valid_phase_list_wf(ps: Seq<PhaseM>)
    requires
        phase_list_error(ps) is None,
        forall|i: int|
            0 <= i < ps.len() ==> {
                &&& 0 <= (#[trigger] ps[i]).start_time <= u64::MAX
                &&& 0 <= ps[i].end_time <= u64::MAX
                &&& 0 <= ps[i].price_per_token <= u128::MAX
                &&& 0 <= ps[i].supply <= u64::MAX
                &&& 0 <= ps[i].limit <= u64::MAX
                &&& 0 <= ps[i].total_minted <= u64::MAX
            },
    ensures
        forall|i: int| 0 <= i < ps.len() ==> crate::model::phase_wf(#[trigger] ps[i]),
        phases_unique(ps),
{
    lemma_bad_phase_index(ps);
    assert forall|i: int| 0 <= i < ps.len() implies crate::model::phase_wf(#[trigger] ps[i]) by {
        assert(phase_error(ps[i]) is None);
    }
}

/// Patch any subset of the global configuration.  Admin only; never while
/// the sale is in progress; the patched window must stay ordered; a
/// wholesale phase replacement must be a valid list.
pub fn update_config(state: &mut State, current_time: u64, sender: &String, c: ConfigUpdate) -> (r:
    Result<(), Error>)
    requires
        old(state).wf(),
    ensures
        final(state).wf(),
        match r {
            Ok(_) => update_config_spec(
                old(state).deep_view(),
                current_time as int,
                sender@,
                c.deep_view(),
            ) == Ok::<_, Error>(final(state).deep_view()),
            Err(e) => update_config_spec(
                old(state).deep_view(),
                current_time as int,
                sender@,
                c.deep_view(),
            ) == Err::<crate::model::StateM, _>(e) && *final(state) == *old(state),
        },
{
    let ghost s = old(state).deep_view();
    let ghost cm = c.deep_view();
    if !(*sender == state.admin) {
        return Err(Error::NotAdmin);
    }
    if state.start_time < current_time && current_time < state.end_time {
        return Err(Error::LaunchpadInProgress);
    }
    let new_start = match c.start_time {
        Some(v) => v,
        None => state.start_time,
    };
    let new_end = match c.end_time {
        Some(v) => v,
        None => state.end_time,
    };
    if new_start > new_end {
        return Err(Error::InvalidTimeRange);
    }
    match &c.phases {
        Some(ps) => {
            match check_phase_list(ps) {
                Some(e) => {
                    return Err(e);
                },
                None => {},
            }
        },
        None => {},
    }
    state.start_time = new_start;
    state.end_time = new_end;
    match c.buy_denom {
        Some(v) => {
            state.buy_denom = v;
        },
        None => {},
    }
    match c.buy_token_type {
        Some(v) => {
            state.buy_token_type = v;
        },
        None => {},
    }
    match c.tokens_per_buy {
        Some(v) => {
            state.tokens_per_buy = v;
        },
        None => {},
    }
    match c.token_info {
        Some(v) => {
            state.token_info = v;
        },
        None => {},
    }
    match c.phases {
        Some(v) => {
            state.phases = v;
        },
        None => {},
    }
    match c.new_admin {
        Some(v) => {
            state.admin = v;
        },
        None => {},
    }
    proof {
        assert(state.deep_view() =~~= update_config_spec(s, current_time as int, sender@, cm)
            ->Ok_0);
        if cm.phases is Some {
            lemma_valid_phase_list_wf(state.deep_view().phases);
        }
    }
    Ok(())
}

/// Append a new, valid phase under a new name.  Admin only, and only before
/// the sale has started.
pub fn add_phase(state: &mut State, current_time: u64, sender: &String, phase: Phase) -> (r: Result<
    (),
    Error,
>)
    requires
        old(state).wf(),
    ensures
        final(state).wf(),
        match r {
            Ok(_) => add_phase_spec(
                old(state).deep_view(),
                current_time as int,
                sender@,
                phase.deep_view(),
            ) == Ok::<_, Error>(final(state).deep_view()),
            Err(e) => add_phase_spec(
                old(state).deep_view(),
                current_time as int,
                sender@,
                phase.deep_view(),
            ) == Err::<crate::model::StateM, _>(e) && *final(state) == *old(state),
        },
{
    let ghost s = old(state).deep_view();
    if !(*sender == state.admin) {
        return Err(Error::NotAdmin);
    }
    if current_time > state.start_time {
        return Err(Error::LaunchpadStarted);
    }
    match check_phase(&phase) {
        Some(e) => {
            return Err(e);
        },
        None => {},
    }
    match find_phase_index(&state.phases, &phase.name) {
        Some(_) => {
            return Err(Error::PhaseExists);
        },
        None => {},
    }
    let ghost p = phase.deep_view();
    proof {
        lemma_phase_index_by_name(s.phases, p.name);
    }
    state.phases.push(phase);
    proof {
        assert(state.deep_view() =~~= add_phase_spec(s, current_time as int, sender@, p)->Ok_0);
        let ps2 = state.deep_view().phases;
        assert forall|i: int, j: int| 0 <= i < j < ps2.len() implies ps2[i].name != ps2[j].name by {
            if j == ps2.len() - 1 {
                assert(s.phases[i].name != p.name);
            } else {
                assert(ps2[i].name == s.phases[i].name);
                assert(ps2[j].name == s.phases[j].name);
            }
        }
    }
    Ok(())
}

/// Apply any subset of a phase update to the named phase; the merged result
/// must still be valid.  Admin only, and only before the sale has started.
pub fn update_phase(
    state: &mut State,
    current_time: u64,
    sender: &String,
    name: &String,
    c: PhaseUpdate,
) -> (r: Result<(), Error>)
    requires
        old(state).wf(),
    ensures
        final(state).wf(),
        match r {
            Ok(_) => update_phase_spec(
                old(state).deep_view(),
                current_time as int,
                sender@,
                name@,
                c.deep_view(),
            ) == Ok::<_, Error>(final(state).deep_view()),
            Err(e) => update_phase_spec(
                old(state).deep_view(),
                current_time as int,
                sender@,
                name@,
                c.deep_view(),
            ) == Err::<crate::model::StateM, _>(e) && *final(state) == *old(state),
        },
{
    let ghost s = old(state).deep_view();
    let ghost cm = c.deep_view();
    if !(*sender == state.admin) {
        return Err(Error::NotAdmin);
    }
    if current_time > state.start_time {
        return Err(Error::LaunchpadStarted);
    }
    let i = match find_phase_index(&state.phases, name) {
        Some(i) => i,
        None => {
            return Err(Error::PhaseNotFound);
        },
    };
    proof {
        lemma_phase_index_by_name(s.phases, name@);
    }
    let old_phase = &state.phases[i];
    let merged = Phase {
        name: old_phase.name.clone(),
        start_time: match c.start_time {
            Some(v) => v,
            None => old_phase.start_time,
        },
        end_time: match c.end_time {
            Some(v) => v,
            None => old_phase.end_time,
        },
        price_per_token: match c.price_per_token {
            Some(v) => v,
            None => old_phase.price_per_token,
        },
        supply: match c.supply {
            Some(v) => v,
            None => old_phase.supply,
        },
        address_list: match c.address_list {
            Some(v) => v,
            None => clone_string_vec(&old_phase.address_list),
        },
        limit: match c.limit {
            Some(v) => v,
            None => old_phase.limit,
        },
        total_minted: old_phase.total_minted,
    };
    proof {
        assert(old_phase.deep_view() == s.phases[i as int]);
        assert(merged.deep_view() =~~= patched_phase(s.phases[i as int], cm));
    }
    match check_phase(&merged) {
        Some(e) => {
            return Err(e);
        },
        None => {},
    }
    let ghost p2 = merged.deep_view();
    state.phases.set(i, merged);
    proof {
        assert(state.deep_view() =~~= update_phase_spec(s, current_time as int, sender@, name@, cm)
            ->Ok_0);
        let ps2 = state.deep_view().phases;
        assert forall|a: int, b: int| 0 <= a < b < ps2.len() implies ps2[a].name != ps2[b].name by {
            assert(ps2[a].name == s.phases[a].name);
            assert(ps2[b].name == s.phases[b].name);
        }
    }
    Ok(())
}

/// Remove the named phase.  Admin only, and only before the sale started.
pub fn remove_phase(state: &mut State, current_time: u64, sender: &String, name: &String) -> (r:
    Result<(), Error>)
    requires
        old(state).wf(),
    ensures
        final(state).wf(),
        match r {
            Ok(_) => remove_phase_spec(
                old(state).deep_view(),
                current_time as int,
                sender@,
                name@,
            ) == Ok::<_, Error>(final(state).deep_view()),
            Err(e) => remove_phase_spec(
                old(state).deep_view(),
                current_time as int,
                sender@,
                name@,
            ) == Err::<crate::model::StateM, _>(e) && *final(state) == *old(state),
        },
{
    let ghost s = old(state).deep_view();
    if !(*sender == state.admin) {
        return Err(Error::NotAdmin);
    }
    if current_time > state.start_time {
        return Err(Error::LaunchpadStarted);
    }
    let i = match find_phase_index(&state.phases, name) {
        Some(i) => i,
        None => {
            return Err(Error::PhaseNotFound);
        },
    };
    state.phases.remove(i);
    proof {
        assert(state.deep_view() =~~= remove_phase_spec(s, current_time as int, sender@, name@)
            ->Ok_0);
        let ps2 = state.deep_view().phases;
        assert forall|a: int, b: int| 0 <= a < b < ps2.len() implies ps2[a].name != ps2[b].name by {
            let a0 = if a < i as int { a } else { a + 1 };
            let b0 = if b < i as int { b } else { b + 1 };
            assert(ps2[a].name == s.phases[a0].name);
            assert(ps2[b].name == s.phases[b0].name);
        }
    }
    Ok(())
}

/// Upsert a batch of whitelist entries: an existing address has its amount
/// overwritten, a new address is appended.  Admin only, and only before the
/// sale has started.
#[verifier::loop_isolation(false)]
pub fn add_whitelist(
    state: &mut State,
    current_time: u64,
    sender: &String,
    entries: Vec<WhitelistUser>,
) -> (r: Result<(), Error>)
    requires
        old(state).wf(),
    ensures
        final(state).wf(),
        match r {
            Ok(_) => add_whitelist_spec(
                old(state).deep_view(),
                current_time as int,
                sender@,
                entries.deep_view(),
            ) == Ok::<_, Error>(final(state).deep_view()),
            Err(e) => add_whitelist_spec(
                old(state).deep_view(),
                current_time as int,
                sender@,
                entries.deep_view(),
            ) == Err::<crate::model::StateM, _>(e) && *final(state) == *old(state),
        },
{
    let ghost s = old(state).deep_view();
    let ghost es = entries.deep_view();
    if !(*sender == state.admin) {
        return Err(Error::NotAdmin);
    }
    if current_time > state.start_time {
        return Err(Error::LaunchpadStarted);
    }
    let mut k: usize = 0;
    while k < entries.len()
        invariant
            k <= entries.len(),
            state.whitelist.deep_view() == whitelist_upsert_all(s.whitelist, es.take(k as int)),
            crate::model::whitelist_unique(state.whitelist.deep_view()),
            crate::model::whitelist_bounded(state.whitelist.deep_view()),
            state.admin == old(state).admin,
            state.token_info == old(state).token_info,
            state.buy_denom == old(state).buy_denom,
            state.buy_token_type == old(state).buy_token_type,
            state.tokens_per_buy == old(state).tokens_per_buy,
            state.start_time == old(state).start_time,
            state.end_time == old(state).end_time,
            state.phases == old(state).phases,
            state.claimable == old(state).claimable,
            state.fees_wallet == old(state).fees_wallet,
            state.fees_percentage == old(state).fees_percentage,
            state.withdraw_wallet == old(state).withdraw_wallet,
        decreases entries.len() - k,
    {
        let ghost wl_before = state.whitelist.deep_view();
        let entry_amount = entries[k].amount;
        match find_wl_index(&state.whitelist, &entries[k].address) {
            Some(i) => {
                let addr = state.whitelist[i].address.clone();
                state.whitelist.set(i, WhitelistUser { address: addr, amount: entry_amount });
            },
            None => {
                state.whitelist.push(
                    WhitelistUser { address: entries[k].address.clone(), amount: entry_amount },
                );
            },
        }
        proof {
            assert(state.whitelist.deep_view() =~= whitelist_upsert(wl_before, es[k as int]));
            lemma_whitelist_upsert_all_take_step(s.whitelist, es, k as int);
            crate::lemmas::lemma_whitelist_upsert_wf(wl_before, es[k as int]);
        }
        k = k + 1;
    }
    proof {
        assert(es.take(entries.len() as int) =~= es);
        assert(state.deep_view() =~~= add_whitelist_spec(s, current_time as int, sender@, es)
            ->Ok_0);
    }
    Ok(())
}

/// Upserting one more entry of a batch extends the fold by one step.
proof fn lemma_whitelist_upsert_all_take_step(
    wl: Seq<WhitelistUserM>,
    es: Seq<WhitelistUserM>,
    k: int,
)
    requires
        0 <= k < es.len(),
    ensures
        whitelist_upsert_all(wl, es.take(k + 1)) == whitelist_upsert(
            whitelist_upsert_all(wl, es.take(k)),
            es[k],
        ),
    decreases k,
{
    if k == 0 {
        assert(es.take(0) =~= Seq::<WhitelistUserM>::empty());
        assert(es.take(1).drop_first() =~= Seq::<WhitelistUserM>::empty());
        assert(es.take(1)[0] == es[0]);
        assert(whitelist_upsert_all(whitelist_upsert(wl, es[0]), Seq::<WhitelistUserM>::empty())
            == whitelist_upsert(wl, es[0]));
        assert(whitelist_upsert_all(wl, es.take(1)) == whitelist_upsert(wl, es[0]));
    } else {
        let wl1 = whitelist_upsert(wl, es[0]);
        assert(es.take(k + 1)[0] == es[0]);
        assert(es.take(k)[0] == es[0]);
        assert(es.take(k + 1).drop_first() =~= es.drop_first().take(k));
        assert(es.take(k).drop_first() =~= es.drop_first().take(k - 1));
        lemma_whitelist_upsert_all_take_step(wl1, es.drop_first(), k - 1);
        assert(es.drop_first()[k - 1] == es[k]);
        assert(whitelist_upsert_all(wl, es.take(k + 1)) == whitelist_upsert_all(
            wl1,
            es.drop_first().take(k),
        ));
        assert(whitelist_upsert_all(wl, es.take(k)) == whitelist_upsert_all(
            wl1,
            es.drop_first().take(k - 1),
        ));
    }
}

/// Remove the address from the whitelist; a missing address is not an
/// error, merely reported as `false`.  Admin only, pre-start only.
pub fn remove_from_whitelist(
    state: &mut State,
    current_time: u64,
    sender: &String,
    address: &String,
) -> (r: Result<bool, Error>)
    requires
        old(state).wf(),
    ensures
        final(state).wf(),
        match r {
            Ok(found) => remove_whitelist_spec(
                old(state).deep_view(),
                current_time as int,
                sender@,
                address@,
            ) == Ok::<_, Error>((final(state).deep_view(), found)),
            Err(e) => remove_whitelist_spec(
                old(state).deep_view(),
                current_time as int,
                sender@,
                address@,
            ) == Err::<(crate::model::StateM, bool), _>(e) && *final(state) == *old(state),
        },
{
    let ghost s = old(state).deep_view();
    if !(*sender == state.admin) {
        return Err(Error::NotAdmin);
    }
    if current_time > state.start_time {
        return Err(Error::LaunchpadStarted);
    }
    match find_wl_index(&state.whitelist, address) {
        Some(i) => {
            state.whitelist.remove(i);
            proof {
                assert(state.deep_view() =~~= remove_whitelist_spec(
                    s,
                    current_time as int,
                    sender@,
                    address@,
                )->Ok_0.0);
                let wl2 = state.deep_view().whitelist;
                assert forall|a: int, b: int| 0 <= a < b < wl2.len() implies wl2[a].address
                    != wl2[b].address by {
                    let a0 = if a < i as int { a } else { a + 1 };
                    let b0 = if b < i as int { b } else { b + 1 };
                    assert(wl2[a].address == s.whitelist[a0].address);
                    assert(wl2[b].address == s.whitelist[b0].address);
                }
                assert forall|a: int| 0 <= a < wl2.len() implies 0 <= #[trigger] wl2[a].amount
                    <= u64::MAX by {
                    let a0 = if a < i as int { a } else { a + 1 };
                    assert(wl2[a].amount == s.whitelist[a0].amount);
                }
            }
            Ok(true)
        },
        None => {
            Ok(false)
        },
    }
}

/// Toggle whether claims may be redeemed.  Admin only; turning claiming on
/// requires the settlement denomination and decimal count to be configured.
pub fn flip_claim_status(state: &mut State, sender: &String) -> (r: Result<bool, Error>)
    requires
        old(state).wf(),
    ensures
        final(state).wf(),
        match r {
            Ok(claimable) => flip_claim_spec(old(state).deep_view(), sender@) == Ok::<_, Error>(
                final(state).deep_view(),
            ) && claimable == final(state).claimable && final(state).claimable == !old(
                state,
            ).claimable,
            Err(e) => flip_claim_spec(old(state).deep_view(), sender@) == Err::<
                crate::model::StateM,
                _,
            >(e) && *final(state) == *old(state),
        },
{
    let ghost s = old(state).deep_view();
    if !(*sender == state.admin) {
        return Err(Error::NotAdmin);
    }
    if !state.claimable && (state.token_info.denom.is_none() || state.token_info.decimals.is_none())
    {
        return Err(Error::TokenDenomNotSet);
    }
    state.claimable = !state.claimable;
    proof {
        assert(state.deep_view() =~~= flip_claim_spec(s, sender@)->Ok_0);
    }
    Ok(state.claimable)
}

/// Record a purchase of `amount` units by `sender` at `current_time`, with
/// payment `funds` attached.  The checks run in order: the global window,
/// a resolvable phase, the one-shot carry-over from the predecessor phase,
/// eligibility, phase capacity, the per-buyer limit with its whitelist
/// override, and exact payment.  On success all four records change
/// together; on rejection none does.
#[verifier::loop_isolation(false)]
pub fn deposit(
    state: &mut State,
    user: &mut User,
    ledger: &mut Vec<UserToken>,
    current_time: u64,
    sender: &String,
    funds: &Vec<Coin>,
    amount: u64,
) -> (r: Result<DepositReceipt, Error>)
    requires
        old(state).wf(),
        old(user).wf(),
        carry_fits(old(state).deep_view(), current_time as int),
        deposit_fits(
            old(state).deep_view(),
            old(user).deep_view(),
            old(ledger).deep_view(),
            current_time as int,
            sender@,
            funds.deep_view(),
            amount as int,
        ),
    ensures
        final(state).wf(),
        final(user).wf(),
        match r {
            Ok(rc) => ({
                let o = deposit_spec(
                    old(state).deep_view(),
                    old(user).deep_view(),
                    old(ledger).deep_view(),
                    current_time as int,
                    sender@,
                    funds.deep_view(),
                    amount as int,
                );
                &&& o is Ok
                &&& final(state).deep_view() == o->Ok_0.state
                &&& final(user).deep_view() == o->Ok_0.user
                &&& final(ledger).deep_view() == o->Ok_0.ledger
                &&& rc.phase_name@ == o->Ok_0.phase_name
                &&& rc.amount == amount
            }),
            Err(e) => deposit_spec(
                old(state).deep_view(),
                old(user).deep_view(),
                old(ledger).deep_view(),
                current_time as int,
                sender@,
                funds.deep_view(),
                amount as int,
            ) == Err::<DepositOkM, _>(e) && *final(state) == *old(state) && *final(user) == *old(
                user,
            ) && *final(ledger) == *old(ledger),
        },
{
    let ghost s = old(state).deep_view();
    let ghost u = old(user).deep_view();
    let ghost l0 = old(ledger).deep_view();
    let ghost t = current_time as int;

    if !(current_time >= state.start_time && current_time <= state.end_time) {
        return Err(Error::NotInLaunchpadTime);
    }
    let idx = match find_active_index(&state.phases, current_time) {
        Some(i) => i,
        None => {
            return Err(Error::NoActivePhase);
        },
    };
    let ghost i = idx as int;
    proof {
        lemma_active_phase_index(s.phases, t);
    }

    // working copy of the active phase, with the carry-over applied
    let mut cur = clone_phase(&state.phases[idx]);
    proof {
        assert(s.phases[i] == state.phases@[i].deep_view());
        assert(cur.deep_view() == s.phases[i]);
    }
    if idx > 0 && cur.total_minted == 0 {
        proof {
            assert(s.phases[i - 1] == state.phases@[i - 1].deep_view());
            assert(crate::model::phase_wf(s.phases[i - 1]));
            assert(carry_applies(s.phases, i));
        }
        let prev_supply = state.phases[idx - 1].supply;
        let prev_minted = state.phases[idx - 1].total_minted;
        let unsold = prev_supply - prev_minted;
        cur.supply = cur.supply + unsold;
        if cur.address_list.len() > 0 {
            let ghost base = cur.address_list.deep_view();
            let prev_list = &state.phases[idx - 1].address_list;
            let mut k: usize = 0;
            while k < prev_list.len()
                invariant
                    k <= prev_list.len(),
                    cur.address_list.deep_view() =~= base + prev_list.deep_view().take(k as int),
                    cur.name@ == s.phases[i].name,
                    cur.start_time as int == s.phases[i].start_time,
                    cur.end_time as int == s.phases[i].end_time,
                    cur.price_per_token as int == s.phases[i].price_per_token,
                    cur.limit as int == s.phases[i].limit,
                    cur.total_minted as int == s.phases[i].total_minted,
                    cur.supply as int == s.phases[i].supply + s.phases[i - 1].supply - s.phases[i
                        - 1].total_minted,
                decreases prev_list.len() - k,
            {
                cur.address_list.push(prev_list[k].clone());
                proof {
                    assert(cur.address_list.deep_view() =~= (base + prev_list.deep_view().take(
                        k as int,
                    )).push(prev_list.deep_view()[k as int]));
                    assert((base + prev_list.deep_view().take(k as int)).push(
                        prev_list.deep_view()[k as int],
                    ) =~= base + prev_list.deep_view().take(k as int + 1));
                }
                k = k + 1;
            }
            proof {
                assert(prev_list.deep_view().take(prev_list.len() as int) =~= prev_list
                    .deep_view());
            }
        }
        proof {
            assert(cur.deep_view() =~~= carry_merge(s.phases[i], s.phases[i - 1]));
        }
    }
    let ghost ps1 = phases_after_carry(s.phases, i);
    proof {
        if carry_applies(s.phases, i) {
            assert(ps1[i] == carry_merge(s.phases[i], s.phases[i - 1]));
        } else {
            assert(ps1[i] == s.phases[i]);
        }
        assert(cur.deep_view() == ps1[i]);
        assert(crate::model::phase_wf(s.phases[i]));
    }
    let ghost merged = ps1[i];

    // eligibility
    if cur.address_list.len() > 0 && !contains_addr(&cur.address_list, sender) {
        proof {
            assert(!eligible(merged, sender@));
        }
        return Err(Error::NotInPhase);
    }
    proof {
        assert(eligible(merged, sender@));
    }

    // phase capacity
    proof {
        assert(cur.total_minted <= cur.supply);
    }
    if amount > cur.supply - cur.total_minted {
        proof {
            assert(merged.total_minted + amount as int > merged.supply);
        }
        return Err(Error::Overbuy);
    }

    // per-call limit, with the whitelist override
    let wl = wl_lookup(&state.whitelist, sender);
    if (amount > cur.limit || amount == 0) && wl < amount {
        return Err(Error::OverLimit);
    }

    // cumulative per-phase limit, with the same override
    let buy_idx = find_buy_index(&user.buy_phases, &cur.name);
    let bought: u64 = match buy_idx {
        Some(bi) => {
            proof {
                assert(u.buy_phases[bi as int].amount == user.buy_phases@[bi as int].amount as int);
            }
            user.buy_phases[bi].amount
        },
        None => 0,
    };
    proof {
        assert(bought as int == buy_amount(u.buy_phases, merged.name));
    }
    if (bought as u128) + (amount as u128) > (cur.limit as u128) && wl < amount {
        return Err(Error::MaxBuyPhaseReached);
    }

    // exact payment: one coin, right denomination, right amount
    if funds.len() != 1 {
        return Err(Error::PaymentMismatch);
    }
    proof {
        assert(funds.deep_view()[0].denom == funds@[0].denom@);
        assert(funds.deep_view()[0].amount == funds@[0].amount as int);
    }
    if !(funds[0].denom == state.buy_denom) {
        return Err(Error::PaymentMismatch);
    }
    match cur.price_per_token.checked_mul(amount as u128) {
        Some(p) => {
            if funds[0].amount != p {
                return Err(Error::PaymentMismatch);
            }
        },
        None => {
            proof {
                assert(merged.price_per_token * (amount as int) > u128::MAX);
                assert(funds.deep_view()[0].amount != merged.price_per_token * (amount as int));
            }
            return Err(Error::PaymentMismatch);
        },
    }

    // every check passed: the spec transition succeeds
    let ghost o = deposit_spec(s, u, l0, t, sender@, funds.deep_view(), amount as int)->Ok_0;
    proof {
        assert(deposit_spec(s, u, l0, t, sender@, funds.deep_view(), amount as int) is Ok);
    }

    // record the purchase: phase counter, buyer record, aggregate ledger
    let receipt_name = cur.name.clone();
    cur.total_minted = cur.total_minted + amount;
    let ghost cur2 = cur.deep_view();
    state.phases.set(idx, cur);
    proof {
        assert(state.phases.deep_view() =~= ps1.update(i, cur2));
        assert(state.deep_view() =~~= o.state);
    }

    proof {
        assert(o.user.amount == u.amount + amount as int);
        crate::lemmas::lemma_buys_after_deposit(u.buy_phases, merged.name, amount as int);
    }
    user.amount = user.amount + amount;
    match buy_idx {
        Some(bi) => {
            proof {
                crate::lemmas::lemma_buy_sum_ge_element(u.buy_phases, bi as int);
            }
            let newamt = user.buy_phases[bi].amount + amount;
            let bname = user.buy_phases[bi].name.clone();
            user.buy_phases.set(bi, PhaseBuy { name: bname, amount: newamt });
        },
        None => {
            user.buy_phases.push(PhaseBuy { name: receipt_name.clone(), amount });
        },
    }
    proof {
        assert(user.buy_phases.deep_view() =~= buys_after_deposit(
            u.buy_phases,
            merged.name,
            amount as int,
        ));
        assert(o.user.tokens == u.tokens + (amount as int) * s.tokens_per_buy);
    }
    let delta = (amount as u128) * state.tokens_per_buy;
    user.tokens = user.tokens + delta;
    proof {
        assert(user.deep_view() =~~= o.user);
    }

    match find_ledger_index(ledger, sender) {
        Some(li) => {
            let laddr = ledger[li].address.clone();
            let tk = user.tokens;
            ledger.set(li, UserToken { address: laddr, tokens: tk });
        },
        None => {
            let tk = user.tokens;
            ledger.push(UserToken { address: sender.clone(), tokens: tk });
        },
    }
    proof {
        assert(ledger.deep_view() =~= ledger_after_deposit(l0, sender@, o.user.tokens));
        assert(ledger.deep_view() == o.ledger);
    }

    Ok(DepositReceipt { phase_name: receipt_name, amount })
}

/// Ten to the power `n`, exactly.
fn pow10_u128(n: u8) -> (r: u128)
    requires
        pow10(n as int) <= u128::MAX,
    ensures
        r as int == pow10(n as int),
{
    let mut acc: u128 = 1;
    let mut k: u8 = 0;
    while k < n
        invariant
            k <= n,
            acc as int == pow10(k as int),
            pow10(n as int) <= u128::MAX,
        decreases n - k,
    {
        proof {
            crate::lemmas::lemma_pow10_le(k as int + 1, n as int);
        }
        acc = acc * 10;
        k = k + 1;
    }
    acc
}

/// Settle the caller's claim: claiming must be enabled, the caller must
/// have a record not yet claimed.  The payout instruction transfers the
/// accrued balance scaled by the settlement asset's decimal count, and the
/// record is marked claimed, so a second claim is rejected.
pub fn claim_token(state: &State, user: &mut Option<User>, sender: &String) -> (r: Result<
    TransferInstr,
    Error,
>)
    requires
        claim_fits(state.deep_view(), old(user).deep_view()),
    ensures
        match r {
            Ok(instr) => ({
                let o = claim_spec(state.deep_view(), old(user).deep_view(), sender@);
                &&& o is Ok
                &&& (*final(user)) is Some
                &&& (*final(user))->0.deep_view() == o->Ok_0.0
                &&& instr.deep_view() == o->Ok_0.1
            }),
            Err(e) => claim_spec(state.deep_view(), old(user).deep_view(), sender@) == Err::<
                (UserM, TransferInstrM),
                _,
            >(e) && *final(user) == *old(user),
        },
{
    let ghost s = state.deep_view();
    if !state.claimable {
        return Err(Error::NotClaimable);
    }
    match user {
        None => Err(Error::UserNotFound),
        Some(u) => {
            if u.claimed {
                return Err(Error::AlreadyClaimed);
            }
            let decimals: u8 = match &state.token_info.decimals {
                Some(d) => *d,
                None => {
                    proof {
                        assert(false);
                    }
                    0
                },
            };
            let denom: String = match &state.token_info.denom {
                Some(d) => d.clone(),
                None => {
                    proof {
                        assert(false);
                    }
                    String::new()
                },
            };
            let factor = pow10_u128(decimals);
            let payout = factor * u.tokens;
            u.claimed = true;
            let instr = TransferInstr::Cw20 {
                contract: denom,
                amount: payout,
                recipient: sender.clone(),
            };
            proof {
                assert(instr.deep_view() =~~= claim_spec(s, old(user).deep_view(), sender@)
                    ->Ok_0.1);
            }
            Ok(instr)
        },
    }
}

/// Build the asset-transfer instruction for the given payment kind: a bank
/// send of the native currency, or a token-contract transfer.
pub fn transfer_token_message(denom: String, token_type: TokenKind, amount: u128, receiver: String) -> (r:
    TransferInstr)
    ensures
        r.deep_view() == transfer_instr(denom@, token_type, amount as int, receiver@),
{
    match token_type {
        TokenKind::Native => TransferInstr::Native { denom, amount, to: receiver },
        TokenKind::Cw20 => TransferInstr::Cw20 { contract: denom, amount, recipient: receiver },
    }
}

/// Sweep the contract's entire held balance of the named asset to the
/// configured withdrawal wallet.  Admin only; the host queries the balance
/// and executes the returned instruction.
pub fn withdraw(
    state: &State,
    sender: &String,
    denom: String,
    token_type: TokenKind,
    held_balance: u128,
) -> (r: Result<TransferInstr, Error>)
    ensures
        match r {
            Ok(instr) => withdraw_spec(
                state.deep_view(),
                sender@,
                denom@,
                token_type,
                held_balance as int,
            ) == Ok::<_, Error>(instr.deep_view()),
            Err(e) => withdraw_spec(
                state.deep_view(),
                sender@,
                denom@,
                token_type,
                held_balance as int,
            ) == Err::<TransferInstrM, _>(e),
        },
{
    if !(*sender == state.admin) {
        return Err(Error::NotAdmin);
    }
    let wallet = state.withdraw_wallet.clone();
    Ok(transfer_token_message(denom, token_type, held_balance, wallet))
}

/// The full-state snapshot: every configuration field, with each phase's
/// allow-list reported as a count.
#[verifier::loop_isolation(false)]
pub fn query_launchpad(state: &State) -> (r: LaunchpadResponse)
    ensures
        r.token_info == state.token_info,
        r.buy_denom == state.buy_denom,
        r.buy_token_type == state.buy_token_type,
        r.tokens_per_buy == state.tokens_per_buy,
        r.start_time == state.start_time,
        r.end_time == state.end_time,
        r.claimable == state.claimable,
        r.fees_wallet == state.fees_wallet,
        r.fees_percentage == state.fees_percentage,
        r.withdraw_wallet == state.withdraw_wallet,
        r.whitelist@ == state.whitelist@,
        r.phases@.len() == state.phases@.len(),
        forall|j: int|
            0 <= j < state.phases@.len() ==> {
                let p = state.deep_view().phases[j];
                &&& (#[trigger] r.phases@[j]).name@ == p.name
                &&& r.phases@[j].start_time as int == p.start_time
                &&& r.phases@[j].end_time as int == p.end_time
                &&& r.phases@[j].price_per_token as int == p.price_per_token
                &&& r.phases@[j].supply as int == p.supply
                &&& r.phases@[j].address_list as int == p.address_list.len()
                &&& r.phases@[j].limit as int == p.limit
                &&& r.phases@[j].total_minted as int == p.total_minted
            },
{
    let mut resp_phases: Vec<PhaseResp> = Vec::new();
    let mut j: usize = 0;
    while j < state.phases.len()
        invariant
            j <= state.phases.len(),
            resp_phases@.len() == j,
            forall|k: int|
                0 <= k < j ==> {
                    let p = state.deep_view().phases[k];
                    &&& (#[trigger] resp_phases@[k]).name@ == p.name
                    &&& resp_phases@[k].start_time as int == p.start_time
                    &&& resp_phases@[k].end_time as int == p.end_time
                    &&& resp_phases@[k].price_per_token as int == p.price_per_token
                    &&& resp_phases@[k].supply as int == p.supply
                    &&& resp_phases@[k].address_list as int == p.address_list.len()
                    &&& resp_phases@[k].limit as int == p.limit
                    &&& resp_phases@[k].total_minted as int == p.total_minted
                },
        decreases state.phases.len() - j,
    {
        let ph = &state.phases[j];
        resp_phases.push(
            PhaseResp {
                name: ph.name.clone(),
                start_time: ph.start_time,
                end_time: ph.end_time,
                price_per_token: ph.price_per_token,
                supply: ph.supply,
                address_list: ph.address_list.len() as u64,
                limit: ph.limit,
                total_minted: ph.total_minted,
            },
        );
        j = j + 1;
    }
    LaunchpadResponse {
        token_info: clone_token_info(&state.token_info),
        buy_denom: state.buy_denom.clone(),
        buy_token_type: state.buy_token_type,
        tokens_per_buy: state.tokens_per_buy,
        start_time: state.start_time,
        end_time: state.end_time,
        phases: resp_phases,
        claimable: state.claimable,
        fees_wallet: state.fees_wallet.clone(),
        fees_percentage: state.fees_percentage,
        withdraw_wallet: state.withdraw_wallet.clone(),
        whitelist: clone_whitelist(&state.whitelist),
    }
}

/// Copy of the token metadata, field for field.
fn clone_token_info(t: &TokenInfo) -> (r: TokenInfo)
    ensures
        r == *t,
{
    let denom = match &t.denom {
        Some(d) => Some(d.clone()),
        None => None,
    };
    TokenInfo {
        name: t.name.clone(),
        symbol: t.symbol.clone(),
        denom,
        decimals: t.decimals,
        description: t.description.clone(),
        supply: t.supply,
    }
}

/// Copy of the whitelist, entry for entry.
#[verifier::loop_isolation(false)]
fn clone_whitelist(wl: &Vec<WhitelistUser>) -> (r: Vec<WhitelistUser>)
    ensures
        r@ == wl@,
{
    let mut r: Vec<WhitelistUser> = Vec::new();
    let mut i: usize = 0;
    while i < wl.len()
        invariant
            i <= wl.len(),
            r@ =~= wl@.take(i as int),
        decreases wl.len() - i,
    {
        r.push(WhitelistUser { address: wl[i].address.clone(), amount: wl[i].amount });
        i = i + 1;
    }
    assert(r@ =~= wl@);
    r
}

/// One buyer's view of the sale: the record's counters and, for each phase,
/// its limit, the buyer's mint count there, and eligibility.  A missing
/// record reads as an empty one.
#[verifier::loop_isolation(false)]
pub fn query_user(state: &State, user: &Option<User>, address: &String) -> (r: UserInfoResponse)
    ensures
        r.address@ == address@,
        ({
            let um = match user.deep_view() {
                Some(u) => u,
                None => crate::model::empty_user(),
            };
            &&& r.amount as int == um.amount
            &&& r.tokens as int == um.tokens
            &&& r.claimed == um.claimed
            &&& r.phases@.len() == state.phases@.len()
            &&& forall|j: int|
                0 <= j < state.phases@.len() ==> {
                    let p = state.deep_view().phases[j];
                    &&& (#[trigger] r.phases@[j]).0@ == p.name
                    &&& r.phases@[j].1.limit as int == p.limit
                    &&& r.phases@[j].1.current_mint as int == buy_amount(um.buy_phases, p.name)
                    &&& r.phases@[j].1.eligible == eligible(p, address@)
                }
        }),
{
    let ghost um = match user.deep_view() {
        Some(u) => u,
        None => crate::model::empty_user(),
    };
    let mut phases: Vec<(String, PhaseInformation)> = Vec::new();
    let mut j: usize = 0;
    while j < state.phases.len()
        invariant
            j <= state.phases.len(),
            phases@.len() == j,
            forall|k: int|
                0 <= k < j ==> {
                    let p = state.deep_view().phases[k];
                    &&& (#[trigger] phases@[k]).0@ == p.name
                    &&& phases@[k].1.limit as int == p.limit
                    &&& phases@[k].1.current_mint as int == buy_amount(um.buy_phases, p.name)
                    &&& phases@[k].1.eligible == eligible(p, address@)
                },
        decreases state.phases.len() - j,
    {
        let ph = &state.phases[j];
        let is_eligible = if ph.address_list.len() == 0 {
            true
        } else {
            contains_addr(&ph.address_list, address)
        };
        let current_mint: u64 = match user {
            Some(u) => {
                match find_buy_index(&u.buy_phases, &ph.name) {
                    Some(bi) => u.buy_phases[bi].amount,
                    None => 0,
                }
            },
            None => 0,
        };
        proof {
            assert(state.deep_view().phases[j as int] == state.phases@[j as int].deep_view());
            assert(current_mint as int == buy_amount(um.buy_phases, ph.name@));
        }
        phases.push((ph.name.clone(), PhaseInformation { limit: ph.limit, current_mint, eligible: is_eligible }));
        j = j + 1;
    }
    let (amount, tokens, claimed): (u64, u128, bool) = match user {
        Some(u) => (u.amount, u.tokens, u.claimed),
        None => (0, 0, false),
    };
    UserInfoResponse { address: address.clone(), phases, amount, tokens, claimed }
}

/// Full detail for one named phase; a missing name is rejected.
pub fn query_phase(state: &State, phase_name: &String) -> (r: Result<PhaseInfoResponse, Error>)
    ensures
        match phase_index_by_name(state.deep_view().phases, phase_name@) {
            Some(i) => r is Ok && ({
                let p = state.deep_view().phases[i];
                let resp = r->Ok_0;
                &&& resp.name@ == p.name
                &&& resp.start_time as int == p.start_time
                &&& resp.end_time as int == p.end_time
                &&& resp.price_per_token as int == p.price_per_token
                &&& resp.supply as int == p.supply
                &&& resp.address_list.deep_view() == p.address_list
                &&& resp.limit as int == p.limit
                &&& resp.total_minted as int == p.total_minted
            }),
            None => r == Err::<PhaseInfoResponse, _>(Error::PhaseNotFound),
        },
{
    match find_phase_index(&state.phases, phase_name) {
        Some(i) => {
            let ph = &state.phases[i];
            proof {
                assert(state.deep_view().phases[i as int] == state.phases@[i as int].deep_view());
            }
            Ok(
                PhaseInfoResponse {
                    name: ph.name.clone(),
                    start_time: ph.start_time,
                    end_time: ph.end_time,
                    price_per_token: ph.price_per_token,
                    supply: ph.supply,
                    address_list: clone_string_vec(&ph.address_list),
                    limit: ph.limit,
                    total_minted: ph.total_minted,
                },
            )
        },
        None => Err(Error::PhaseNotFound),
    }
}

/// One request against the sale: the single verified entry point the host
/// dispatches through.  The caller's record is absent until first deposit;
/// `held_balance` is the contract's queried balance of the asset a
/// withdrawal names, and is unused by every other request.
pub fn execute(
    state: &mut State,
    user: &mut Option<User>,
    ledger: &mut Vec<UserToken>,
    current_time: u64,
    sender: &String,
    funds: &Vec<Coin>,
    held_balance: u128,
    msg: ExecuteMsg,
) -> (r: Result<ExecuteOk, Error>)
    requires
        old(state).wf(),
        (match *old(user) {
            Some(u) => u.wf(),
            None => true,
        }),
        (msg matches ExecuteMsg::Deposit { amount } ==> carry_fits(
            old(state).deep_view(),
            current_time as int,
        ) && deposit_fits(
            old(state).deep_view(),
            user_or_empty(old(user).deep_view()),
            old(ledger).deep_view(),
            current_time as int,
            sender@,
            funds.deep_view(),
            amount as int,
        )),
        (msg matches ExecuteMsg::ClaimTokens ==> claim_fits(
            old(state).deep_view(),
            old(user).deep_view(),
        )),
    ensures
        final(state).wf(),
        (match *final(user) {
            Some(u) => u.wf(),
            None => true,
        }),
        match msg {
            ExecuteMsg::UpdateConfig { config } => {
                &&& *final(user) == *old(user)
                &&& *final(ledger) == *old(ledger)
                &&& (match r {
                    Ok(ok) => ok matches ExecuteOk::ConfigUpdated && update_config_spec(
                        old(state).deep_view(),
                        current_time as int,
                        sender@,
                        config.deep_view(),
                    ) == Ok::<_, Error>(final(state).deep_view()),
                    Err(e) => update_config_spec(
                        old(state).deep_view(),
                        current_time as int,
                        sender@,
                        config.deep_view(),
                    ) == Err::<crate::model::StateM, _>(e) && *final(state) == *old(state),
                })
            },
            ExecuteMsg::AddPhase { phase } => {
                &&& *final(user) == *old(user)
                &&& *final(ledger) == *old(ledger)
                &&& (match r {
                    Ok(ok) => ok matches ExecuteOk::PhaseAdded && add_phase_spec(
                        old(state).deep_view(),
                        current_time as int,
                        sender@,
                        phase.deep_view(),
                    ) == Ok::<_, Error>(final(state).deep_view()),
                    Err(e) => add_phase_spec(
                        old(state).deep_view(),
                        current_time as int,
                        sender@,
                        phase.deep_view(),
                    ) == Err::<crate::model::StateM, _>(e) && *final(state) == *old(state),
                })
            },
            ExecuteMsg::UpdatePhase { name, update } => {
                &&& *final(user) == *old(user)
                &&& *final(ledger) == *old(ledger)
                &&& (match r {
                    Ok(ok) => ok matches ExecuteOk::PhaseUpdated && update_phase_spec(
                        old(state).deep_view(),
                        current_time as int,
                        sender@,
                        name@,
                        update.deep_view(),
                    ) == Ok::<_, Error>(final(state).deep_view()),
                    Err(e) => update_phase_spec(
                        old(state).deep_view(),
                        current_time as int,
                        sender@,
                        name@,
                        update.deep_view(),
                    ) == Err::<crate::model::StateM, _>(e) && *final(state) == *old(state),
                })
            },
            ExecuteMsg::RemovePhase { name } => {
                &&& *final(user) == *old(user)
                &&& *final(ledger) == *old(ledger)
                &&& (match r {
                    Ok(ok) => ok matches ExecuteOk::PhaseRemoved && remove_phase_spec(
                        old(state).deep_view(),
                        current_time as int,
                        sender@,
                        name@,
                    ) == Ok::<_, Error>(final(state).deep_view()),
                    Err(e) => remove_phase_spec(
                        old(state).deep_view(),
                        current_time as int,
                        sender@,
                        name@,
                    ) == Err::<crate::model::StateM, _>(e) && *final(state) == *old(state),
                })
            },
            ExecuteMsg::AddWhitelist { whitelist } => {
                &&& *final(user) == *old(user)
                &&& *final(ledger) == *old(ledger)
                &&& (match r {
                    Ok(ok) => ok matches ExecuteOk::WhitelistAdded && add_whitelist_spec(
                        old(state).deep_view(),
                        current_time as int,
                        sender@,
                        whitelist.deep_view(),
                    ) == Ok::<_, Error>(final(state).deep_view()),
                    Err(e) => add_whitelist_spec(
                        old(state).deep_view(),
                        current_time as int,
                        sender@,
                        whitelist.deep_view(),
                    ) == Err::<crate::model::StateM, _>(e) && *final(state) == *old(state),
                })
            },
            ExecuteMsg::RemoveFromWhitelist { address } => {
                &&& *final(user) == *old(user)
                &&& *final(ledger) == *old(ledger)
                &&& (match r {
                    Ok(ok) => ok matches ExecuteOk::WhitelistRemoved { found }
                        && remove_whitelist_spec(
                        old(state).deep_view(),
                        current_time as int,
                        sender@,
                        address@,
                    ) == Ok::<_, Error>((final(state).deep_view(), found)),
                    Err(e) => remove_whitelist_spec(
                        old(state).deep_view(),
                        current_time as int,
                        sender@,
                        address@,
                    ) == Err::<(crate::model::StateM, bool), _>(e) && *final(state) == *old(
                        state,
                    ),
                })
            },
            ExecuteMsg::Deposit { amount } => {
                match r {
                    Ok(ok) => ({
                        let o = deposit_spec(
                            old(state).deep_view(),
                            user_or_empty(old(user).deep_view()),
                            old(ledger).deep_view(),
                            current_time as int,
                            sender@,
                            funds.deep_view(),
                            amount as int,
                        );
                        &&& o is Ok
                        &&& final(state).deep_view() == o->Ok_0.state
                        &&& (*final(user)) is Some
                        &&& (*final(user))->0.deep_view() == o->Ok_0.user
                        &&& final(ledger).deep_view() == o->Ok_0.ledger
                        &&& (ok matches ExecuteOk::Deposited(rc) && rc.phase_name@ == o
                            ->Ok_0.phase_name && rc.amount == amount)
                    }),
                    Err(e) => deposit_spec(
                        old(state).deep_view(),
                        user_or_empty(old(user).deep_view()),
                        old(ledger).deep_view(),
                        current_time as int,
                        sender@,
                        funds.deep_view(),
                        amount as int,
                    ) == Err::<DepositOkM, _>(e) && *final(state) == *old(state) && *final(user)
                        == *old(user) && *final(ledger) == *old(ledger),
                }
            },
            ExecuteMsg::FlipClaimStatus => {
                &&& *final(user) == *old(user)
                &&& *final(ledger) == *old(ledger)
                &&& (match r {
                    Ok(ok) => ok matches ExecuteOk::ClaimStatusFlipped { claimable }
                        && flip_claim_spec(old(state).deep_view(), sender@) == Ok::<_, Error>(
                        final(state).deep_view(),
                    ) && claimable == final(state).claimable && final(state).claimable == !old(
                        state,
                    ).claimable,
                    Err(e) => flip_claim_spec(old(state).deep_view(), sender@) == Err::<
                        crate::model::StateM,
                        _,
                    >(e) && *final(state) == *old(state),
                })
            },
            ExecuteMsg::ClaimTokens => {
                &&& *final(state) == *old(state)
                &&& *final(ledger) == *old(ledger)
                &&& (match r {
                    Ok(ok) => ({
                        let o = claim_spec(old(state).deep_view(), old(user).deep_view(), sender@);
                        &&& o is Ok
                        &&& (*final(user)) is Some
                        &&& (*final(user))->0.deep_view() == o->Ok_0.0
                        &&& (ok matches ExecuteOk::Claimed(instr) && instr.deep_view() == o
                            ->Ok_0.1)
                    }),
                    Err(e) => claim_spec(old(state).deep_view(), old(user).deep_view(), sender@)
                        == Err::<(UserM, TransferInstrM), _>(e) && *final(user) == *old(user),
                })
            },
            ExecuteMsg::Withdraw { denom, token_type } => {
                &&& *final(state) == *old(state)
                &&& *final(user) == *old(user)
                &&& *final(ledger) == *old(ledger)
                &&& (match r {
                    Ok(ok) => ok matches ExecuteOk::Withdrawn(instr) && withdraw_spec(
                        old(state).deep_view(),
                        sender@,
                        denom@,
                        token_type,
                        held_balance as int,
                    ) == Ok::<_, Error>(instr.deep_view()),
                    Err(e) => withdraw_spec(
                        old(state).deep_view(),
                        sender@,
                        denom@,
                        token_type,
                        held_balance as int,
                    ) == Err::<TransferInstrM, _>(e),
                })
            },
        },
{
    match msg {
        ExecuteMsg::UpdateConfig { config } => {
            match update_config(state, current_time, sender, config) {
                Ok(_) => Ok(ExecuteOk::ConfigUpdated),
                Err(e) => Err(e),
            }
        },
        ExecuteMsg::AddPhase { phase } => {
            match add_phase(state, current_time, sender, phase) {
                Ok(_) => Ok(ExecuteOk::PhaseAdded),
                Err(e) => Err(e),
            }
        },
        ExecuteMsg::UpdatePhase { name, update } => {
            match update_phase(state, current_time, sender, &name, update) {
                Ok(_) => Ok(ExecuteOk::PhaseUpdated),
                Err(e) => Err(e),
            }
        },
        ExecuteMsg::RemovePhase { name } => {
            match remove_phase(state, current_time, sender, &name) {
                Ok(_) => Ok(ExecuteOk::PhaseRemoved),
                Err(e) => Err(e),
            }
        },
        ExecuteMsg::AddWhitelist { whitelist } => {
            match add_whitelist(state, current_time, sender, whitelist) {
                Ok(_) => Ok(ExecuteOk::WhitelistAdded),
                Err(e) => Err(e),
            }
        },
        ExecuteMsg::RemoveFromWhitelist { address } => {
            match remove_from_whitelist(state, current_time, sender, &address) {
                Ok(found) => Ok(ExecuteOk::WhitelistRemoved { found }),
                Err(e) => Err(e),
            }
        },
        ExecuteMsg::Deposit { amount } => {
            let mut taken: Option<User> = None;
            core::mem::swap(user, &mut taken);
            let was_present = taken.is_some();
            let mut record: User = match taken {
                Some(u) => u,
                None => User { buy_phases: Vec::new(), amount: 0, tokens: 0, claimed: false },
            };
            proof {
                assert(record.deep_view() =~~= user_or_empty(old(user).deep_view()));
            }
            match deposit(state, &mut record, ledger, current_time, sender, funds, amount) {
                Ok(rc) => {
                    *user = Some(record);
                    Ok(ExecuteOk::Deposited(rc))
                },
                Err(e) => {
                    if was_present {
                        *user = Some(record);
                    }
                    Err(e)
                },
            }
        },
        ExecuteMsg::FlipClaimStatus => {
            match flip_claim_status(state, sender) {
                Ok(claimable) => Ok(ExecuteOk::ClaimStatusFlipped { claimable }),
                Err(e) => Err(e),
            }
        },
        ExecuteMsg::ClaimTokens => {
            match claim_token(&*state, user, sender) {
                Ok(instr) => Ok(ExecuteOk::Claimed(instr)),
                Err(e) => Err(e),
            }
        },
        ExecuteMsg::Withdraw { denom, token_type } => {
            match withdraw(&*state, sender, denom, token_type, held_balance) {
                Ok(instr) => Ok(ExecuteOk::Withdrawn(instr)),
                Err(e) => Err(e),
            }
        },
    }
}

} // verus!
