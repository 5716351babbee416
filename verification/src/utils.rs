//! Small verified helpers: linear searches over the ledger's sequences,
//! explicit cloning, and the public time-window utilities.

use vstd::prelude::*;

use crate::model::{
    active_phase_index, buy_index, eligible, lemma_active_phase_index,
    lemma_active_phase_index_is, lemma_buy_index, lemma_buy_index_is, lemma_ledger_index,
    lemma_ledger_index_is, lemma_phase_index_by_name, lemma_phase_index_by_name_is,
    lemma_wl_index, lemma_wl_index_is, ledger_index, phase_active, phase_index_by_name, wl_amount,
    wl_index, PhaseM,
};
use crate::state::{Phase, PhaseBuy, UserToken, WhitelistUser};

verus! {

/// Copy of a string vector, element for element.
#[verifier::loop_isolation(false)]
pub fn clone_string_vec(v: &Vec<String>) -> (r: Vec<String>)
    ensures
        r.deep_view() == v.deep_view(),
{
    let mut r: Vec<String> = Vec::new();
    let mut i: usize = 0;
    while i < v.len()
        invariant
            i <= v.len(),
            r.deep_view() =~= v.deep_view().take(i as int),
        decreases v.len() - i,
    {
        r.push(v[i].clone());
        i = i + 1;
    }
    assert(r.deep_view() =~= v.deep_view());
    r
}

/// Copy of a phase, field for field.
pub fn clone_phase(p: &Phase) -> (r: Phase)
    ensures
        r.deep_view() == p.deep_view(),
{
    let r = Phase {
        name: p.name.clone(),
        start_time: p.start_time,
        end_time: p.end_time,
        price_per_token: p.price_per_token,
        supply: p.supply,
        address_list: clone_string_vec(&p.address_list),
        limit: p.limit,
        total_minted: p.total_minted,
    };
    assert(r.deep_view() =~= p.deep_view());
    r
}

/// Index of the first phase whose window covers `t`, in list order.
#[verifier::loop_isolation(false)]
pub fn find_active_index(phases: &Vec<Phase>, t: u64) -> (r: Option<usize>)
    ensures
        match r {
            Some(i) => i < phases.len() && active_phase_index(phases.deep_view(), t as int)
                == Some(i as int),
            None => active_phase_index(phases.deep_view(), t as int) is None,
        },
{
    let mut i: usize = 0;
    while i < phases.len()
        invariant
            i <= phases.len(),
            forall|j: int|
                0 <= j < i ==> !phase_active(#[trigger] phases.deep_view()[j], t as int),
        decreases phases.len() - i,
    {
        if phases[i].start_time <= t && t <= phases[i].end_time {
            proof {
                assert(phase_active(phases.deep_view()[i as int], t as int));
                lemma_active_phase_index_is(phases.deep_view(), t as int, i as int);
            }
            return Some(i);
        }
        proof {
            assert(!phase_active(phases.deep_view()[i as int], t as int));
        }
        i = i + 1;
    }
    proof {
        lemma_active_phase_index(phases.deep_view(), t as int);
    }
    None
}

/// Index of the first phase with the given name.
#[verifier::loop_isolation(false)]
pub fn find_phase_index(phases: &Vec<Phase>, name: &String) -> (r: Option<usize>)
    ensures
        match r {
            Some(i) => i < phases.len() && phase_index_by_name(phases.deep_view(), name@) == Some(
                i as int,
            ),
            None => phase_index_by_name(phases.deep_view(), name@) is None,
        },
{
    let mut i: usize = 0;
    while i < phases.len()
        invariant
            i <= phases.len(),
            forall|j: int| 0 <= j < i ==> (#[trigger] phases.deep_view()[j]).name != name@,
        decreases phases.len() - i,
    {
        if phases[i].name == *name {
            proof {
                assert(phases.deep_view()[i as int].name == name@);
                lemma_phase_index_by_name_is(phases.deep_view(), name@, i as int);
            }
            return Some(i);
        }
        proof {
            assert(phases.deep_view()[i as int].name != name@);
        }
        i = i + 1;
    }
    proof {
        lemma_phase_index_by_name(phases.deep_view(), name@);
    }
    None
}

/// Does the allow-list contain the address?
#[verifier::loop_isolation(false)]
pub fn contains_addr(list: &Vec<String>, addr: &String) -> (r: bool)
    ensures
        r == list.deep_view().contains(addr@),
{
    let mut i: usize = 0;
    while i < list.len()
        invariant
            i <= list.len(),
            forall|j: int| 0 <= j < i ==> list.deep_view()[j] != addr@,
        decreases list.len() - i,
    {
        if list[i] == *addr {
            assert(list.deep_view()[i as int] == addr@);
            assert(list.deep_view().contains(addr@));
            return true;
        }
        i = i + 1;
    }
    assert(!list.deep_view().contains(addr@));
    false
}

/// Index of the first whitelist entry for the address, if any.
#[verifier::loop_isolation(false)]
pub fn find_wl_index(wl: &Vec<WhitelistUser>, addr: &String) -> (r: Option<usize>)
    ensures
        match r {
            Some(i) => i < wl.len() && wl_index(wl.deep_view(), addr@) == Some(i as int),
            None => wl_index(wl.deep_view(), addr@) is None,
        },
{
    let mut i: usize = 0;
    while i < wl.len()
        invariant
            i <= wl.len(),
            forall|j: int| 0 <= j < i ==> (#[trigger] wl.deep_view()[j]).address != addr@,
        decreases wl.len() - i,
    {
        if wl[i].address == *addr {
            proof {
                assert(wl.deep_view()[i as int].address == addr@);
                lemma_wl_index_is(wl.deep_view(), addr@, i as int);
            }
            return Some(i);
        }
        proof {
            assert(wl.deep_view()[i as int].address != addr@);
        }
        i = i + 1;
    }
    proof {
        lemma_wl_index(wl.deep_view(), addr@);
    }
    None
}

/// The caller's whitelist override allowance; zero when absent.
pub fn wl_lookup(wl: &Vec<WhitelistUser>, addr: &String) -> (r: u64)
    ensures
        r as int == wl_amount(wl.deep_view(), addr@),
{
    match find_wl_index(wl, addr) {
        Some(i) => {
            assert(wl.deep_view()[i as int].amount == wl@[i as int].amount as int);
            wl[i].amount
        },
        None => 0,
    }
}

/// Index of the caller's counter for the named phase, if any.
#[verifier::loop_isolation(false)]
pub fn find_buy_index(bp: &Vec<PhaseBuy>, name: &String) -> (r: Option<usize>)
    ensures
        match r {
            Some(i) => i < bp.len() && buy_index(bp.deep_view(), name@) == Some(i as int),
            None => buy_index(bp.deep_view(), name@) is None,
        },
{
    let mut i: usize = 0;
    while i < bp.len()
        invariant
            i <= bp.len(),
            forall|j: int| 0 <= j < i ==> (#[trigger] bp.deep_view()[j]).name != name@,
        decreases bp.len() - i,
    {
        if bp[i].name == *name {
            proof {
                assert(bp.deep_view()[i as int].name == name@);
                lemma_buy_index_is(bp.deep_view(), name@, i as int);
            }
            return Some(i);
        }
        proof {
            assert(bp.deep_view()[i as int].name != name@);
        }
        i = i + 1;
    }
    proof {
        lemma_buy_index(bp.deep_view(), name@);
    }
    None
}

/// Index of the aggregate-ledger entry for the address, if any.
#[verifier::loop_isolation(false)]
pub fn find_ledger_index(l: &Vec<UserToken>, addr: &String) -> (r: Option<usize>)
    ensures
        match r {
            Some(i) => i < l.len() && ledger_index(l.deep_view(), addr@) == Some(i as int),
            None => ledger_index(l.deep_view(), addr@) is None,
        },
{
    let mut i: usize = 0;
    while i < l.len()
        invariant
            i <= l.len(),
            forall|j: int| 0 <= j < i ==> (#[trigger] l.deep_view()[j]).address != addr@,
        decreases l.len() - i,
    {
        if l[i].address == *addr {
            proof {
                assert(l.deep_view()[i as int].address == addr@);
                lemma_ledger_index_is(l.deep_view(), addr@, i as int);
            }
            return Some(i);
        }
        proof {
            assert(l.deep_view()[i as int].address != addr@);
        }
        i = i + 1;
    }
    proof {
        lemma_ledger_index(l.deep_view(), addr@);
    }
    None
}

/// The first phase (in list order) whose window covers `current_time`, or
/// none: list order is the tie-break when windows overlap.
pub fn current_phase(current_time: u64, phases: Vec<Phase>) -> (r: Option<Phase>)
    ensures
        match active_phase_index(phases.deep_view(), current_time as int) {
            Some(i) => r is Some && r->0.deep_view() == phases.deep_view()[i],
            None => r is None,
        },
{
    match find_active_index(&phases, current_time) {
        Some(i) => {
            let p = clone_phase(&phases[i]);
            assert(p.deep_view() == phases.deep_view()[i as int]);
            Some(p)
        },
        None => None,
    }
}

/// Sum of the limits of the phases the address is eligible for.
pub open spec fn allowed_buy_sum(ps: Seq<PhaseM>, addr: Seq<char>) -> int
    decreases ps.len(),
{
    if ps.len() == 0 {
        0
    } else {
        allowed_buy_sum(ps.drop_last(), addr) + if eligible(ps.last(), addr) {
            ps.last().limit
        } else {
            0
        }
    }
}

/// Total units the address could buy across all phases: each phase whose
/// allow-list contains it, or is open, contributes its per-buyer limit.
#[verifier::loop_isolation(false)]
pub fn count_allowed_user_buy(addr: &String, phases: &Vec<Phase>) -> (r: u64)
    requires
        allowed_buy_sum(phases.deep_view(), addr@) <= u64::MAX,
        forall|i: int| 0 <= i < phases.deep_view().len() ==> #[trigger] phases.deep_view()[i].limit
            >= 0,
    ensures
        r as int == allowed_buy_sum(phases.deep_view(), addr@),
{
    proof {
        lemma_allowed_buy_sum_bounds(phases.deep_view(), addr@);
    }
    let mut amount: u64 = 0;
    let mut i: usize = 0;
    while i < phases.len()
        invariant
            i <= phases.len(),
            amount as int == allowed_buy_sum(phases.deep_view().take(i as int), addr@),
        decreases phases.len() - i,
    {
        proof {
            lemma_allowed_buy_sum_prefix(phases.deep_view(), addr@, i + 1);
            assert(phases.deep_view().take(i + 1).drop_last() =~= phases.deep_view().take(
                i as int,
            ));
            assert(phases.deep_view().take(i + 1).last() == phases.deep_view()[i as int]);
        }
        let eligible_here = if contains_addr(&phases[i].address_list, addr) {
            true
        } else {
            phases[i].address_list.len() == 0
        };
        if eligible_here {
            amount = amount + phases[i].limit;
        }
        i = i + 1;
    }
    assert(phases.deep_view().take(phases.len() as int) =~= phases.deep_view());
    amount
}

/// Every prefix sum of eligible limits is at most the full sum.
proof fn lemma_allowed_buy_sum_prefix(ps: Seq<PhaseM>, addr: Seq<char>, n: int)
    requires
        0 <= n <= ps.len(),
        forall|i: int| 0 <= i < ps.len() ==> #[trigger] ps[i].limit >= 0,
    ensures
        allowed_buy_sum(ps.take(n), addr) <= allowed_buy_sum(ps, addr),
    decreases ps.len() - n,
{
    if n < ps.len() {
        lemma_allowed_buy_sum_prefix(ps, addr, n + 1);
        assert(ps.take(n + 1).drop_last() =~= ps.take(n));
        assert(ps.take(n + 1).last() == ps[n]);
        assert(forall|i: int| 0 <= i < ps.take(n).len() ==> #[trigger] ps.take(n)[i].limit >= 0);
        lemma_allowed_buy_sum_bounds(ps.take(n), addr);
    } else {
        assert(ps.take(n) =~= ps);
    }
}

/// A sum of nonnegative limits is nonnegative.
proof fn lemma_allowed_buy_sum_bounds(ps: Seq<PhaseM>, addr: Seq<char>)
    requires
        forall|i: int| 0 <= i < ps.len() ==> #[trigger] ps[i].limit >= 0,
    ensures
        allowed_buy_sum(ps, addr) >= 0,
    decreases ps.len(),
{
    if ps.len() > 0 {
        assert(forall|i: int|
            0 <= i < ps.drop_last().len() ==> #[trigger] ps.drop_last()[i].limit >= 0);
        lemma_allowed_buy_sum_bounds(ps.drop_last(), addr);
    }
}

} // verus!
