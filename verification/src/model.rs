//! Mathematical model of the sale.
//!
//! Each durable record of the library has a model here, with sequences for
//! lists and unbounded integers for counters, and each operation has a spec
//! transition function.  The executable code in `contract` is proved to
//! return exactly what these transitions say.

use vstd::prelude::*;

use crate::error::Error;
use crate::find::{first_match, lemma_first_match, lemma_first_match_is};

verus! {

/// Payment kind: a ledger-native currency or a contract-issued token
/// identified by its contract address.
#[derive(Clone, Copy, Debug, PartialEq, Eq, Structural)]
pub enum TokenKind {
    Native,
    Cw20,
}

/// Model of one purchase window.
#[verifier::ext_equal]
pub struct PhaseM {
    pub name: Seq<char>,
    pub start_time: int,
    pub end_time: int,
    pub price_per_token: int,
    pub supply: int,
    pub address_list: Seq<Seq<char>>,
    pub limit: int,
    pub total_minted: int,
}

/// Model of the sold token's metadata.
#[verifier::ext_equal]
pub struct TokenInfoM {
    pub name: Seq<char>,
    pub symbol: Seq<char>,
    pub denom: Option<Seq<char>>,
    pub decimals: Option<int>,
    pub description: Seq<char>,
    pub supply: int,
}

/// Model of one whitelist entry: an override purchase allowance.
#[verifier::ext_equal]
pub struct WhitelistUserM {
    pub address: Seq<char>,
    pub amount: int,
}

/// Model of the singleton sale configuration record.
#[verifier::ext_equal]
pub struct StateM {
    pub admin: Seq<char>,
    pub token_info: TokenInfoM,
    pub buy_denom: Seq<char>,
    pub buy_token_type: TokenKind,
    pub tokens_per_buy: int,
    pub start_time: int,
    pub end_time: int,
    pub phases: Seq<PhaseM>,
    pub claimable: bool,
    pub fees_wallet: Seq<char>,
    pub fees_percentage: int,
    pub withdraw_wallet: Seq<char>,
    pub whitelist: Seq<WhitelistUserM>,
}

/// Model of one per-phase purchase counter of a buyer.
#[verifier::ext_equal]
pub struct PhaseBuyM {
    pub name: Seq<char>,
    pub amount: int,
}

/// Model of one buyer's record.
#[verifier::ext_equal]
pub struct UserM {
    pub buy_phases: Seq<PhaseBuyM>,
    pub amount: int,
    pub tokens: int,
    pub claimed: bool,
}

/// Model of one aggregate-ledger entry: a buyer's owed-token total.
#[verifier::ext_equal]
pub struct UserTokenM {
    pub address: Seq<char>,
    pub tokens: int,
}

/// Model of one attached payment coin.
#[verifier::ext_equal]
pub struct CoinM {
    pub denom: Seq<char>,
    pub amount: int,
}

/// Model of an asset-transfer instruction handed to the host for execution.
#[verifier::ext_equal]
pub enum TransferInstrM {
    /// Pay out `amount` of the native currency `denom` to `to`.
    Native { denom: Seq<char>, amount: int, to: Seq<char> },
    /// Ask token contract `contract` to move `amount` to `recipient`.
    Cw20 { contract: Seq<char>, amount: int, recipient: Seq<char> },
}

// ---------------------------------------------------------------------------
// Well-formedness
// ---------------------------------------------------------------------------

/// A phase is well formed: an ordered window, positive supply and price, a
/// minted counter within supply, and every counter within machine range.
pub open spec fn phase_wf(p: PhaseM) -> bool {
    &&& 0 <= p.start_time <= p.end_time <= u64::MAX
    &&& 0 < p.supply <= u64::MAX
    &&& 0 < p.price_per_token <= u128::MAX
    &&& 0 <= p.total_minted <= p.supply
    &&& 0 <= p.limit <= u64::MAX
}

/// No two phases share a name.
pub open spec fn phases_unique(ps: Seq<PhaseM>) -> bool {
    forall|i: int, j: int|
        0 <= i < j < ps.len() ==> ps[i].name != ps[j].name
}

/// No two whitelist entries share an address.
pub open spec fn whitelist_unique(wl: Seq<WhitelistUserM>) -> bool {
    forall|i: int, j: int|
        0 <= i < j < wl.len() ==> wl[i].address != wl[j].address
}

/// Whitelist amounts are within machine range.
pub open spec fn whitelist_bounded(wl: Seq<WhitelistUserM>) -> bool {
    forall|i: int| 0 <= i < wl.len() ==> 0 <= #[trigger] wl[i].amount <= u64::MAX
}

/// The sale configuration's invariant: an ordered global window, well-formed
/// phases with unique names, and a whitelist with unique addresses.
pub open spec fn state_wf(s: StateM) -> bool {
    &&& 0 <= s.start_time <= s.end_time <= u64::MAX
    &&& 0 <= s.tokens_per_buy <= u128::MAX
    &&& forall|i: int| 0 <= i < s.phases.len() ==> phase_wf(#[trigger] s.phases[i])
    &&& phases_unique(s.phases)
    &&& whitelist_unique(s.whitelist)
    &&& whitelist_bounded(s.whitelist)
}

/// Sum of a buyer's per-phase purchase counters.
pub open spec fn buy_sum(bp: Seq<PhaseBuyM>) -> int
    decreases bp.len(),
{
    if bp.len() == 0 {
        0
    } else {
        buy_sum(bp.drop_last()) + bp.last().amount
    }
}

/// No two per-phase counters of one buyer share a phase name.
pub open spec fn buys_unique(bp: Seq<PhaseBuyM>) -> bool {
    forall|i: int, j: int|
        0 <= i < j < bp.len() ==> bp[i].name != bp[j].name
}

/// A buyer's record is well formed: the lifetime counter is the sum of the
/// per-phase counters, per-phase counters are unique and in machine range.
pub open spec fn user_wf(u: UserM) -> bool {
    &&& u.amount == buy_sum(u.buy_phases)
    &&& buys_unique(u.buy_phases)
    &&& forall|i: int| 0 <= i < u.buy_phases.len() ==> 0 <= #[trigger] u.buy_phases[i].amount
    &&& 0 <= u.amount <= u64::MAX
    &&& 0 <= u.tokens <= u128::MAX
}

/// The empty buyer record: created lazily on first deposit.
pub open spec fn empty_user() -> UserM {
    UserM { buy_phases: Seq::empty(), amount: 0, tokens: 0, claimed: false }
}

/// A buyer's record, or the empty one where none exists yet.
pub open spec fn user_or_empty(u: Option<UserM>) -> UserM {
    match u {
        Some(x) => x,
        None => empty_user(),
    }
}

/// No two aggregate-ledger entries share an address.
pub open spec fn ledger_unique(l: Seq<UserTokenM>) -> bool {
    forall|i: int, j: int|
        0 <= i < j < l.len() ==> l[i].address != l[j].address
}

// ---------------------------------------------------------------------------
// Lookups
// ---------------------------------------------------------------------------

/// Is `t` inside the phase's window?
pub open spec fn phase_active(p: PhaseM, t: int) -> bool {
    p.start_time <= t && t <= p.end_time
}

/// Index of the first phase whose window covers `t`: list order is the
/// tie-break when windows overlap.
pub open spec fn active_phase_index(ps: Seq<PhaseM>, t: int) -> Option<int> {
    first_match(ps, |p: PhaseM| phase_active(p, t))
}

/// `active_phase_index` returns the least index of a covering window, and
/// `None` exactly when no window covers `t`.
pub proof fn lemma_active_phase_index(ps: Seq<PhaseM>, t: int)
    ensures
        match active_phase_index(ps, t) {
            Some(i) => 0 <= i < ps.len() && phase_active(ps[i], t) && forall|j: int|
                0 <= j < i ==> !phase_active(#[trigger] ps[j], t),
            None => forall|j: int| 0 <= j < ps.len() ==> !phase_active(#[trigger] ps[j], t),
        },
{
    let f = |p: PhaseM| phase_active(p, t);
    lemma_first_match(ps, f);
    match first_match(ps, f) {
        Some(i) => {
            assert forall|j: int| 0 <= j < i implies !phase_active(#[trigger] ps[j], t) by {
                assert(!f(ps[j]));
            }
        },
        None => {
            assert forall|j: int| 0 <= j < ps.len() implies !phase_active(
                #[trigger] ps[j],
                t,
            ) by {
                assert(!f(ps[j]));
            }
        },
    }
}

/// The converse: the least covering index is what `active_phase_index` says.
pub proof fn lemma_active_phase_index_is(ps: Seq<PhaseM>, t: int, i: int)
    requires
        0 <= i < ps.len(),
        phase_active(ps[i], t),
        forall|j: int| 0 <= j < i ==> !phase_active(#[trigger] ps[j], t),
    ensures
        active_phase_index(ps, t) == Some(i),
{
    let f = |p: PhaseM| phase_active(p, t);
    assert forall|j: int| 0 <= j < i implies !#[trigger] f(ps[j]) by {
        assert(!phase_active(ps[j], t));
    }
    lemma_first_match_is(ps, f, i);
}

/// Index of the first phase with the given name.
pub open spec fn phase_index_by_name(ps: Seq<PhaseM>, name: Seq<char>) -> Option<int> {
    first_match(ps, |p: PhaseM| p.name == name)
}

/// `phase_index_by_name` returns the least index with the name, and `None`
/// exactly when the name is absent.
pub proof fn lemma_phase_index_by_name(ps: Seq<PhaseM>, name: Seq<char>)
    ensures
        match phase_index_by_name(ps, name) {
            Some(i) => 0 <= i < ps.len() && ps[i].name == name && forall|j: int|
                0 <= j < i ==> (#[trigger] ps[j]).name != name,
            None => forall|j: int| 0 <= j < ps.len() ==> (#[trigger] ps[j]).name != name,
        },
{
    let f = |p: PhaseM| p.name == name;
    lemma_first_match(ps, f);
    match first_match(ps, f) {
        Some(i) => {
            assert forall|j: int| 0 <= j < i implies (#[trigger] ps[j]).name != name by {
                assert(!f(ps[j]));
            }
        },
        None => {
            assert forall|j: int| 0 <= j < ps.len() implies (#[trigger] ps[j]).name != name by {
                assert(!f(ps[j]));
            }
        },
    }
}

/// The converse: the least index with the name is what the lookup says.
pub proof fn lemma_phase_index_by_name_is(ps: Seq<PhaseM>, name: Seq<char>, i: int)
    requires
        0 <= i < ps.len(),
        ps[i].name == name,
        forall|j: int| 0 <= j < i ==> (#[trigger] ps[j]).name != name,
    ensures
        phase_index_by_name(ps, name) == Some(i),
{
    let f = |p: PhaseM| p.name == name;
    assert forall|j: int| 0 <= j < i implies !#[trigger] f(ps[j]) by {
        assert(ps[j].name != name);
    }
    lemma_first_match_is(ps, f, i);
}

/// Index of the first whitelist entry for the address.
pub open spec fn wl_index(wl: Seq<WhitelistUserM>, addr: Seq<char>) -> Option<int> {
    first_match(wl, |w: WhitelistUserM| w.address == addr)
}

/// `wl_index` returns the least index with the address, and `None` exactly
/// when the address is absent.
pub proof fn lemma_wl_index(wl: Seq<WhitelistUserM>, addr: Seq<char>)
    ensures
        match wl_index(wl, addr) {
            Some(i) => 0 <= i < wl.len() && wl[i].address == addr && forall|j: int|
                0 <= j < i ==> (#[trigger] wl[j]).address != addr,
            None => forall|j: int| 0 <= j < wl.len() ==> (#[trigger] wl[j]).address != addr,
        },
{
    let f = |w: WhitelistUserM| w.address == addr;
    lemma_first_match(wl, f);
    match first_match(wl, f) {
        Some(i) => {
            assert forall|j: int| 0 <= j < i implies (#[trigger] wl[j]).address != addr by {
                assert(!f(wl[j]));
            }
        },
        None => {
            assert forall|j: int| 0 <= j < wl.len() implies (#[trigger] wl[j]).address
                != addr by {
                assert(!f(wl[j]));
            }
        },
    }
}

/// The converse: the least index with the address is what the lookup says.
pub proof fn lemma_wl_index_is(wl: Seq<WhitelistUserM>, addr: Seq<char>, i: int)
    requires
        0 <= i < wl.len(),
        wl[i].address == addr,
        forall|j: int| 0 <= j < i ==> (#[trigger] wl[j]).address != addr,
    ensures
        wl_index(wl, addr) == Some(i),
{
    let f = |w: WhitelistUserM| w.address == addr;
    assert forall|j: int| 0 <= j < i implies !#[trigger] f(wl[j]) by {
        assert(wl[j].address != addr);
    }
    lemma_first_match_is(wl, f, i);
}

/// Index of a buyer's counter for the named phase.
pub open spec fn buy_index(bp: Seq<PhaseBuyM>, name: Seq<char>) -> Option<int> {
    first_match(bp, |b: PhaseBuyM| b.name == name)
}

/// `buy_index` returns the least index with the name, and `None` exactly
/// when the name is absent.
pub proof fn lemma_buy_index(bp: Seq<PhaseBuyM>, name: Seq<char>)
    ensures
        match buy_index(bp, name) {
            Some(i) => 0 <= i < bp.len() && bp[i].name == name && forall|j: int|
                0 <= j < i ==> (#[trigger] bp[j]).name != name,
            None => forall|j: int| 0 <= j < bp.len() ==> (#[trigger] bp[j]).name != name,
        },
{
    let f = |b: PhaseBuyM| b.name == name;
    lemma_first_match(bp, f);
    match first_match(bp, f) {
        Some(i) => {
            assert forall|j: int| 0 <= j < i implies (#[trigger] bp[j]).name != name by {
                assert(!f(bp[j]));
            }
        },
        None => {
            assert forall|j: int| 0 <= j < bp.len() implies (#[trigger] bp[j]).name != name by {
                assert(!f(bp[j]));
            }
        },
    }
}

/// The converse: the least index with the name is what the lookup says.
pub proof fn lemma_buy_index_is(bp: Seq<PhaseBuyM>, name: Seq<char>, i: int)
    requires
        0 <= i < bp.len(),
        bp[i].name == name,
        forall|j: int| 0 <= j < i ==> (#[trigger] bp[j]).name != name,
    ensures
        buy_index(bp, name) == Some(i),
{
    let f = |b: PhaseBuyM| b.name == name;
    assert forall|j: int| 0 <= j < i implies !#[trigger] f(bp[j]) by {
        assert(bp[j].name != name);
    }
    lemma_first_match_is(bp, f, i);
}

/// Index of the aggregate-ledger entry for the address.
pub open spec fn ledger_index(l: Seq<UserTokenM>, addr: Seq<char>) -> Option<int> {
    first_match(l, |e: UserTokenM| e.address == addr)
}

/// `ledger_index` returns the least index with the address, and `None`
/// exactly when the address is absent.
pub proof fn lemma_ledger_index(l: Seq<UserTokenM>, addr: Seq<char>)
    ensures
        match ledger_index(l, addr) {
            Some(i) => 0 <= i < l.len() && l[i].address == addr && forall|j: int|
                0 <= j < i ==> (#[trigger] l[j]).address != addr,
            None => forall|j: int| 0 <= j < l.len() ==> (#[trigger] l[j]).address != addr,
        },
{
    let f = |e: UserTokenM| e.address == addr;
    lemma_first_match(l, f);
    match first_match(l, f) {
        Some(i) => {
            assert forall|j: int| 0 <= j < i implies (#[trigger] l[j]).address != addr by {
                assert(!f(l[j]));
            }
        },
        None => {
            assert forall|j: int| 0 <= j < l.len() implies (#[trigger] l[j]).address != addr by {
                assert(!f(l[j]));
            }
        },
    }
}

/// The converse: the least index with the address is what the lookup says.
pub proof fn lemma_ledger_index_is(l: Seq<UserTokenM>, addr: Seq<char>, i: int)
    requires
        0 <= i < l.len(),
        l[i].address == addr,
        forall|j: int| 0 <= j < i ==> (#[trigger] l[j]).address != addr,
    ensures
        ledger_index(l, addr) == Some(i),
{
    let f = |e: UserTokenM| e.address == addr;
    assert forall|j: int| 0 <= j < i implies !#[trigger] f(l[j]) by {
        assert(l[j].address != addr);
    }
    lemma_first_match_is(l, f, i);
}

/// A caller's whitelist override allowance; zero when absent.
pub open spec fn wl_amount(wl: Seq<WhitelistUserM>, addr: Seq<char>) -> int {
    match wl_index(wl, addr) {
        Some(i) => wl[i].amount,
        None => 0,
    }
}

/// A buyer's cumulative purchase in the named phase; zero when absent.
pub open spec fn buy_amount(bp: Seq<PhaseBuyM>, name: Seq<char>) -> int {
    match buy_index(bp, name) {
        Some(i) => bp[i].amount,
        None => 0,
    }
}

/// Is the caller eligible to buy in this phase?  An empty allow-list means
/// the phase is open to anyone.
pub open spec fn eligible(p: PhaseM, addr: Seq<char>) -> bool {
    p.address_list.len() == 0 || p.address_list.contains(addr)
}

// ---------------------------------------------------------------------------
// Carry-over
// ---------------------------------------------------------------------------

/// Fold a predecessor's unsold remainder and, for a gated phase, its
/// allow-list into the current phase.
pub open spec fn carry_merge(cur: PhaseM, prev: PhaseM) -> PhaseM {
    PhaseM {
        supply: cur.supply + prev.supply - prev.total_minted,
        address_list: if cur.address_list.len() > 0 {
            cur.address_list + prev.address_list
        } else {
            cur.address_list
        },
        ..cur
    }
}

/// Does the carry-over trigger for the phase at `i`?  Only a phase with a
/// predecessor and no sales yet receives the merge.
pub open spec fn carry_applies(ps: Seq<PhaseM>, i: int) -> bool {
    i > 0 && ps[i].total_minted == 0
}

/// The phase list after the (at most one) carry-over merge at index `i`.
pub open spec fn phases_after_carry(ps: Seq<PhaseM>, i: int) -> Seq<PhaseM> {
    if carry_applies(ps, i) {
        ps.update(i, carry_merge(ps[i], ps[i - 1]))
    } else {
        ps
    }
}

// ---------------------------------------------------------------------------
// Deposit
// ---------------------------------------------------------------------------

/// A buyer's per-phase counters after recording a purchase of `amount` in
/// the named phase.
pub open spec fn buys_after_deposit(bp: Seq<PhaseBuyM>, name: Seq<char>, amount: int) -> Seq<
    PhaseBuyM,
> {
    match buy_index(bp, name) {
        Some(i) => bp.update(i, PhaseBuyM { name: bp[i].name, amount: bp[i].amount + amount }),
        None => bp.push(PhaseBuyM { name, amount }),
    }
}

/// The aggregate ledger after recording that `addr` is now owed `tokens`.
pub open spec fn ledger_after_deposit(l: Seq<UserTokenM>, addr: Seq<char>, tokens: int) -> Seq<
    UserTokenM,
> {
    match ledger_index(l, addr) {
        Some(i) => l.update(i, UserTokenM { address: l[i].address, tokens }),
        None => l.push(UserTokenM { address: addr, tokens }),
    }
}

/// Everything a successful deposit changes, plus the reported phase name.
#[verifier::ext_equal]
pub struct DepositOkM {
    pub state: StateM,
    pub user: UserM,
    pub ledger: Seq<UserTokenM>,
    pub phase_name: Seq<char>,
}

/// The deposit transition: validate a purchase of `amount` units by `sender`
/// at time `t` with payment `funds` attached, and on success record it.
/// Checks run in order; each failure is a distinct rejection.
pub open spec fn deposit_spec(
    s: StateM,
    u: UserM,
    l: Seq<UserTokenM>,
    t: int,
    sender: Seq<char>,
    funds: Seq<CoinM>,
    amount: int,
) -> Result<DepositOkM, Error> {
    if !(s.start_time <= t && t <= s.end_time) {
        Err(Error::NotInLaunchpadTime)
    } else {
        match active_phase_index(s.phases, t) {
            None => Err(Error::NoActivePhase),
            Some(i) => {
                let ps1 = phases_after_carry(s.phases, i);
                let cur = ps1[i];
                let wl = wl_amount(s.whitelist, sender);
                let bought = buy_amount(u.buy_phases, cur.name);
                if !eligible(cur, sender) {
                    Err(Error::NotInPhase)
                } else if cur.total_minted + amount > cur.supply {
                    Err(Error::Overbuy)
                } else if (amount > cur.limit || amount <= 0) && wl < amount {
                    Err(Error::OverLimit)
                } else if bought + amount > cur.limit && wl < amount {
                    Err(Error::MaxBuyPhaseReached)
                } else if !(funds.len() == 1 && funds[0].denom == s.buy_denom && funds[0].amount
                    == cur.price_per_token * amount) {
                    Err(Error::PaymentMismatch)
                } else {
                    let cur2 = PhaseM { total_minted: cur.total_minted + amount, ..cur };
                    let u2 = UserM {
                        buy_phases: buys_after_deposit(u.buy_phases, cur.name, amount),
                        amount: u.amount + amount,
                        tokens: u.tokens + amount * s.tokens_per_buy,
                        claimed: u.claimed,
                    };
                    Ok(
                        DepositOkM {
                            state: StateM { phases: ps1.update(i, cur2), ..s },
                            user: u2,
                            ledger: ledger_after_deposit(l, sender, u2.tokens),
                            phase_name: cur.name,
                        },
                    )
                }
            },
        }
    }
}

/// Machine-range side condition on the carry-over: where the merge would
/// apply, the merged supply must fit the phase's counter width.
pub open spec fn carry_fits(s: StateM, t: int) -> bool {
    match active_phase_index(s.phases, t) {
        Some(i) => carry_applies(s.phases, i) ==> s.phases[i].supply + s.phases[i - 1].supply
            - s.phases[i - 1].total_minted <= u64::MAX,
        None => true,
    }
}

/// Machine-range side condition on a successful deposit: the buyer's new
/// counters must fit their widths.
pub open spec fn deposit_fits(
    s: StateM,
    u: UserM,
    l: Seq<UserTokenM>,
    t: int,
    sender: Seq<char>,
    funds: Seq<CoinM>,
    amount: int,
) -> bool {
    match deposit_spec(s, u, l, t, sender, funds, amount) {
        Ok(o) => o.user.amount <= u64::MAX && o.user.tokens <= u128::MAX,
        Err(_) => true,
    }
}

// ---------------------------------------------------------------------------
// Phase validation and administration
// ---------------------------------------------------------------------------

/// Why a single phase is invalid, if it is: an unordered window, zero
/// supply, a zero price, or a minted counter above supply.
pub open spec fn phase_error(p: PhaseM) -> Option<Error> {
    if p.start_time > p.end_time {
        Some(Error::InvalidTimeRange)
    } else if p.supply <= 0 {
        Some(Error::SupplyZero)
    } else if p.price_per_token <= 0 {
        Some(Error::PriceZero)
    } else if p.total_minted > p.supply {
        Some(Error::MintedExceedsSupply)
    } else {
        None
    }
}

/// Index of the first invalid phase in a list.
pub open spec fn bad_phase_index(ps: Seq<PhaseM>) -> Option<int> {
    first_match(ps, |p: PhaseM| phase_error(p) is Some)
}

/// `bad_phase_index` returns the least invalid index, and `None` exactly
/// when every phase is valid.
pub proof fn lemma_bad_phase_index(ps: Seq<PhaseM>)
    ensures
        match bad_phase_index(ps) {
            Some(i) => 0 <= i < ps.len() && phase_error(ps[i]) is Some && forall|j: int|
                0 <= j < i ==> phase_error(#[trigger] ps[j]) is None,
            None => forall|j: int| 0 <= j < ps.len() ==> phase_error(#[trigger] ps[j]) is None,
        },
{
    let f = |p: PhaseM| phase_error(p) is Some;
    lemma_first_match(ps, f);
    match first_match(ps, f) {
        Some(i) => {
            assert forall|j: int| 0 <= j < i implies phase_error(#[trigger] ps[j]) is None by {
                assert(!f(ps[j]));
            }
        },
        None => {
            assert forall|j: int| 0 <= j < ps.len() implies phase_error(
                #[trigger] ps[j],
            ) is None by {
                assert(!f(ps[j]));
            }
        },
    }
}

/// The converse: the least invalid index is what `bad_phase_index` says.
pub proof fn lemma_bad_phase_index_is(ps: Seq<PhaseM>, i: int)
    requires
        0 <= i < ps.len(),
        phase_error(ps[i]) is Some,
        forall|j: int| 0 <= j < i ==> phase_error(#[trigger] ps[j]) is None,
    ensures
        bad_phase_index(ps) == Some(i),
{
    let f = |p: PhaseM| phase_error(p) is Some;
    assert forall|j: int| 0 <= j < i implies !#[trigger] f(ps[j]) by {
        assert(phase_error(ps[j]) is None);
    }
    lemma_first_match_is(ps, f, i);
}

/// Why a whole phase list is invalid, if it is: some phase is invalid, or
/// two phases share a name.
pub open spec fn phase_list_error(ps: Seq<PhaseM>) -> Option<Error> {
    match bad_phase_index(ps) {
        Some(i) => phase_error(ps[i]),
        None => if phases_unique(ps) {
            None
        } else {
            Some(Error::DuplicatePhase)
        },
    }
}

/// The optional fields of a configuration update; an absent field leaves
/// the configuration untouched.
#[verifier::ext_equal]
pub struct ConfigUpdateM {
    pub start_time: Option<int>,
    pub end_time: Option<int>,
    pub buy_denom: Option<Seq<char>>,
    pub buy_token_type: Option<TokenKind>,
    pub tokens_per_buy: Option<int>,
    pub token_info: Option<TokenInfoM>,
    pub phases: Option<Seq<PhaseM>>,
    pub new_admin: Option<Seq<char>>,
}

/// The configuration-update transition: admin only, never mid-sale, the
/// patched global window must stay ordered, and a wholesale phase
/// replacement must be a valid phase list.
pub open spec fn update_config_spec(s: StateM, t: int, sender: Seq<char>, c: ConfigUpdateM) -> Result<
    StateM,
    Error,
> {
    let new_start = if c.start_time is Some { c.start_time->0 } else { s.start_time };
    let new_end = if c.end_time is Some { c.end_time->0 } else { s.end_time };
    if sender != s.admin {
        Err(Error::NotAdmin)
    } else if s.start_time < t && t < s.end_time {
        Err(Error::LaunchpadInProgress)
    } else if new_start > new_end {
        Err(Error::InvalidTimeRange)
    } else if c.phases is Some && phase_list_error(c.phases->0) is Some {
        Err(phase_list_error(c.phases->0)->0)
    } else {
        Ok(
            StateM {
                start_time: new_start,
                end_time: new_end,
                buy_denom: if c.buy_denom is Some { c.buy_denom->0 } else { s.buy_denom },
                buy_token_type: if c.buy_token_type is Some {
                    c.buy_token_type->0
                } else {
                    s.buy_token_type
                },
                tokens_per_buy: if c.tokens_per_buy is Some {
                    c.tokens_per_buy->0
                } else {
                    s.tokens_per_buy
                },
                token_info: if c.token_info is Some { c.token_info->0 } else { s.token_info },
                phases: if c.phases is Some { c.phases->0 } else { s.phases },
                admin: if c.new_admin is Some { c.new_admin->0 } else { s.admin },
                ..s
            },
        )
    }
}

/// The shared guard of every phase or whitelist mutation: admin only, and
/// only before the sale has started.
pub open spec fn admin_gate(s: StateM, t: int, sender: Seq<char>) -> Option<Error> {
    if sender != s.admin {
        Some(Error::NotAdmin)
    } else if t > s.start_time {
        Some(Error::LaunchpadStarted)
    } else {
        None
    }
}

/// The add-phase transition: gated, the phase must be valid, and its name
/// must be new.
pub open spec fn add_phase_spec(s: StateM, t: int, sender: Seq<char>, p: PhaseM) -> Result<
    StateM,
    Error,
> {
    if admin_gate(s, t, sender) is Some {
        Err(admin_gate(s, t, sender)->0)
    } else if phase_error(p) is Some {
        Err(phase_error(p)->0)
    } else if phase_index_by_name(s.phases, p.name) is Some {
        Err(Error::PhaseExists)
    } else {
        Ok(StateM { phases: s.phases.push(p), ..s })
    }
}

/// The optional fields of a phase update; an absent field leaves the phase
/// untouched.  The minted counter is never updatable.
#[verifier::ext_equal]
pub struct PhaseUpdateM {
    pub start_time: Option<int>,
    pub end_time: Option<int>,
    pub price_per_token: Option<int>,
    pub supply: Option<int>,
    pub address_list: Option<Seq<Seq<char>>>,
    pub limit: Option<int>,
}

/// A phase with an update's present fields applied.
pub open spec fn patched_phase(p: PhaseM, c: PhaseUpdateM) -> PhaseM {
    PhaseM {
        start_time: if c.start_time is Some { c.start_time->0 } else { p.start_time },
        end_time: if c.end_time is Some { c.end_time->0 } else { p.end_time },
        price_per_token: if c.price_per_token is Some {
            c.price_per_token->0
        } else {
            p.price_per_token
        },
        supply: if c.supply is Some { c.supply->0 } else { p.supply },
        address_list: if c.address_list is Some { c.address_list->0 } else { p.address_list },
        limit: if c.limit is Some { c.limit->0 } else { p.limit },
        ..p
    }
}

/// The update-phase transition: gated, the phase must exist, and the merged
/// result must still be valid.
pub open spec fn update_phase_spec(
    s: StateM,
    t: int,
    sender: Seq<char>,
    name: Seq<char>,
    c: PhaseUpdateM,
) -> Result<StateM, Error> {
    if admin_gate(s, t, sender) is Some {
        Err(admin_gate(s, t, sender)->0)
    } else {
        match phase_index_by_name(s.phases, name) {
            None => Err(Error::PhaseNotFound),
            Some(i) => {
                let p2 = patched_phase(s.phases[i], c);
                if phase_error(p2) is Some {
                    Err(phase_error(p2)->0)
                } else {
                    Ok(StateM { phases: s.phases.update(i, p2), ..s })
                }
            },
        }
    }
}

/// The remove-phase transition: gated, and the phase must exist.
pub open spec fn remove_phase_spec(s: StateM, t: int, sender: Seq<char>, name: Seq<char>) -> Result<
    StateM,
    Error,
> {
    if admin_gate(s, t, sender) is Some {
        Err(admin_gate(s, t, sender)->0)
    } else {
        match phase_index_by_name(s.phases, name) {
            None => Err(Error::PhaseNotFound),
            Some(i) => Ok(StateM { phases: s.phases.remove(i), ..s }),
        }
    }
}

/// A whitelist after upserting one entry: an existing address has its
/// amount overwritten, a new address is appended.
pub open spec fn whitelist_upsert(wl: Seq<WhitelistUserM>, e: WhitelistUserM) -> Seq<
    WhitelistUserM,
> {
    match wl_index(wl, e.address) {
        Some(i) => wl.update(i, WhitelistUserM { address: wl[i].address, amount: e.amount }),
        None => wl.push(e),
    }
}

/// A whitelist after upserting a batch of entries, in order.
pub open spec fn whitelist_upsert_all(wl: Seq<WhitelistUserM>, es: Seq<WhitelistUserM>) -> Seq<
    WhitelistUserM,
>
    decreases es.len(),
{
    if es.len() == 0 {
        wl
    } else {
        whitelist_upsert_all(whitelist_upsert(wl, es[0]), es.drop_first())
    }
}

/// The add-whitelist transition: gated, then an upsert of each entry.
pub open spec fn add_whitelist_spec(
    s: StateM,
    t: int,
    sender: Seq<char>,
    es: Seq<WhitelistUserM>,
) -> Result<StateM, Error> {
    if admin_gate(s, t, sender) is Some {
        Err(admin_gate(s, t, sender)->0)
    } else {
        Ok(StateM { whitelist: whitelist_upsert_all(s.whitelist, es), ..s })
    }
}

/// The remove-from-whitelist transition: gated; a missing address is not an
/// error, merely reported as `false`.
pub open spec fn remove_whitelist_spec(s: StateM, t: int, sender: Seq<char>, addr: Seq<char>) -> Result<
    (StateM, bool),
    Error,
> {
    if admin_gate(s, t, sender) is Some {
        Err(admin_gate(s, t, sender)->0)
    } else {
        match wl_index(s.whitelist, addr) {
            Some(i) => Ok((StateM { whitelist: s.whitelist.remove(i), ..s }, true)),
            None => Ok((s, false)),
        }
    }
}

/// Everything the deployment call provides, as a model.
#[verifier::ext_equal]
pub struct InstantiateMsgM {
    pub admin: Seq<char>,
    pub start_time: int,
    pub end_time: int,
    pub buy_denom: Seq<char>,
    pub buy_token_type: TokenKind,
    pub tokens_per_buy: int,
    pub token_info: TokenInfoM,
    pub phases: Option<Seq<PhaseM>>,
    pub fees_wallet: Seq<char>,
    pub withdraw_wallet: Seq<char>,
    pub whitelist: Option<Seq<WhitelistUserM>>,
}

/// The deployment transition: the global window must be ordered, the given
/// phases must form a valid list, and the given whitelist must have unique
/// addresses.  Claiming starts disabled and the fee percentage at zero.
pub open spec fn instantiate_spec(m: InstantiateMsgM) -> Result<StateM, Error> {
    let phases = if m.phases is Some { m.phases->0 } else { Seq::empty() };
    let wl = if m.whitelist is Some { m.whitelist->0 } else { Seq::empty() };
    if m.start_time > m.end_time {
        Err(Error::InvalidTimeRange)
    } else if phase_list_error(phases) is Some {
        Err(phase_list_error(phases)->0)
    } else if !whitelist_unique(wl) {
        Err(Error::DuplicateWhitelist)
    } else {
        Ok(
            StateM {
                admin: m.admin,
                token_info: m.token_info,
                buy_denom: m.buy_denom,
                buy_token_type: m.buy_token_type,
                tokens_per_buy: m.tokens_per_buy,
                start_time: m.start_time,
                end_time: m.end_time,
                phases,
                claimable: false,
                fees_wallet: m.fees_wallet,
                fees_percentage: 0,
                withdraw_wallet: m.withdraw_wallet,
                whitelist: wl,
            },
        )
    }
}

// ---------------------------------------------------------------------------
// Claim and withdrawal
// ---------------------------------------------------------------------------

/// Ten to the given power.
pub open spec fn pow10(n: int) -> int
    decreases n,
{
    if n <= 0 {
        1
    } else {
        10 * pow10(n - 1)
    }
}

/// Machine-range side condition on a successful claim: the settlement
/// asset must be configured and the scaled payout must fit its width.
pub open spec fn claim_fits(s: StateM, u: Option<UserM>) -> bool {
    s.claimable && u is Some && !u->0.claimed ==> {
        &&& s.token_info.denom is Some
        &&& s.token_info.decimals is Some
        &&& pow10(s.token_info.decimals->0) <= u128::MAX
        &&& pow10(s.token_info.decimals->0) * u->0.tokens <= u128::MAX
    }
}

/// The flip-claim-status transition: admin only; turning claiming on
/// requires the settlement denomination and decimal count to be configured.
pub open spec fn flip_claim_spec(s: StateM, sender: Seq<char>) -> Result<StateM, Error> {
    if sender != s.admin {
        Err(Error::NotAdmin)
    } else if !s.claimable && (s.token_info.denom is None || s.token_info.decimals is None) {
        Err(Error::TokenDenomNotSet)
    } else {
        Ok(StateM { claimable: !s.claimable, ..s })
    }
}

/// The payout a buyer is owed on claim: the accrued token balance scaled by
/// the settlement asset's decimal count.
pub open spec fn claim_payout(s: StateM, u: UserM) -> int {
    pow10(s.token_info.decimals->0) * u.tokens
}

/// The claim transition: claiming must be enabled, the caller must have a
/// record not yet claimed; the payout instruction is a token transfer of
/// the scaled balance to the caller, and the record is marked claimed.
pub open spec fn claim_spec(s: StateM, u: Option<UserM>, sender: Seq<char>) -> Result<
    (UserM, TransferInstrM),
    Error,
> {
    if !s.claimable {
        Err(Error::NotClaimable)
    } else {
        match u {
            None => Err(Error::UserNotFound),
            Some(u) => {
                if u.claimed {
                    Err(Error::AlreadyClaimed)
                } else {
                    Ok(
                        (
                            UserM { claimed: true, ..u },
                            TransferInstrM::Cw20 {
                                contract: s.token_info.denom->0,
                                amount: claim_payout(s, u),
                                recipient: sender,
                            },
                        ),
                    )
                }
            },
        }
    }
}

/// The transfer instruction for a given asset kind: a bank send for the
/// native currency, a contract call for a tokenized asset.
pub open spec fn transfer_instr(
    denom: Seq<char>,
    kind: TokenKind,
    amount: int,
    receiver: Seq<char>,
) -> TransferInstrM {
    match kind {
        TokenKind::Native => TransferInstrM::Native { denom, amount, to: receiver },
        TokenKind::Cw20 => TransferInstrM::Cw20 { contract: denom, amount, recipient: receiver },
    }
}

/// The withdraw transition: admin only; the contract's entire held balance
/// of the named asset moves to the configured withdrawal wallet.
pub open spec fn withdraw_spec(
    s: StateM,
    sender: Seq<char>,
    denom: Seq<char>,
    kind: TokenKind,
    held_balance: int,
) -> Result<TransferInstrM, Error> {
    if sender != s.admin {
        Err(Error::NotAdmin)
    } else {
        Ok(transfer_instr(denom, kind, held_balance, s.withdraw_wallet))
    }
}

} // verus!
