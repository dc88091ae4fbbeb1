//! Properties that relate several operations of the library.

use vstd::prelude::*;

use crate::decimal::Decimal;
use crate::core_contract::state::Market;
use crate::market::book::{ids_of_owner, index_consistent, owner_key};
use crate::decimal::DECIMAL_FRACTIONAL;
use crate::market::position::{Position, debt_capacity, liquidatable, locked_collateral, red_line, with_fee};
use crate::pagination::is_page;
use crate::interface::MessageInfo;
use crate::market::contract::{consistent, MarketResponse, MarketStore};
use crate::market::error::ContractError;
use crate::market::execute::{Action, action_post, close_post, open_post};
use crate::market::state::{State, update_fee_in_range, updated_state};
use crate::market::query::{list_post, position_lookup, position_report, position_reports, state_report, config_report, SECONDS_PER_YEAR};
use crate::market::execute::{ConfigChange, config_post};
use crate::decimal::decimal_pow;
use crate::interface::market::{GetPositionResponse, ListPositionResponse, ListPositionMsg};
use crate::error::StdError;

verus! {

/// Applying the fee twice at the same global index changes nothing the
/// second time.
pub proof fn law_fee_application_idempotent(p: Position, g: Decimal)
    requires
        with_fee(p, g) is Ok,
    ensures
        with_fee(with_fee(p, g)->Ok_0, g) == with_fee(p, g),
{
    let q = with_fee(p, g)->Ok_0;
    assert(q.debt * 0 == 0) by (nonlinear_arith);
    assert(with_fee(q, g)->Ok_0 == q);
}

/// Applying the fee only adds to the debt: owner and collateral stay, the
/// debt does not shrink, and the position's index becomes the global one.
pub proof fn law_fee_only_adds_debt(p: Position, g: Decimal)
    requires
        p.stored_fee_index.atomics <= g.atomics,
        with_fee(p, g) is Ok,
    ensures
        with_fee(p, g)->Ok_0.owner == p.owner,
        with_fee(p, g)->Ok_0.collateral == p.collateral,
        with_fee(p, g)->Ok_0.debt >= p.debt,
        with_fee(p, g)->Ok_0.stored_fee_index == g,
{
    assert(p.debt * (g.atomics - p.stored_fee_index.atomics) >= 0) by (nonlinear_arith)
        requires
            p.stored_fee_index.atomics <= g.atomics,
    ;
}

/// A position has no borrowing capacity left (`borrowable_debt` fails)
/// exactly when it can be liquidated (`is_liquidatable` holds).
pub proof fn law_no_capacity_iff_liquidatable(p: Position, rate: Decimal, ltv: Decimal)
    ensures
        debt_capacity(p, rate, ltv) is Err <==> liquidatable(p, rate, ltv),
{
}

/// A position that cannot be liquidated keeps no more collateral locked than
/// it holds, so `unlockable_collateral` gives an amount rather than an error.
pub proof fn law_safe_position_can_unlock(p: Position, rate: Decimal, ltv: Decimal)
    requires
        rate.atomics > 0,
        !liquidatable(p, rate, ltv),
    ensures
        locked_collateral(p, rate, ltv) <= p.collateral,
{
    let f = DECIMAL_FRACTIONAL as int;
    let c = p.collateral as int;
    let r = rate.atomics as int;
    let rl = red_line(p, ltv);
    vstd::arithmetic::div_mod::lemma_fundamental_div_mod(c * r, f);
    assert(rl * f <= c * r) by (nonlinear_arith)
        requires
            rl <= (c * r) / f,
            c * r == f * ((c * r) / f) + (c * r) % f,
            (c * r) % f >= 0,
            f > 0,
    ;
    vstd::arithmetic::div_mod::lemma_fundamental_div_mod(rl * f, r);
    assert((rl * f) / r <= c) by (nonlinear_arith)
        requires
            rl * f <= c * r,
            rl * f == r * ((rl * f) / r) + (rl * f) % r,
            (rl * f) % r >= 0,
            r > 0,
    ;
}

/// A page of keys is determined by the keys, the cursor, the limit and the
/// order: two pages over the same request are equal.
pub proof fn law_page_unique(r1: Seq<u64>, r2: Seq<u64>, keys: Set<u64>, start_after: Option<u64>, limit: nat, asc: bool)
    requires
        is_page(r1, keys, start_after, limit, asc),
        is_page(r2, keys, start_after, limit, asc),
    ensures
        r1 == r2,
    decreases r1.len() + r2.len(),
{
    lemma_page_prefix(r1, r2, keys, start_after, limit, asc, 0);
}

proof fn lemma_page_prefix(r1: Seq<u64>, r2: Seq<u64>, keys: Set<u64>, start_after: Option<u64>, limit: nat, asc: bool, n: int)
    requires
        is_page(r1, keys, start_after, limit, asc),
        is_page(r2, keys, start_after, limit, asc),
        0 <= n,
        n <= r1.len(),
        n <= r2.len(),
        forall|i: int| 0 <= i < n ==> r1[i] == r2[i],
    ensures
        r1 == r2,
    decreases r1.len() + r2.len() - 2 * n,
{
    if n == r1.len() && n == r2.len() {
        assert(r1 =~= r2);
    } else if n < r1.len() && n < r2.len() {
        let a = r1[n];
        let b = r2[n];
        if a != b {
            if crate::pagination::before(a, b, asc) {
                // `a` is a key of the window that `r2` does not list before `b`.
                assert(keys.contains(a) && crate::pagination::in_window(a, start_after, asc));
                if r2.contains(a) {
                    let j = choose|j: int| 0 <= j < r2.len() && r2[j] == a;
                    if j < n {
                        assert(r1[j] == r2[j]);
                        assert(crate::pagination::before(r1[j], r1[n], asc));
                    } else if j > n {
                        assert(crate::pagination::before(r2[n], r2[j], asc));
                    }
                } else {
                    assert(crate::pagination::before(r2[n], r2.last(), asc) || n == r2.len() - 1);
                }
            } else {
                assert(keys.contains(b) && crate::pagination::in_window(b, start_after, asc));
                if r1.contains(b) {
                    let j = choose|j: int| 0 <= j < r1.len() && r1[j] == b;
                    if j < n {
                        assert(r1[j] == r2[j]);
                        assert(crate::pagination::before(r2[j], r2[n], asc));
                    } else if j > n {
                        assert(crate::pagination::before(r1[n], r1[j], asc));
                    }
                } else {
                    assert(crate::pagination::before(r1[n], r1.last(), asc) || n == r1.len() - 1);
                }
            }
        }
        lemma_page_prefix(r1, r2, keys, start_after, limit, asc, n + 1);
    } else if n == r1.len() {
        let b = r2[n];
        assert(keys.contains(b) && crate::pagination::in_window(b, start_after, asc));
        if r1.contains(b) {
            let j = choose|j: int| 0 <= j < r1.len() && r1[j] == b;
            assert(r1[j] == r2[j]);
            assert(crate::pagination::before(r2[j], r2[n], asc));
        }
    } else {
        let a = r1[n];
        assert(keys.contains(a) && crate::pagination::in_window(a, start_after, asc));
        if r2.contains(a) {
            let j = choose|j: int| 0 <= j < r2.len() && r2[j] == a;
            assert(r1[j] == r2[j]);
            assert(crate::pagination::before(r1[j], r1[n], asc));
        }
    }
}

/// Handing a position to a new owner keeps the owner index in agreement
/// with the positions.
pub proof fn law_transfer_keeps_index_consistent(
    positions: Map<u64, Position>,
    index: Set<(Seq<char>, u64)>,
    id: u64,
    new_owner: String,
)
    requires
        index_consistent(positions, index),
        positions.contains_key(id),
    ensures
        index_consistent(
            positions.insert(id, Position { owner: new_owner, ..positions[id] }),
            index.remove(owner_key(positions[id].owner, id)).insert(owner_key(new_owner, id)),
        ),
{
    let p1 = positions.insert(id, Position { owner: new_owner, ..positions[id] });
    let i1 = index.remove(owner_key(positions[id].owner, id)).insert(owner_key(new_owner, id));
    assert forall|o: Seq<char>, k: u64| #[trigger] i1.contains((o, k)) implies p1.contains_key(k) && p1[k].owner@ == o by {
        if (o, k) != owner_key(new_owner, id) {
            assert(index.contains((o, k)));
            if k == id {
                assert(positions[id].owner@ == o);
            }
        }
    }
    assert forall|k: u64| #[trigger] p1.contains_key(k) implies i1.contains((p1[k].owner@, k)) by {
        if k != id {
            assert(index.contains((positions[k].owner@, k)));
        }
    }
}

/// Closing a position that was just saved under a fresh id restores the
/// positions and the owner index as they were.
pub proof fn law_close_undoes_save(
    positions: Map<u64, Position>,
    index: Set<(Seq<char>, u64)>,
    id: u64,
    p: Position,
)
    requires
        !positions.contains_key(id),
        !index.contains(owner_key(p.owner, id)),
    ensures
        positions.insert(id, p).remove(id) == positions,
        index.insert(owner_key(p.owner, id)).remove(owner_key(p.owner, id)) == index,
{
    assert(positions.insert(id, p).remove(id) =~= positions);
    assert(index.insert(owner_key(p.owner, id)).remove(owner_key(p.owner, id)) =~= index);
}

/// A market that was saved under an address is what loading that address
/// gives back.
pub proof fn law_market_read_after_save(markets: Map<Seq<char>, Market>, address: Seq<char>, market: Market)
    ensures
        markets.insert(address, market).contains_key(address),
        markets.insert(address, market)[address] == market,
{
}

/// Removing a market right after saving it under a fresh address, name and
/// (collateral, address) pair restores the registry as it was.
pub proof fn law_market_remove_undoes_save(
    markets: Map<Seq<char>, Market>,
    names: Map<Seq<char>, String>,
    collaterals: Set<(Seq<char>, Seq<char>)>,
    address: String,
    market: Market,
)
    requires
        !markets.contains_key(address@),
        !names.contains_key(market.name@),
        !collaterals.contains((market.collateral@, address@)),
    ensures
        markets.insert(address@, market).remove(address@) == markets,
        names.insert(market.name@, address).remove(market.name@) == names,
        collaterals.insert((market.collateral@, address@)).remove((market.collateral@, address@)) == collaterals,
{
    assert(markets.insert(address@, market).remove(address@) =~= markets);
    assert(names.insert(market.name@, address).remove(market.name@) =~= names);
    assert(collaterals.insert((market.collateral@, address@)).remove((market.collateral@, address@)) =~= collaterals);
}


/// A refused market action changes nothing: whenever an action answers with
/// an error, the store after it holds what it held before.
pub proof fn law_refused_action_changes_nothing(
    s0: MarketStore,
    s1: MarketStore,
    fee_state: State,
    info: MessageInfo,
    action: Action,
    r: Result<MarketResponse, ContractError>,
)
    requires
        action_post(s0, s1, fee_state, info, action, r),
        r is Err,
    ensures
        s1.same_as(s0),
{
}

/// Closing a position right after opening it, by the same sender, succeeds
/// and leaves the positions, the owner index and the total collateral as the
/// open found them; only the id counter stays advanced.
pub proof fn law_close_undoes_open(
    s0: MarketStore,
    s1: MarketStore,
    s2: MarketStore,
    open_fee: State,
    close_fee: State,
    info: MessageInfo,
    r1: Result<MarketResponse, ContractError>,
    r2: Result<MarketResponse, ContractError>,
)
    requires
        consistent(s0),
        open_post(s0, s1, open_fee, info, r1),
        close_post(s1, s2, close_fee, info, s0.book.count(), r2),
    ensures
        r2 is Ok,
        s2.book.positions() == s0.book.positions(),
        s2.book.owner_index() == s0.book.owner_index(),
        s2.book.count() == s0.book.count() + 1,
        s2.state.total_collateral == close_fee.total_collateral,
{
    let id = s0.book.count();
    let p = s1.book.positions()[id];
    assert(p.debt * (close_fee.global_fee_index.atomics - p.stored_fee_index.atomics) == 0) by (nonlinear_arith)
        requires
            p.debt == 0,
    ;
    assert(!s0.book.positions().contains_key(id));
    assert(!s0.book.owner_index().contains(owner_key(info.sender, id)));
    assert(s0.book.positions().insert(id, p).remove(id) =~= s0.book.positions());
    assert(s0.book.owner_index().insert(owner_key(info.sender, id)).remove(owner_key(info.sender, id))
        =~= s0.book.owner_index());
}


/// In a consistent market the owner index lists for an owner exactly the
/// positions that exist and belong to that owner, so a listing by owner
/// shows all of the owner's positions and no one else's.
pub proof fn law_owner_listing_is_exact(store: MarketStore, owner: Seq<char>, id: u64)
    requires
        consistent(store),
    ensures
        ids_of_owner(store.book.owner_index(), owner).contains(id) <==> (store.book.positions().contains_key(id)
            && store.book.positions()[id].owner@ == owner),
{
    if store.book.positions().contains_key(id) && store.book.positions()[id].owner@ == owner {
        assert(store.book.owner_index().contains((store.book.positions()[id].owner@, id)));
    }
    if ids_of_owner(store.book.owner_index(), owner).contains(id) {
        assert(store.book.owner_index().contains((owner, id)));
    }
}


/// Compounding the fee index twice at the same instant accrues nothing the
/// second time, and the second update is always in range.
pub proof fn law_fee_update_idempotent(s: State, now: u64, multiplier: Decimal)
    requires
        update_fee_in_range(s, now, multiplier),
    ensures
        update_fee_in_range(updated_state(s, now, multiplier), now, multiplier),
        updated_state(updated_state(s, now, multiplier), now, multiplier) == updated_state(s, now, multiplier),
{
}

proof fn lemma_reports_each(ids: Seq<u64>, positions: Map<u64, Position>, g: Decimal, v: Seq<GetPositionResponse>)
    requires
        position_reports(ids, positions, g) == Ok::<Seq<GetPositionResponse>, StdError>(v),
    ensures
        v.len() == ids.len(),
        forall|i: int| 0 <= i < ids.len() ==> positions.contains_key(#[trigger] ids[i])
            && position_report(ids[i], positions[ids[i]], g) == Ok::<GetPositionResponse, StdError>(v[i])
            && v[i].id == ids[i],
    decreases ids.len(),
{
    if ids.len() > 0 {
        let prev = position_reports(ids.drop_last(), positions, g)->Ok_0;
        lemma_reports_each(ids.drop_last(), positions, g, prev);
        assert(v == prev.push(v.last()));
        assert forall|i: int| 0 <= i < ids.len() implies positions.contains_key(#[trigger] ids[i])
            && position_report(ids[i], positions[ids[i]], g) == Ok::<GetPositionResponse, StdError>(v[i])
            && v[i].id == ids[i] by {
            if i < ids.len() - 1 {
                assert(ids.drop_last()[i] == ids[i]);
                assert(prev[i] == v[i]);
            }
        }
    }
}

/// Every entry of a position listing is what the single-position query
/// answers for that entry's id.
pub proof fn law_listing_agrees_with_position_query(
    store: MarketStore,
    opt: ListPositionMsg,
    owner_check: Result<String, StdError>,
    l: ListPositionResponse,
    i: int,
)
    requires
        list_post(store, opt, owner_check, Ok(l)),
        0 <= i < l.0@.len(),
    ensures
        position_lookup(store, l.0@[i].id) == Ok::<GetPositionResponse, StdError>(l.0@[i]),
{
    let positions = store.book.positions();
    let g = store.state.global_fee_index;
    let keys = match opt {
        ListPositionMsg::Default { .. } => positions.dom(),
        ListPositionMsg::ByOwner { .. } => ids_of_owner(store.book.owner_index(), owner_check->Ok_0@),
    };
    let start = crate::market::query::list_start(opt);
    let size = crate::market::query::page_size(opt);
    let asc = crate::market::query::ascending(crate::market::query::list_order(opt));
    assert(opt is ByOwner ==> owner_check is Ok);
    let p = choose|p: Seq<u64>| is_page(p, keys, start, size, asc)
        && crate::market::query::listed(Ok(l), #[trigger] position_reports(p, positions, g));
    assert(crate::market::query::listed(Ok(l), position_reports(p, positions, g)));
    let v = position_reports(p, positions, g)->Ok_0;
    lemma_reports_each(p, positions, g, v);
    assert(l.0@ == v);
    assert(positions.contains_key(p[i]));
}


/// The report on a position, as the single-position query gives it, carries
/// the position's own owner, collateral and debt under its own id, and as the
/// pending fee the debt times the growth of the fee index since the
/// position's index, rounded down.
pub proof fn law_position_report_copies_position(store: MarketStore, position_id: u64)
    requires
        consistent(store),
        position_lookup(store, position_id) is Ok,
    ensures
        store.book.positions().contains_key(position_id),
        ({
            let x = position_lookup(store, position_id)->Ok_0;
            let p = store.book.positions()[position_id];
            let g = store.state.global_fee_index;
            &&& x.id == position_id
            &&& x.owner == p.owner
            &&& x.collateral == p.collateral
            &&& x.debt == p.debt
            &&& x.pending_fee == p.debt * (g.atomics - p.stored_fee_index.atomics) / (DECIMAL_FRACTIONAL as int)
        }),
{
    let p = store.book.positions()[position_id];
    let g = store.state.global_fee_index;
    assert(p.debt * (g.atomics - p.stored_fee_index.atomics) >= 0) by (nonlinear_arith)
        requires
            p.stored_fee_index.atomics <= g.atomics,
    ;
}

/// Every entry of a position listing reports a stored position: its own
/// owner, collateral and debt, and the fee pending on it.
pub proof fn law_listing_reports_stored_positions(
    store: MarketStore,
    opt: ListPositionMsg,
    owner_check: Result<String, StdError>,
    l: ListPositionResponse,
    i: int,
)
    requires
        consistent(store),
        list_post(store, opt, owner_check, Ok(l)),
        0 <= i < l.0@.len(),
    ensures
        store.book.positions().contains_key(l.0@[i].id),
        ({
            let x = l.0@[i];
            let p = store.book.positions()[x.id];
            let g = store.state.global_fee_index;
            &&& x.owner == p.owner
            &&& x.collateral == p.collateral
            &&& x.debt == p.debt
            &&& x.pending_fee == p.debt * (g.atomics - p.stored_fee_index.atomics) / (DECIMAL_FRACTIONAL as int)
        }),
{
    law_listing_agrees_with_position_query(store, opt, owner_check, l, i);
    law_position_report_copies_position(store, l.0@[i].id);
}

/// The state query reports the stored totals and fee index, each in its own
/// field.
pub proof fn law_state_report_is_stored_state(store: MarketStore)
    ensures
        state_report(store).total_debt == store.state.total_debt,
        state_report(store).total_collateral == store.state.total_collateral,
        state_report(store).fee_updated_at == store.state.fee_updated_at,
        state_report(store).global_fee_index == store.state.global_fee_index,
{
}

/// The settings query reports the stored settings, each in its own field,
/// and as `fee_apy` the per-second multiplier compounded over a year, less one.
pub proof fn law_config_report_is_stored_settings(store: MarketStore)
    requires
        decimal_pow((DECIMAL_FRACTIONAL + store.config.fee_multiplier.atomics) as u128, SECONDS_PER_YEAR)
            >= DECIMAL_FRACTIONAL,
    ensures
        config_report(store).name == store.config.name,
        config_report(store).core == store.config.core,
        config_report(store).oracle == store.config.oracle,
        config_report(store).debt_asset == store.config.debt_asset,
        config_report(store).collateral_asset == store.config.collateral_asset,
        config_report(store).borrow_ltv == store.config.borrow_ltv,
        config_report(store).fee_multiplier == store.config.fee_multiplier,
        config_report(store).fee_apy.atomics + DECIMAL_FRACTIONAL
            == decimal_pow((DECIMAL_FRACTIONAL + store.config.fee_multiplier.atomics) as u128, SECONDS_PER_YEAR),
{
}

/// A settings change by the core sets exactly what it names: a rename sets the
/// name, an LTV or fee-multiplier adjustment sets that value, and a role
/// change sets the validated addresses; every other setting stays, and the
/// up-to-date fee state is stored.
pub proof fn law_config_sets_what_it_is_told(
    s0: MarketStore,
    s1: MarketStore,
    fee_state: State,
    info: MessageInfo,
    change: ConfigChange,
    r: Result<MarketResponse, ContractError>,
)
    requires
        config_post(s0, s1, fee_state, info, change, r),
        info.sender@ == s0.config.core@,
    ensures
        r is Ok ==> s1.state == fee_state,
        r is Ok ==> s1.config.debt_asset == s0.config.debt_asset
            && s1.config.collateral_asset == s0.config.collateral_asset
            && s1.config.liquidator == s0.config.liquidator,
        match change {
            ConfigChange::ChangeName(n) => {
                &&& r is Ok
                &&& s1.config.name == n
                &&& s1.config.core == s0.config.core && s1.config.oracle == s0.config.oracle
                &&& s1.config.borrow_ltv == s0.config.borrow_ltv
                &&& s1.config.fee_multiplier == s0.config.fee_multiplier
            },
            ConfigChange::AdjustFeeMultiplier(m) => {
                &&& r is Ok
                &&& s1.config.fee_multiplier == m
                &&& s1.config.name == s0.config.name
                &&& s1.config.borrow_ltv == s0.config.borrow_ltv
            },
            ConfigChange::AdjustLTV { borrow_ltv } => {
                &&& r is Ok
                &&& s1.config.borrow_ltv == (match borrow_ltv { Some(l) => l, None => s0.config.borrow_ltv })
                &&& s1.config.name == s0.config.name
                &&& s1.config.fee_multiplier == s0.config.fee_multiplier
            },
            ConfigChange::ManageRoles { core, oracle } => {
                &&& (!(core matches Some(Err(_))) && !(oracle matches Some(Err(_))) ==> r is Ok)
                &&& (r is Ok ==> s1.config.core == (match core { Some(Ok(a)) => a, _ => s0.config.core }))
                &&& (r is Ok ==> s1.config.oracle == (match oracle { Some(Ok(a)) => a, _ => s0.config.oracle }))
                &&& (r is Ok ==> s1.config.name == s0.config.name)
            },
        },
{
}

} // verus!
