use vstd::prelude::*;

use crate::decimal::{Decimal, DECIMAL_FRACTIONAL, exact_pow_at_most, decimal_pow};
use crate::error::{RecordKind, StdError};
use crate::interface::{RangeOrder, DEFAULT_LIMIT, MAX_LIMIT};
use crate::interface::market::{QueryMsg, GetConfigResponse, GetStateResponse, GetPositionResponse, ListPositionMsg, ListPositionResponse};
use crate::market::book::ids_of_owner;
use crate::market::contract::MarketStore;
use crate::market::error::ContractError;
use crate::market::position::{Position, fee_applicable, with_fee};
use crate::pagination::{is_page, page_keys};

verus! {

/// Seconds in the year over which `get_config` compounds the fee multiplier.
pub const SECONDS_PER_YEAR: u32 = 31_536_000;

/// The fee of position `position_id`, when there is one, can be applied at
/// the current global index.
pub open spec fn position_fee_applicable(store: MarketStore, position_id: u64) -> bool {
    store.book.positions().contains_key(position_id) ==> fee_applicable(
        store.book.positions()[position_id],
        store.state.global_fee_index,
    )
}

/// Whether the fee of position `position_id`, when there is one, can be
/// applied at the current global index (`position_fee_applicable`).
pub fn position_fee_applicable_check(store: &MarketStore, position_id: u64) -> (b: bool)
    requires
        store.wf(),
    ensures
        b == position_fee_applicable(*store, position_id),
{
    match store.book.load(position_id) {
        Ok(p) => p.fee_applicable(store.state.global_fee_index),
        Err(_) => true,
    }
}

/// The fee multiplier compounded over a year: `1 + multiplier`, as atomics,
/// fits in 128 bits and its exact power to the seconds of a year fits too.
pub open spec fn yearly_fee_fits(multiplier: Decimal) -> bool {
    &&& DECIMAL_FRACTIONAL + multiplier.atomics <= u128::MAX
    &&& exact_pow_at_most(DECIMAL_FRACTIONAL + multiplier.atomics, SECONDS_PER_YEAR as nat, u128::MAX as int)
}

/// The settings report: the stored settings, with the yearly rate that the
/// per-second fee multiplier `m` compounds to as `fee_apy`:
/// `(1 + m)^SECONDS_PER_YEAR - 1`, the power taken by
/// `cosmwasm_std::Decimal::checked_pow`.
pub open spec fn config_report(store: MarketStore) -> GetConfigResponse {
    GetConfigResponse {
        name: store.config.name,
        core: store.config.core,
        oracle: store.config.oracle,
        debt_asset: store.config.debt_asset,
        collateral_asset: store.config.collateral_asset,
        borrow_ltv: store.config.borrow_ltv,
        fee_multiplier: store.config.fee_multiplier,
        fee_apy: Decimal {
            atomics: (decimal_pow((DECIMAL_FRACTIONAL + store.config.fee_multiplier.atomics) as u128, SECONDS_PER_YEAR)
                - DECIMAL_FRACTIONAL) as u128,
        },
    }
}

/// The state report: the stored totals and fee index.
pub open spec fn state_report(store: MarketStore) -> GetStateResponse {
    GetStateResponse {
        total_debt: store.state.total_debt,
        total_collateral: store.state.total_collateral,
        fee_updated_at: store.state.fee_updated_at,
        global_fee_index: store.state.global_fee_index,
    }
}

/// The settings of the market, with the per-second fee multiplier compounded
/// over a year, less one, as `fee_apy`.
pub fn get_config(store: &MarketStore) -> (r: Result<GetConfigResponse, StdError>)
    requires
        yearly_fee_fits(store.config.fee_multiplier),
    ensures
        r == Ok::<GetConfigResponse, StdError>(config_report(*store)),
        decimal_pow((DECIMAL_FRACTIONAL + store.config.fee_multiplier.atomics) as u128, SECONDS_PER_YEAR)
            >= DECIMAL_FRACTIONAL,
        r->Ok_0.name == store.config.name,
        r->Ok_0.core == store.config.core,
        r->Ok_0.oracle == store.config.oracle,
        r->Ok_0.debt_asset == store.config.debt_asset,
        r->Ok_0.collateral_asset == store.config.collateral_asset,
        r->Ok_0.borrow_ltv == store.config.borrow_ltv,
        r->Ok_0.fee_multiplier == store.config.fee_multiplier,
        r->Ok_0.fee_apy.atomics + DECIMAL_FRACTIONAL
            == decimal_pow((DECIMAL_FRACTIONAL + store.config.fee_multiplier.atomics) as u128, SECONDS_PER_YEAR),
{
    let c = &store.config;
    let yearly = Decimal::one().add(c.fee_multiplier).pow(SECONDS_PER_YEAR);
    Ok(GetConfigResponse {
        name: c.name.clone(),
        core: c.core.clone(),
        oracle: c.oracle.clone(),
        debt_asset: c.debt_asset.clone(),
        collateral_asset: c.collateral_asset.clone(),
        borrow_ltv: c.borrow_ltv,
        fee_multiplier: c.fee_multiplier,
        fee_apy: yearly.sub(Decimal::one()),
    })
}

/// The market's totals and fee index as stored.
pub fn get_state(store: &MarketStore) -> (r: Result<GetStateResponse, StdError>)
    ensures
        r == Ok::<GetStateResponse, StdError>(state_report(*store)),
        r->Ok_0.total_debt == store.state.total_debt,
        r->Ok_0.total_collateral == store.state.total_collateral,
        r->Ok_0.fee_updated_at == store.state.fee_updated_at,
        r->Ok_0.global_fee_index == store.state.global_fee_index,
{
    Ok(GetStateResponse {
        total_debt: store.state.total_debt,
        total_collateral: store.state.total_collateral,
        fee_updated_at: store.state.fee_updated_at,
        global_fee_index: store.state.global_fee_index,
    })
}

/// The report on position `p` under `id` at the global index `g`: its stored
/// amounts and the fee pending since its own index; the overflow error when
/// the debt with the fee does not fit.
pub open spec fn position_report(id: u64, p: Position, g: Decimal) -> Result<GetPositionResponse, StdError> {
    match with_fee(p, g) {
        Err(e) => Err(e),
        Ok(q) => Ok(GetPositionResponse {
            id,
            owner: p.owner,
            collateral: p.collateral,
            debt: p.debt,
            pending_fee: (q.debt - p.debt) as u128,
        }),
    }
}

/// The reports on the positions `ids`, in order; the first error (an absent
/// position or an overflowing debt) when there is one.
pub open spec fn position_reports(ids: Seq<u64>, positions: Map<u64, Position>, g: Decimal) -> Result<Seq<GetPositionResponse>, StdError>
    decreases ids.len(),
{
    if ids.len() == 0 {
        Ok(Seq::empty())
    } else {
        match position_reports(ids.drop_last(), positions, g) {
            Err(e) => Err(e),
            Ok(prev) => {
                let id = ids.last();
                if !positions.contains_key(id) {
                    Err(StdError::NotFound { kind: RecordKind::Position })
                } else {
                    match position_report(id, positions[id], g) {
                        Err(e) => Err(e),
                        Ok(x) => Ok(prev.push(x)),
                    }
                }
            },
        }
    }
}

fn report(id: u64, p: &Position, g: Decimal) -> (r: Result<GetPositionResponse, StdError>)
    requires
        fee_applicable(*p, g),
    ensures
        r == position_report(id, *p, g),
{
    let with = match p.clone().apply_fee(g) {
        Ok(q) => q,
        Err(e) => return Err(e),
    };
    Ok(GetPositionResponse {
        id,
        owner: p.owner.clone(),
        collateral: p.collateral,
        debt: p.debt,
        pending_fee: with.debt - p.debt,
    })
}

/// The report on position `position_id` at the stored global index, or the
/// not-found error.
pub open spec fn position_lookup(store: MarketStore, position_id: u64) -> Result<GetPositionResponse, StdError> {
    if store.book.positions().contains_key(position_id) {
        position_report(position_id, store.book.positions()[position_id], store.state.global_fee_index)
    } else {
        Err(StdError::NotFound { kind: RecordKind::Position })
    }
}

/// Position `position_id` with its pending fee at the stored global index;
/// a not-found error when there is no such position.
pub fn get_position(store: &MarketStore, position_id: u64) -> (r: Result<GetPositionResponse, StdError>)
    requires
        store.wf(),
        position_fee_applicable(*store, position_id),
    ensures
        r == position_lookup(*store, position_id),
        r matches Ok(x) ==> {
            let p = store.book.positions()[position_id];
            let g = store.state.global_fee_index;
            &&& store.book.positions().contains_key(position_id)
            &&& x.id == position_id
            &&& x.owner == p.owner
            &&& x.collateral == p.collateral
            &&& x.debt == p.debt
            &&& x.pending_fee == p.debt * (g.atomics - p.stored_fee_index.atomics) / (DECIMAL_FRACTIONAL as int)
        },
        !store.book.positions().contains_key(position_id) ==> r == Err::<GetPositionResponse, StdError>(
            StdError::NotFound { kind: RecordKind::Position },
        ),
{
    let position = match store.book.load(position_id) {
        Ok(p) => p,
        Err(e) => return Err(e),
    };
    report(position_id, &position, store.state.global_fee_index)
}

/// The page size asked for: `default` when none, the limit when it is at
/// most `max`, and the oversized-request error otherwise.
pub fn get_and_check_limit(limit: Option<u32>, max: u32, default: u32) -> (r: Result<u32, ContractError>)
    ensures
        limit is None ==> (r matches Ok(n) && n == default),
        limit is Some && limit->0 <= max ==> (r matches Ok(n) && n == limit->0),
        limit is Some && limit->0 > max ==> (r matches Err(ContractError::OversizedRequest { size, max: m })
            && size == limit->0 && m == max),
{
    match limit {
        Some(l) => {
            if l <= max {
                Ok(l)
            } else {
                Err(ContractError::OversizedRequest { size: l as u64, max: max as u64 })
            }
        },
        None => Ok(default),
    }
}

/// Whether a listing in `order` runs ascending (the default).
pub open spec fn ascending(order: Option<RangeOrder>) -> bool {
    order != Some(RangeOrder::Desc)
}

/// The limit that a listing asks for.
pub open spec fn list_limit(opt: ListPositionMsg) -> Option<u32> {
    match opt {
        ListPositionMsg::Default { limit, .. } => limit,
        ListPositionMsg::ByOwner { limit, .. } => limit,
    }
}

/// The cursor of a listing.
pub open spec fn list_start(opt: ListPositionMsg) -> Option<u64> {
    match opt {
        ListPositionMsg::Default { start_after, .. } => start_after,
        ListPositionMsg::ByOwner { start_after, .. } => start_after,
    }
}

/// The order of a listing.
pub open spec fn list_order(opt: ListPositionMsg) -> Option<RangeOrder> {
    match opt {
        ListPositionMsg::Default { order, .. } => order,
        ListPositionMsg::ByOwner { order, .. } => order,
    }
}

/// The page size of a listing whose limit is accepted.
pub open spec fn page_size(opt: ListPositionMsg) -> nat {
    match list_limit(opt) {
        Some(l) => l as nat,
        None => DEFAULT_LIMIT as nat,
    }
}

/// `r` is the listing result for the reports `reports`.
pub open spec fn listed(r: Result<ListPositionResponse, ContractError>, reports: Result<Seq<GetPositionResponse>, StdError>) -> bool {
    match reports {
        Err(e) => r == Err::<ListPositionResponse, ContractError>(ContractError::Std(e)),
        Ok(v) => r matches Ok(resp) && resp.0@ == v,
    }
}

fn reports_for(store: &MarketStore, ids: &Vec<u64>) -> (r: Result<Vec<GetPositionResponse>, StdError>)
    requires
        store.wf(),
        forall|j: int| 0 <= j < ids@.len() && store.book.positions().contains_key(#[trigger] ids@[j])
            ==> fee_applicable(store.book.positions()[ids@[j]], store.state.global_fee_index),
    ensures
        match position_reports(ids@, store.book.positions(), store.state.global_fee_index) {
            Err(e) => r == Err::<Vec<GetPositionResponse>, StdError>(e),
            Ok(v) => r matches Ok(out) && out@ == v,
        },
{
    let g = store.state.global_fee_index;
    let mut out: Vec<GetPositionResponse> = Vec::new();
    let mut i: usize = 0;
    while i < ids.len()
        invariant
            store.wf(),
            forall|j: int| 0 <= j < ids@.len() && store.book.positions().contains_key(#[trigger] ids@[j])
                ==> fee_applicable(store.book.positions()[ids@[j]], store.state.global_fee_index),
            g == store.state.global_fee_index,
            i <= ids@.len(),
            position_reports(ids@.take(i as int), store.book.positions(), g) == Ok::<Seq<GetPositionResponse>, StdError>(out@),
        decreases ids@.len() - i,
    {
        let id = ids[i];
        proof {
            assert(ids@.take(i + 1).drop_last() =~= ids@.take(i as int));
            assert(ids@.take(i + 1).last() == id);
        }
        let position = match store.book.load(id) {
            Ok(p) => p,
            Err(e) => {
                proof {
                    lemma_reports_stop(ids@, store.book.positions(), g, i as int);
                }
                return Err(e);
            },
        };
        match report(id, &position, g) {
            Ok(x) => {
                out.push(x);
            },
            Err(e) => {
                proof {
                    lemma_reports_stop(ids@, store.book.positions(), g, i as int);
                }
                return Err(e);
            },
        }
        i = i + 1;
    }
    proof {
        assert(ids@.take(ids@.len() as int) =~= ids@);
    }
    Ok(out)
}

/// Once the reports on a prefix fail, the reports on every longer prefix
/// fail with the same error.
proof fn lemma_reports_stop(ids: Seq<u64>, positions: Map<u64, Position>, g: Decimal, i: int)
    requires
        0 <= i < ids.len(),
        position_reports(ids.take(i + 1), positions, g) is Err,
    ensures
        position_reports(ids, positions, g) == position_reports(ids.take(i + 1), positions, g),
    decreases ids.len() - i,
{
    if i + 1 == ids.len() {
        assert(ids.take(i + 1) =~= ids);
    } else {
        let n = ids.len() - 1;
        assert(ids.take(n + 1) =~= ids);
        lemma_reports_stop_prefix(ids, positions, g, i, n);
    }
}

proof fn lemma_reports_stop_prefix(ids: Seq<u64>, positions: Map<u64, Position>, g: Decimal, i: int, n: int)
    requires
        0 <= i < n < ids.len(),
        position_reports(ids.take(i + 1), positions, g) is Err,
    ensures
        position_reports(ids.take(n + 1), positions, g) == position_reports(ids.take(i + 1), positions, g),
    decreases n - i,
{
    assert(ids.take(n + 1).drop_last() =~= ids.take(n));
    if n == i + 1 {
    } else {
        lemma_reports_stop_prefix(ids, positions, g, i, n - 1);
    }
}

/// The ids that a listing runs over: all positions, or those that the owner
/// index lists for `owner`.
pub open spec fn listing_keys(store: MarketStore, opt: ListPositionMsg, owner: Seq<char>) -> Set<u64> {
    match opt {
        ListPositionMsg::Default { .. } => store.book.positions().dom(),
        ListPositionMsg::ByOwner { .. } => ids_of_owner(store.book.owner_index(), owner),
    }
}

/// The owner that validated, as a sequence of characters (empty when the
/// validation failed).
pub open spec fn checked_owner(owner_check: Result<String, StdError>) -> Seq<char> {
    match owner_check {
        Ok(o) => o@,
        Err(_) => Seq::<char>::empty(),
    }
}

/// The listing is refused before it reads any position: its limit is too
/// large, or the owner it names did not validate.
pub open spec fn listing_refused(opt: ListPositionMsg, owner_check: Result<String, StdError>) -> bool {
    ||| list_limit(opt) is Some && list_limit(opt)->0 > MAX_LIMIT
    ||| opt is ByOwner && owner_check is Err
}

/// Every stored position on the page that the listing reads has a fee that
/// can be applied at the current global index.
pub open spec fn page_fees_applicable(store: MarketStore, opt: ListPositionMsg, owner_check: Result<String, StdError>) -> bool {
    let owner = checked_owner(owner_check);
    listing_refused(opt, owner_check) || forall|p: Seq<u64>, i: int|
        #![trigger is_page(p, listing_keys(store, opt, owner), list_start(opt), page_size(opt), ascending(list_order(opt))), p[i]]
        is_page(p, listing_keys(store, opt, owner), list_start(opt), page_size(opt), ascending(list_order(opt)))
            && 0 <= i < p.len() && store.book.positions().contains_key(p[i])
            ==> fee_applicable(store.book.positions()[p[i]], store.state.global_fee_index)
}

/// Whether the listing `opt` reads only positions whose fee can be applied
/// (`page_fees_applicable`).
pub fn page_fees_applicable_check(store: &MarketStore, opt: &ListPositionMsg, owner_check: &Result<String, StdError>) -> (b: bool)
    requires
        store.wf(),
    ensures
        b == page_fees_applicable(*store, *opt, *owner_check),
{
    let (limit, start_after, order) = match opt {
        ListPositionMsg::Default { start_after, limit, order } => (*limit, *start_after, *order),
        ListPositionMsg::ByOwner { start_after, limit, order, .. } => (*limit, *start_after, *order),
    };
    let n = match get_and_check_limit(limit, MAX_LIMIT, DEFAULT_LIMIT) {
        Ok(n) => n,
        Err(_) => return true,
    };
    let asc = match order {
        Some(RangeOrder::Desc) => false,
        _ => true,
    };
    let keys = match opt {
        ListPositionMsg::Default { .. } => store.book.ids(),
        ListPositionMsg::ByOwner { .. } => match owner_check {
            Ok(owner) => store.book.ids_of(owner),
            Err(_) => return true,
        },
    };
    let page = page_keys(&keys, start_after, n as usize, asc);
    let ghost lk = listing_keys(*store, *opt, checked_owner(*owner_check));
    proof {
        assert(asc == ascending(list_order(*opt)));
        assert(start_after == list_start(*opt));
        assert(n as nat == page_size(*opt));
        assert(keys@.to_set() == lk);
        assert(!listing_refused(*opt, *owner_check));
        assert(is_page(page@, lk, list_start(*opt), page_size(*opt), ascending(list_order(*opt))));
    }
    let g = store.state.global_fee_index;
    let mut i: usize = 0;
    while i < page.len()
        invariant
            store.wf(),
            g == store.state.global_fee_index,
            i <= page@.len(),
            lk == listing_keys(*store, *opt, checked_owner(*owner_check)),
            !listing_refused(*opt, *owner_check),
            is_page(page@, lk, list_start(*opt), page_size(*opt), ascending(list_order(*opt))),
            forall|j: int| 0 <= j < i && store.book.positions().contains_key(#[trigger] page@[j])
                ==> fee_applicable(store.book.positions()[page@[j]], g),
        decreases page@.len() - i,
    {
        match store.book.load(page[i]) {
            Ok(p) => {
                if !p.fee_applicable(g) {
                    proof {
                        assert(is_page(page@, lk, list_start(*opt), page_size(*opt), ascending(list_order(*opt))));
                        assert(store.book.positions().contains_key(page@[i as int]));
                    }
                    return false;
                }
            },
            Err(_) => {},
        }
        i = i + 1;
    }
    proof {
        assert forall|q: Seq<u64>, k: int|
            is_page(q, lk, list_start(*opt), page_size(*opt), ascending(list_order(*opt)))
                && 0 <= k < q.len() && store.book.positions().contains_key(q[k])
            implies fee_applicable(store.book.positions()[q[k]], g) by {
            crate::laws::law_page_unique(q, page@, lk, list_start(*opt), page_size(*opt), ascending(list_order(*opt)));
            assert(q[k] == page@[k]);
        }
    }
    true
}

/// What a listing answers: the oversized-request error for a limit above
/// `MAX_LIMIT`; otherwise the reports on the page of the listed ids (all
/// position ids, or those the owner index lists for the validated owner),
/// or the host's error for an owner that did not validate.
pub open spec fn list_post(store: MarketStore, opt: ListPositionMsg, owner_check: Result<String, StdError>, r: Result<ListPositionResponse, ContractError>) -> bool {
    if list_limit(opt) is Some && list_limit(opt)->0 > MAX_LIMIT {
        r matches Err(ContractError::OversizedRequest { size, max }) && size == list_limit(opt)->0 && max == MAX_LIMIT
    } else {
        match opt {
            ListPositionMsg::Default { .. } => exists|p: Seq<u64>|
                is_page(p, store.book.positions().dom(), list_start(opt), page_size(opt), ascending(list_order(opt)))
                && listed(r, position_reports(p, store.book.positions(), store.state.global_fee_index)),
            ListPositionMsg::ByOwner { .. } => match owner_check {
                Err(e) => r == Err::<ListPositionResponse, ContractError>(ContractError::Std(e)),
                Ok(owner) => exists|p: Seq<u64>|
                    is_page(p, ids_of_owner(store.book.owner_index(), owner@), list_start(opt), page_size(opt), ascending(list_order(opt)))
                    && listed(r, position_reports(p, store.book.positions(), store.state.global_fee_index)),
            },
        }
    }
}

/// A page of positions with their pending fees: all positions, or those the
/// owner index lists for an owner, in id order (ascending unless `Desc`),
/// after `start_after`, at most `limit` (default `DEFAULT_LIMIT`, at most
/// `MAX_LIMIT`) of them.
///
/// `owner_check` is the host's answer to validating the owner of a
/// `ByOwner` listing (the address it returned, or its error); a `Default`
/// listing does not read it.
pub fn list_position(store: &MarketStore, opt: &ListPositionMsg, owner_check: Result<String, StdError>) -> (r: Result<ListPositionResponse, ContractError>)
    requires
        store.wf(),
        page_fees_applicable(*store, *opt, owner_check),
    ensures
        list_post(*store, *opt, owner_check, r),
{
    let ghost oc = owner_check;
    let (limit, start_after, order) = match opt {
        ListPositionMsg::Default { start_after, limit, order } => (*limit, *start_after, *order),
        ListPositionMsg::ByOwner { start_after, limit, order, .. } => (*limit, *start_after, *order),
    };
    let n = match get_and_check_limit(limit, MAX_LIMIT, DEFAULT_LIMIT) {
        Ok(n) => n,
        Err(e) => return Err(e),
    };
    let asc = match order {
        Some(RangeOrder::Desc) => false,
        _ => true,
    };
    let keys = match opt {
        ListPositionMsg::Default { .. } => store.book.ids(),
        ListPositionMsg::ByOwner { .. } => match owner_check {
            Ok(owner) => store.book.ids_of(&owner),
            Err(e) => return Err(ContractError::Std(e)),
        },
    };
    let page = page_keys(&keys, start_after, n as usize, asc);
    proof {
        let lk = listing_keys(*store, *opt, checked_owner(oc));
        assert(asc == ascending(list_order(*opt)));
        assert(start_after == list_start(*opt));
        assert(n as nat == page_size(*opt));
        assert(keys@.to_set() == lk);
        assert(!listing_refused(*opt, oc));
        assert(is_page(page@, lk, list_start(*opt), page_size(*opt), ascending(list_order(*opt))));
        assert forall|j: int| 0 <= j < page@.len() && store.book.positions().contains_key(#[trigger] page@[j])
            implies fee_applicable(store.book.positions()[page@[j]], store.state.global_fee_index) by {
            assert(is_page(page@, lk, list_start(*opt), page_size(*opt), ascending(list_order(*opt))));
        }
    }
    let result = match reports_for(store, &page) {
        Ok(v) => Ok(ListPositionResponse(v)),
        Err(e) => Err(ContractError::Std(e)),
    };
    proof {
        assert(asc == ascending(list_order(*opt)));
        assert(start_after == list_start(*opt));
        assert(n as nat == page_size(*opt));
        let reports = position_reports(page@, store.book.positions(), store.state.global_fee_index);
        assert(listed(result, reports));
        assert(is_page(page@, keys@.to_set(), start_after, n as nat, asc));
        if *opt is Default {
            assert(is_page(page@, store.book.positions().dom(), list_start(*opt), page_size(*opt), ascending(list_order(*opt)))
                && listed(result, reports));
        } else {
            assert(is_page(page@, ids_of_owner(store.book.owner_index(), oc->Ok_0@), list_start(*opt), page_size(*opt), ascending(list_order(*opt)))
                && listed(result, reports));
        }
    }
    result
}


/// The answer to a market query.
pub enum QueryResponse {
    Config(GetConfigResponse),
    State(GetStateResponse),
    Position(GetPositionResponse),
    Positions(ListPositionResponse),
}

/// Answers a market query. `owner_check` is the host's answer to validating
/// the owner of a `ByOwner` listing (read only for that query).
pub fn query(store: &MarketStore, msg: &QueryMsg, owner_check: Result<String, StdError>) -> (r: Result<QueryResponse, ContractError>)
    requires
        store.wf(),
        *msg matches QueryMsg::GetPosition { position_id } ==> position_fee_applicable(*store, position_id),
        *msg matches QueryMsg::ListPosition(opt) ==> page_fees_applicable(*store, opt, owner_check),
        msg is GetConfig ==> yearly_fee_fits(store.config.fee_multiplier),
    ensures
        msg is GetConfig ==> decimal_pow((DECIMAL_FRACTIONAL + store.config.fee_multiplier.atomics) as u128, SECONDS_PER_YEAR)
            >= DECIMAL_FRACTIONAL,
        match *msg {
            QueryMsg::GetConfig => r == Ok::<QueryResponse, ContractError>(QueryResponse::Config(config_report(*store))),
            QueryMsg::GetState => r == Ok::<QueryResponse, ContractError>(QueryResponse::State(state_report(*store))),
            QueryMsg::GetPosition { position_id } => match position_lookup(*store, position_id) {
                Ok(p) => r == Ok::<QueryResponse, ContractError>(QueryResponse::Position(p)),
                Err(e) => r == Err::<QueryResponse, ContractError>(ContractError::Std(e)),
            },
            QueryMsg::ListPosition(opt) => match r {
                Ok(QueryResponse::Positions(l)) => list_post(*store, opt, owner_check, Ok(l)),
                Ok(_) => false,
                Err(e) => list_post(*store, opt, owner_check, Err(e)),
            },
        },
{
    match msg {
        QueryMsg::GetConfig => match get_config(store) {
            Ok(c) => Ok(QueryResponse::Config(c)),
            Err(e) => Err(ContractError::Std(e)),
        },
        QueryMsg::GetState => match get_state(store) {
            Ok(s) => Ok(QueryResponse::State(s)),
            Err(e) => Err(ContractError::Std(e)),
        },
        QueryMsg::GetPosition { position_id } => match get_position(store, *position_id) {
            Ok(p) => Ok(QueryResponse::Position(p)),
            Err(e) => Err(ContractError::Std(e)),
        },
        QueryMsg::ListPosition(opt) => match list_position(store, opt, owner_check) {
            Ok(l) => Ok(QueryResponse::Positions(l)),
            Err(e) => Err(e),
        },
    }
}

} // verus!
