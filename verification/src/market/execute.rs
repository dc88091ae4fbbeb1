use vstd::prelude::*;

use crate::decimal::Decimal;
use crate::error::{OverflowOperation, StdError};
use crate::interface::MessageInfo;
use crate::interface::core_msg::CallbackMsg;
use crate::market::book::is_position_not_found;
use crate::market::contract::{consistent, MarketStore, MarketResponse, MarketEvent, MarketMsgOut, core_callback, callback_to};
use crate::market::error::ContractError;
use crate::market::book::owner_key;
use crate::market::position::{Position, fee_applicable, with_fee, valuation_fits, red_line, collateral_value, locked_collateral};
use crate::decimal::DECIMAL_FRACTIONAL;
use crate::market::state::{Config, State, update_fee_in_range, updated_state};
use crate::payment::{must_pay, paid_amount, payment_refused};

verus! {

/// `lock` runs without an arithmetic fault: the fee can be applied to the
/// position that the payment is for.
pub open spec fn lock_in_range(store: MarketStore, fee_state: State, info: MessageInfo, position_id: u64) -> bool {
    paid_amount(info.funds@, store.config.collateral_asset@) is Some
        && store.book.positions().contains_key(position_id)
        ==> fee_applicable(store.book.positions()[position_id], fee_state.global_fee_index)
}

/// What `lock` does: how the store `s1` after the call and the result `r`
/// relate to the store `s0` before it.
pub open spec fn lock_post(s0: MarketStore, s1: MarketStore, fee_state: State, info: MessageInfo, position_id: u64, r: Result<MarketResponse, ContractError>) -> bool {
    &&& (r is Err ==> s1.same_as(s0))
    &&& (paid_amount(info.funds@, s0.config.collateral_asset@) is None ==>
                (r matches Err(ContractError::PaymentError(e)) && payment_refused(info.funds@, s0.config.collateral_asset@, e)))
    &&& (paid_amount(info.funds@, s0.config.collateral_asset@) is Some
                && !s0.book.positions().contains_key(position_id) ==>
                (r matches Err(ContractError::Std(e)) && is_position_not_found(e)))
    &&& (paid_amount(info.funds@, s0.config.collateral_asset@) is Some
                && s0.book.positions().contains_key(position_id) ==> {
                let amount = paid_amount(info.funds@, s0.config.collateral_asset@)->0;
                let p = s0.book.positions()[position_id];
                match with_fee(p, fee_state.global_fee_index) {
                    Err(e) => r == Err::<MarketResponse, ContractError>(ContractError::Std(e)),
                    Ok(q) => if q.owner@ != info.sender@ {
                        r == Err::<MarketResponse, ContractError>(ContractError::Unauthorized)
                    } else if q.collateral + amount > u128::MAX
                        || fee_state.total_collateral + amount > u128::MAX {
                        r == Err::<MarketResponse, ContractError>(ContractError::OverflowError(OverflowOperation::Add))
                    } else {
                        &&& s1.config == s0.config
                        &&& s1.state == State { total_collateral: (fee_state.total_collateral + amount) as u128, ..fee_state }
                        &&& s1.book.positions() == s0.book.positions().insert(
                            position_id, Position { collateral: (q.collateral + amount) as u128, ..q })
                        &&& s1.book.owner_index() == s0.book.owner_index()
                        &&& s1.book.count() == s0.book.count()
                        &&& r matches Ok(resp)
                        &&& resp.event == Some(MarketEvent::Lock { owner: info.sender, position_id, amount })
                        &&& resp.messages@ == seq![core_callback(s0.config.core,
                            CallbackMsg::Lock { owner: q.owner, position_id, amount })]
                    }
                }
    })
}

/// Adds the collateral attached to the message to position `position_id`.
///
/// `fee_state` is the market state with its fee index brought up to date
/// (`State::update_fee`). The payment must be exactly one coin of the
/// collateral asset; the position, with its fee applied, must belong to the
/// sender. On success the position gains the amount (its fee applied and its
/// index moved to the current one), the total collateral grows by the same
/// amount, and the core is told; on any error nothing changes.
pub fn lock(store: &mut MarketStore, fee_state: State, info: &MessageInfo, position_id: u64) -> (r: Result<MarketResponse, ContractError>)
    requires
        old(store).wf(),
        lock_in_range(*old(store), fee_state, *info, position_id),
    ensures
        final(store).wf(),
        lock_post(*old(store), *final(store), fee_state, *info, position_id, r),
{
    let received = match must_pay(info, &store.config.collateral_asset) {
        Ok(a) => a,
        Err(e) => return Err(ContractError::PaymentError(e)),
    };
    let loaded = match store.book.load(position_id) {
        Ok(p) => p,
        Err(e) => return Err(ContractError::Std(e)),
    };
    let mut position = match loaded.apply_fee(fee_state.global_fee_index) {
        Ok(p) => p,
        Err(e) => return Err(ContractError::Std(e)),
    };
    if position.owner != info.sender {
        return Err(ContractError::Unauthorized);
    }
    position.collateral = match position.collateral.checked_add(received) {
        Some(c) => c,
        None => return Err(ContractError::OverflowError(OverflowOperation::Add)),
    };
    let mut state = fee_state;
    state.total_collateral = match state.total_collateral.checked_add(received) {
        Some(c) => c,
        None => return Err(ContractError::OverflowError(OverflowOperation::Add)),
    };
    let owner = position.owner.clone();
    store.book.save_with_id(position, position_id);
    store.state = state;
    let callback = callback_to(&store.config.core, CallbackMsg::Lock { owner, position_id, amount: received });
    let mut messages: Vec<MarketMsgOut> = Vec::new();
    messages.push(callback);
    Ok(MarketResponse {
        event: Some(MarketEvent::Lock { owner: info.sender.clone(), position_id, amount: received }),
        messages,
    })
}


/// `unlock` runs without an arithmetic fault: the fee applies to the
/// position, and for its owner the locked collateral can be computed at
/// `rate` (non-zero rate, red line times `10^18` fits) and a new id is free.
pub open spec fn unlock_in_range(store: MarketStore, fee_state: State, info: MessageInfo, position_id: u64, rate_answer: Result<Decimal, StdError>) -> bool {
    store.book.positions().contains_key(position_id) ==> {
        let p = store.book.positions()[position_id];
        &&& fee_applicable(p, fee_state.global_fee_index)
        &&& match with_fee(p, fee_state.global_fee_index) {
            Ok(q) => q.owner@ == info.sender@ && rate_answer is Ok ==> (rate_answer->Ok_0.atomics != 0
                && red_line(q, store.config.borrow_ltv) * DECIMAL_FRACTIONAL <= u128::MAX
                && store.book.count() < u64::MAX),
            Err(_) => true,
        }
    }
}

/// What `unlock` does: how the store `s1` after the call and the result `r`
/// relate to the store `s0` before it.
pub open spec fn unlock_post(s0: MarketStore, s1: MarketStore, fee_state: State, info: MessageInfo, position_id: u64, amount: u128, rate_answer: Result<Decimal, StdError>, r: Result<MarketResponse, ContractError>) -> bool {
    &&& (r is Err ==> s1.same_as(s0))
    &&& (!s0.book.positions().contains_key(position_id) ==>
                (r matches Err(ContractError::Std(e)) && is_position_not_found(e)))
    &&& (s0.book.positions().contains_key(position_id) ==> {
                let p = s0.book.positions()[position_id];
                let ltv = s0.config.borrow_ltv;
                let rate = rate_answer->Ok_0;
                match with_fee(p, fee_state.global_fee_index) {
                    Err(e) => r == Err::<MarketResponse, ContractError>(ContractError::Std(e)),
                    Ok(q) => if q.owner@ != info.sender@ {
                        r == Err::<MarketResponse, ContractError>(ContractError::Unauthorized)
                    } else if rate_answer is Err {
                        r == Err::<MarketResponse, ContractError>(ContractError::Std(rate_answer->Err_0))
                    } else if locked_collateral(q, rate, ltv) > q.collateral {
                        r == Err::<MarketResponse, ContractError>(ContractError::OverflowError(OverflowOperation::Sub))
                    } else if amount > q.collateral - locked_collateral(q, rate, ltv) {
                        r == Err::<MarketResponse, ContractError>(ContractError::OverflowUnlockCapacity)
                    } else if fee_state.total_collateral < amount {
                        r == Err::<MarketResponse, ContractError>(ContractError::OverflowError(OverflowOperation::Sub))
                    } else {
                        let id = s0.book.count();
                        let q2 = Position { collateral: (q.collateral - amount) as u128, ..q };
                        &&& s1.config == s0.config
                        &&& s1.state == State { total_collateral: (fee_state.total_collateral - amount) as u128, ..fee_state }
                        &&& s1.book.positions() == s0.book.positions().insert(id, q2)
                        &&& s1.book.owner_index() == s0.book.owner_index().insert(owner_key(q.owner, id))
                        &&& s1.book.count() == id + 1
                        &&& r matches Ok(resp)
                        &&& resp.event == Some(MarketEvent::Unlock { owner: info.sender, position_id, amount, rate })
                        &&& resp.messages@ == seq![core_callback(s0.config.core,
                            CallbackMsg::Unlock { owner: q.owner, position_id, amount })]
                    }
                }
    })
}

/// Withdraws `amount` of collateral from position `position_id` at the
/// oracle's rate; `rate_answer` is the oracle's answer (the rate, or the
/// error of its query, which is reported once the owner check has passed).
///
/// The position, with its fee applied, must belong to the sender, and
/// `amount` may not exceed what keeps its red line covered. The reduced
/// position is then stored as a new position under the next id (and indexed
/// under its owner), while the entry under `position_id` is left as it was;
/// the total collateral shrinks by `amount` and the core is told. On any
/// error nothing changes.
pub fn unlock(store: &mut MarketStore, fee_state: State, info: &MessageInfo, position_id: u64, amount: u128, rate_answer: Result<Decimal, StdError>) -> (r: Result<MarketResponse, ContractError>)
    requires
        old(store).wf(),
        unlock_in_range(*old(store), fee_state, *info, position_id, rate_answer),
    ensures
        final(store).wf(),
        unlock_post(*old(store), *final(store), fee_state, *info, position_id, amount, rate_answer, r),
{
    let loaded = match store.book.load(position_id) {
        Ok(p) => p,
        Err(e) => return Err(ContractError::Std(e)),
    };
    let mut position = match loaded.apply_fee(fee_state.global_fee_index) {
        Ok(p) => p,
        Err(e) => return Err(ContractError::Std(e)),
    };
    if position.owner != info.sender {
        return Err(ContractError::Unauthorized);
    }
    let rate = match rate_answer {
        Ok(rt) => rt,
        Err(e) => return Err(ContractError::Std(e)),
    };
    proof {
        assert(red_line(position, store.config.borrow_ltv) <= u128::MAX) by (nonlinear_arith)
            requires
                red_line(position, store.config.borrow_ltv) * DECIMAL_FRACTIONAL <= u128::MAX,
                red_line(position, store.config.borrow_ltv) >= 0,
        ;
    }
    let unlockable = match position.unlockable_collateral(rate, store.config.borrow_ltv) {
        Ok(u) => u,
        Err(e) => return Err(e),
    };
    if amount > unlockable {
        return Err(ContractError::OverflowUnlockCapacity);
    }
    position.collateral = position.collateral - amount;
    let mut state = fee_state;
    state.total_collateral = match state.total_collateral.checked_sub(amount) {
        Some(c) => c,
        None => return Err(ContractError::OverflowError(OverflowOperation::Sub)),
    };
    let owner = position.owner.clone();
    store.book.save(position);
    store.state = state;
    let callback = callback_to(&store.config.core, CallbackMsg::Unlock { owner, position_id, amount });
    let mut messages: Vec<MarketMsgOut> = Vec::new();
    messages.push(callback);
    Ok(MarketResponse {
        event: Some(MarketEvent::Unlock { owner: info.sender.clone(), position_id, amount, rate }),
        messages,
    })
}

/// `borrow` runs without an arithmetic fault: the fee applies to the
/// position, and for its owner its valuations at `rate` fit and a new id is
/// free.
pub open spec fn borrow_in_range(store: MarketStore, fee_state: State, info: MessageInfo, position_id: u64, rate_answer: Result<Decimal, StdError>) -> bool {
    store.book.positions().contains_key(position_id) ==> {
        let p = store.book.positions()[position_id];
        &&& fee_applicable(p, fee_state.global_fee_index)
        &&& match with_fee(p, fee_state.global_fee_index) {
            Ok(q) => q.owner@ == info.sender@ && rate_answer is Ok ==> (valuation_fits(q, rate_answer->Ok_0, store.config.borrow_ltv)
                && store.book.count() < u64::MAX),
            Err(_) => true,
        }
    }
}

/// What `borrow` does: how the store `s1` after the call and the result `r`
/// relate to the store `s0` before it.
pub open spec fn borrow_post(s0: MarketStore, s1: MarketStore, fee_state: State, info: MessageInfo, position_id: u64, amount: u128, rate_answer: Result<Decimal, StdError>, r: Result<MarketResponse, ContractError>) -> bool {
    &&& (r is Err ==> s1.same_as(s0))
    &&& (!s0.book.positions().contains_key(position_id) ==>
                (r matches Err(ContractError::Std(e)) && is_position_not_found(e)))
    &&& (s0.book.positions().contains_key(position_id) ==> {
                let p = s0.book.positions()[position_id];
                let ltv = s0.config.borrow_ltv;
                let rate = rate_answer->Ok_0;
                match with_fee(p, fee_state.global_fee_index) {
                    Err(e) => r == Err::<MarketResponse, ContractError>(ContractError::Std(e)),
                    Ok(q) => if q.owner@ != info.sender@ {
                        r == Err::<MarketResponse, ContractError>(ContractError::Unauthorized)
                    } else if rate_answer is Err {
                        r == Err::<MarketResponse, ContractError>(ContractError::Std(rate_answer->Err_0))
                    } else if red_line(q, ltv) > collateral_value(q, rate) {
                        r == Err::<MarketResponse, ContractError>(ContractError::OverflowError(OverflowOperation::Sub))
                    } else if amount > collateral_value(q, rate) - red_line(q, ltv) {
                        r == Err::<MarketResponse, ContractError>(ContractError::OverflowBorrowCapacity)
                    } else if q.debt + amount > u128::MAX || fee_state.total_debt + amount > u128::MAX {
                        r == Err::<MarketResponse, ContractError>(ContractError::OverflowError(OverflowOperation::Add))
                    } else {
                        let id = s0.book.count();
                        let q2 = Position { debt: (q.debt + amount) as u128, ..q };
                        &&& s1.config == s0.config
                        &&& s1.state == State { total_debt: (fee_state.total_debt + amount) as u128, ..fee_state }
                        &&& s1.book.positions() == s0.book.positions().insert(id, q2)
                        &&& s1.book.owner_index() == s0.book.owner_index().insert(owner_key(q.owner, id))
                        &&& s1.book.count() == id + 1
                        &&& r matches Ok(resp)
                        &&& resp.event == Some(MarketEvent::Borrow { owner: info.sender, position_id, amount, rate })
                        &&& resp.messages@ == seq![core_callback(s0.config.core,
                            CallbackMsg::Borrow { owner: info.sender, position_id, amount })]
                    }
                }
    })
}

/// Draws `amount` of debt on position `position_id` at the oracle's rate;
/// `rate_answer` is the oracle's answer (the rate, or the error of its query,
/// which is reported once the owner check has passed).
///
/// The position, with its fee applied, must belong to the sender, and
/// `amount` may not exceed its collateral value minus its red line. The
/// position with the added debt is stored as a new position under the next
/// id (and indexed under its owner), while the entry under `position_id` is
/// left as it was; the total debt grows by `amount` and the core is told. On
/// any error nothing changes.
pub fn borrow(store: &mut MarketStore, fee_state: State, info: &MessageInfo, position_id: u64, amount: u128, rate_answer: Result<Decimal, StdError>) -> (r: Result<MarketResponse, ContractError>)
    requires
        old(store).wf(),
        borrow_in_range(*old(store), fee_state, *info, position_id, rate_answer),
    ensures
        final(store).wf(),
        borrow_post(*old(store), *final(store), fee_state, *info, position_id, amount, rate_answer, r),
{
    let loaded = match store.book.load(position_id) {
        Ok(p) => p,
        Err(e) => return Err(ContractError::Std(e)),
    };
    let mut position = match loaded.apply_fee(fee_state.global_fee_index) {
        Ok(p) => p,
        Err(e) => return Err(ContractError::Std(e)),
    };
    if position.owner != info.sender {
        return Err(ContractError::Unauthorized);
    }
    let rate = match rate_answer {
        Ok(rt) => rt,
        Err(e) => return Err(ContractError::Std(e)),
    };
    let borrowable = match position.borrowable_debt(rate, store.config.borrow_ltv) {
        Ok(b) => b,
        Err(e) => return Err(e),
    };
    if amount > borrowable {
        return Err(ContractError::OverflowBorrowCapacity);
    }
    position.debt = match position.debt.checked_add(amount) {
        Some(d) => d,
        None => return Err(ContractError::OverflowError(OverflowOperation::Add)),
    };
    let mut state = fee_state;
    state.total_debt = match state.total_debt.checked_add(amount) {
        Some(d) => d,
        None => return Err(ContractError::OverflowError(OverflowOperation::Add)),
    };
    store.book.save(position);
    store.state = state;
    let callback = callback_to(&store.config.core, CallbackMsg::Borrow { owner: info.sender.clone(), position_id, amount });
    let mut messages: Vec<MarketMsgOut> = Vec::new();
    messages.push(callback);
    Ok(MarketResponse {
        event: Some(MarketEvent::Borrow { owner: info.sender.clone(), position_id, amount, rate }),
        messages,
    })
}


/// `repay` runs without an arithmetic fault: the fee applies to the position
/// that the payment is for, and for its owner a new id is free.
pub open spec fn repay_in_range(store: MarketStore, fee_state: State, info: MessageInfo, position_id: u64) -> bool {
    paid_amount(info.funds@, store.config.debt_asset@) is Some
        && store.book.positions().contains_key(position_id) ==> {
        let p = store.book.positions()[position_id];
        &&& fee_applicable(p, fee_state.global_fee_index)
        &&& match with_fee(p, fee_state.global_fee_index) {
            Ok(q) => q.owner@ == info.sender@ ==> store.book.count() < u64::MAX,
            Err(_) => true,
        }
    }
}

/// What `repay` does: how the store `s1` after the call and the result `r`
/// relate to the store `s0` before it.
pub open spec fn repay_post(s0: MarketStore, s1: MarketStore, fee_state: State, info: MessageInfo, position_id: u64, rate_answer: Result<Decimal, StdError>, r: Result<MarketResponse, ContractError>) -> bool {
    &&& (r is Err ==> s1.same_as(s0))
    &&& (paid_amount(info.funds@, s0.config.debt_asset@) is None ==>
                (r matches Err(ContractError::PaymentError(e)) && payment_refused(info.funds@, s0.config.debt_asset@, e)))
    &&& (paid_amount(info.funds@, s0.config.debt_asset@) is Some
                && !s0.book.positions().contains_key(position_id) ==>
                (r matches Err(ContractError::Std(e)) && is_position_not_found(e)))
    &&& (paid_amount(info.funds@, s0.config.debt_asset@) is Some
                && s0.book.positions().contains_key(position_id) ==> {
                let amount = paid_amount(info.funds@, s0.config.debt_asset@)->0;
                let p = s0.book.positions()[position_id];
                match with_fee(p, fee_state.global_fee_index) {
                    Err(e) => r == Err::<MarketResponse, ContractError>(ContractError::Std(e)),
                    Ok(q) => if q.owner@ != info.sender@ {
                        r == Err::<MarketResponse, ContractError>(ContractError::Unauthorized)
                    } else if q.debt < amount {
                        r == Err::<MarketResponse, ContractError>(ContractError::Overpaid)
                    } else if fee_state.total_debt < amount {
                        r == Err::<MarketResponse, ContractError>(ContractError::OverflowError(OverflowOperation::Sub))
                    } else if rate_answer is Err {
                        r == Err::<MarketResponse, ContractError>(ContractError::Std(rate_answer->Err_0))
                    } else {
                        let rate = rate_answer->Ok_0;
                        let id = s0.book.count();
                        let q2 = Position { debt: (q.debt - amount) as u128, ..q };
                        &&& s1.config == s0.config
                        &&& s1.state == State { total_debt: (fee_state.total_debt - amount) as u128, ..fee_state }
                        &&& s1.book.positions() == s0.book.positions().insert(id, q2)
                        &&& s1.book.owner_index() == s0.book.owner_index().insert(owner_key(q.owner, id))
                        &&& s1.book.count() == id + 1
                        &&& r matches Ok(resp)
                        &&& resp.event == Some(MarketEvent::Repay { owner: info.sender, position_id, amount, rate })
                        &&& resp.messages@ == seq![core_callback(s0.config.core,
                            CallbackMsg::Repay { owner: info.sender, position_id, amount })]
                    }
                }
    })
}

/// Pays back debt of position `position_id` with the debt asset attached to
/// the message; `rate_answer` is the oracle's answer: the rate, reported with
/// the event, or the error of its query, reported after every other check.
///
/// The payment must be exactly one coin of the debt asset; the position,
/// with its fee applied, must belong to the sender and owe at least the
/// amount. The reduced position is stored as a new position under the next
/// id (and indexed under its owner), while the entry under `position_id` is
/// left as it was; the total debt shrinks by the amount and the core is
/// told. On any error nothing changes.
pub fn repay(store: &mut MarketStore, fee_state: State, info: &MessageInfo, position_id: u64, rate_answer: Result<Decimal, StdError>) -> (r: Result<MarketResponse, ContractError>)
    requires
        old(store).wf(),
        repay_in_range(*old(store), fee_state, *info, position_id),
    ensures
        final(store).wf(),
        repay_post(*old(store), *final(store), fee_state, *info, position_id, rate_answer, r),
{
    let received = match must_pay(info, &store.config.debt_asset) {
        Ok(a) => a,
        Err(e) => return Err(ContractError::PaymentError(e)),
    };
    let loaded = match store.book.load(position_id) {
        Ok(p) => p,
        Err(e) => return Err(ContractError::Std(e)),
    };
    let mut position = match loaded.apply_fee(fee_state.global_fee_index) {
        Ok(p) => p,
        Err(e) => return Err(ContractError::Std(e)),
    };
    if position.owner != info.sender {
        return Err(ContractError::Unauthorized);
    }
    if position.debt < received {
        return Err(ContractError::Overpaid);
    }
    position.debt = position.debt - received;
    let mut state = fee_state;
    state.total_debt = match state.total_debt.checked_sub(received) {
        Some(d) => d,
        None => return Err(ContractError::OverflowError(OverflowOperation::Sub)),
    };
    let rate = match rate_answer {
        Ok(rt) => rt,
        Err(e) => return Err(ContractError::Std(e)),
    };
    store.book.save(position);
    store.state = state;
    let callback = callback_to(&store.config.core, CallbackMsg::Repay { owner: info.sender.clone(), position_id, amount: received });
    let mut messages: Vec<MarketMsgOut> = Vec::new();
    messages.push(callback);
    Ok(MarketResponse {
        event: Some(MarketEvent::Repay { owner: info.sender.clone(), position_id, amount: received, rate }),
        messages,
    })
}

/// What `open` does: how the store `s1` after the call and the result `r`
/// relate to the store `s0` before it.
pub open spec fn open_post(s0: MarketStore, s1: MarketStore, fee_state: State, info: MessageInfo, r: Result<MarketResponse, ContractError>) -> bool {
    &&& (({
                let id = s0.book.count();
                let p = Position { owner: info.sender, collateral: 0, debt: 0, stored_fee_index: fee_state.global_fee_index };
                &&& s1.config == s0.config
                &&& s1.state == fee_state
                &&& s1.book.positions() == s0.book.positions().insert(id, p)
                &&& s1.book.owner_index() == s0.book.owner_index().insert(owner_key(info.sender, id))
                &&& s1.book.count() == id + 1
                &&& r matches Ok(resp)
                &&& resp.event == Some(MarketEvent::Open { owner: info.sender, position_id: id })
                &&& resp.messages@ == seq![core_callback(s0.config.core,
                    CallbackMsg::Open { owner: info.sender, position_id: id })]
    }))
}

/// Opens an empty position for the sender at the current fee index, under
/// the next id; the updated fee state is stored and the core is told.
pub fn open(store: &mut MarketStore, fee_state: State, info: &MessageInfo) -> (r: Result<MarketResponse, ContractError>)
    requires
        old(store).wf(),
        old(store).book.count() < u64::MAX,
    ensures
        final(store).wf(),
        open_post(*old(store), *final(store), fee_state, *info, r),
{
    let global = fee_state.global_fee_index;
    store.state = fee_state;
    let position_id = store.book.save(Position {
        owner: info.sender.clone(),
        collateral: 0,
        debt: 0,
        stored_fee_index: global,
    });
    let callback = callback_to(&store.config.core, CallbackMsg::Open { owner: info.sender.clone(), position_id });
    let mut messages: Vec<MarketMsgOut> = Vec::new();
    messages.push(callback);
    Ok(MarketResponse {
        event: Some(MarketEvent::Open { owner: info.sender.clone(), position_id }),
        messages,
    })
}

/// `close` and `liquidate` run without an arithmetic fault: the fee applies
/// to the position.
pub open spec fn position_fee_in_range(store: MarketStore, fee_state: State, position_id: u64) -> bool {
    store.book.positions().contains_key(position_id) ==>
        fee_applicable(store.book.positions()[position_id], fee_state.global_fee_index)
}

/// What `close` does: how the store `s1` after the call and the result `r`
/// relate to the store `s0` before it.
pub open spec fn close_post(s0: MarketStore, s1: MarketStore, fee_state: State, info: MessageInfo, position_id: u64, r: Result<MarketResponse, ContractError>) -> bool {
    &&& (r is Err ==> s1.same_as(s0))
    &&& (!s0.book.positions().contains_key(position_id) ==>
                (r matches Err(ContractError::Std(e)) && is_position_not_found(e)))
    &&& (s0.book.positions().contains_key(position_id) ==> {
                let p = s0.book.positions()[position_id];
                match with_fee(p, fee_state.global_fee_index) {
                    Err(e) => r == Err::<MarketResponse, ContractError>(ContractError::Std(e)),
                    Ok(q) => if q.owner@ != info.sender@ {
                        r == Err::<MarketResponse, ContractError>(ContractError::Unauthorized)
                    } else if q.debt != 0 {
                        r == Err::<MarketResponse, ContractError>(ContractError::NotLiquidated)
                    } else if fee_state.total_collateral < q.collateral {
                        r == Err::<MarketResponse, ContractError>(ContractError::OverflowError(OverflowOperation::Sub))
                    } else {
                        &&& s1.config == s0.config
                        &&& s1.state == State { total_collateral: (fee_state.total_collateral - q.collateral) as u128, ..fee_state }
                        &&& s1.book.positions() == s0.book.positions().remove(position_id)
                        &&& s1.book.owner_index() == s0.book.owner_index().remove(owner_key(p.owner, position_id))
                        &&& s1.book.count() == s0.book.count()
                        &&& r matches Ok(resp)
                        &&& resp.event == Some(MarketEvent::Close { owner: info.sender, position_id })
                        &&& resp.messages@ == seq![
                            MarketMsgOut::Bank { to_address: info.sender, denom: s0.config.collateral_asset, amount: q.collateral },
                            core_callback(s0.config.core, CallbackMsg::Close { owner: q.owner, position_id })]
                    }
                }
    })
}

/// Closes the sender's position `position_id` once its debt, with the fee
/// applied, is zero: the position and its index entry are removed, the total
/// collateral shrinks by its collateral, which is sent back to the sender,
/// and the core is told. On any error nothing changes.
pub fn close(store: &mut MarketStore, fee_state: State, info: &MessageInfo, position_id: u64) -> (r: Result<MarketResponse, ContractError>)
    requires
        old(store).wf(),
        position_fee_in_range(*old(store), fee_state, position_id),
    ensures
        final(store).wf(),
        close_post(*old(store), *final(store), fee_state, *info, position_id, r),
{
    let loaded = match store.book.load(position_id) {
        Ok(p) => p,
        Err(e) => return Err(ContractError::Std(e)),
    };
    let position = match loaded.apply_fee(fee_state.global_fee_index) {
        Ok(p) => p,
        Err(e) => return Err(ContractError::Std(e)),
    };
    if position.owner != info.sender {
        return Err(ContractError::Unauthorized);
    }
    if position.debt != 0 {
        return Err(ContractError::NotLiquidated);
    }
    let mut state = fee_state;
    state.total_collateral = match state.total_collateral.checked_sub(position.collateral) {
        Some(c) => c,
        None => return Err(ContractError::OverflowError(OverflowOperation::Sub)),
    };
    let _ = store.book.close(position_id);
    store.state = state;
    let return_msg = MarketMsgOut::Bank {
        to_address: info.sender.clone(),
        denom: store.config.collateral_asset.clone(),
        amount: position.collateral,
    };
    let callback = callback_to(&store.config.core, CallbackMsg::Close { owner: position.owner.clone(), position_id });
    let ghost m0 = return_msg;
    let ghost m1 = callback;
    let mut messages: Vec<MarketMsgOut> = Vec::new();
    messages.push(return_msg);
    messages.push(callback);
    assert(messages@ =~= seq![m0, m1]);
    Ok(MarketResponse {
        event: Some(MarketEvent::Close { owner: info.sender.clone(), position_id }),
        messages,
    })
}

/// `liquidate` runs without an arithmetic fault: for a sender that may
/// liquidate, the fee applies to the position and its valuations at `rate`
/// fit (anyone else is refused before anything is computed).
pub open spec fn liquidate_in_range(store: MarketStore, fee_state: State, info: MessageInfo, position_id: u64, rate_answer: Result<Decimal, StdError>) -> bool {
    may_liquidate(store.config, info) && rate_answer is Ok && store.book.positions().contains_key(position_id) ==> {
        let p = store.book.positions()[position_id];
        &&& fee_applicable(p, fee_state.global_fee_index)
        &&& match with_fee(p, fee_state.global_fee_index) {
            Ok(q) => valuation_fits(q, rate_answer->Ok_0, store.config.borrow_ltv),
            Err(_) => true,
        }
    }
}

/// What `liquidate` does: how the store `s1` after the call and the result `r`
/// relate to the store `s0` before it.
pub open spec fn liquidate_post(s0: MarketStore, s1: MarketStore, fee_state: State, info: MessageInfo, position_id: u64, rate_answer: Result<Decimal, StdError>, r: Result<MarketResponse, ContractError>) -> bool {
    &&& (r is Err ==> s1.same_as(s0))
    &&& (!may_liquidate(s0.config, info) ==> r == Err::<MarketResponse, ContractError>(ContractError::Unauthorized))
    &&& (may_liquidate(s0.config, info) && rate_answer is Err ==>
                r == Err::<MarketResponse, ContractError>(ContractError::Std(rate_answer->Err_0)))
    &&& (may_liquidate(s0.config, info) && rate_answer is Ok && !s0.book.positions().contains_key(position_id) ==>
                (r matches Err(ContractError::Std(e)) && is_position_not_found(e)))
    &&& (may_liquidate(s0.config, info) && rate_answer is Ok && s0.book.positions().contains_key(position_id) ==> {
                let rate = rate_answer->Ok_0;
                let p = s0.book.positions()[position_id];
                let ltv = s0.config.borrow_ltv;
                match with_fee(p, fee_state.global_fee_index) {
                    Err(e) => r == Err::<MarketResponse, ContractError>(ContractError::Std(e)),
                    Ok(q) => if !(collateral_value(q, rate) < red_line(q, ltv)) {
                        r == Err::<MarketResponse, ContractError>(ContractError::NotLiquidatable)
                    } else if fee_state.total_collateral < q.collateral || fee_state.total_debt < q.debt {
                        r == Err::<MarketResponse, ContractError>(ContractError::OverflowError(OverflowOperation::Sub))
                    } else {
                        &&& s1.config == s0.config
                        &&& s1.state == State {
                            total_collateral: (fee_state.total_collateral - q.collateral) as u128,
                            total_debt: (fee_state.total_debt - q.debt) as u128,
                            ..fee_state
                        }
                        &&& s1.book.positions() == s0.book.positions().remove(position_id)
                        &&& s1.book.owner_index() == s0.book.owner_index().remove(owner_key(p.owner, position_id))
                        &&& s1.book.count() == s0.book.count()
                        &&& r matches Ok(resp)
                        &&& resp.event == Some(MarketEvent::Liquidate { owner: q.owner, position_id, collateral: q.collateral, debt: q.debt, rate })
                        &&& resp.messages@ == seq![core_callback(s0.config.core, CallbackMsg::Liquidation {
                            owner: q.owner, asset: s0.config.collateral_asset, collateral: q.collateral, debt: q.debt })]
                    }
                }
    })
}

/// Only the market's core and its liquidator may ask for a liquidation.
pub open spec fn may_liquidate(config: Config, info: MessageInfo) -> bool {
    info.sender@ == config.core@ || info.sender@ == config.liquidator@
}

/// Liquidates position `position_id` at the oracle's rate (`rate_answer`:
/// the rate, or the error of its query, reported right after the sender
/// check) when its
/// collateral, with the fee applied, is worth less than its red line: the
/// position and its index entry are removed, its collateral and debt leave
/// the totals, and the core is told. Only the core and the liquidator may
/// ask; anyone else is refused before anything is read. On any error nothing
/// changes.
pub fn liquidate(store: &mut MarketStore, fee_state: State, info: &MessageInfo, position_id: u64, rate_answer: Result<Decimal, StdError>) -> (r: Result<MarketResponse, ContractError>)
    requires
        old(store).wf(),
        liquidate_in_range(*old(store), fee_state, *info, position_id, rate_answer),
    ensures
        final(store).wf(),
        liquidate_post(*old(store), *final(store), fee_state, *info, position_id, rate_answer, r),
{
    if info.sender != store.config.core && info.sender != store.config.liquidator {
        return Err(ContractError::Unauthorized);
    }
    let rate = match rate_answer {
        Ok(rt) => rt,
        Err(e) => return Err(ContractError::Std(e)),
    };
    let loaded = match store.book.load(position_id) {
        Ok(p) => p,
        Err(e) => return Err(ContractError::Std(e)),
    };
    let position = match loaded.apply_fee(fee_state.global_fee_index) {
        Ok(p) => p,
        Err(e) => return Err(ContractError::Std(e)),
    };
    if !position.is_liquidatable(rate, store.config.borrow_ltv) {
        return Err(ContractError::NotLiquidatable);
    }
    let mut state = fee_state;
    state.total_collateral = match state.total_collateral.checked_sub(position.collateral) {
        Some(c) => c,
        None => return Err(ContractError::OverflowError(OverflowOperation::Sub)),
    };
    state.total_debt = match state.total_debt.checked_sub(position.debt) {
        Some(d) => d,
        None => return Err(ContractError::OverflowError(OverflowOperation::Sub)),
    };
    let _ = store.book.close(position_id);
    store.state = state;
    let callback = callback_to(&store.config.core, CallbackMsg::Liquidation {
        owner: position.owner.clone(),
        asset: store.config.collateral_asset.clone(),
        collateral: position.collateral,
        debt: position.debt,
    });
    let mut messages: Vec<MarketMsgOut> = Vec::new();
    messages.push(callback);
    Ok(MarketResponse {
        event: Some(MarketEvent::Liquidate {
            owner: position.owner,
            position_id,
            collateral: position.collateral,
            debt: position.debt,
            rate,
        }),
        messages,
    })
}


/// A settings change with the host's answers in place: each role address
/// that `ManageRoles` names comes with the outcome of validating it.
pub enum ConfigChange {
    ChangeName(String),
    ManageRoles { core: Option<Result<String, StdError>>, oracle: Option<Result<String, StdError>> },
    AdjustLTV { borrow_ltv: Option<Decimal> },
    AdjustFeeMultiplier(Decimal),
}

/// The config after `change`, or the validation error that stops it.
pub open spec fn changed_config(config: Config, change: ConfigChange) -> Result<Config, StdError> {
    match change {
        ConfigChange::ChangeName(name) => Ok(Config { name, ..config }),
        ConfigChange::ManageRoles { core, oracle } => {
            match core {
                Some(Err(e)) => Err(e),
                _ => match oracle {
                    Some(Err(e)) => Err(e),
                    _ => {
                        let c1 = match core { Some(Ok(a)) => Config { core: a, ..config }, _ => config };
                        Ok(match oracle { Some(Ok(a)) => Config { oracle: a, ..c1 }, _ => c1 })
                    },
                },
            }
        },
        ConfigChange::AdjustLTV { borrow_ltv } => match borrow_ltv {
            Some(l) => Ok(Config { borrow_ltv: l, ..config }),
            None => Ok(config),
        },
        ConfigChange::AdjustFeeMultiplier(m) => Ok(Config { fee_multiplier: m, ..config }),
    }
}

/// What `config` does: how the store `s1` after the call and the result `r`
/// relate to the store `s0` before it.
pub open spec fn config_post(s0: MarketStore, s1: MarketStore, fee_state: State, info: MessageInfo, change: ConfigChange, r: Result<MarketResponse, ContractError>) -> bool {
    &&& (r is Err ==> s1.same_as(s0))
    &&& (info.sender@ != s0.config.core@ ==> r == Err::<MarketResponse, ContractError>(ContractError::Unauthorized))
    &&& (info.sender@ == s0.config.core@ ==> match changed_config(s0.config, change) {
                Err(e) => r == Err::<MarketResponse, ContractError>(ContractError::Std(e)),
                Ok(c) => {
                    &&& s1.config == c
                    &&& s1.state == fee_state
                    &&& s1.book.positions() == s0.book.positions()
                    &&& s1.book.owner_index() == s0.book.owner_index()
                    &&& s1.book.count() == s0.book.count()
                    &&& r matches Ok(resp)
                    &&& resp.event is None
                    &&& resp.messages@.len() == 0
                }
    })
}

/// Changes the market's settings; only the core may. The updated fee state is
/// stored with the new settings (so fees up to now accrue at the old
/// multiplier). On any error nothing changes.
pub fn config(store: &mut MarketStore, fee_state: State, info: &MessageInfo, change: ConfigChange) -> (r: Result<MarketResponse, ContractError>)
    requires
        old(store).wf(),
    ensures
        final(store).wf(),
        config_post(*old(store), *final(store), fee_state, *info, change, r),
        info.sender@ == old(store).config.core@ ==> match change {
            ConfigChange::ChangeName(n) => r is Ok && final(store).config.name == n,
            ConfigChange::AdjustFeeMultiplier(m) => r is Ok && final(store).config.fee_multiplier == m,
            ConfigChange::AdjustLTV { borrow_ltv } => r is Ok && final(store).config.borrow_ltv
                == (match borrow_ltv { Some(l) => l, None => old(store).config.borrow_ltv }),
            ConfigChange::ManageRoles { core, oracle } => {
                &&& (core matches Some(Err(e)) ==> r == Err::<MarketResponse, ContractError>(ContractError::Std(e)))
                &&& (r is Ok ==> final(store).config.core == (match core { Some(Ok(a)) => a, _ => old(store).config.core }))
                &&& (r is Ok ==> final(store).config.oracle == (match oracle { Some(Ok(a)) => a, _ => old(store).config.oracle }))
                &&& (!(core matches Some(Err(_))) && !(oracle matches Some(Err(_))) ==> r is Ok)
            },
        },
{
    if info.sender != store.config.core {
        return Err(ContractError::Unauthorized);
    }
    match change {
        ConfigChange::ChangeName(name) => {
            store.config.name = name;
        },
        ConfigChange::ManageRoles { core, oracle } => {
            let new_core = match core {
                Some(Ok(a)) => Some(a),
                Some(Err(e)) => return Err(ContractError::Std(e)),
                None => None,
            };
            let new_oracle = match oracle {
                Some(Ok(a)) => Some(a),
                Some(Err(e)) => return Err(ContractError::Std(e)),
                None => None,
            };
            if let Some(a) = new_core {
                store.config.core = a;
            }
            if let Some(a) = new_oracle {
                store.config.oracle = a;
            }
        },
        ConfigChange::AdjustLTV { borrow_ltv } => {
            if let Some(l) = borrow_ltv {
                store.config.borrow_ltv = l;
            }
        },
        ConfigChange::AdjustFeeMultiplier(m) => {
            store.config.fee_multiplier = m;
        },
    }
    store.state = fee_state;
    Ok(MarketResponse { event: None, messages: Vec::new() })
}


/// A market action with the answers of the host and the oracle in place.
pub enum Action {
    Config(ConfigChange),
    Open,
    Close { position_id: u64 },
    Liquidate { position_id: u64, rate: Result<Decimal, StdError> },
    Lock { position_id: u64 },
    Unlock { position_id: u64, amount: u128, rate: Result<Decimal, StdError> },
    Borrow { position_id: u64, amount: u128, rate: Result<Decimal, StdError> },
    Repay { position_id: u64, rate: Result<Decimal, StdError> },
}

/// `action` runs without an arithmetic fault on `store` at the fee state
/// `fee_state`.
pub open spec fn action_in_range(store: MarketStore, fee_state: State, info: MessageInfo, action: Action) -> bool {
    match action {
        Action::Config(_) => true,
        Action::Open => store.book.count() < u64::MAX,
        Action::Close { position_id } => position_fee_in_range(store, fee_state, position_id),
        Action::Liquidate { position_id, rate } => liquidate_in_range(store, fee_state, info, position_id, rate),
        Action::Lock { position_id } => lock_in_range(store, fee_state, info, position_id),
        Action::Unlock { position_id, amount, rate } => unlock_in_range(store, fee_state, info, position_id, rate),
        Action::Borrow { position_id, amount, rate } => borrow_in_range(store, fee_state, info, position_id, rate),
        Action::Repay { position_id, rate } => repay_in_range(store, fee_state, info, position_id),
    }
}

/// What `action` does, as its own function states it.
pub open spec fn action_post(s0: MarketStore, s1: MarketStore, fee_state: State, info: MessageInfo, action: Action, r: Result<MarketResponse, ContractError>) -> bool {
    match action {
        Action::Config(change) => config_post(s0, s1, fee_state, info, change, r),
        Action::Open => open_post(s0, s1, fee_state, info, r),
        Action::Close { position_id } => close_post(s0, s1, fee_state, info, position_id, r),
        Action::Liquidate { position_id, rate } => liquidate_post(s0, s1, fee_state, info, position_id, rate, r),
        Action::Lock { position_id } => lock_post(s0, s1, fee_state, info, position_id, r),
        Action::Unlock { position_id, amount, rate } => unlock_post(s0, s1, fee_state, info, position_id, amount, rate, r),
        Action::Borrow { position_id, amount, rate } => borrow_post(s0, s1, fee_state, info, position_id, amount, rate, r),
        Action::Repay { position_id, rate } => repay_post(s0, s1, fee_state, info, position_id, rate, r),
    }
}

/// The position under `position_id` with the fee at `fee_state` applied,
/// when it exists and the fee applies; `None` when it is absent; `Some(None)`
/// when the fee does not apply.
fn position_with_fee(store: &MarketStore, fee_state: &State, position_id: u64) -> (r: Option<Option<Result<Position, StdError>>>)
    requires
        store.wf(),
    ensures
        !store.book.positions().contains_key(position_id) ==> r is None,
        store.book.positions().contains_key(position_id) ==> {
            let p = store.book.positions()[position_id];
            &&& r is Some
            &&& r->0 is Some <==> fee_applicable(p, fee_state.global_fee_index)
            &&& r->0 matches Some(w) ==> w == with_fee(p, fee_state.global_fee_index)
        },
{
    match store.book.load(position_id) {
        Err(_) => None,
        Ok(p) => {
            if p.fee_applicable(fee_state.global_fee_index) {
                Some(Some(p.apply_fee(fee_state.global_fee_index)))
            } else {
                Some(None)
            }
        },
    }
}

/// Whether `action` runs without an arithmetic fault.
pub fn action_in_range_check(store: &MarketStore, fee_state: &State, info: &MessageInfo, action: &Action) -> (b: bool)
    requires
        store.wf(),
    ensures
        b == action_in_range(*store, *fee_state, *info, *action),
{
    match action {
        Action::Config(_) => true,
        Action::Open => store.book.position_count() < u64::MAX,
        Action::Close { position_id } | Action::Liquidate { position_id, .. } => {
            if matches!(action, Action::Liquidate { .. }) && info.sender != store.config.core && info.sender != store.config.liquidator {
                return true;
            }
            if matches!(action, Action::Liquidate { rate: Err(_), .. }) {
                return true;
            }
            let id = *position_id;
            match position_with_fee(store, fee_state, id) {
                None => true,
                Some(None) => false,
                Some(Some(Err(_))) => true,
                Some(Some(Ok(q))) => match action {
                    Action::Liquidate { rate: Ok(rt), .. } => q.valuation_fits(*rt, store.config.borrow_ltv),
                    _ => true,
                },
            }
        },
        Action::Lock { position_id } => {
            if must_pay(info, &store.config.collateral_asset).is_err() {
                return true;
            }
            match position_with_fee(store, fee_state, *position_id) {
                None => true,
                Some(w) => w.is_some(),
            }
        },
        Action::Repay { position_id, .. } => {
            if must_pay(info, &store.config.debt_asset).is_err() {
                return true;
            }
            match position_with_fee(store, fee_state, *position_id) {
                None => true,
                Some(None) => false,
                Some(Some(Err(_))) => true,
                Some(Some(Ok(q))) => q.owner != info.sender || store.book.position_count() < u64::MAX,
            }
        },
        Action::Unlock { position_id, rate, .. } => {
            match position_with_fee(store, fee_state, *position_id) {
                None => true,
                Some(None) => false,
                Some(Some(Err(_))) => true,
                Some(Some(Ok(q))) => q.owner != info.sender || match rate {
                    Ok(rt) => rt.atomics != 0
                        && q.scaled_red_line_fits(store.config.borrow_ltv)
                        && store.book.position_count() < u64::MAX,
                    Err(_) => true,
                },
            }
        },
        Action::Borrow { position_id, rate, .. } => {
            match position_with_fee(store, fee_state, *position_id) {
                None => true,
                Some(None) => false,
                Some(Some(Err(_))) => true,
                Some(Some(Ok(q))) => q.owner != info.sender || match rate {
                    Ok(rt) => q.valuation_fits(*rt, store.config.borrow_ltv)
                        && store.book.position_count() < u64::MAX,
                    Err(_) => true,
                },
            }
        },
    }
}

proof fn lemma_insert_keeps_consistent(s0: MarketStore, s1: MarketStore, id: u64, q: Position)
    requires
        consistent(s0),
        s0.book.positions().contains_key(id) ==> s0.book.positions()[id].owner@ == q.owner@,
        !s0.book.positions().contains_key(id) ==> id == s0.book.count() && s0.book.count() < u64::MAX,
        s1.book.positions() == s0.book.positions().insert(id, q),
        s1.book.owner_index() == s0.book.owner_index().insert(owner_key(q.owner, id)),
        s1.book.count() == if s0.book.positions().contains_key(id) { s0.book.count() } else { (s0.book.count() + 1) as u64 },
        s1.book.count() >= s0.book.count(),
        s1.state.global_fee_index.atomics >= s0.state.global_fee_index.atomics,
        q.stored_fee_index.atomics <= s1.state.global_fee_index.atomics,
    ensures
        consistent(s1),
{
    let p0 = s0.book.positions();
    let p1 = s1.book.positions();
    let i0 = s0.book.owner_index();
    let i1 = s1.book.owner_index();
    assert forall|o: Seq<char>, k: u64| #[trigger] i1.contains((o, k)) implies p1.contains_key(k) && p1[k].owner@ == o by {
        if (o, k) != owner_key(q.owner, id) {
            assert(i0.contains((o, k)));
        }
    }
    assert forall|k: u64| #[trigger] p1.contains_key(k) implies i1.contains((p1[k].owner@, k)) by {
        if k != id {
            assert(p0.contains_key(k));
            assert(i0.contains((p0[k].owner@, k)));
        }
    }
    assert forall|k: u64| #[trigger] p1.contains_key(k) implies k < s1.book.count() by {
        if k != id {
            assert(p0.contains_key(k));
        }
    }
    assert forall|k: u64| #[trigger] p1.contains_key(k)
        implies p1[k].stored_fee_index.atomics <= s1.state.global_fee_index.atomics by {
        if k != id {
            assert(p0.contains_key(k));
        }
    }
}

proof fn lemma_remove_keeps_consistent(s0: MarketStore, s1: MarketStore, id: u64)
    requires
        consistent(s0),
        s0.book.positions().contains_key(id),
        s1.book.positions() == s0.book.positions().remove(id),
        s1.book.owner_index() == s0.book.owner_index().remove(owner_key(s0.book.positions()[id].owner, id)),
        s1.book.count() == s0.book.count(),
        s1.state.global_fee_index.atomics >= s0.state.global_fee_index.atomics,
    ensures
        consistent(s1),
{
    let p0 = s0.book.positions();
    let p1 = s1.book.positions();
    let i0 = s0.book.owner_index();
    let i1 = s1.book.owner_index();
    assert forall|o: Seq<char>, k: u64| #[trigger] i1.contains((o, k)) implies p1.contains_key(k) && p1[k].owner@ == o by {
        assert(i0.contains((o, k)));
        if k == id {
            assert(p0[id].owner@ == o);
        }
    }
    assert forall|k: u64| #[trigger] p1.contains_key(k) implies i1.contains((p1[k].owner@, k)) by {
        assert(p0.contains_key(k));
        assert(i0.contains((p0[k].owner@, k)));
    }
}

proof fn lemma_action_keeps_consistent(s0: MarketStore, s1: MarketStore, fee_state: State, info: MessageInfo, action: Action, r: Result<MarketResponse, ContractError>)
    requires
        consistent(s0),
        fee_state.global_fee_index.atomics >= s0.state.global_fee_index.atomics,
        action_in_range(s0, fee_state, info, action),
        action_post(s0, s1, fee_state, info, action, r),
    ensures
        consistent(s1),
{
    if r is Err {
        assert(s1.same_as(s0));
        return;
    }
    match action {
        Action::Config(change) => {},
        Action::Open => {
            let id = s0.book.count();
            assert(!s0.book.positions().contains_key(id));
            let p = Position { owner: info.sender, collateral: 0, debt: 0, stored_fee_index: fee_state.global_fee_index };
            lemma_insert_keeps_consistent(s0, s1, id, p);
        },
        Action::Close { position_id } => {
            lemma_remove_keeps_consistent(s0, s1, position_id);
        },
        Action::Liquidate { position_id, rate } => {
            lemma_remove_keeps_consistent(s0, s1, position_id);
        },
        Action::Lock { position_id } => {
            let p = s0.book.positions()[position_id];
            let q = with_fee(p, fee_state.global_fee_index)->Ok_0;
            let amount = paid_amount(info.funds@, s0.config.collateral_asset@)->0;
            let q2 = Position { collateral: (q.collateral + amount) as u128, ..q };
            assert(s1.book.owner_index() == s0.book.owner_index().insert(owner_key(q2.owner, position_id)));
            lemma_insert_keeps_consistent(s0, s1, position_id, q2);
        },
        Action::Unlock { position_id, amount, rate } => {
            let p = s0.book.positions()[position_id];
            let q = with_fee(p, fee_state.global_fee_index)->Ok_0;
            let id = s0.book.count();
            assert(!s0.book.positions().contains_key(id));
            lemma_insert_keeps_consistent(s0, s1, id, Position { collateral: (q.collateral - amount) as u128, ..q });
        },
        Action::Borrow { position_id, amount, rate } => {
            let p = s0.book.positions()[position_id];
            let q = with_fee(p, fee_state.global_fee_index)->Ok_0;
            let id = s0.book.count();
            assert(!s0.book.positions().contains_key(id));
            lemma_insert_keeps_consistent(s0, s1, id, Position { debt: (q.debt + amount) as u128, ..q });
        },
        Action::Repay { position_id, rate } => {
            let p = s0.book.positions()[position_id];
            let q = with_fee(p, fee_state.global_fee_index)->Ok_0;
            let amount = paid_amount(info.funds@, s0.config.debt_asset@)->0;
            let id = s0.book.count();
            assert(!s0.book.positions().contains_key(id));
            lemma_insert_keeps_consistent(s0, s1, id, Position { debt: (q.debt - amount) as u128, ..q });
        },
    }
}

/// Runs a market action at time `now`: the fee index is brought up to date
/// first (`State::update_fee`), then the action runs on the updated fee
/// state. `None` when the action would stop on an arithmetic fault, which
/// aborts the contract call; the store is then unchanged.
pub fn execute(store: &mut MarketStore, now: u64, info: &MessageInfo, action: Action) -> (r: Option<Result<MarketResponse, ContractError>>)
    requires
        old(store).wf(),
        update_fee_in_range(old(store).state, now, old(store).config.fee_multiplier),
    ensures
        final(store).wf(),
        ({
            let fee_state = updated_state(old(store).state, now, old(store).config.fee_multiplier);
            &&& r is None <==> !action_in_range(*old(store), fee_state, *info, action)
            &&& r is None ==> final(store).same_as(*old(store))
            &&& r matches Some(res) ==> action_post(*old(store), *final(store), fee_state, *info, action, res)
        }),
        consistent(*old(store)) ==> consistent(*final(store)),
{
    let ghost s0 = *store;
    let fee_state = match store.state.clone_state().update_fee(now, store.config.fee_multiplier) {
        Ok(s) => s,
        Err(_) => return None,
    };
    let ghost action0 = action;
    if !action_in_range_check(store, &fee_state, info, &action) {
        return None;
    }
    let r = match action {
        Action::Config(change) => config(store, fee_state, info, change),
        Action::Open => open(store, fee_state, info),
        Action::Close { position_id } => close(store, fee_state, info, position_id),
        Action::Liquidate { position_id, rate } => liquidate(store, fee_state, info, position_id, rate),
        Action::Lock { position_id } => lock(store, fee_state, info, position_id),
        Action::Unlock { position_id, amount, rate } => unlock(store, fee_state, info, position_id, amount, rate),
        Action::Borrow { position_id, amount, rate } => borrow(store, fee_state, info, position_id, amount, rate),
        Action::Repay { position_id, rate } => repay(store, fee_state, info, position_id, rate),
    };
    proof {
        if consistent(s0) {
            lemma_action_keeps_consistent(s0, *store, fee_state, *info, action0, r);
        }
    }
    Some(r)
}

} // verus!
