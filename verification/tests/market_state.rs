use noi::decimal::Decimal;
use noi::market::position::Position;
use noi::market::state::State;
use noi::market::state::{fee_update_fits, pow_fits};

fn base_position() -> Position {
    Position {
        owner: "owner".to_string(),
        collateral: 100,
        debt: 60,
        stored_fee_index: Decimal::one(),
    }
}

#[test]
fn test_update_fee() {
    let mut state = State {
        total_debt: 0,
        total_collateral: 0,
        fee_updated_at: 0,
        global_fee_index: Decimal::one(),
    };

    let now = 86400 * 365; // 1y
    let multiplier = Decimal::raw(
        cosmwasm_std::Decimal::from_ratio(1029528u128, 1000000000000000u128)
            .atomics()
            .u128(),
    ); // daily multiplier of apy 3.3%

    state = state.update_fee(now, multiplier).unwrap();

    assert_eq!(state.fee_updated_at, now);
    assert_eq!(
        state.global_fee_index.atomics() * 1000u128 / Decimal::one().atomics(),
        1033u128
    );
}

#[test]
fn test_unlockable_collateral() {
    let position = base_position();
    let cases = [(300, 200, 60), (200, 200, 40), (300, 300, 40), (200, 300, 10)];

    for (rate, ltv, expected) in cases {
        assert_eq!(
            position
                .unlockable_collateral(Decimal::percent(rate), Decimal::percent(ltv))
                .unwrap(),
            expected as u128
        );
    }
}

#[test]
fn test_borrowable_debt() {
    let position = base_position();
    let cases = [(300, 200, 180), (200, 200, 80), (300, 300, 120), (200, 300, 20)];

    for (rate, ltv, expected) in cases {
        assert_eq!(
            position
                .borrowable_debt(Decimal::percent(rate), Decimal::percent(ltv))
                .unwrap(),
            expected as u128
        );
    }
}

#[test]
fn update_fee_without_elapsed_time_changes_nothing() {
    let state = State {
        total_debt: 5,
        total_collateral: 7,
        fee_updated_at: 100,
        global_fee_index: Decimal::percent(150),
    };
    let updated = state.update_fee(100, Decimal::percent(1)).unwrap();
    assert_eq!(updated.fee_updated_at, 100);
    assert_eq!(updated.global_fee_index.atomics(), 1_500_000_000_000_000_000);
    assert_eq!(updated.total_debt, 5);
    assert_eq!(updated.total_collateral, 7);
}

#[test]
fn update_fee_compounds_per_second() {
    // index 1, multiplier 10% per second, 2 seconds: 1 * (1.1^2 - 1) = 0.21
    let state = State {
        total_debt: 0,
        total_collateral: 0,
        fee_updated_at: 10,
        global_fee_index: Decimal::one(),
    };
    let updated = state.update_fee(12, Decimal::percent(10)).unwrap();
    assert_eq!(updated.fee_updated_at, 12);
    assert_eq!(updated.global_fee_index.atomics(), 1_210_000_000_000_000_000);
}

#[test]
fn update_fee_index_never_decreases() {
    let state = State {
        total_debt: 0,
        total_collateral: 0,
        fee_updated_at: 0,
        global_fee_index: Decimal::percent(120),
    };
    let before = state.global_fee_index.atomics();
    let updated = state.update_fee(1000, Decimal::zero()).unwrap();
    assert_eq!(updated.global_fee_index.atomics(), before);
    assert_eq!(updated.fee_updated_at, 1000);
}

#[test]
fn liquidatable_exactly_when_value_below_red_line() {
    let p = base_position();
    // value 100 * 1.0 = 100, red line 60 * 2.0 = 120
    assert!(p.is_liquidatable(Decimal::one(), Decimal::percent(200)));
    assert!(p.borrowable_debt(Decimal::one(), Decimal::percent(200)).is_err());
    // value 300, red line 120
    assert!(!p.is_liquidatable(Decimal::percent(300), Decimal::percent(200)));
    assert!(p.borrowable_debt(Decimal::percent(300), Decimal::percent(200)).is_ok());
}

#[test]
fn valuation_rounds_down() {
    let p = Position {
        owner: "o".to_string(),
        collateral: 3,
        debt: 3,
        stored_fee_index: Decimal::one(),
    };
    // 3 * 0.5 = 1.5 -> 1
    assert_eq!(p.collateral_value(Decimal::percent(50)), 1);
    assert_eq!(p.red_line(Decimal::percent(50)), 1);
}

#[test]
fn unlockable_collateral_errs_when_locked_part_exceeds_collateral() {
    let p = base_position();
    // red line 60 * 3 = 180, locked 180 / 1 = 180 > 100
    assert!(matches!(
        p.unlockable_collateral(Decimal::one(), Decimal::percent(300)),
        Err(noi::market::error::ContractError::OverflowError(noi::error::OverflowOperation::Sub))
    ));
}

#[test]
fn apply_fee_adds_accrued_fee_and_moves_index() {
    let p = base_position();
    let q = p.apply_fee(Decimal::percent(150)).unwrap();
    // 60 + 60 * 0.5 = 90
    assert_eq!(q.debt, 90);
    assert_eq!(q.collateral, 100);
    assert_eq!(q.stored_fee_index.atomics(), Decimal::percent(150).atomics());
    // applying it again at the same index changes nothing
    let r = q.clone().apply_fee(Decimal::percent(150)).unwrap();
    assert_eq!(r.debt, 90);
}

#[test]
fn apply_fee_overflow_is_an_error() {
    let p = Position {
        owner: "o".to_string(),
        collateral: 0,
        debt: u128::MAX,
        stored_fee_index: Decimal::one(),
    };
    assert!(matches!(
        p.apply_fee(Decimal::percent(101)),
        Err(noi::error::StdError::Overflow { .. })
    ));
}

#[test]
fn decimal_pow_zero_and_one() {
    assert_eq!(Decimal::percent(250).pow(0).atomics(), Decimal::one().atomics());
    assert_eq!(Decimal::percent(250).pow(1).atomics(), Decimal::percent(250).atomics());
    assert_eq!(Decimal::percent(50).pow(2).atomics(), Decimal::percent(25).atomics());
}

#[test]
fn decimal_mul_rounds_down() {
    let a = Decimal::raw(3);
    let b = Decimal::raw(500_000_000_000_000_000);
    assert_eq!(a.mul(b).atomics(), 1);
    assert_eq!(Decimal::percent(200).mul(Decimal::percent(300)).atomics(), Decimal::percent(600).atomics());
}

#[test]
fn fee_update_fits_accepts_ordinary_updates() {
    let state = State {
        total_debt: 0,
        total_collateral: 0,
        fee_updated_at: 100,
        global_fee_index: Decimal::one(),
    };
    let multiplier = Decimal::raw(1_029_528_000);
    // No time elapsed.
    assert!(fee_update_fits(&state, 100, multiplier));
    // A year elapsed.
    assert!(fee_update_fits(&state, 100 + 86400 * 365, multiplier));
    // Time running backwards.
    assert!(!fee_update_fits(&state, 99, multiplier));
    // A multiplier whose compounding cannot fit.
    assert!(!fee_update_fits(&state, 100 + 86400, Decimal::one()));
    let updated = state.clone_state().update_fee(100 + 86400 * 365, multiplier).unwrap();
    assert_eq!(updated.fee_updated_at, 100 + 86400 * 365);
}

#[test]
fn pow_fits_cases() {
    assert!(pow_fits(0, 31_536_000));
    assert!(pow_fits(u128::MAX, 0));
    assert!(pow_fits(Decimal::percent(50).atomics(), 31_536_000));
    assert!(pow_fits(Decimal::percent(200).atomics(), 10));
    assert!(!pow_fits(Decimal::percent(200).atomics(), 200));
}

#[test]
fn safe_position_can_unlock() {
    let p = base_position();
    // value 100 * 3 = 300, red line 60 * 2 = 120: safe; locked 120 / 3 = 40
    assert!(!p.is_liquidatable(Decimal::percent(300), Decimal::percent(200)));
    assert_eq!(p.unlockable_collateral(Decimal::percent(300), Decimal::percent(200)).unwrap(), 60);
    // exactly at the red line: value 100, red line 100
    assert!(!p.is_liquidatable(Decimal::one(), Decimal::raw(1_666_666_666_666_666_667)));
    assert!(p.unlockable_collateral(Decimal::one(), Decimal::raw(1_666_666_666_666_666_667)).is_ok());
}

#[test]
fn second_fee_update_at_the_same_instant_accrues_nothing() {
    let state = State {
        total_debt: 0,
        total_collateral: 0,
        fee_updated_at: 0,
        global_fee_index: Decimal::one(),
    };
    let multiplier = Decimal::raw(1_029_528_000);
    let once = state.update_fee(86400, multiplier).unwrap();
    let twice = once.clone_state().update_fee(86400, multiplier).unwrap();
    assert_eq!(twice.global_fee_index.atomics(), once.global_fee_index.atomics());
    assert_eq!(twice.fee_updated_at, 86400);
    assert!(once.global_fee_index.atomics() > Decimal::one().atomics());
}
