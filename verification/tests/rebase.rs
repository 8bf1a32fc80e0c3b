use bento_cauldron::common::errors::ErrorCode;
use bento_cauldron::common::rebase::Rebase;

#[test]
fn rebase_empty_ledger_converts_one_to_one() {
    let r = Rebase { base: 0, elastic: 0 };
    assert_eq!(r.to_base(1_000_000, false), Ok(1_000_000));
    assert_eq!(r.to_elastic(1_000_000, true), Ok(1_000_000));
}

#[test]
fn rebase_rounds_as_asked() {
    let r = Rebase { base: 3, elastic: 10 };
    // 7 * 3 / 10 = 2.1
    assert_eq!(r.to_base(7, false), Ok(2));
    assert_eq!(r.to_base(7, true), Ok(3));
    // exact quotients are not bumped
    assert_eq!(r.to_base(10, true), Ok(3));
    // 2 * 10 / 3 = 6.66
    assert_eq!(r.to_elastic(2, false), Ok(6));
    assert_eq!(r.to_elastic(2, true), Ok(7));
    assert_eq!(r.to_elastic(3, true), Ok(10));
}

#[test]
fn rebase_round_trip_bound_on_values() {
    let r = Rebase { base: 1_000_003, elastic: 3_000_017 };
    for e in [0u64, 1, 2, 3, 999, 1_000_000, 123_456_789] {
        let down = r.to_elastic(r.to_base(e, false).unwrap(), false).unwrap();
        let up = r.to_elastic(r.to_base(e, true).unwrap(), true).unwrap();
        assert!(down <= e && e <= up);
    }
}

#[test]
fn rebase_conversion_errors() {
    let r = Rebase { base: u128::MAX, elastic: 1 };
    assert_eq!(r.to_base(2, false), Err(ErrorCode::WrongIntegerMultiplication));
    let r = Rebase { base: 1u128 << 70, elastic: 1 };
    assert_eq!(r.to_base(1, false), Err(ErrorCode::TryIntoConversionError));
}

#[test]
fn rebase_against_an_empty_side_everything_is_worth_nothing() {
    let r = Rebase { base: 0, elastic: 10 };
    assert_eq!(r.to_base(7, false), Ok(0));
    assert_eq!(r.to_base(7, true), Ok(0));
    assert_eq!(r.to_base(u64::MAX, true), Ok(0));
    // the other way the empty side is the source, and converts one to one
    assert_eq!(r.to_elastic(7, false), Ok(7));
    let r = Rebase { base: 5, elastic: 0 };
    assert_eq!(r.to_elastic(5, false), Ok(0));
    assert_eq!(r.to_elastic(1, true), Ok(0));
    assert_eq!(r.to_base(3, true), Ok(3));
}

#[test]
fn rebase_add_and_sub() {
    let mut r = Rebase { base: 100, elastic: 200 };
    let (total, amount) = r.add_e(50, true).unwrap();
    assert_eq!(amount, 50);
    assert_eq!(total, Rebase { base: 125, elastic: 250 });
    assert_eq!(r, total);
    let (total, amount) = r.sub_e(25, true).unwrap();
    assert_eq!(amount, 50);
    assert_eq!(total, Rebase { base: 100, elastic: 200 });
    assert_eq!(r.add_e_b(1, 2), Ok(Rebase { base: 102, elastic: 201 }));
    assert_eq!(r.sub_e_b(201, 102), Ok(Rebase { base: 0, elastic: 0 }));
    assert_eq!(r.sub_e_b(1, 0), Err(ErrorCode::WrongIntegerSubtraction));
    assert_eq!(r, Rebase { base: 0, elastic: 0 });
    let mut full = Rebase { base: 1, elastic: u128::MAX };
    assert_eq!(full.add_e_b(1, 1), Err(ErrorCode::WrongIntegerAddition));
    assert_eq!(full, Rebase { base: 1, elastic: u128::MAX });
}

#[test]
fn rebase_in_and_out_gains_nothing() {
    for (base, elastic) in [(0u128, 0u128), (3, 10), (10, 3), (1_000_003, 3_000_017), (7, 1)] {
        for amount in [0u64, 1, 2, 9, 10, 11, 999_999, 123_456_789] {
            let mut r = Rebase { base, elastic };
            let share = r.to_base(amount, false).unwrap();
            r.add_e_b(amount, share).unwrap();
            if r.base > 0 {
                assert!(r.to_elastic(share, false).unwrap() <= amount);
            }
        }
    }
}
