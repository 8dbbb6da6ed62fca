use dex_core::swap::{calculate_swap_amount, initialize, swap_tokens, ErrorCode, UserPosition};

#[test]
fn initialize_swap_valid_fee() {
    let swap = initialize(3, 1000, 1, 2, 3, 4, 5, 6).unwrap();
    assert_eq!(swap.fee_numerator, 3);
    assert_eq!(swap.fee_denominator, 1000);
    assert_eq!(swap.token_a_mint, 1);
    assert_eq!(swap.authority, 5);
}

#[test]
fn initialize_swap_rejects_bad_fee() {
    assert_eq!(initialize(1, 0, 1, 2, 3, 4, 5, 6), Err(ErrorCode::InvalidFee));
    assert_eq!(
        initialize(1000, 1000, 1, 2, 3, 4, 5, 6),
        Err(ErrorCode::InvalidFee)
    );
}

#[test]
fn quote_constant_product_example() {
    // fee_multiplier = 997, amount_in_with_fee = 99700,
    // numerator = 99_700_000, denominator = 1_099_700, floored to 90.
    assert_eq!(calculate_swap_amount(1000, 1000, 100, 3, 1000), Ok(90));
}

#[test]
fn quote_never_shrinks_reserve_product() {
    let reserve_in: u64 = 1000;
    let reserve_out: u64 = 1000;
    let amount_in: u64 = 100;
    let amount_out = calculate_swap_amount(reserve_in, reserve_out, amount_in, 3, 1000).unwrap();
    let before = (reserve_in as u128) * (reserve_out as u128);
    let after = ((reserve_in + amount_in) as u128) * ((reserve_out - amount_out) as u128);
    assert!(after >= before);
}

#[test]
fn quote_zero_pool() {
    assert_eq!(
        calculate_swap_amount(0, 1000, 0, 3, 1000),
        Err(ErrorCode::DivisionByZero)
    );
}

#[test]
fn quote_overflow() {
    assert_eq!(
        calculate_swap_amount(1, 2, u64::MAX, 0, u64::MAX),
        Err(ErrorCode::ArithmeticOverflow)
    );
}

#[test]
fn quote_small_input_rounds_to_zero() {
    assert_eq!(calculate_swap_amount(1000, 1000, 1, 3, 1000), Ok(0));
}

#[test]
fn swap_tokens_enforces_slippage() {
    let swap = initialize(3, 1000, 1, 2, 3, 4, 5, 6).unwrap();
    assert_eq!(
        swap_tokens(&swap, 1000, 1000, 100, 91),
        Err(ErrorCode::SlippageExceeded)
    );
    assert_eq!(swap_tokens(&swap, 1000, 1000, 100, 90), Ok(90));
}

#[test]
fn swap_tokens_propagates_quote_errors() {
    let swap = initialize(3, 1000, 1, 2, 3, 4, 5, 6).unwrap();
    assert_eq!(
        swap_tokens(&swap, 0, 1000, 0, 0),
        Err(ErrorCode::DivisionByZero)
    );
}

#[test]
fn user_position_records_contributions() {
    let position = UserPosition {
        owner: 9,
        lp_amount: 200,
        token_a_amount: 100,
        token_b_amount: 400,
    };
    assert_eq!(position.owner, 9);
    assert_eq!(position.lp_amount, 200);
    assert_eq!(position.token_a_amount, 100);
    assert_eq!(position.token_b_amount, 400);
}
