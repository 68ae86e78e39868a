use pumpfun::curve::BondingCurve;

fn fresh_curve() -> BondingCurve {
    BondingCurve {
        creator: 1,
        token_mint: 2,
        token_vault: 3,
        virtual_sol_reserves: 1_000_000_000,
        virtual_token_reserves: 100_000_000_000,
        real_sol_reserves: 0,
        is_completed: false,
        dex_pool: 0,
        creator_fees_owed: 0,
        bump: 255,
    }
}

#[test]
fn buy_output_bootstrap_scenario() {
    // 0.1 SOL net into the bootstrap reserves buys 9_090.909091 tokens
    let curve = fresh_curve();
    assert_eq!(curve.get_buy_output(100_000_000), 9_090_909_091);
}

#[test]
fn buy_then_update_moves_reserves() {
    let mut curve = fresh_curve();
    let out = curve.get_buy_output(100_000_000);
    curve.update_buy_state(100_000_000, out);
    assert_eq!(curve.virtual_sol_reserves, 1_100_000_000);
    assert_eq!(curve.virtual_token_reserves, 90_909_090_909);
    assert_eq!(curve.real_sol_reserves, 100_000_000);
}

#[test]
fn buy_never_increases_k() {
    let mut curve = fresh_curve();
    for sol_in in [1u64, 999, 100_000_000, 3_333_333_333] {
        let k_before = curve.virtual_sol_reserves as u128 * curve.virtual_token_reserves as u128;
        let out = curve.get_buy_output(sol_in);
        curve.update_buy_state(sol_in, out);
        let k_after = curve.virtual_sol_reserves as u128 * curve.virtual_token_reserves as u128;
        assert!(k_after <= k_before);
    }
}

#[test]
fn sell_output_inverts_the_bootstrap_buy() {
    // selling back exactly what the buy handed out returns exactly its input
    let mut curve = fresh_curve();
    let out = curve.get_buy_output(100_000_000);
    curve.update_buy_state(100_000_000, out);
    assert_eq!(curve.get_sell_output(out), 100_000_000);
}

#[test]
fn sell_output_zero_reserves_is_zero() {
    let mut curve = fresh_curve();
    curve.virtual_sol_reserves = 0;
    assert_eq!(curve.get_sell_output(1_000_000), 0);
    let mut curve = fresh_curve();
    curve.virtual_token_reserves = 0;
    assert_eq!(curve.get_sell_output(1_000_000), 0);
}

#[test]
fn sell_output_of_nothing_is_nothing() {
    let curve = fresh_curve();
    assert_eq!(curve.get_sell_output(0), 0);
}

#[test]
fn sell_rounds_payout_down_and_drifts_k_up() {
    // exact payout would be 10 - 100/13 = 2.3..., the seller gets 2,
    // and k moves from 100 to 8 * 13 = 104 in the curve's favour
    let mut curve = fresh_curve();
    curve.virtual_sol_reserves = 10;
    curve.virtual_token_reserves = 10;
    curve.real_sol_reserves = 10;
    let out = curve.get_sell_output(3);
    assert_eq!(out, 2);
    curve.update_sell_state(3, out);
    assert_eq!(curve.virtual_sol_reserves, 8);
    assert_eq!(curve.virtual_token_reserves, 13);
    assert_eq!(curve.real_sol_reserves, 8);
}

#[test]
fn update_sell_state_moves_reserves() {
    let mut curve = fresh_curve();
    curve.real_sol_reserves = 500;
    curve.virtual_sol_reserves = 1_000_000_500;
    curve.update_sell_state(40, 300);
    assert_eq!(curve.real_sol_reserves, 200);
    assert_eq!(curve.virtual_sol_reserves, 1_000_000_200);
    assert_eq!(curve.virtual_token_reserves, 100_000_000_040);
}

#[test]
fn round_trip_cannot_extract_value() {
    // buy X then sell back everything bought: never more than X comes out
    for sol_in in [1_000_000u64, 100_000_000, 10_000_000_000] {
        let mut curve = fresh_curve();
        let bought = curve.get_buy_output(sol_in);
        curve.update_buy_state(sol_in, bought);
        let back = curve.get_sell_output(bought);
        assert!(back <= sol_in);
    }
}
