use takesfun::config::Config;
use takesfun::errors::TakesFunError;
use takesfun::market::Market;
use takesfun::types::{Curve, Direction, Identity};
use takesfun::whitelist::Whitelist;

fn base_config() -> Config {
    Config {
        authority: Identity { id: 10 },
        pending_authority: Identity { id: 0 },
        backend_sign_authority: Identity { id: 11 },
        team_wallet: Identity { id: 12 },
        team_wallet2: Identity { id: 13 },
        platform_buy_fee: 100,
        platform_sell_fee: 100,
        platform_buy_small_fee: 30,
        platform_sell_small_fee: 30,
        creator_buy_fee: 50,
        creator_sell_fee: 50,
        token_supply_config: 1_000_000_000_000_000,
        token_decimals_config: 6,
        initial_virtual_yes_token_reserves_config: 1_000_000_000_000_000,
        initial_virtual_yes_sol_reserves_config: 20_000_000_000,
        initial_real_yes_token_reserves_config: 1_000_000_000_000_000,
        initial_virtual_no_token_reserves_config: 1_000_000_000_000_000,
        initial_virtual_no_sol_reserves_config: 20_000_000_000,
        initial_real_no_token_reserves_config: 1_000_000_000_000_000,
        limit_timestamp: 86_400,
        min_sol_liquidity: 1_000_000_000,
        initialized: true,
    }
}

fn base_market() -> Market {
    Market {
        yes_token_mint: Identity { id: 21 },
        no_token_mint: Identity { id: 22 },
        creator: Identity { id: 23 },
        real_yes_token_reserves: 1_000_000_000_000_000,
        real_yes_sol_reserves: 0,
        virtual_yes_sol_reserves: 20_000_000_000,
        virtual_yes_token_reserves: 1_000_000_000_000_000,
        virtual_no_sol_reserves: 20_000_000_000,
        virtual_no_token_reserves: 1_000_000_000_000_000,
        real_no_token_reserves: 1_000_000_000_000_000,
        real_no_sol_reserves: 0,
        is_completed: false,
        market_info: String::from("pair"),
    }
}

fn trader() -> Identity {
    Identity { id: 77 }
}

fn market_id() -> Identity {
    Identity { id: 88 }
}

#[test]
fn buy_swap_charges_documented_fees_and_formula() {
    let cfg = base_config();
    let mut m = base_market();
    let e = m
        .swap(
            &cfg,
            trader(),
            market_id(),
            1_000_000_000,
            Direction::Buy,
            Curve::Yes,
            0,
            false,
            0,
            1_700_000_000,
        )
        .unwrap();
    assert_eq!(e.platform_fee_lamports, 10_000_000);
    assert_eq!(e.creator_fee_lamports, 5_000_000);
    assert_eq!(e.sol_amount, 985_000_000);
    assert_eq!(e.token_amount, 46_938_289_254_229);
    assert_eq!(e.direction, Direction::Buy);
    assert_eq!(e.token_type, Curve::Yes);
    assert_eq!(e.timestamp, 1_700_000_000);
    assert_eq!(e.user, trader());
    assert_eq!(e.market, market_id());
    assert_eq!(m.virtual_yes_sol_reserves, 20_985_000_000);
    assert_eq!(m.virtual_yes_token_reserves, 953_061_710_745_771);
    assert_eq!(m.real_yes_sol_reserves, 985_000_000);
    assert_eq!(m.real_yes_token_reserves, 953_061_710_745_771);
    assert_eq!(e.yes_virtual_reserve_lamport, 20_985_000_000);
    assert_eq!(e.yes_virtual_reserve_token, 953_061_710_745_771);
    // No shift was requested, so the other curve is untouched.
    assert_eq!(e.shift_lamports_virtual, 0);
    assert_eq!(e.shift_lamports_real, 0);
    assert_eq!(m.virtual_no_sol_reserves, 20_000_000_000);
    assert_eq!(m.real_no_sol_reserves, 0);
}

#[test]
fn buy_swap_small_fee_tier_uses_discounted_rate() {
    let cfg = base_config();
    let mut m = base_market();
    let e = m
        .swap(
            &cfg,
            trader(),
            market_id(),
            1_000_000_000,
            Direction::Buy,
            Curve::Yes,
            0,
            true,
            0,
            0,
        )
        .unwrap();
    // 30 bps instead of 100 bps.
    assert_eq!(e.platform_fee_lamports, 3_000_000);
    assert_eq!(e.creator_fee_lamports, 5_000_000);
    assert_eq!(e.sol_amount, 992_000_000);
}

#[test]
fn buy_swap_slippage_rejected_without_state_change() {
    let cfg = base_config();
    let mut m = base_market();
    let before = (
        m.virtual_yes_sol_reserves,
        m.virtual_yes_token_reserves,
        m.real_yes_sol_reserves,
        m.real_yes_token_reserves,
        m.virtual_no_sol_reserves,
        m.virtual_no_token_reserves,
        m.real_no_sol_reserves,
        m.real_no_token_reserves,
    );
    // One unit above the exact expected token amount.
    let r = m.swap(
        &cfg,
        trader(),
        market_id(),
        1_000_000_000,
        Direction::Buy,
        Curve::Yes,
        46_938_289_254_230,
        false,
        0,
        0,
    );
    assert_eq!(r, Err(TakesFunError::SlippageExceeded));
    let after = (
        m.virtual_yes_sol_reserves,
        m.virtual_yes_token_reserves,
        m.real_yes_sol_reserves,
        m.real_yes_token_reserves,
        m.virtual_no_sol_reserves,
        m.virtual_no_token_reserves,
        m.real_no_sol_reserves,
        m.real_no_token_reserves,
    );
    assert_eq!(before, after);
}

#[test]
fn buy_swap_at_exact_minimum_succeeds() {
    let cfg = base_config();
    let mut m = base_market();
    let r = m.swap(
        &cfg,
        trader(),
        market_id(),
        1_000_000_000,
        Direction::Buy,
        Curve::Yes,
        46_938_289_254_229,
        false,
        0,
        0,
    );
    assert!(r.is_ok());
}

#[test]
fn sell_swap_pays_net_of_fees() {
    let cfg = base_config();
    let mut m = base_market();
    // Fund the curve by buying first.
    m.swap(
        &cfg,
        trader(),
        market_id(),
        1_000_000_000,
        Direction::Buy,
        Curve::Yes,
        0,
        false,
        0,
        0,
    )
    .unwrap();
    let e = m
        .swap(
            &cfg,
            trader(),
            market_id(),
            1_000_000_000_000,
            Direction::Sell,
            Curve::Yes,
            21_665_502,
            false,
            0,
            0,
        )
        .unwrap();
    assert_eq!(e.sol_amount, 21_995_433);
    assert_eq!(e.token_amount, 1_000_000_000_000);
    assert_eq!(e.platform_fee_lamports, 219_954);
    assert_eq!(e.creator_fee_lamports, 109_977);
    // Net to the trader: 21_995_433 - 219_954 - 109_977 = 21_665_502,
    // exactly the minimum asked for above.
    assert_eq!(m.virtual_yes_sol_reserves, 20_963_004_567);
    assert_eq!(m.virtual_yes_token_reserves, 954_061_710_745_771);
    assert_eq!(m.real_yes_sol_reserves, 963_004_567);
    assert_eq!(m.real_yes_token_reserves, 954_061_710_745_771);
    assert_eq!(e.shift_lamports_virtual, 0);
    assert_eq!(e.shift_lamports_real, 0);
}

#[test]
fn sell_swap_slippage_rejected_without_state_change() {
    let cfg = base_config();
    let mut m = base_market();
    m.swap(
        &cfg,
        trader(),
        market_id(),
        1_000_000_000,
        Direction::Buy,
        Curve::Yes,
        0,
        false,
        0,
        0,
    )
    .unwrap();
    let before_vsol = m.virtual_yes_sol_reserves;
    let before_vtok = m.virtual_yes_token_reserves;
    let r = m.swap(
        &cfg,
        trader(),
        market_id(),
        1_000_000_000_000,
        Direction::Sell,
        Curve::Yes,
        21_665_503,
        false,
        0,
        0,
    );
    assert_eq!(r, Err(TakesFunError::SlippageExceeded));
    assert_eq!(m.virtual_yes_sol_reserves, before_vsol);
    assert_eq!(m.virtual_yes_token_reserves, before_vtok);
}

#[test]
fn swap_zero_amount_is_invalid() {
    let cfg = base_config();
    let mut m = base_market();
    let r = m.swap(
        &cfg,
        trader(),
        market_id(),
        0,
        Direction::Buy,
        Curve::Yes,
        0,
        false,
        0,
        0,
    );
    assert_eq!(r, Err(TakesFunError::InvalidAmount));
}

#[test]
fn swap_misconfigured_seeding_fails_reconciliation() {
    let mut cfg = base_config();
    cfg.initial_virtual_yes_token_reserves_config = 0;
    let mut m = base_market();
    let r = m.swap(
        &cfg,
        trader(),
        market_id(),
        1_000_000_000,
        Direction::Buy,
        Curve::Yes,
        0,
        false,
        0,
        0,
    );
    assert_eq!(r, Err(TakesFunError::InsufficientRealSolReserves));
    assert_eq!(m.virtual_yes_sol_reserves, 20_000_000_000);
}

#[test]
fn swap_unrepresentable_fee_is_arithmetic_error() {
    let mut cfg = base_config();
    cfg.platform_buy_fee = u64::MAX;
    let mut m = base_market();
    let r = m.swap(
        &cfg,
        trader(),
        market_id(),
        1_000_000_000_000,
        Direction::Buy,
        Curve::Yes,
        0,
        false,
        0,
        0,
    );
    assert_eq!(r, Err(TakesFunError::OverflowOrUnderflowOccurred));
}

#[test]
fn swap_fee_above_amount_is_arithmetic_error() {
    let mut cfg = base_config();
    // 150% platform fee: fees exceed the amount without overflowing u64.
    cfg.platform_buy_fee = 15_000;
    let mut m = base_market();
    let r = m.swap(
        &cfg,
        trader(),
        market_id(),
        1_000_000_000,
        Direction::Buy,
        Curve::Yes,
        0,
        false,
        0,
        0,
    );
    assert_eq!(r, Err(TakesFunError::OverflowOrUnderflowOccurred));
}

#[test]
fn buy_swap_draining_real_tokens_fails() {
    let cfg = base_config();
    let mut m = base_market();
    m.real_yes_token_reserves = 1_000_000;
    let r = m.swap(
        &cfg,
        trader(),
        market_id(),
        1_000_000_000,
        Direction::Buy,
        Curve::Yes,
        0,
        false,
        0,
        0,
    );
    assert_eq!(r, Err(TakesFunError::BuyFailed));
    assert_eq!(m.real_yes_token_reserves, 1_000_000);
}

#[test]
fn sell_swap_without_real_sol_fails() {
    let cfg = base_config();
    let mut m = base_market();
    // Fresh curve: no real SOL has ever entered, so a sell cannot be paid.
    let r = m.swap(
        &cfg,
        trader(),
        market_id(),
        1_000_000_000,
        Direction::Sell,
        Curve::Yes,
        0,
        false,
        0,
        0,
    );
    assert_eq!(r, Err(TakesFunError::SellFailed));
}

#[test]
fn buy_swap_shift_undefined_on_other_curve_fails() {
    let mut cfg = base_config();
    // The other (YES) curve has a zero initial seeding: the shift's
    // reconciliation is undefined there, while the traded NO curve is fine.
    cfg.initial_virtual_yes_token_reserves_config = 0;
    let mut m = base_market();
    let r = m.swap(
        &cfg,
        trader(),
        market_id(),
        1_000_000_000,
        Direction::Buy,
        Curve::No,
        0,
        false,
        0,
        0,
    );
    assert_eq!(r, Err(TakesFunError::InvalidExpectedRealSolReserves));
    assert_eq!(m.virtual_no_sol_reserves, 20_000_000_000);
    assert_eq!(m.virtual_yes_sol_reserves, 20_000_000_000);
}

#[test]
fn buy_swap_shift_clamps_to_liquidity_floor() {
    let mut cfg = base_config();
    cfg.min_sol_liquidity = 19_999_999_000;
    let mut m = base_market();
    // The host computes the shift through its floating-point factor; half
    // of the net buy amount far exceeds what the floor allows to leave.
    let cross_sol_factor: f64 = 0.5;
    let net_buy: u64 = 985_000_000;
    let shift_sol = ((net_buy as f64 / 1e9) * cross_sol_factor * 1e9) as u64;
    assert!(shift_sol > 1_000);
    let e = m
        .swap(
            &cfg,
            trader(),
            market_id(),
            1_000_000_000,
            Direction::Buy,
            Curve::Yes,
            0,
            false,
            shift_sol,
            0,
        )
        .unwrap();
    // Applied shift is the clamp: exactly down to the floor, not the
    // requested amount.
    assert_eq!(e.shift_lamports_virtual, 1_000);
    assert_eq!(m.virtual_no_sol_reserves, 19_999_999_000);
    assert_eq!(m.virtual_no_sol_reserves, cfg.min_sol_liquidity);
}

#[test]
fn buy_swap_shift_below_clamp_applies_in_full() {
    let cfg = base_config();
    let mut m = base_market();
    let e = m
        .swap(
            &cfg,
            trader(),
            market_id(),
            1_000_000_000,
            Direction::Buy,
            Curve::Yes,
            0,
            false,
            500,
            0,
        )
        .unwrap();
    assert_eq!(e.shift_lamports_virtual, 500);
    assert_eq!(m.virtual_no_sol_reserves, 20_000_000_000 - 500);
}

#[test]
fn whitelist_discount_window_governs_swap_fee() {
    let cfg = base_config();
    let t0: i64 = 1_700_000_000;
    let mut wl = Whitelist {
        creator: trader(),
        first_swap_timestamp: 0,
        is_allow: 1,
    };

    // First swap: stamped at t0 and already discounted.
    let mut m = base_market();
    let tier = wl.resolve_fee_tier(cfg.limit_timestamp, t0);
    assert!(tier);
    assert_eq!(wl.first_swap_timestamp, t0);
    let e = m
        .swap(
            &cfg,
            trader(),
            market_id(),
            1_000_000_000,
            Direction::Buy,
            Curve::Yes,
            0,
            tier,
            0,
            t0,
        )
        .unwrap();
    assert_eq!(e.platform_fee_lamports, 3_000_000);

    // At exactly the end of the window: still discounted.
    let mut m2 = base_market();
    let tier2 = wl.resolve_fee_tier(cfg.limit_timestamp, t0 + cfg.limit_timestamp);
    assert!(tier2);
    let e2 = m2
        .swap(
            &cfg,
            trader(),
            market_id(),
            1_000_000_000,
            Direction::Buy,
            Curve::Yes,
            0,
            tier2,
            0,
            t0 + cfg.limit_timestamp,
        )
        .unwrap();
    assert_eq!(e2.platform_fee_lamports, 3_000_000);

    // One second past the window: back to the standard rate.
    let mut m3 = base_market();
    let tier3 = wl.resolve_fee_tier(cfg.limit_timestamp, t0 + cfg.limit_timestamp + 1);
    assert!(!tier3);
    let e3 = m3
        .swap(
            &cfg,
            trader(),
            market_id(),
            1_000_000_000,
            Direction::Buy,
            Curve::Yes,
            0,
            tier3,
            0,
            t0 + cfg.limit_timestamp + 1,
        )
        .unwrap();
    assert_eq!(e3.platform_fee_lamports, 10_000_000);
}

#[test]
fn buy_swap_real_shift_clamps_to_liquidity_floor() {
    let cfg = base_config();
    let mut m = base_market();
    // The other (NO) curve carries real SOL well above both the
    // reconciliation target (zero for a fresh seeding) and the floor: the
    // real shift drains it, but only down to min_sol_liquidity.
    m.real_no_sol_reserves = 5_000_000_000;
    let e = m
        .swap(
            &cfg,
            trader(),
            market_id(),
            1_000_000_000,
            Direction::Buy,
            Curve::Yes,
            0,
            false,
            300,
            0,
        )
        .unwrap();
    assert_eq!(e.shift_lamports_virtual, 300);
    assert_eq!(e.shift_lamports_real, 4_000_000_000);
    assert_eq!(m.real_no_sol_reserves, cfg.min_sol_liquidity);
    assert_eq!(m.virtual_no_sol_reserves, 20_000_000_000 - 300);
}
