use takesfun::market::Market;
use takesfun::types::{Curve, Identity};

fn quote_market() -> Market {
    Market {
        yes_token_mint: Identity { id: 1 },
        no_token_mint: Identity { id: 2 },
        creator: Identity { id: 3 },
        real_yes_token_reserves: 1_000_000_000_000_000,
        real_yes_sol_reserves: 0,
        virtual_yes_sol_reserves: 20_000_000_000,
        virtual_yes_token_reserves: 1_000_000_000_000_000,
        virtual_no_sol_reserves: 20_000_000_000,
        virtual_no_token_reserves: 1_000_000_000_000_000,
        real_no_token_reserves: 1_000_000_000_000_000,
        real_no_sol_reserves: 0,
        is_completed: false,
        market_info: String::from("round"),
    }
}

#[test]
fn buy_quote_documented_formula() {
    let m = quote_market();
    // floor(vt9 - vsol*vt9/(vsol+s)) / 1000 with vt9 = 1e18, vsol = 2e10,
    // s = 985_000_000 comes to 46_938_289_254_229 tokens.
    assert_eq!(
        m.get_tokens_for_buy_sol(985_000_000, Curve::Yes),
        Some(46_938_289_254_229)
    );
}

#[test]
fn buy_quote_zero_amount_fails() {
    let m = quote_market();
    assert_eq!(m.get_tokens_for_buy_sol(0, Curve::Yes), None);
}

#[test]
fn buy_quote_overflowing_reserves_fail() {
    // vsol * (vtok * 1000) exceeds 128 bits.
    let mut m = quote_market();
    m.virtual_yes_sol_reserves = u64::MAX;
    m.virtual_yes_token_reserves = u64::MAX;
    assert_eq!(m.get_tokens_for_buy_sol(1, Curve::Yes), None);
}

#[test]
fn sell_quote_documented_formula() {
    let m = quote_market();
    // Selling 1e9 token units into the fresh curve fetches 20_000 lamports.
    assert_eq!(
        m.get_sol_for_sell_tokens(1_000_000_000, Curve::No),
        Some(20_000)
    );
}

#[test]
fn sell_quote_zero_amount_fails() {
    let m = quote_market();
    assert_eq!(m.get_sol_for_sell_tokens(0, Curve::No), None);
}

#[test]
fn buy_quote_monotone_in_sol_amount() {
    let m = quote_market();
    let q1 = m.get_tokens_for_buy_sol(1_000_000_000, Curve::Yes).unwrap();
    let q2 = m
        .get_tokens_for_buy_sol(1_000_000_001, Curve::Yes)
        .unwrap();
    assert_eq!(q1, 47_619_047_619_047);
    assert_eq!(q2, 47_619_047_664_399);
    assert!(q1 < q2);
}

#[test]
fn sell_quote_monotone_in_token_amount() {
    let m = quote_market();
    let s1 = m.get_sol_for_sell_tokens(1_000_000_000, Curve::No).unwrap();
    let s2 = m
        .get_sol_for_sell_tokens(2_000_000_000, Curve::No)
        .unwrap();
    assert!(s1 <= s2);
}

#[test]
fn round_trip_never_manufactures_sol() {
    let m = quote_market();
    let sol_in: u64 = 1_000_000_000;
    let tokens = m.get_tokens_for_buy_sol(sol_in, Curve::Yes).unwrap();
    let sol_back = m.get_sol_for_sell_tokens(tokens, Curve::Yes).unwrap();
    assert_eq!(sol_back, 909_090_910);
    assert!(sol_back <= sol_in);
}

#[test]
fn apply_buy_updates_all_four_counters() {
    let mut m = quote_market();
    let r = m.apply_buy(985_000_000, Curve::Yes).unwrap();
    assert_eq!(r.sol_amount, 985_000_000);
    assert_eq!(r.token_amount, 46_938_289_254_229);
    assert_eq!(m.virtual_yes_sol_reserves, 20_985_000_000);
    assert_eq!(m.virtual_yes_token_reserves, 953_061_710_745_771);
    assert_eq!(m.real_yes_sol_reserves, 985_000_000);
    assert_eq!(m.real_yes_token_reserves, 953_061_710_745_771);
    // The other curve is untouched.
    assert_eq!(m.virtual_no_sol_reserves, 20_000_000_000);
    assert_eq!(m.real_no_token_reserves, 1_000_000_000_000_000);
}

#[test]
fn apply_buy_rejects_draining_real_tokens() {
    let mut m = quote_market();
    m.real_yes_token_reserves = 1_000_000;
    let before_virtual = m.virtual_yes_sol_reserves;
    assert_eq!(m.apply_buy(985_000_000, Curve::Yes), None);
    assert_eq!(m.virtual_yes_sol_reserves, before_virtual);
    assert_eq!(m.real_yes_token_reserves, 1_000_000);
}

#[test]
fn apply_sell_updates_all_four_counters() {
    let mut m = quote_market();
    m.real_no_sol_reserves = 1_000_000;
    let r = m.apply_sell(1_000_000_000, Curve::No).unwrap();
    assert_eq!(r.token_amount, 1_000_000_000);
    assert_eq!(r.sol_amount, 20_000);
    assert_eq!(m.virtual_no_sol_reserves, 20_000_000_000 - 20_000);
    assert_eq!(m.virtual_no_token_reserves, 1_000_000_000_000_000 + 1_000_000_000);
    assert_eq!(m.real_no_sol_reserves, 1_000_000 - 20_000);
    assert_eq!(m.real_no_token_reserves, 1_000_000_000_000_000 + 1_000_000_000);
}

#[test]
fn apply_sell_rejects_uncovered_sol() {
    // Real SOL reserves cannot cover the quote: nothing changes.
    let mut m = quote_market();
    assert_eq!(m.real_no_sol_reserves, 0);
    assert_eq!(m.apply_sell(1_000_000_000, Curve::No), None);
    assert_eq!(m.virtual_no_sol_reserves, 20_000_000_000);
    assert_eq!(m.real_no_token_reserves, 1_000_000_000_000_000);
}

#[test]
fn real_tokens_stay_within_seed_across_trades() {
    // A buy then a full sell-back of the bought tokens: the real token
    // reserves never leave [0, seed].
    let seed: u64 = 1_000_000_000_000_000;
    let mut m = quote_market();
    let bought = m.apply_buy(985_000_000, Curve::Yes).unwrap().token_amount;
    assert!(m.real_yes_token_reserves <= seed);
    let r = m.apply_sell(bought, Curve::Yes).unwrap();
    assert!(r.sol_amount <= 985_000_000);
    assert_eq!(m.real_yes_token_reserves, seed);
    assert!(m.real_yes_token_reserves <= seed);
}
