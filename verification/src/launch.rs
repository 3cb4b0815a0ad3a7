use vstd::prelude::*;

use crate::config::Config;
use crate::errors::TakesFunError;
use crate::events::LaunchEvent;
use crate::market::Market;
use crate::types::Identity;

verus! {

/// Lamports a creator vault keeps back when its fees are claimed, so the
/// vault account stays funded.
pub const CREATOR_VAULT_RESERVE: u64 = 1_000_000;

/// Lamports a creator may claim from a vault holding `vault_balance`:
/// everything above the reserve the vault keeps.  `None` when the balance
/// does not cover the reserve.
pub fn creator_claim_amount(vault_balance: u64) -> (r: Option<u64>)
    ensures
        vault_balance >= CREATOR_VAULT_RESERVE ==> r == Some(
            (vault_balance - CREATOR_VAULT_RESERVE) as u64,
        ),
        vault_balance < CREATOR_VAULT_RESERVE ==> r is None,
{
    if vault_balance >= CREATOR_VAULT_RESERVE {
        Some(vault_balance - CREATOR_VAULT_RESERVE)
    } else {
        None
    }
}

/// Seeds a new market from the configured initial reserves.  Real SOL
/// starts at zero on both curves; real and virtual tokens start at their
/// configured seeds.  Returns the market record and the launch snapshot the
/// host emits.  The `creator` is the identity that signed the creation.
pub fn create_market(
    global_config: &Config,
    creator: Identity,
    yes_mint: Identity,
    no_mint: Identity,
    market_id: Identity,
    yes_metadata: Identity,
    no_metadata: Identity,
    market_info: String,
) -> (r: (Market, LaunchEvent))
    ensures
        r.0 == (Market {
            yes_token_mint: yes_mint,
            no_token_mint: no_mint,
            creator,
            real_yes_token_reserves: global_config.initial_real_yes_token_reserves_config,
            real_yes_sol_reserves: 0,
            virtual_yes_sol_reserves: global_config.initial_virtual_yes_sol_reserves_config,
            virtual_yes_token_reserves: global_config.initial_virtual_yes_token_reserves_config,
            virtual_no_sol_reserves: global_config.initial_virtual_no_sol_reserves_config,
            virtual_no_token_reserves: global_config.initial_virtual_no_token_reserves_config,
            real_no_token_reserves: global_config.initial_real_no_token_reserves_config,
            real_no_sol_reserves: 0,
            is_completed: false,
            market_info: market_info,
        }),
        r.1 == launch_snapshot(r.0, creator, market_id, yes_metadata, no_metadata, *global_config, 0),
{
    build_market_with_snapshot(
        global_config,
        creator,
        yes_mint,
        no_mint,
        market_id,
        yes_metadata,
        no_metadata,
        market_info,
        0,
    )
}

/// Variant creation path: the creator is named by the caller rather than
/// being the signing identity, and the snapshot is tagged as the second
/// market type.
pub fn create_market_second(
    global_config: &Config,
    creator_wallet: Identity,
    yes_mint: Identity,
    no_mint: Identity,
    market_id: Identity,
    yes_metadata: Identity,
    no_metadata: Identity,
    market_info: String,
) -> (r: (Market, LaunchEvent))
    ensures
        r.0 == (Market {
            yes_token_mint: yes_mint,
            no_token_mint: no_mint,
            creator: creator_wallet,
            real_yes_token_reserves: global_config.initial_real_yes_token_reserves_config,
            real_yes_sol_reserves: 0,
            virtual_yes_sol_reserves: global_config.initial_virtual_yes_sol_reserves_config,
            virtual_yes_token_reserves: global_config.initial_virtual_yes_token_reserves_config,
            virtual_no_sol_reserves: global_config.initial_virtual_no_sol_reserves_config,
            virtual_no_token_reserves: global_config.initial_virtual_no_token_reserves_config,
            real_no_token_reserves: global_config.initial_real_no_token_reserves_config,
            real_no_sol_reserves: 0,
            is_completed: false,
            market_info: market_info,
        }),
        r.1 == launch_snapshot(
            r.0,
            creator_wallet,
            market_id,
            yes_metadata,
            no_metadata,
            *global_config,
            1,
        ),
{
    build_market_with_snapshot(
        global_config,
        creator_wallet,
        yes_mint,
        no_mint,
        market_id,
        yes_metadata,
        no_metadata,
        market_info,
        1,
    )
}

/// The launch snapshot of a freshly seeded market.
pub open spec fn launch_snapshot(
    market: Market,
    creator: Identity,
    market_id: Identity,
    yes_metadata: Identity,
    no_metadata: Identity,
    global_config: Config,
    market_type: u8,
) -> LaunchEvent {
    LaunchEvent {
        creator,
        market: market_id,
        yes_mint: market.yes_token_mint,
        yes_metadata,
        yes_real_reserve_lamport: market.real_yes_sol_reserves,
        yes_real_reserve_token: market.real_yes_token_reserves,
        yes_virtual_reserve_lamport: market.virtual_yes_sol_reserves,
        yes_virtual_reserve_token: market.virtual_yes_token_reserves,
        no_mint: market.no_token_mint,
        no_metadata,
        no_real_reserve_lamport: market.real_no_sol_reserves,
        no_real_reserve_token: market.real_no_token_reserves,
        no_virtual_reserve_lamport: market.virtual_no_sol_reserves,
        no_virtual_reserve_token: market.virtual_no_token_reserves,
        market_info: market.market_info,
        token_supply: global_config.token_supply_config,
        decimals: global_config.token_decimals_config,
        market_type,
    }
}

fn build_market_with_snapshot(
    global_config: &Config,
    creator: Identity,
    yes_mint: Identity,
    no_mint: Identity,
    market_id: Identity,
    yes_metadata: Identity,
    no_metadata: Identity,
    market_info: String,
    market_type: u8,
) -> (r: (Market, LaunchEvent))
    ensures
        r.0 == (Market {
            yes_token_mint: yes_mint,
            no_token_mint: no_mint,
            creator,
            real_yes_token_reserves: global_config.initial_real_yes_token_reserves_config,
            real_yes_sol_reserves: 0,
            virtual_yes_sol_reserves: global_config.initial_virtual_yes_sol_reserves_config,
            virtual_yes_token_reserves: global_config.initial_virtual_yes_token_reserves_config,
            virtual_no_sol_reserves: global_config.initial_virtual_no_sol_reserves_config,
            virtual_no_token_reserves: global_config.initial_virtual_no_token_reserves_config,
            real_no_token_reserves: global_config.initial_real_no_token_reserves_config,
            real_no_sol_reserves: 0,
            is_completed: false,
            market_info: market_info,
        }),
        r.1 == launch_snapshot(
            r.0,
            creator,
            market_id,
            yes_metadata,
            no_metadata,
            *global_config,
            market_type,
        ),
{
    let info_copy = market_info.clone();
    let market = Market {
        yes_token_mint: yes_mint,
        no_token_mint: no_mint,
        creator,
        real_yes_token_reserves: global_config.initial_real_yes_token_reserves_config,
        real_yes_sol_reserves: 0,
        virtual_yes_sol_reserves: global_config.initial_virtual_yes_sol_reserves_config,
        virtual_yes_token_reserves: global_config.initial_virtual_yes_token_reserves_config,
        virtual_no_sol_reserves: global_config.initial_virtual_no_sol_reserves_config,
        virtual_no_token_reserves: global_config.initial_virtual_no_token_reserves_config,
        real_no_token_reserves: global_config.initial_real_no_token_reserves_config,
        real_no_sol_reserves: 0,
        is_completed: false,
        market_info,
    };
    let event = LaunchEvent {
        creator,
        market: market_id,
        yes_mint,
        yes_metadata,
        yes_real_reserve_lamport: market.real_yes_sol_reserves,
        yes_real_reserve_token: market.real_yes_token_reserves,
        yes_virtual_reserve_lamport: market.virtual_yes_sol_reserves,
        yes_virtual_reserve_token: market.virtual_yes_token_reserves,
        no_mint,
        no_metadata,
        no_real_reserve_lamport: market.real_no_sol_reserves,
        no_real_reserve_token: market.real_no_token_reserves,
        no_virtual_reserve_lamport: market.virtual_no_sol_reserves,
        no_virtual_reserve_token: market.virtual_no_token_reserves,
        market_info: info_copy,
        token_supply: global_config.token_supply_config,
        decimals: global_config.token_decimals_config,
        market_type,
    };
    (market, event)
}

/// Reassigns the creator entitled to a market's creator fees.  Gated on the
/// backend signing authority, as market-creator changes are an
/// administrative operation.
pub fn change_creator(
    market: &mut Market,
    global_config: &Config,
    signer: Identity,
    new_creator: Identity,
) -> (r: Result<(), TakesFunError>)
    ensures
        signer != global_config.backend_sign_authority ==> r == Err::<(), TakesFunError>(
            TakesFunError::IncorrectAuthority,
        ) && *final(market) == *old(market),
        signer == global_config.backend_sign_authority ==> r == Ok::<(), TakesFunError>(())
            && *final(market) == (Market { creator: new_creator, ..*old(market) }),
{
    if signer != global_config.backend_sign_authority {
        return Err(TakesFunError::IncorrectAuthority);
    }
    market.creator = new_creator;
    Ok(())
}

} // verus!
