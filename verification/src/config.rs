use vstd::prelude::*;

use crate::errors::TakesFunError;
use crate::types::{Curve, Identity};

verus! {

/// Process-wide configuration: authority identities, fee schedules in basis
/// points, curve seeding values, the whitelist discount window and the
/// minimum-liquidity floor.  Written once at initialization, updated only by
/// the authority, read-only during swaps.
///
/// The host also keeps a cross-curve factor: the fraction of each buy's SOL
/// amount to migrate toward the other curve.  The host applies that factor
/// through its own floating-point step and hands the resulting lamport
/// amount to [`crate::market::Market::swap`]; the engine itself holds no
/// fractional value.
#[derive(Clone, Copy, PartialEq, Eq, Structural, Debug)]
pub struct Config {
    pub authority: Identity,
    /// Used for the two-step ownership transfer.
    pub pending_authority: Identity,
    pub backend_sign_authority: Identity,
    pub team_wallet: Identity,
    pub team_wallet2: Identity,
    /// Platform fee on buys, in basis points.
    pub platform_buy_fee: u64,
    /// Platform fee on sells, in basis points.
    pub platform_sell_fee: u64,
    /// Discounted platform fee on buys for whitelisted identities.
    pub platform_buy_small_fee: u64,
    /// Discounted platform fee on sells for whitelisted identities.
    pub platform_sell_small_fee: u64,
    pub creator_buy_fee: u64,
    pub creator_sell_fee: u64,
    pub token_supply_config: u64,
    pub token_decimals_config: u8,
    pub initial_virtual_yes_token_reserves_config: u64,
    pub initial_virtual_yes_sol_reserves_config: u64,
    pub initial_real_yes_token_reserves_config: u64,
    pub initial_virtual_no_token_reserves_config: u64,
    pub initial_virtual_no_sol_reserves_config: u64,
    pub initial_real_no_token_reserves_config: u64,
    /// Length of the whitelist discount window, in seconds.
    pub limit_timestamp: i64,
    /// Floor below which no shift may drag a curve's SOL reserves.
    pub min_sol_liquidity: u64,
    pub initialized: bool,
}

impl Config {
    /// The configured initial virtual token seeding of `curve`.
    pub open spec fn spec_initial_virtual_token(self, curve: Curve) -> u64 {
        match curve {
            Curve::Yes => self.initial_virtual_yes_token_reserves_config,
            Curve::No => self.initial_virtual_no_token_reserves_config,
        }
    }

    /// The configured initial virtual SOL seeding of `curve`.
    pub open spec fn spec_initial_virtual_sol(self, curve: Curve) -> u64 {
        match curve {
            Curve::Yes => self.initial_virtual_yes_sol_reserves_config,
            Curve::No => self.initial_virtual_no_sol_reserves_config,
        }
    }

    /// The configured initial real token seeding of `curve`.
    pub open spec fn spec_initial_real_token(self, curve: Curve) -> u64 {
        match curve {
            Curve::Yes => self.initial_real_yes_token_reserves_config,
            Curve::No => self.initial_real_no_token_reserves_config,
        }
    }

    /// The platform fee rate charged on a buy, by fee tier.
    pub open spec fn spec_platform_buy_rate(self, is_small_fee: bool) -> u64 {
        if is_small_fee {
            self.platform_buy_small_fee
        } else {
            self.platform_buy_fee
        }
    }

    /// The platform fee rate charged on a sell, by fee tier.
    pub open spec fn spec_platform_sell_rate(self, is_small_fee: bool) -> u64 {
        if is_small_fee {
            self.platform_sell_small_fee
        } else {
            self.platform_sell_fee
        }
    }

    /// Executable counterpart of [`Config::spec_initial_virtual_token`].
    pub fn initial_virtual_token(&self, curve: Curve) -> (r: u64)
        ensures
            r == self.spec_initial_virtual_token(curve),
    {
        match curve {
            Curve::Yes => self.initial_virtual_yes_token_reserves_config,
            Curve::No => self.initial_virtual_no_token_reserves_config,
        }
    }

    /// Executable counterpart of [`Config::spec_initial_virtual_sol`].
    pub fn initial_virtual_sol(&self, curve: Curve) -> (r: u64)
        ensures
            r == self.spec_initial_virtual_sol(curve),
    {
        match curve {
            Curve::Yes => self.initial_virtual_yes_sol_reserves_config,
            Curve::No => self.initial_virtual_no_sol_reserves_config,
        }
    }

    /// Executable counterpart of [`Config::spec_initial_real_token`].
    pub fn initial_real_token(&self, curve: Curve) -> (r: u64)
        ensures
            r == self.spec_initial_real_token(curve),
    {
        match curve {
            Curve::Yes => self.initial_real_yes_token_reserves_config,
            Curve::No => self.initial_real_no_token_reserves_config,
        }
    }
}

/// Writes the whole configuration.  A deployment that is already initialized
/// may only be reconfigured by its current authority; the first write is
/// open (the host decides who performs deployment) and marks the record
/// initialized.
pub fn configure(config: &mut Config, new_config: Config, signer: Identity) -> (r: Result<
    (),
    TakesFunError,
>)
    ensures
        old(config).initialized && signer != old(config).authority ==> r == Err::<
            (),
            TakesFunError,
        >(TakesFunError::IncorrectAuthority) && *final(config) == *old(config),
        !(old(config).initialized && signer != old(config).authority) ==> r == Ok::<
            (),
            TakesFunError,
        >(()) && *final(config) == (Config { initialized: true, ..new_config }),
{
    if config.initialized && signer != config.authority {
        return Err(TakesFunError::IncorrectAuthority);
    }
    *config = new_config;
    config.initialized = true;
    Ok(())
}

/// First half of the two-step authority hand-off: the current authority
/// nominates a successor.
pub fn nominate_authority(config: &mut Config, signer: Identity, new_admin: Identity) -> (r: Result<
    (),
    TakesFunError,
>)
    ensures
        signer != old(config).authority ==> r == Err::<(), TakesFunError>(
            TakesFunError::IncorrectAuthority,
        ) && *final(config) == *old(config),
        signer == old(config).authority ==> r == Ok::<(), TakesFunError>(()) && *final(config)
            == (Config { pending_authority: new_admin, ..*old(config) }),
{
    if signer != config.authority {
        return Err(TakesFunError::IncorrectAuthority);
    }
    config.pending_authority = new_admin;
    Ok(())
}

/// Second half of the hand-off: the nominated identity accepts the role.
pub fn accept_authority(config: &mut Config, signer: Identity) -> (r: Result<(), TakesFunError>)
    ensures
        signer != old(config).pending_authority ==> r == Err::<(), TakesFunError>(
            TakesFunError::IncorrectAuthority,
        ) && *final(config) == *old(config),
        signer == old(config).pending_authority ==> r == Ok::<(), TakesFunError>(())
            && *final(config) == (Config { authority: signer, ..*old(config) }),
{
    if signer != config.pending_authority {
        return Err(TakesFunError::IncorrectAuthority);
    }
    config.authority = signer;
    Ok(())
}

/// A configured constraint on an amount: either an inclusive range or an
/// explicit list of allowed values.
#[derive(Clone, PartialEq, Eq, Debug)]
pub enum AmountConfig {
    Range { min: Option<u64>, max: Option<u64> },
    Enum(Vec<u64>),
}

impl AmountConfig {
    /// Whether `value` satisfies the constraint.
    pub open spec fn spec_valid(self, value: u64) -> bool {
        match self {
            AmountConfig::Range { min, max } => (match min {
                Some(m) => value >= m,
                None => true,
            }) && (match max {
                Some(m) => value <= m,
                None => true,
            }),
            AmountConfig::Enum(options) => options@.contains(value),
        }
    }

    /// Whether the constraint is a range with a lower bound that `value`
    /// falls short of.
    pub open spec fn spec_below_min(self, value: u64) -> bool {
        match self {
            AmountConfig::Range { min: Some(m), .. } => value < m,
            _ => false,
        }
    }

    /// Whether the constraint is a range with an upper bound that `value`
    /// exceeds.
    pub open spec fn spec_above_max(self, value: u64) -> bool {
        match self {
            AmountConfig::Range { max: Some(m), .. } => value > m,
            _ => false,
        }
    }

    /// Checks `value` against the constraint, telling apart a value below
    /// the range, above the range, and absent from the allowed list.
    pub fn validate(&self, value: u64) -> (r: Result<(), TakesFunError>)
        ensures
            r is Ok <==> self.spec_valid(value),
            self.spec_below_min(value) ==> r == Err::<(), TakesFunError>(
                TakesFunError::ValueTooSmall,
            ),
            !self.spec_below_min(value) && self.spec_above_max(value) ==> r == Err::<
                (),
                TakesFunError,
            >(TakesFunError::ValueTooLarge),
            self matches AmountConfig::Enum(options) && !options@.contains(value) ==> r == Err::<
                (),
                TakesFunError,
            >(TakesFunError::ValueInvalid),
    {
        match self {
            AmountConfig::Range { min, max } => {
                if let Some(m) = min {
                    if value < *m {
                        return Err(TakesFunError::ValueTooSmall);
                    }
                }
                if let Some(m) = max {
                    if value > *m {
                        return Err(TakesFunError::ValueTooLarge);
                    }
                }
                Ok(())
            },
            AmountConfig::Enum(options) => {
                let n = options.len();
                let mut i: usize = 0;
                while i < n
                    invariant
                        self is Enum,
                        self->Enum_0 == *options,
                        n == options@.len(),
                        0 <= i <= n,
                        forall|j: int| 0 <= j < i ==> options@[j] != value,
                    decreases n - i,
                {
                    if options[i] == value {
                        proof {
                            assert(options@[i as int] == value);
                            assert(options@.contains(value));
                        }
                        return Ok(());
                    }
                    i += 1;
                }
                Err(TakesFunError::ValueInvalid)
            },
        }
    }
}

} // verus!
