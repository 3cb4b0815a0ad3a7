use vstd::prelude::*;

verus! {

/// Every way an engine operation can fail.  All failures are terminal for
/// the call in which they occur; the engine never retries and never leaves a
/// partial update behind.
#[derive(Clone, Copy, PartialEq, Eq, Structural, Debug)]
pub enum TakesFunError {
    ValueTooSmall,
    ValueTooLarge,
    ValueInvalid,
    IncorrectConfigAccount,
    IncorrectAuthority,
    InsufficientRealSolReserves,
    InvalidExpectedRealSolReserves,
    OverflowOrUnderflowOccurred,
    InvalidAmount,
    IncorrectTeamWallet,
    CurveNotCompleted,
    MarketAlreadyCompleted,
    MintAuthorityEnabled,
    FreezeAuthorityEnabled,
    ReturnAmountTooSmall,
    AmmAlreadyExists,
    NotInitialized,
    InvalidGlobalAuthority,
    NotWhiteList,
    IncorrectLaunchPhase,
    InsufficientTokens,
    InsufficientSol,
    SellFailed,
    BuyFailed,
    NotBondingCurveMint,
    NotSOL,
    InvalidMigrationAuthority,
    NotCompleted,
    InvalidMeteoraProgram,
    ArithmeticError,
    SlippageExceeded,
    BuyTokenAmountInvalid,
    IncorrectYesToken,
    IncorrectNoToken,
}

} // verus!
