use vstd::prelude::*;

use crate::address::Address;

verus! {

/// The configuration record: routing to the remote side and the deposit counter.
#[derive(Clone, Copy, Debug, PartialEq, Eq)]
pub struct Config {
    pub admin: Address,
    pub usdc_mint: Address,
    pub nonce: u64,
    pub remote_eid: u32,
    pub remote_address: [u8; 32],
    pub bump: u8,
}

/// What the program reads of an asset holding account.
#[derive(Clone, Copy, Debug, PartialEq, Eq)]
pub struct TokenAccount {
    pub address: Address,
    pub mint: Address,
    pub owner: Address,
}

/// The record handed to relayers for each deposit.
#[derive(Clone, Copy, Debug, PartialEq, Eq)]
pub struct PurgeEvent {
    pub user: Address,
    pub token_mint: Address,
    pub amount: u64,
    pub nonce: u64,
    pub dst_eid: u32,
    pub dst_address: [u8; 32],
}

/// A move of `amount` of the asset that the transfer primitive is asked to make,
/// authorized by `authority`.
#[derive(Clone, Copy, Debug, PartialEq, Eq)]
pub struct TransferRequest {
    pub from: Address,
    pub to: Address,
    pub authority: Address,
    pub amount: u64,
}

/// Why the transfer primitive refused a move.
#[derive(Clone, Copy, Debug, PartialEq, Eq)]
pub enum TransferFailure {
    InsufficientFunds,
    MintMismatch,
    OwnerMismatch,
    AccountFrozen,
    Other,
}

/// What the transfer primitive reported for a request.
#[derive(Clone, Copy, Debug, PartialEq, Eq)]
pub enum TransferOutcome {
    Completed,
    Failed(TransferFailure),
}

#[derive(Clone, Copy, Debug, PartialEq, Eq)]
pub enum SpokeError {
    /// The asset does not match, an account is not the derived one, or the input is malformed.
    ValidationError,
    /// The caller is not the administrator.
    AuthorizationError,
    /// A record already exists, or the funds could not be moved.
    ResourceError,
    /// The nonce is at its largest value.
    OverflowError,
}

/// The accounts of a setup: the records at the configuration and vault
/// addresses are `None` until created.
#[derive(Clone, Copy, Debug, PartialEq, Eq)]
pub struct Initialize {
    pub program_id: Address,
    pub admin: Address,
    pub usdc_mint: Address,
    pub config: Option<Config>,
    pub spoke_usdc_vault: Option<TokenAccount>,
}

/// The accounts of a routing change: the signing caller and the record.
#[derive(Clone, Copy, Debug, PartialEq, Eq)]
pub struct SetPeer {
    pub admin: Address,
    pub config: Config,
}

/// The accounts of a deposit: the signing depositor and its holding, the
/// asset, the record and the vault that the depositor names.
#[derive(Clone, Copy, Debug, PartialEq, Eq)]
pub struct Purge {
    pub program_id: Address,
    pub user: Address,
    pub user_usdc: TokenAccount,
    pub usdc_mint: Address,
    pub config: Config,
    pub spoke_usdc_vault: TokenAccount,
}

} // verus!
