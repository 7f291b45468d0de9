use vstd::prelude::*;

use crate::accounts::{
    Config, Initialize, Purge, PurgeEvent, SetPeer, SpokeError, TokenAccount, TransferFailure,
    TransferOutcome, TransferRequest,
};
use crate::derivation::{config_address, config_address_spec, vault_address, vault_address_spec};

verus! {

/// `d` is a derivation that gives the address `a`.
pub open spec fn derived_as(d: Option<(Seq<u8>, u8)>, a: Seq<u8>) -> bool {
    match d {
        Some((x, _)) => x == a,
        None => false,
    }
}

/// The setup may create its records: none exists yet and both addresses derive.
pub open spec fn initialize_admits(ctx: Initialize) -> bool {
    ctx.config.is_none() && ctx.spoke_usdc_vault.is_none() && config_address_spec(
        ctx.program_id@,
    ).is_some() && vault_address_spec(ctx.program_id@, ctx.usdc_mint@).is_some()
}

/// `after` holds the records that a setup of `before` creates: a record with a
/// zero nonce and the routing given, and a vault at the derived address that
/// holds the asset and is its own authority.
pub open spec fn initialized(
    before: Initialize,
    after: Initialize,
    remote_eid: u32,
    remote_address: [u8; 32],
) -> bool {
    match (
        config_address_spec(before.program_id@),
        vault_address_spec(before.program_id@, before.usdc_mint@),
    ) {
        (Some((_, bump)), Some((v, _))) => {
            &&& after.program_id == before.program_id
            &&& after.admin == before.admin
            &&& after.usdc_mint == before.usdc_mint
            &&& after.config == Some(
                (Config {
                    admin: before.admin,
                    usdc_mint: before.usdc_mint,
                    nonce: 0,
                    remote_eid,
                    remote_address,
                    bump,
                }),
            )
            &&& match after.spoke_usdc_vault {
                Some(t) => t.address@ == v && t.owner@ == v && t.mint == before.usdc_mint,
                None => false,
            }
        },
        _ => false,
    }
}

/// Everything a setup call of `before` may end in, with result `r`.
pub open spec fn initialize_post(
    before: Initialize,
    after: Initialize,
    r: Result<(), SpokeError>,
    remote_eid: u32,
    remote_address: [u8; 32],
) -> bool {
    &&& (before.config.is_some() || before.spoke_usdc_vault.is_some()) ==> r == Err::<
        (),
        SpokeError,
    >(SpokeError::ResourceError)
    &&& r.is_ok() <==> initialize_admits(before)
    &&& (r.is_err() && before.config.is_none() && before.spoke_usdc_vault.is_none()) ==> r
        == Err::<(), SpokeError>(SpokeError::ValidationError)
    &&& r.is_ok() ==> initialized(before, after, remote_eid, remote_address)
    &&& r.is_err() ==> after == before
}

/// Creates the configuration record and the vault, once.
pub fn initialize(ctx: &mut Initialize, remote_eid: u32, remote_address: [u8; 32]) -> (r: Result<
    (),
    SpokeError,
>)
    ensures
        initialize_post(*old(ctx), *final(ctx), r, remote_eid, remote_address),
{
    if ctx.config.is_some() || ctx.spoke_usdc_vault.is_some() {
        return Err(SpokeError::ResourceError);
    }
    let c = config_address(&ctx.program_id);
    let v = vault_address(&ctx.program_id, &ctx.usdc_mint);
    match (c, v) {
        (Some((_, bump)), Some((vault, _))) => {
            ctx.config = Some(
                Config {
                    admin: ctx.admin,
                    usdc_mint: ctx.usdc_mint,
                    nonce: 0,
                    remote_eid,
                    remote_address,
                    bump,
                },
            );
            ctx.spoke_usdc_vault = Some(
                TokenAccount { address: vault, mint: ctx.usdc_mint, owner: vault },
            );
            Ok(())
        },
        _ => Err(SpokeError::ValidationError),
    }
}

/// A routing change: only the administrator may make it, and it touches the
/// routing fields alone.
pub open spec fn set_peer_spec(ctx: SetPeer, remote_eid: u32, remote_address: [u8; 32]) -> (
    SetPeer,
    Result<(), SpokeError>,
) {
    if ctx.admin@ == ctx.config.admin@ {
        (
            SetPeer { config: Config { remote_eid, remote_address, ..ctx.config }, ..ctx },
            Ok(()),
        )
    } else {
        (ctx, Err(SpokeError::AuthorizationError))
    }
}

pub fn set_peer(ctx: &mut SetPeer, remote_eid: u32, remote_address: [u8; 32]) -> (r: Result<
    (),
    SpokeError,
>)
    ensures
        (*final(ctx), r) == set_peer_spec(*old(ctx), remote_eid, remote_address),
{
    if !ctx.admin.same(&ctx.config.admin) {
        return Err(SpokeError::AuthorizationError);
    }
    ctx.config.remote_eid = remote_eid;
    ctx.config.remote_address = remote_address;
    Ok(())
}

/// A deposit may go ahead: the record, the vault and the depositor's holding
/// all carry the named asset, the vault is the one derived from that asset, and
/// the amount is not zero.
pub open spec fn purge_admits(ctx: Purge, amount: u64) -> bool {
    &&& ctx.config.usdc_mint@ == ctx.usdc_mint@
    &&& derived_as(vault_address_spec(ctx.program_id@, ctx.usdc_mint@), ctx.spoke_usdc_vault.address@)
    &&& ctx.spoke_usdc_vault.mint@ == ctx.usdc_mint@
    &&& ctx.user_usdc.mint@ == ctx.usdc_mint@
    &&& amount > 0
}

/// The move a deposit asks for: from the depositor's holding to the vault,
/// authorized by the depositor.
pub open spec fn transfer_of(ctx: Purge, amount: u64) -> TransferRequest {
    TransferRequest {
        from: ctx.user_usdc.address,
        to: ctx.spoke_usdc_vault.address,
        authority: ctx.user,
        amount,
    }
}

pub open spec fn purge_spec(ctx: Purge, amount: u64) -> Result<TransferRequest, SpokeError> {
    if purge_admits(ctx, amount) {
        Ok(transfer_of(ctx, amount))
    } else {
        Err(SpokeError::ValidationError)
    }
}

/// The error a refused transfer becomes.
pub open spec fn failure_error(f: TransferFailure) -> SpokeError {
    match f {
        TransferFailure::MintMismatch => SpokeError::ValidationError,
        TransferFailure::OwnerMismatch => SpokeError::AuthorizationError,
        _ => SpokeError::ResourceError,
    }
}

/// The record after one more deposit.
pub open spec fn advanced(config: Config) -> Config {
    Config { nonce: (config.nonce + 1) as u64, ..config }
}

/// The deposit record: depositor, asset, amount, the advanced nonce and the
/// current destination.
pub open spec fn event_of(ctx: Purge, amount: u64) -> PurgeEvent {
    PurgeEvent {
        user: ctx.user,
        token_mint: ctx.usdc_mint,
        amount,
        nonce: (ctx.config.nonce + 1) as u64,
        dst_eid: ctx.config.remote_eid,
        dst_address: ctx.config.remote_address,
    }
}

/// A deposit once the transfer primitive has answered: validation first, then
/// the transfer's outcome, then the nonce; any failure leaves every account as
/// it was.
pub open spec fn settle_spec(ctx: Purge, amount: u64, outcome: TransferOutcome) -> (
    Purge,
    Result<PurgeEvent, SpokeError>,
) {
    if !purge_admits(ctx, amount) {
        (ctx, Err(SpokeError::ValidationError))
    } else {
        match outcome {
            TransferOutcome::Failed(f) => (ctx, Err(failure_error(f))),
            TransferOutcome::Completed => if ctx.config.nonce == u64::MAX {
                (ctx, Err(SpokeError::OverflowError))
            } else {
                (Purge { config: advanced(ctx.config), ..ctx }, Ok(event_of(ctx, amount)))
            },
        }
    }
}

fn admits(ctx: &Purge, amount: u64) -> (r: bool)
    ensures
        r == purge_admits(*ctx, amount),
{
    if !ctx.config.usdc_mint.same(&ctx.usdc_mint) {
        return false;
    }
    let vault_ok = match vault_address(&ctx.program_id, &ctx.usdc_mint) {
        Some((v, _)) => v.same(&ctx.spoke_usdc_vault.address),
        None => false,
    };
    vault_ok && ctx.spoke_usdc_vault.mint.same(&ctx.usdc_mint) && ctx.user_usdc.mint.same(
        &ctx.usdc_mint,
    ) && amount > 0
}

/// The first half of a deposit: checks the accounts and says which transfer
/// the primitive must make. Nothing changes until `settle_purge`.
pub fn purge(ctx: &Purge, amount: u64) -> (r: Result<TransferRequest, SpokeError>)
    ensures
        r == purge_spec(*ctx, amount),
{
    if admits(ctx, amount) {
        Ok(
            TransferRequest {
                from: ctx.user_usdc.address,
                to: ctx.spoke_usdc_vault.address,
                authority: ctx.user,
                amount,
            },
        )
    } else {
        Err(SpokeError::ValidationError)
    }
}

/// The second half of a deposit, given what the transfer primitive reported
/// for the request of `purge`: advances the nonce by one and returns the
/// deposit record, or fails with no change.
pub fn settle_purge(ctx: &mut Purge, amount: u64, outcome: TransferOutcome) -> (r: Result<
    PurgeEvent,
    SpokeError,
>)
    ensures
        (*final(ctx), r) == settle_spec(*old(ctx), amount, outcome),
{
    if !admits(ctx, amount) {
        return Err(SpokeError::ValidationError);
    }
    match outcome {
        TransferOutcome::Failed(f) => {
            let e = match f {
                TransferFailure::MintMismatch => SpokeError::ValidationError,
                TransferFailure::OwnerMismatch => SpokeError::AuthorizationError,
                _ => SpokeError::ResourceError,
            };
            Err(e)
        },
        TransferOutcome::Completed => {
            if ctx.config.nonce == u64::MAX {
                return Err(SpokeError::OverflowError);
            }
            ctx.config.nonce = ctx.config.nonce + 1;
            Ok(
                PurgeEvent {
                    user: ctx.user,
                    token_mint: ctx.usdc_mint,
                    amount,
                    nonce: ctx.config.nonce,
                    dst_eid: ctx.config.remote_eid,
                    dst_address: ctx.config.remote_address,
                },
            )
        },
    }
}

} // verus!
