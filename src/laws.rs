use vstd::prelude::*;

use crate::accounts::{Config, Initialize, Purge, PurgeEvent, SetPeer, SpokeError, TransferOutcome};
use crate::spoke::{
    advanced, event_of, initialize_post, purge_admits, purge_spec, set_peer_spec, settle_spec,
    transfer_of,
};

verus! {

/// A successful deposit asks the transfer primitive to move exactly `amount`
/// from the depositor's holding to the vault on the depositor's authority,
/// advances the nonce by exactly one, changes nothing else, and reports the
/// advanced nonce in its record.
pub proof fn lemma_deposit_moves_amount_and_advances_nonce(
    ctx: Purge,
    amount: u64,
    outcome: TransferOutcome,
)
    requires
        settle_spec(ctx, amount, outcome).1.is_ok(),
    ensures
        purge_spec(ctx, amount) == Ok::<_, SpokeError>(transfer_of(ctx, amount)),
        transfer_of(ctx, amount).from == ctx.user_usdc.address,
        transfer_of(ctx, amount).to == ctx.spoke_usdc_vault.address,
        transfer_of(ctx, amount).authority == ctx.user,
        transfer_of(ctx, amount).amount == amount,
        outcome == TransferOutcome::Completed,
        settle_spec(ctx, amount, outcome).0.config.nonce == ctx.config.nonce + 1,
        settle_spec(ctx, amount, outcome).0 == (Purge { config: advanced(ctx.config), ..ctx }),
        settle_spec(ctx, amount, outcome).1 == Ok::<_, SpokeError>(event_of(ctx, amount)),
        event_of(ctx, amount).nonce == settle_spec(ctx, amount, outcome).0.config.nonce,
{
}

/// No deposit succeeds unless the record, the vault and the depositor's
/// holding all carry the same asset.
pub proof fn lemma_deposit_needs_one_asset(ctx: Purge, amount: u64, outcome: TransferOutcome)
    requires
        settle_spec(ctx, amount, outcome).1.is_ok(),
    ensures
        ctx.config.usdc_mint@ == ctx.spoke_usdc_vault.mint@,
        ctx.spoke_usdc_vault.mint@ == ctx.user_usdc.mint@,
{
}

/// A routing change succeeds exactly when the caller is the administrator; a
/// refused one changes nothing and is an authorization error; an accepted one
/// leaves the nonce, the asset and the administrator as they were.
pub proof fn lemma_set_peer_admin_only(ctx: SetPeer, remote_eid: u32, remote_address: [u8; 32])
    ensures
        set_peer_spec(ctx, remote_eid, remote_address).1.is_ok() <==> ctx.admin@
            == ctx.config.admin@,
        set_peer_spec(ctx, remote_eid, remote_address).1.is_err() ==> set_peer_spec(
            ctx,
            remote_eid,
            remote_address,
        ) == (ctx, Err::<(), SpokeError>(SpokeError::AuthorizationError)),
        ({
            let after = set_peer_spec(ctx, remote_eid, remote_address).0.config;
            &&& after.nonce == ctx.config.nonce
            &&& after.usdc_mint == ctx.config.usdc_mint
            &&& after.admin == ctx.config.admin
        }),
{
}

/// Setup happens once: after a successful setup, a second one, with any
/// routing, fails with a resource error and leaves the accounts as the first
/// left them.
pub proof fn lemma_initialize_once(
    first: Initialize,
    second: Initialize,
    third: Initialize,
    r: Result<(), SpokeError>,
    eid1: u32,
    address1: [u8; 32],
    eid2: u32,
    address2: [u8; 32],
)
    requires
        initialize_post(first, second, Ok(()), eid1, address1),
        initialize_post(second, third, r, eid2, address2),
    ensures
        r == Err::<(), SpokeError>(SpokeError::ResourceError),
        third == second,
{
}

/// The accounts after a run of deposits, each with its amount and the
/// transfer primitive's answer.
pub open spec fn run_deposits(ctx: Purge, steps: Seq<(u64, TransferOutcome)>) -> Purge
    decreases steps.len(),
{
    if steps.len() == 0 {
        ctx
    } else {
        let before = run_deposits(ctx, steps.drop_last());
        settle_spec(before, steps.last().0, steps.last().1).0
    }
}

/// How many deposits of a run succeed.
pub open spec fn successful_deposits(ctx: Purge, steps: Seq<(u64, TransferOutcome)>) -> nat
    decreases steps.len(),
{
    if steps.len() == 0 {
        0
    } else {
        let before = run_deposits(ctx, steps.drop_last());
        successful_deposits(ctx, steps.drop_last()) + if settle_spec(
            before,
            steps.last().0,
            steps.last().1,
        ).1.is_ok() {
            1nat
        } else {
            0nat
        }
    }
}

/// Over any run of deposits the nonce grows by one for each success and by
/// nothing else, and nothing but the nonce changes; so from a fresh record the
/// nonce counts the successful deposits. A success reports the nonce before
/// it plus one, so no nonce repeats.
pub proof fn lemma_nonce_counts_deposits(ctx: Purge, steps: Seq<(u64, TransferOutcome)>)
    ensures
        run_deposits(ctx, steps).config.nonce == ctx.config.nonce + successful_deposits(
            ctx,
            steps,
        ),
        run_deposits(ctx, steps) == (Purge {
            config: Config {
                nonce: run_deposits(ctx, steps).config.nonce,
                ..ctx.config
            },
            ..ctx
        }),
        ctx.config.nonce == 0 ==> run_deposits(ctx, steps).config.nonce == successful_deposits(
            ctx,
            steps,
        ),
    decreases steps.len(),
{
    if steps.len() > 0 {
        lemma_nonce_counts_deposits(ctx, steps.drop_last());
    }
}

/// A deposit at the largest nonce changes nothing and fails; once the
/// accounts check out and the transfer has gone through, it fails with an
/// overflow error rather than wrapping to zero.
pub proof fn lemma_deposit_at_max_nonce_aborts(ctx: Purge, amount: u64, outcome: TransferOutcome)
    requires
        ctx.config.nonce == u64::MAX,
    ensures
        settle_spec(ctx, amount, outcome).0 == ctx,
        settle_spec(ctx, amount, outcome).1.is_err(),
        (purge_admits(ctx, amount) && outcome == TransferOutcome::Completed) ==> settle_spec(
            ctx,
            amount,
            outcome,
        ).1 == Err::<PurgeEvent, SpokeError>(SpokeError::OverflowError),
{
}

} // verus!
