//! The spoke side of a single-asset bridge: a configuration record with a
//! replay-protection nonce, a self-owned vault derived from the asset, and a
//! deposit gateway that couples the transfer, the nonce advance and the
//! deposit record.

mod accounts;
mod address;
mod derivation;
mod laws;
mod spoke;

pub use accounts::{
    Config, Initialize, Purge, PurgeEvent, SetPeer, SpokeError, TokenAccount, TransferFailure,
    TransferOutcome, TransferRequest,
};
pub use address::Address;
pub use derivation::{
    config_address, config_address_spec, config_seed, derived_view, program_address_of,
    vault_address, vault_address_spec, vault_seed,
};
pub use spoke::{
    advanced, derived_as, event_of, failure_error, initialize, initialize_admits, initialize_post,
    initialized, purge, purge_admits, purge_spec, set_peer, set_peer_spec, settle_purge, settle_spec,
    transfer_of,
};
pub use laws::{
    lemma_deposit_at_max_nonce_aborts, lemma_deposit_moves_amount_and_advances_nonce,
    lemma_deposit_needs_one_asset, lemma_initialize_once, lemma_nonce_counts_deposits,
    lemma_set_peer_admin_only, run_deposits, successful_deposits,
};
