use purge_spoke::{
    config_address, initialize, purge, set_peer, settle_purge, vault_address, Address, Config,
    Initialize, Purge, PurgeEvent, SetPeer, SpokeError, TokenAccount, TransferFailure,
    TransferOutcome, TransferRequest,
};

const PROGRAM: [u8; 32] = [7u8; 32];
const ADMIN: [u8; 32] = [1u8; 32];
const OTHER: [u8; 32] = [2u8; 32];
const USDC: [u8; 32] = [3u8; 32];
const DEPOSITOR: [u8; 32] = [4u8; 32];
const HOLDING: [u8; 32] = [5u8; 32];
const REMOTE: [u8; 32] = [9u8; 32];

fn setup() -> Initialize {
    let mut ctx = Initialize {
        program_id: Address::new(PROGRAM),
        admin: Address::new(ADMIN),
        usdc_mint: Address::new(USDC),
        config: None,
        spoke_usdc_vault: None,
    };
    assert_eq!(initialize(&mut ctx, 30184, REMOTE), Ok(()));
    ctx
}

fn deposit_accounts(init: &Initialize) -> Purge {
    Purge {
        program_id: init.program_id,
        user: Address::new(DEPOSITOR),
        user_usdc: TokenAccount {
            address: Address::new(HOLDING),
            mint: Address::new(USDC),
            owner: Address::new(DEPOSITOR),
        },
        usdc_mint: Address::new(USDC),
        config: init.config.unwrap(),
        spoke_usdc_vault: init.spoke_usdc_vault.unwrap(),
    }
}

/// A token ledger standing in for the transfer primitive.
struct Ledger {
    depositor: u64,
    vault: u64,
}

impl Ledger {
    fn transfer(&mut self, req: &TransferRequest) -> TransferOutcome {
        if req.amount > self.depositor {
            return TransferOutcome::Failed(TransferFailure::InsufficientFunds);
        }
        self.depositor -= req.amount;
        self.vault += req.amount;
        TransferOutcome::Completed
    }
}

fn deposit(ctx: &mut Purge, ledger: &mut Ledger, amount: u64) -> Result<PurgeEvent, SpokeError> {
    let req = purge(ctx, amount)?;
    let outcome = ledger.transfer(&req);
    settle_purge(ctx, amount, outcome)
}

#[test]
fn initialize_sets_zero_nonce_and_routing() {
    let ctx = setup();
    let config = ctx.config.unwrap();
    assert_eq!(config.nonce, 0);
    assert_eq!(config.admin, Address::new(ADMIN));
    assert_eq!(config.usdc_mint, Address::new(USDC));
    assert_eq!(config.remote_eid, 30184);
    assert_eq!(config.remote_address, REMOTE);
    let (_, bump) = config_address(&Address::new(PROGRAM)).unwrap();
    assert_eq!(config.bump, bump);
    let vault = ctx.spoke_usdc_vault.unwrap();
    let (derived, _) = vault_address(&Address::new(PROGRAM), &Address::new(USDC)).unwrap();
    assert_eq!(vault.address, derived);
    assert_eq!(vault.owner, derived);
    assert_eq!(vault.mint, Address::new(USDC));
}

#[test]
fn scenario_two_deposits() {
    let init = setup();
    let mut ctx = deposit_accounts(&init);
    let mut ledger = Ledger { depositor: 1000, vault: 0 };
    let event = deposit(&mut ctx, &mut ledger, 100).unwrap();
    assert_eq!(ledger.vault, 100);
    assert_eq!(ledger.depositor, 900);
    assert_eq!(ctx.config.nonce, 1);
    assert_eq!(
        event,
        PurgeEvent {
            user: Address::new(DEPOSITOR),
            token_mint: Address::new(USDC),
            amount: 100,
            nonce: 1,
            dst_eid: 30184,
            dst_address: REMOTE,
        }
    );
    let event = deposit(&mut ctx, &mut ledger, 50).unwrap();
    assert_eq!(ledger.vault, 150);
    assert_eq!(ledger.depositor, 850);
    assert_eq!(ctx.config.nonce, 2);
    assert_eq!(event.nonce, 2);
    assert_eq!(event.amount, 50);
}

#[test]
fn purge_requests_transfer_to_vault() {
    let init = setup();
    let ctx = deposit_accounts(&init);
    let req = purge(&ctx, 100).unwrap();
    assert_eq!(
        req,
        TransferRequest {
            from: Address::new(HOLDING),
            to: init.spoke_usdc_vault.unwrap().address,
            authority: Address::new(DEPOSITOR),
            amount: 100,
        }
    );
}

#[test]
fn set_peer_by_other_identity_is_refused() {
    let init = setup();
    let mut ctx = SetPeer { admin: Address::new(OTHER), config: init.config.unwrap() };
    assert_eq!(set_peer(&mut ctx, 1, [8u8; 32]), Err(SpokeError::AuthorizationError));
    assert_eq!(ctx.config.remote_eid, 30184);
    assert_eq!(ctx.config.remote_address, REMOTE);
}

#[test]
fn set_peer_by_admin_changes_routing_only() {
    let init = setup();
    let before = init.config.unwrap();
    let mut ctx = SetPeer { admin: Address::new(ADMIN), config: before };
    assert_eq!(set_peer(&mut ctx, 40161, [8u8; 32]), Ok(()));
    assert_eq!(ctx.config, Config { remote_eid: 40161, remote_address: [8u8; 32], ..before });
}

#[test]
fn deposit_beyond_balance_is_resource_error() {
    let init = setup();
    let mut ctx = deposit_accounts(&init);
    let mut ledger = Ledger { depositor: 40, vault: 0 };
    assert_eq!(deposit(&mut ctx, &mut ledger, 100), Err(SpokeError::ResourceError));
    assert_eq!(ledger.vault, 0);
    assert_eq!(ctx.config.nonce, 0);
}

#[test]
fn initialize_twice_is_resource_error() {
    let mut ctx = setup();
    let after_first = ctx;
    assert_eq!(initialize(&mut ctx, 1, [0u8; 32]), Err(SpokeError::ResourceError));
    assert_eq!(ctx, after_first);
}

#[test]
fn deposit_with_other_asset_is_validation_error() {
    let init = setup();
    let mut ctx = deposit_accounts(&init);
    ctx.user_usdc.mint = Address::new(OTHER);
    assert_eq!(purge(&ctx, 10), Err(SpokeError::ValidationError));
    let before = ctx;
    assert_eq!(
        settle_purge(&mut ctx, 10, TransferOutcome::Completed),
        Err(SpokeError::ValidationError)
    );
    assert_eq!(ctx, before);
}

#[test]
fn deposit_with_config_of_other_asset_is_validation_error() {
    let init = setup();
    let mut ctx = deposit_accounts(&init);
    ctx.usdc_mint = Address::new(OTHER);
    ctx.user_usdc.mint = Address::new(OTHER);
    ctx.spoke_usdc_vault.mint = Address::new(OTHER);
    assert_eq!(purge(&ctx, 10), Err(SpokeError::ValidationError));
}

#[test]
fn deposit_into_underived_vault_is_validation_error() {
    let init = setup();
    let mut ctx = deposit_accounts(&init);
    ctx.spoke_usdc_vault.address = Address::new(HOLDING);
    assert_eq!(purge(&ctx, 10), Err(SpokeError::ValidationError));
}

#[test]
fn deposit_of_zero_is_validation_error() {
    let init = setup();
    let ctx = deposit_accounts(&init);
    assert_eq!(purge(&ctx, 0), Err(SpokeError::ValidationError));
}

#[test]
fn deposit_at_max_nonce_is_overflow_error() {
    let init = setup();
    let mut ctx = deposit_accounts(&init);
    ctx.config.nonce = u64::MAX;
    let before = ctx;
    assert!(purge(&ctx, 10).is_ok());
    assert_eq!(
        settle_purge(&mut ctx, 10, TransferOutcome::Completed),
        Err(SpokeError::OverflowError)
    );
    assert_eq!(ctx, before);
}

#[test]
fn refused_transfers_map_to_errors() {
    let init = setup();
    let ctx = deposit_accounts(&init);
    let cases = [
        (TransferFailure::InsufficientFunds, SpokeError::ResourceError),
        (TransferFailure::AccountFrozen, SpokeError::ResourceError),
        (TransferFailure::Other, SpokeError::ResourceError),
        (TransferFailure::MintMismatch, SpokeError::ValidationError),
        (TransferFailure::OwnerMismatch, SpokeError::AuthorizationError),
    ];
    for (failure, error) in cases {
        let mut c = ctx;
        assert_eq!(settle_purge(&mut c, 10, TransferOutcome::Failed(failure)), Err(error));
        assert_eq!(c, ctx);
    }
}

#[test]
fn nonce_counts_successful_deposits() {
    let init = setup();
    let mut ctx = deposit_accounts(&init);
    let mut ledger = Ledger { depositor: 25, vault: 0 };
    let mut seen = Vec::new();
    for _ in 0..7 {
        if let Ok(e) = deposit(&mut ctx, &mut ledger, 5) {
            seen.push(e.nonce);
        }
    }
    assert_eq!(seen, vec![1, 2, 3, 4, 5]);
    assert_eq!(ctx.config.nonce, 5);
    assert_eq!(ledger.vault, 25);
}

#[test]
fn derived_addresses_are_deterministic_and_distinct() {
    let program = Address::new(PROGRAM);
    let a = config_address(&program).unwrap();
    assert_eq!(config_address(&program).unwrap(), a);
    assert_ne!(a.0, program);
    let v = vault_address(&program, &Address::new(USDC)).unwrap();
    assert_eq!(vault_address(&program, &Address::new(USDC)).unwrap(), v);
    assert_ne!(v.0, Address::new(USDC));
    assert_ne!(v.0, a.0);
    let w = vault_address(&program, &Address::new(OTHER)).unwrap();
    assert_ne!(v.0, w.0);
}

#[test]
fn address_comparison_and_bytes() {
    let a = Address::new(USDC);
    assert!(a.same(&Address::new(USDC)));
    let mut b = USDC;
    b[31] = 4;
    assert!(!a.same(&Address::new(b)));
    assert_eq!(a.to_vec(), USDC.to_vec());
}
