use dopelgangachain::{
    launch_token, may_mint, mint_dopel, mint_validator_reward, Address, Airdrop, Config,
    ErrorCode, Event, LaunchToken, LedgerCall, Mint, MintDopel, MintValidatorReward,
    SystemSigner, TokenAccount, TokenLaunched, ValidatorReward,
};

fn addr(tag: u8) -> Address {
    Address::new([tag; 32])
}

fn signer() -> SystemSigner {
    SystemSigner::derive(&addr(42)).unwrap()
}

fn config(reward_per_block: u64) -> Config {
    Config {
        admin: addr(1),
        dopel_mint: addr(100),
        challenge_wallet: addr(3),
        dev_wallet: addr(4),
        liq_wallet: addr(5),
        reward_per_block,
        governance: addr(2),
    }
}

fn managed_mint() -> Mint {
    Mint { address: addr(100), mint_authority: Some(signer().address()) }
}

fn account(tag: u8, mint: u8, owner: u8) -> TokenAccount {
    TokenAccount { address: addr(tag), mint: addr(mint), owner: addr(owner) }
}

fn mint_request(caller: u8) -> MintDopel {
    MintDopel {
        admin: addr(caller),
        cfg: config(0),
        dopel_mint: managed_mint(),
        to_token: account(20, 100, 21),
    }
}

fn reward_request(reward_per_block: u64) -> MintValidatorReward {
    MintValidatorReward {
        cfg: config(reward_per_block),
        dopel_mint: managed_mint(),
        validator_token_account: account(30, 100, 31),
        validator: addr(31),
    }
}

fn launch_request() -> LaunchToken {
    LaunchToken {
        payer: addr(50),
        cfg: config(0),
        new_mint: addr(60),
        recipient: addr(61),
        recipient_token: account(62, 60, 61),
    }
}

#[test]
fn admin_mints_on_demand() {
    let plan = mint_dopel(&mint_request(1), &signer(), 750).unwrap();
    assert_eq!(
        plan.calls,
        vec![LedgerCall::MintTo {
            mint: addr(100),
            to: addr(20),
            authority: signer().address(),
            amount: 750,
        }]
    );
    assert_eq!(plan.event, Event::Airdrop(Airdrop { to: addr(21), amount: 750 }));
}

#[test]
fn non_admin_cannot_mint() {
    assert_eq!(mint_dopel(&mint_request(2), &signer(), 750), Err(ErrorCode::Unauthorized));
    assert_eq!(mint_dopel(&mint_request(9), &signer(), 0), Err(ErrorCode::Unauthorized));
}

#[test]
fn non_admin_is_rejected_before_the_minting_rights_are_looked_at() {
    let mut request = mint_request(9);
    request.dopel_mint.mint_authority = None;
    assert_eq!(mint_dopel(&request, &signer(), 1), Err(ErrorCode::Unauthorized));
}

#[test]
fn admin_cannot_mint_once_the_rights_are_handed_over() {
    let mut request = mint_request(1);
    request.dopel_mint.mint_authority = Some(addr(99));
    assert_eq!(mint_dopel(&request, &signer(), 1), Err(ErrorCode::MintingUnauthorized));
    request.dopel_mint.mint_authority = None;
    assert_eq!(mint_dopel(&request, &signer(), 1), Err(ErrorCode::MintingUnauthorized));
}

#[test]
fn rights_over_another_asset_do_not_count() {
    let mut request = mint_request(1);
    request.dopel_mint.address = addr(101);
    assert_eq!(mint_dopel(&request, &signer(), 1), Err(ErrorCode::MintingUnauthorized));
}

#[test]
fn may_mint_asks_for_the_managed_asset_and_the_signer() {
    let cfg = config(0);
    assert!(may_mint(&signer(), &cfg, &managed_mint()));
    assert!(!may_mint(&signer(), &cfg, &Mint { address: addr(100), mint_authority: None }));
    assert!(!may_mint(
        &signer(),
        &cfg,
        &Mint { address: addr(100), mint_authority: Some(addr(1)) }
    ));
    assert!(!may_mint(
        &signer(),
        &cfg,
        &Mint { address: addr(7), mint_authority: Some(signer().address()) }
    ));
}

#[test]
fn validator_reward_of_zero_issues_no_mint() {
    let plan = mint_validator_reward(&reward_request(0), &signer(), 812, 1_700_000_000).unwrap();
    assert_eq!(plan.calls, vec![]);
    assert_eq!(
        plan.event,
        Event::ValidatorReward(ValidatorReward {
            validator: addr(31),
            amount: 0,
            block: 812,
            timestamp: 1_700_000_000,
        })
    );
}

#[test]
fn validator_reward_of_zero_needs_no_minting_rights() {
    let mut request = reward_request(0);
    request.dopel_mint.mint_authority = None;
    let plan = mint_validator_reward(&request, &signer(), 1, 2).unwrap();
    assert_eq!(plan.calls, vec![]);
}

#[test]
fn validator_reward_is_the_configured_amount() {
    let plan = mint_validator_reward(&reward_request(12), &signer(), 813, -4).unwrap();
    assert_eq!(
        plan.calls,
        vec![LedgerCall::MintTo {
            mint: addr(100),
            to: addr(30),
            authority: signer().address(),
            amount: 12,
        }]
    );
    assert_eq!(
        plan.event,
        Event::ValidatorReward(ValidatorReward {
            validator: addr(31),
            amount: 12,
            block: 813,
            timestamp: -4,
        })
    );
}

#[test]
fn validator_reward_fails_without_minting_rights() {
    let mut request = reward_request(12);
    request.dopel_mint.mint_authority = Some(addr(99));
    assert_eq!(
        mint_validator_reward(&request, &signer(), 1, 2),
        Err(ErrorCode::MintingUnauthorized)
    );
}

#[test]
fn launch_creates_the_asset_and_mints_the_supply() {
    let plan = launch_token(&launch_request(), &signer(), 6, 1_000_000).unwrap();
    assert_eq!(
        plan.calls,
        vec![
            LedgerCall::InitializeMint {
                mint: addr(60),
                decimals: 6,
                authority: signer().address(),
            },
            LedgerCall::MintTo {
                mint: addr(60),
                to: addr(62),
                authority: signer().address(),
                amount: 1_000_000,
            },
        ]
    );
    assert_eq!(
        plan.event,
        Event::TokenLaunched(TokenLaunched {
            mint: addr(60),
            recipient: addr(61),
            initial_mint_to: 1_000_000,
            decimals: 6,
        })
    );
}

#[test]
fn launch_without_supply_only_creates_the_asset() {
    let plan = launch_token(&launch_request(), &signer(), 9, 0).unwrap();
    assert_eq!(
        plan.calls,
        vec![LedgerCall::InitializeMint {
            mint: addr(60),
            decimals: 9,
            authority: signer().address(),
        }]
    );
    assert_eq!(
        plan.event,
        Event::TokenLaunched(TokenLaunched {
            mint: addr(60),
            recipient: addr(61),
            initial_mint_to: 0,
            decimals: 9,
        })
    );
}

#[test]
fn launch_rejects_an_account_of_another_owner() {
    let mut request = launch_request();
    request.recipient_token.owner = addr(63);
    assert_eq!(
        launch_token(&request, &signer(), 6, 1_000_000),
        Err(ErrorCode::RecipientAccountMismatch)
    );
}

#[test]
fn launch_rejects_an_account_of_another_asset() {
    let mut request = launch_request();
    request.recipient_token.mint = addr(100);
    assert_eq!(
        launch_token(&request, &signer(), 6, 1_000_000),
        Err(ErrorCode::RecipientAccountMismatch)
    );
    assert_eq!(launch_token(&request, &signer(), 6, 0), Err(ErrorCode::RecipientAccountMismatch));
}
