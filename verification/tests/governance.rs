use dopelgangachain::{
    initialize, set_mint_authority, update_config, Address, AuthorityReassigned, Config,
    ConfigUpdated, ErrorCode, Event, Initialize, LedgerCall, Mint, SetMintAuthority,
    SystemSigner, UpdateConfig,
};

fn addr(tag: u8) -> Address {
    Address::new([tag; 32])
}

fn signer() -> SystemSigner {
    SystemSigner::derive(&addr(42)).unwrap()
}

fn config(reward_per_block: u64) -> Config {
    Config {
        admin: addr(1),
        dopel_mint: addr(100),
        challenge_wallet: addr(3),
        dev_wallet: addr(4),
        liq_wallet: addr(5),
        reward_per_block,
        governance: addr(2),
    }
}

fn handover(caller: u8) -> SetMintAuthority {
    SetMintAuthority {
        cfg: config(0),
        governance: addr(caller),
        dopel_mint: Mint { address: addr(100), mint_authority: Some(signer().address()) },
        new_mint_authority: addr(80),
    }
}

#[test]
fn initialize_makes_the_caller_admin_and_governance() {
    let mut ctx = Initialize { admin: addr(1), cfg: None };
    assert_eq!(initialize(&mut ctx, 254, addr(100), addr(3), addr(4), addr(5)), Ok(()));
    assert_eq!(
        ctx.cfg,
        Some(Config {
            admin: addr(1),
            dopel_mint: addr(100),
            challenge_wallet: addr(3),
            dev_wallet: addr(4),
            liq_wallet: addr(5),
            reward_per_block: 0,
            governance: addr(1),
        })
    );
    assert_eq!(ctx.admin, addr(1));
}

#[test]
fn initialize_twice_fails() {
    let mut ctx = Initialize { admin: addr(1), cfg: None };
    initialize(&mut ctx, 254, addr(100), addr(3), addr(4), addr(5)).unwrap();
    let before = ctx;
    ctx.admin = addr(9);
    assert_eq!(
        initialize(&mut ctx, 254, addr(101), addr(6), addr(7), addr(8)),
        Err(ErrorCode::AlreadyInitialized)
    );
    assert_eq!(ctx.cfg, before.cfg);
}

#[test]
fn governance_updates_the_reward() {
    let mut ctx = UpdateConfig { cfg: config(0), governance: addr(2) };
    let plan = update_config(&mut ctx, 15).unwrap();
    assert_eq!(ctx.cfg, config(15));
    assert_eq!(ctx.governance, addr(2));
    assert_eq!(plan.calls, vec![]);
    assert_eq!(plan.event, Event::ConfigUpdated(ConfigUpdated { reward_per_block: 15 }));
}

#[test]
fn non_governance_cannot_update_the_reward() {
    let mut ctx = UpdateConfig { cfg: config(3), governance: addr(1) };
    assert_eq!(update_config(&mut ctx, 15), Err(ErrorCode::Unauthorized));
    assert_eq!(ctx.cfg, config(3));
    assert_eq!(ctx.governance, addr(1));
}

#[test]
fn governance_hands_over_the_minting_rights() {
    let plan = set_mint_authority(&handover(2), &signer()).unwrap();
    assert_eq!(
        plan.calls,
        vec![LedgerCall::SetMintAuthority {
            mint: addr(100),
            current_authority: signer().address(),
            new_authority: addr(80),
        }]
    );
    assert_eq!(
        plan.event,
        Event::AuthorityReassigned(AuthorityReassigned { new_authority: addr(80) })
    );
}

#[test]
fn non_governance_cannot_hand_over_the_minting_rights() {
    assert_eq!(set_mint_authority(&handover(1), &signer()), Err(ErrorCode::Unauthorized));
    let mut request = handover(9);
    request.dopel_mint.mint_authority = None;
    assert_eq!(set_mint_authority(&request, &signer()), Err(ErrorCode::Unauthorized));
}

#[test]
fn rights_that_are_gone_cannot_be_handed_over() {
    let mut request = handover(2);
    request.dopel_mint.mint_authority = Some(addr(80));
    assert_eq!(set_mint_authority(&request, &signer()), Err(ErrorCode::MintingUnauthorized));
}
