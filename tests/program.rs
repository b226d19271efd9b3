use token_acl::accounts::{Account, AccountState, MintAccount, MintState, Programs, TokenAccount, TokenState};
use token_acl::address::Address;
use token_acl::config::{update_config, ConfigUpdate, CreateConfig, DeleteConfig};
use token_acl::error::{ErrorKind, TokenAclError};
use token_acl::pda::{find_config_address, find_guard_address};
use token_acl::permissionless::{Decision, FreezePermissionless, Permissionless, ThawPermissionless};
use token_acl::permissioned::{freeze, thaw};
use token_acl::resolver::{AccountRef, ExtraMeta};
use token_acl::state::MintConfig;

const RENT: u64 = 1_000_000;

fn addr(n: u8) -> Address {
    Address::new([n; 32])
}

fn programs() -> Programs {
    Programs { token_acl: addr(200), token: addr(201) }
}

fn gate() -> Address {
    addr(150)
}

fn auth() -> Address {
    addr(10)
}

fn mint_key() -> Address {
    addr(20)
}

fn config_key(mint: &Address) -> (Address, u8) {
    find_config_address(mint, &programs().token_acl).unwrap()
}

fn signer(key: Address, lamports: u64) -> Account {
    Account { key, owner: Address::zero(), lamports, data: Vec::new(), is_signer: true }
}

fn fresh(key: Address) -> Account {
    Account { key, owner: Address::zero(), lamports: 0, data: Vec::new(), is_signer: false }
}

fn new_mint(key: Address, freeze_authority: Option<Address>, default_account_state: bool) -> MintAccount {
    MintAccount {
        key,
        owner: programs().token,
        data: Vec::new(),
        state: Some(MintState { freeze_authority, default_account_state }),
    }
}

/// Creates the record for the test mint; returns the mint and the record.
fn setup_token_acl(gating_program: &Address) -> (MintAccount, Account) {
    let p = programs();
    let (cfg, _) = config_key(&mint_key());
    let mut cc = CreateConfig::try_from(
        &p,
        signer(auth(), 10 * RENT),
        signer(auth(), 10 * RENT),
        new_mint(mint_key(), Some(auth()), true),
        fresh(cfg),
        Address::zero(),
        p.token,
    )
    .unwrap();
    cc.process(&p, RENT, &gating_program.to_vec()).unwrap();
    (cc.mint, cc.mint_config)
}

fn user_token_account(key: Address, owner: Address, state: AccountState) -> TokenAccount {
    let mut data = mint_key().to_vec();
    data.extend_from_slice(&owner.to_vec());
    TokenAccount {
        key,
        owner: programs().token,
        data,
        state: Some(TokenState { mint: mint_key(), owner, state }),
    }
}

fn set_flags(config: &mut Account, freeze_enabled: bool, thaw_enabled: bool) {
    let p = programs();
    update_config(&p, &signer(auth(), 0), config, ConfigUpdate::SetPermissionless { freeze: freeze_enabled, thaw: thaw_enabled })
        .unwrap();
}

fn permissionless_op(mint: MintAccount, config: Account, token_account: TokenAccount, owner: Address) -> Permissionless {
    let p = programs();
    let (flag, _) = find_guard_address(&token_account.key, &p.token_acl).unwrap();
    Permissionless::try_from(
        &p,
        signer(addr(30), 5),
        mint,
        token_account,
        fresh(flag),
        AccountRef { key: owner, data: Vec::new() },
        config,
        p.token,
        Address::zero(),
        gate(),
        Vec::new(),
    )
    .unwrap()
}

#[test]
fn test_create_mint_config() {
    let p = programs();
    let (cfg_pk, bump) = config_key(&mint_key());
    let (mint, cfg) = setup_token_acl(&gate());
    let record = MintConfig::decode(&cfg.data).unwrap();
    assert_eq!(cfg.data[0], 0x01);
    assert_eq!(cfg.data.len(), 100);
    assert_eq!(record.mint, mint_key());
    assert_eq!(record.freeze_authority, auth());
    assert_eq!(record.gating_program, gate());
    assert_eq!(record.bump, bump);
    assert!(!record.enable_permissionless_freeze);
    assert!(!record.enable_permissionless_thaw);
    assert_eq!(cfg.owner, p.token_acl);
    assert_eq!(cfg.lamports, RENT);
    assert_eq!(mint.state.unwrap().freeze_authority, Some(cfg_pk));
}

#[test]
fn test_create_mint_config_charges_only_shortfall() {
    let p = programs();
    let (cfg_pk, _) = config_key(&mint_key());
    let mut pre_funded = fresh(cfg_pk);
    pre_funded.lamports = 400_000;
    let mut cc = CreateConfig::try_from(
        &p,
        signer(addr(11), 700_000),
        signer(auth(), 0),
        new_mint(mint_key(), Some(auth()), true),
        pre_funded,
        Address::zero(),
        p.token,
    )
    .unwrap();
    assert_eq!(cc.process(&p, RENT, &gate().to_vec()), Ok(()));
    assert_eq!(cc.payer.lamports, 100_000);
    assert_eq!(cc.mint_config.lamports, RENT);
}

#[test]
fn test_create_mint_config_insufficient_funds() {
    let p = programs();
    let (cfg_pk, _) = config_key(&mint_key());
    let mut cc = CreateConfig::try_from(
        &p,
        signer(addr(11), RENT - 1),
        signer(auth(), 0),
        new_mint(mint_key(), Some(auth()), true),
        fresh(cfg_pk),
        Address::zero(),
        p.token,
    )
    .unwrap();
    assert_eq!(cc.process(&p, RENT, &gate().to_vec()), Err(TokenAclError::InsufficientFunds));
    assert_eq!(cc.payer.lamports, RENT - 1);
    assert!(cc.mint_config.data.is_empty());
    assert_eq!(cc.mint.state.unwrap().freeze_authority, Some(auth()));
}

#[test]
fn test_create_mint_config_invalid_account() {
    let p = programs();
    let (other_cfg, _) = config_key(&addr(21));
    let r = CreateConfig::try_from(
        &p,
        signer(auth(), RENT),
        signer(auth(), RENT),
        new_mint(mint_key(), Some(auth()), true),
        fresh(other_cfg),
        Address::zero(),
        p.token,
    );
    assert_eq!(r.err(), Some(TokenAclError::InvalidMintConfig));
}

#[test]
fn test_create_mint_config_invalid_non_pda() {
    let p = programs();
    let mut not_derived = signer(addr(99), 1_000_000_000);
    not_derived.is_signer = true;
    let r = CreateConfig::try_from(
        &p,
        signer(auth(), RENT),
        signer(auth(), RENT),
        new_mint(mint_key(), Some(auth()), true),
        not_derived,
        Address::zero(),
        p.token,
    );
    assert_eq!(r.err(), Some(TokenAclError::InvalidMintConfig));
}

#[test]
fn test_create_mint_config_with_existing_config() {
    let p = programs();
    let (cfg_pk, bump) = config_key(&mint_key());
    let (mint, cfg) = setup_token_acl(&gate());
    let record = MintConfig::decode(&cfg.data).unwrap();
    assert_eq!(record.mint, mint_key());
    assert_eq!(record.bump, bump);
    let mut again = CreateConfig::try_from(&p, signer(auth(), RENT), signer(auth(), RENT), mint, cfg, Address::zero(), p.token)
        .unwrap();
    let r = again.process(&p, RENT, &gate().to_vec());
    assert_eq!(r, Err(TokenAclError::InvalidAuthority));
    assert_eq!(r.unwrap_err().kind(), ErrorKind::Authority);
    assert_eq!(again.mint.state.unwrap().freeze_authority, Some(cfg_pk));
}

#[test]
fn test_create_mint_config_rejects_unfit_mints() {
    let p = programs();
    let (cfg_pk, _) = config_key(&mint_key());
    let cases = [
        (new_mint(mint_key(), Some(auth()), false), TokenAclError::InvalidTokenMint),
        (new_mint(mint_key(), None, true), TokenAclError::InvalidTokenMint),
        (new_mint(mint_key(), Some(addr(12)), true), TokenAclError::InvalidAuthority),
    ];
    for (mint, expected) in cases {
        let mut cc = CreateConfig::try_from(&p, signer(auth(), RENT), signer(auth(), RENT), mint, fresh(cfg_pk), Address::zero(), p.token)
            .unwrap();
        assert_eq!(cc.process(&p, RENT, &gate().to_vec()), Err(expected));
    }
    let mut cc = CreateConfig::try_from(
        &p,
        signer(auth(), RENT),
        signer(auth(), RENT),
        new_mint(mint_key(), Some(auth()), true),
        fresh(cfg_pk),
        Address::zero(),
        p.token,
    )
    .unwrap();
    assert_eq!(cc.process(&p, RENT, &vec![1u8; 31]), Err(TokenAclError::InvalidInstructionData));
}

#[test]
fn test_create_mint_config_checks_collaborators() {
    let p = programs();
    let (cfg_pk, _) = config_key(&mint_key());
    let mint = || new_mint(mint_key(), Some(auth()), true);
    let mut unsigned = signer(auth(), RENT);
    unsigned.is_signer = false;
    let r = CreateConfig::try_from(&p, signer(auth(), RENT), unsigned, mint(), fresh(cfg_pk), Address::zero(), p.token);
    assert_eq!(r.err(), Some(TokenAclError::InvalidAuthority));
    let r = CreateConfig::try_from(&p, signer(auth(), RENT), signer(auth(), RENT), mint(), fresh(cfg_pk), addr(1), p.token);
    assert_eq!(r.err(), Some(TokenAclError::InvalidSystemProgram));
    let r = CreateConfig::try_from(&p, signer(auth(), RENT), signer(auth(), RENT), mint(), fresh(cfg_pk), Address::zero(), addr(2));
    assert_eq!(r.err(), Some(TokenAclError::InvalidTokenProgram));
}

#[test]
fn test_set_authority() {
    let p = programs();
    let (_, mut cfg) = setup_token_acl(&gate());
    assert_eq!(MintConfig::decode(&cfg.data).unwrap().freeze_authority, auth());
    let new_authority = addr(40);
    assert_eq!(update_config(&p, &signer(auth(), 0), &mut cfg, ConfigUpdate::SetAuthority(new_authority)), Ok(()));
    let record = MintConfig::decode(&cfg.data).unwrap();
    assert_eq!(record.freeze_authority, new_authority);
    assert_eq!(record.gating_program, gate());
    assert_eq!(
        update_config(&p, &signer(auth(), 0), &mut cfg, ConfigUpdate::SetAuthority(auth())),
        Err(TokenAclError::InvalidAuthority)
    );
}

#[test]
fn test_set_gating_program() {
    let p = programs();
    let (_, mut cfg) = setup_token_acl(&gate());
    assert_eq!(MintConfig::decode(&cfg.data).unwrap().gating_program, gate());
    let new_gate = addr(41);
    assert_eq!(update_config(&p, &signer(auth(), 0), &mut cfg, ConfigUpdate::SetGatingProgram(new_gate)), Ok(()));
    assert_eq!(MintConfig::decode(&cfg.data).unwrap().gating_program, new_gate);
}

#[test]
fn test_toggle_permissionless_instructions() {
    let (_, mut cfg) = setup_token_acl(&gate());
    let record = MintConfig::decode(&cfg.data).unwrap();
    assert!(!record.enable_permissionless_freeze);
    assert!(!record.enable_permissionless_thaw);
    for (f, t) in [(true, false), (false, true), (true, true)] {
        set_flags(&mut cfg, f, t);
        let record = MintConfig::decode(&cfg.data).unwrap();
        assert_eq!(record.enable_permissionless_freeze, f);
        assert_eq!(record.enable_permissionless_thaw, t);
    }
}

#[test]
fn test_update_config_requires_signature() {
    let p = programs();
    let (_, mut cfg) = setup_token_acl(&gate());
    let before = cfg.data.clone();
    let mut unsigned = signer(auth(), 0);
    unsigned.is_signer = false;
    assert_eq!(
        update_config(&p, &unsigned, &mut cfg, ConfigUpdate::SetPermissionless { freeze: true, thaw: true }),
        Err(TokenAclError::InvalidAuthority)
    );
    assert_eq!(cfg.data, before);
}

#[test]
fn test_thaw_permissioned() {
    let p = programs();
    let (mint, cfg) = setup_token_acl(&gate());
    let mut ta = user_token_account(addr(50), addr(51), AccountState::Frozen);
    assert_eq!(thaw(&p, &signer(auth(), 0), &mint, &cfg, &mut ta, &p.token), Ok(()));
    assert_eq!(ta.state.unwrap().state, AccountState::Initialized);
}

#[test]
fn test_freeze_permissioned() {
    let p = programs();
    let (mint, cfg) = setup_token_acl(&gate());
    let mut ta = user_token_account(addr(50), addr(51), AccountState::Frozen);
    assert_eq!(thaw(&p, &signer(auth(), 0), &mint, &cfg, &mut ta, &p.token), Ok(()));
    assert_eq!(ta.state.unwrap().state, AccountState::Initialized);
    assert_eq!(freeze(&p, &signer(auth(), 0), &mint, &cfg, &mut ta, &p.token), Ok(()));
    assert_eq!(ta.state.unwrap().state, AccountState::Frozen);
    assert_eq!(freeze(&p, &signer(auth(), 0), &mint, &cfg, &mut ta, &p.token), Err(TokenAclError::TokenInvalidState));
    assert_eq!(freeze(&p, &signer(addr(12), 0), &mint, &cfg, &mut ta, &p.token), Err(TokenAclError::InvalidAuthority));
}

#[test]
fn test_delete_config() {
    let p = programs();
    let (cfg_pk, _) = config_key(&mint_key());
    let (mint, cfg) = setup_token_acl(&gate());
    assert_eq!(mint.state.unwrap().freeze_authority, Some(cfg_pk));
    let new_freeze_authority = addr(60);
    let mut dc = DeleteConfig::try_from(&p, signer(auth(), 0), fresh(auth()), mint, cfg, p.token).unwrap();
    let r = dc.process(&p, &new_freeze_authority.to_vec());
    assert!(r.is_ok());
    assert_eq!(dc.mint.state.unwrap().freeze_authority, Some(new_freeze_authority));
    assert_eq!(dc.receiver.lamports, RENT);
    assert_eq!(dc.mint_config.lamports, 0);
    assert!(dc.mint_config.data.is_empty());
    assert_eq!(dc.mint_config.owner, Address::zero());
}

#[test]
fn test_delete_config_after_close() {
    let p = programs();
    let (mut mint, cfg) = setup_token_acl(&gate());
    mint.state = None;
    let mut dc = DeleteConfig::try_from(&p, signer(auth(), 0), fresh(auth()), mint, cfg, p.token).unwrap();
    let r = dc.process(&p, &addr(60).to_vec());
    assert!(r.is_ok());
    assert!(dc.mint.state.is_none());
    assert_eq!(dc.receiver.lamports, RENT);
    assert_eq!(dc.mint_config.lamports, 0);
    assert!(dc.mint_config.data.is_empty());
}

#[test]
fn test_delete_config_after_authority_moved() {
    let p = programs();
    let (mut mint, cfg) = setup_token_acl(&gate());
    mint.state = Some(MintState { freeze_authority: Some(addr(70)), default_account_state: true });
    let mut dc = DeleteConfig::try_from(&p, signer(auth(), 0), fresh(auth()), mint, cfg, p.token).unwrap();
    assert_eq!(dc.process(&p, &addr(60).to_vec()), Ok(()));
    assert_eq!(dc.mint.state.unwrap().freeze_authority, Some(addr(70)));
    assert_eq!(dc.receiver.lamports, RENT);
}

#[test]
fn test_delete_config_wrong_authority() {
    let p = programs();
    let (mint, cfg) = setup_token_acl(&gate());
    let mut dc = DeleteConfig::try_from(&p, signer(addr(12), 0), fresh(auth()), mint, cfg, p.token).unwrap();
    assert_eq!(dc.process(&p, &addr(60).to_vec()), Err(TokenAclError::InvalidAuthority));
    assert_eq!(dc.mint_config.lamports, RENT);
    assert_eq!(dc.receiver.lamports, 0);
    let r = DeleteConfig::try_from(&p, signer(auth(), 0), fresh(auth()), new_mint(mint_key(), None, true), fresh(addr(1)), addr(3));
    assert_eq!(r.err(), Some(TokenAclError::InvalidTokenProgram));
}

#[test]
fn test_thaw_permissionless() {
    let (mint, mut cfg) = setup_token_acl(&gate());
    let owner = addr(51);
    let ta = user_token_account(addr(50), owner, AccountState::Frozen);

    let p = programs();
    let mut op = ThawPermissionless { op: permissionless_op(mint, cfg, ta, owner) };
    assert_eq!(op.process(&p, &Vec::new(), false, Decision::Approve), Err(TokenAclError::PermissionlessThawNotEnabled));
    assert_eq!(
        op.process(&p, &Vec::new(), false, Decision::Approve).unwrap_err().kind(),
        ErrorKind::Policy
    );

    cfg = op.op.mint_config;
    set_flags(&mut cfg, false, true);
    let op2 = permissionless_op(op.op.mint, cfg, op.op.token_account, owner);
    let mut op = ThawPermissionless { op: op2 };
    assert_eq!(op.process(&p, &Vec::new(), false, Decision::Approve), Ok(()));
    assert_eq!(op.op.token_account.state.unwrap().state, AccountState::Initialized);
    assert!(op.op.flag_account.data.is_empty());
    assert_eq!(op.op.flag_account.owner, Address::zero());

    // idempotent on an already thawed account: a no-op
    assert_eq!(op.process(&p, &Vec::new(), true, Decision::Deny(TokenAclError::GateRejected(1))), Ok(()));
    assert_eq!(op.op.token_account.state.unwrap().state, AccountState::Initialized);

    // not idempotent: the token program refuses
    assert_eq!(op.process(&p, &Vec::new(), false, Decision::Approve), Err(TokenAclError::TokenInvalidState));
}

#[test]
fn test_thaw_permissionless_idempotent_mint_mismatch() {
    let (mint, mut cfg) = setup_token_acl(&gate());
    set_flags(&mut cfg, false, true);
    let owner = addr(51);
    let mut ta = user_token_account(addr(50), owner, AccountState::Initialized);
    ta.state = Some(TokenState { mint: addr(22), owner, state: AccountState::Initialized });
    let p = programs();
    let mut op = ThawPermissionless { op: permissionless_op(mint, cfg, ta, owner) };
    assert_eq!(op.process(&p, &Vec::new(), true, Decision::Approve), Err(TokenAclError::InvalidTokenMint));
    assert!(op.op.flag_account.data.is_empty());
}

#[test]
fn test_thaw_permissionless_always_block() {
    let (mint, mut cfg) = setup_token_acl(&gate());
    set_flags(&mut cfg, false, true);
    let owner = addr(51);
    let ta = user_token_account(addr(50), owner, AccountState::Frozen);
    let p = programs();
    let mut op = ThawPermissionless { op: permissionless_op(mint, cfg, ta, owner) };
    let r = op.process(&p, &Vec::new(), false, Decision::Deny(TokenAclError::GateRejected(999999999)));
    assert_eq!(r, Err(TokenAclError::GateRejected(999999999)));
    assert_eq!(r.unwrap_err().kind(), ErrorKind::ExternalDecision);
    assert_eq!(op.op.token_account.state.unwrap().state, AccountState::Frozen);
    assert!(op.op.flag_account.data.is_empty());
}

#[test]
fn test_thaw_permissionless_wrong_gate() {
    let (mint, mut cfg) = setup_token_acl(&gate());
    set_flags(&mut cfg, false, true);
    let owner = addr(51);
    let ta = user_token_account(addr(50), owner, AccountState::Frozen);
    let p = programs();
    let mut op = permissionless_op(mint, cfg, ta, owner);
    op.gating_program = addr(151);
    assert_eq!(op.run(&p, &Vec::new(), true, false, Decision::Approve), Err(TokenAclError::InvalidGatingProgram));
}

#[test]
fn test_freeze_permissionless() {
    let (mint, mut cfg) = setup_token_acl(&gate());
    let owner = addr(51);
    let mut ta = user_token_account(addr(50), owner, AccountState::Frozen);
    let p = programs();
    assert_eq!(thaw(&p, &signer(auth(), 0), &mint, &cfg, &mut ta, &p.token), Ok(()));
    assert_eq!(ta.state.unwrap().state, AccountState::Initialized);

    // freeze allowed, thaw not
    set_flags(&mut cfg, true, false);
    let mut op = FreezePermissionless { op: permissionless_op(mint, cfg, ta, owner) };
    let mut thaw_op = Permissionless::try_from(
        &p,
        signer(addr(30), 0),
        MintAccount { key: op.op.mint.key, owner: op.op.mint.owner, data: Vec::new(), state: op.op.mint.state },
        user_token_account(addr(50), owner, AccountState::Initialized),
        fresh(op.op.flag_account.key),
        AccountRef { key: owner, data: Vec::new() },
        Account { key: op.op.mint_config.key, owner: op.op.mint_config.owner, lamports: 0, data: op.op.mint_config.data.clone(), is_signer: false },
        p.token,
        Address::zero(),
        gate(),
        Vec::new(),
    )
    .unwrap();
    assert_eq!(thaw_op.run(&p, &Vec::new(), true, false, Decision::Approve), Err(TokenAclError::PermissionlessThawNotEnabled));

    assert_eq!(op.process(&p, &Vec::new(), false, Decision::Deny(TokenAclError::GateRejected(999999999))), Err(TokenAclError::GateRejected(999999999)));
    assert_eq!(op.op.token_account.state.unwrap().state, AccountState::Initialized);
    assert_eq!(op.process(&p, &Vec::new(), false, Decision::Approve), Ok(()));
    assert_eq!(op.op.token_account.state.unwrap().state, AccountState::Frozen);
    assert!(op.op.flag_account.data.is_empty());
    assert_eq!(op.op.authority.lamports, 5);
}

#[test]
fn test_freeze_permissionless_not_enabled() {
    let (mint, cfg) = setup_token_acl(&gate());
    let owner = addr(51);
    let ta = user_token_account(addr(50), owner, AccountState::Initialized);
    let p = programs();
    let mut op = FreezePermissionless { op: permissionless_op(mint, cfg, ta, owner) };
    assert_eq!(op.process(&p, &Vec::new(), false, Decision::Approve), Err(TokenAclError::PermissionlessFreezeNotEnabled));
}

#[test]
fn test_permissionless_guard_in_flight() {
    let (mint, mut cfg) = setup_token_acl(&gate());
    set_flags(&mut cfg, true, true);
    let owner = addr(51);
    let ta = user_token_account(addr(50), owner, AccountState::Frozen);
    let p = programs();
    let mut op = permissionless_op(mint, cfg, ta, owner);
    // another request on the same token account holds the guard record
    op.flag_account.owner = p.token_acl;
    op.flag_account.data = vec![1u8];
    let r = op.run(&p, &Vec::new(), true, false, Decision::Approve);
    assert_eq!(r, Err(TokenAclError::AccountAlreadyInUse));
    assert_eq!(op.token_account.state.unwrap().state, AccountState::Frozen);
    assert_eq!(op.flag_account.data, vec![1u8]);
    // once released, the request goes through
    op.flag_account.owner = Address::zero();
    op.flag_account.data = Vec::new();
    assert_eq!(op.run(&p, &Vec::new(), true, false, Decision::Approve), Ok(()));
    assert_eq!(op.token_account.state.unwrap().state, AccountState::Initialized);
}

#[test]
fn test_permissionless_guard_address_checked() {
    let (mint, mut cfg) = setup_token_acl(&gate());
    set_flags(&mut cfg, true, true);
    let owner = addr(51);
    let ta = user_token_account(addr(50), owner, AccountState::Frozen);
    let p = programs();
    let mut op = permissionless_op(mint, cfg, ta, owner);
    op.flag_account.key = addr(77);
    assert_eq!(op.run(&p, &Vec::new(), true, false, Decision::Approve), Err(TokenAclError::MissingRequiredSignature));
}

#[test]
fn test_permissionless_missing_context_account() {
    let (mint, mut cfg) = setup_token_acl(&gate());
    set_flags(&mut cfg, true, true);
    let owner = addr(51);
    let ta = user_token_account(addr(50), owner, AccountState::Frozen);
    let p = programs();
    let mut op = permissionless_op(mint, cfg, ta, owner);
    let (list_key, _) = token_acl::pda::find_metas_address(&mint_key(), &gate(), true).unwrap();
    op.remaining_accounts = vec![AccountRef { key: list_key, data: vec![9u8] }];
    let metas = vec![ExtraMeta { address: token_acl::resolver::MetaAddress::Fixed(addr(88)), is_signer: false, is_writable: false }];
    assert_eq!(op.run(&p, &metas, true, false, Decision::Approve), Err(TokenAclError::NotEnoughAccountKeys));
    assert_eq!(TokenAclError::NotEnoughAccountKeys.kind(), ErrorKind::Resource);
    op.remaining_accounts.push(AccountRef { key: addr(88), data: Vec::new() });
    assert_eq!(op.run(&p, &metas, true, false, Decision::Approve), Ok(()));
}

#[test]
fn test_permissionless_accounts_checked() {
    let p = programs();
    let (mint, mut cfg) = setup_token_acl(&gate());
    cfg.owner = addr(3);
    let owner = addr(51);
    let ta = user_token_account(addr(50), owner, AccountState::Frozen);
    let r = Permissionless::try_from(
        &p,
        signer(addr(30), 0),
        mint,
        ta,
        fresh(addr(31)),
        AccountRef { key: owner, data: Vec::new() },
        cfg,
        p.token,
        Address::zero(),
        gate(),
        Vec::new(),
    );
    assert_eq!(r.err(), Some(TokenAclError::InvalidMintConfig));
}

#[test]
fn test_token_program_refusals() {
    let p = programs();
    let (mint, cfg) = setup_token_acl(&gate());
    let mut other_mint = user_token_account(addr(50), addr(51), AccountState::Frozen);
    other_mint.state = Some(TokenState { mint: addr(22), owner: addr(51), state: AccountState::Frozen });
    assert_eq!(thaw(&p, &signer(auth(), 0), &mint, &cfg, &mut other_mint, &p.token), Err(TokenAclError::TokenMintMismatch));
    let mut uninitialized = user_token_account(addr(50), addr(51), AccountState::Uninitialized);
    assert_eq!(
        thaw(&p, &signer(auth(), 0), &mint, &cfg, &mut uninitialized, &p.token),
        Err(TokenAclError::TokenUninitializedState)
    );
    let mut moved = MintAccount { key: mint.key, owner: mint.owner, data: Vec::new(), state: mint.state };
    moved.state = Some(MintState { freeze_authority: Some(addr(70)), default_account_state: true });
    let mut ta = user_token_account(addr(50), addr(51), AccountState::Frozen);
    assert_eq!(thaw(&p, &signer(auth(), 0), &moved, &cfg, &mut ta, &p.token), Err(TokenAclError::TokenOwnerMismatch));
    assert_eq!(ta.state.unwrap().state, AccountState::Frozen);
    assert_eq!(thaw(&p, &signer(auth(), 0), &mint, &cfg, &mut ta, &addr(3)), Err(TokenAclError::InvalidTokenProgram));
}

#[test]
fn test_thaw_permissionless_idempotent_owner_mismatch() {
    let (mint, mut cfg) = setup_token_acl(&gate());
    set_flags(&mut cfg, false, true);
    let ta = user_token_account(addr(50), addr(51), AccountState::Frozen);
    let p = programs();
    let mut op = ThawPermissionless { op: permissionless_op(mint, cfg, ta, addr(52)) };
    assert_eq!(op.process(&p, &Vec::new(), true, Decision::Approve), Err(TokenAclError::InvalidTokenAccountOwner));
}

#[test]
fn test_delete_config_refund_overflow() {
    let p = programs();
    let (mint, cfg) = setup_token_acl(&gate());
    let mut receiver = fresh(auth());
    receiver.lamports = u64::MAX - RENT + 1;
    let mut dc = DeleteConfig::try_from(&p, signer(auth(), 0), receiver, mint, cfg, p.token).unwrap();
    assert_eq!(dc.process(&p, &addr(60).to_vec()), Err(TokenAclError::ArithmeticOverflow));
    assert_eq!(dc.mint_config.lamports, RENT);
    assert_eq!(TokenAclError::ArithmeticOverflow.kind(), ErrorKind::Resource);
}

#[test]
fn test_create_mint_config_payer_must_sign() {
    let p = programs();
    let (cfg_pk, _) = config_key(&mint_key());
    let mut payer = signer(addr(11), RENT);
    payer.is_signer = false;
    let mut cc = CreateConfig::try_from(&p, payer, signer(auth(), 0), new_mint(mint_key(), Some(auth()), true), fresh(cfg_pk), Address::zero(), p.token)
        .unwrap();
    assert_eq!(cc.process(&p, RENT, &gate().to_vec()), Err(TokenAclError::MissingRequiredSignature));
    let mut closed = new_mint(mint_key(), Some(auth()), true);
    closed.state = None;
    let mut cc = CreateConfig::try_from(&p, signer(addr(11), RENT), signer(auth(), 0), closed, fresh(cfg_pk), Address::zero(), p.token)
        .unwrap();
    assert_eq!(cc.process(&p, RENT, &gate().to_vec()), Err(TokenAclError::InvalidAccountData));
}

#[test]
fn test_delete_config_mint_without_freeze_authority() {
    let p = programs();
    let (mut mint, cfg) = setup_token_acl(&gate());
    mint.state = Some(MintState { freeze_authority: None, default_account_state: true });
    let mut dc = DeleteConfig::try_from(&p, signer(auth(), 0), fresh(auth()), mint, cfg, p.token).unwrap();
    assert_eq!(dc.process(&p, &addr(60).to_vec()), Ok(()));
    assert_eq!(dc.mint.state.unwrap().freeze_authority, None);
    assert_eq!(dc.receiver.lamports, RENT);
    assert!(dc.mint_config.data.is_empty());
}

#[test]
fn test_permissionless_begin_then_complete() {
    let (mint, mut cfg) = setup_token_acl(&gate());
    set_flags(&mut cfg, true, true);
    let owner = addr(51);
    let ta = user_token_account(addr(50), owner, AccountState::Frozen);
    let p = programs();
    let mut op = permissionless_op(mint, cfg, ta, owner);
    let call = op.begin(&p, &Vec::new(), true, false).unwrap().unwrap();
    let keys: Vec<Address> = call.iter().map(|a| a.key).collect();
    assert_eq!(keys, vec![addr(30), addr(50), mint_key(), owner, op.flag_account.key]);
    assert_eq!(op.flag_account.owner, p.token_acl);
    assert_eq!(op.flag_account.data, vec![1u8]);
    // a second request on the same account while this one is in flight
    assert_eq!(op.begin(&p, &Vec::new(), true, false).err(), Some(TokenAclError::AccountAlreadyInUse));
    assert_eq!(op.complete(true, Decision::Deny(TokenAclError::InvalidAccountData)), Err(TokenAclError::InvalidAccountData));
    assert!(op.flag_account.data.is_empty());
    assert_eq!(op.flag_account.owner, Address::zero());
    assert_eq!(op.token_account.state.unwrap().state, AccountState::Frozen);
    op.begin(&p, &Vec::new(), true, false).unwrap().unwrap();
    assert_eq!(op.complete(true, Decision::Approve), Ok(()));
    assert_eq!(op.token_account.state.unwrap().state, AccountState::Initialized);
    assert!(op.flag_account.data.is_empty());
}
