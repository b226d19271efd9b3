use token_acl::accounts::{Account, AccountState, MintAccount, MintState, Programs, TokenAccount, TokenState};
use token_acl::address::Address;
use token_acl::client::{create_ata_and_thaw_permissionless_instructions, create_freeze_permissionless_instruction_with_extra_metas, create_thaw_permissionless_instruction_with_extra_metas};
use token_acl::config::{update_config, ConfigUpdate, CreateConfig};
use token_acl::error::TokenAclError;
use token_acl::metadata::set_mint_tacl_metadata_field;
use token_acl::pda::{derive_program_address, find_config_address, find_guard_address, find_metas_address};
use token_acl::permissionless::{Decision, FreezePermissionless, Permissionless, ThawPermissionless};
use token_acl::permissioned::thaw;
use token_acl::resolver::{AccountRef, ExtraMeta, MetaAddress, Seed};

const DEPOSIT: u64 = 2_000_000;

fn k(n: u8) -> Address {
    Address::new([n; 32])
}

fn progs() -> Programs {
    Programs { token_acl: k(200), token: k(201) }
}

fn ata_program() -> Address {
    k(202)
}

fn allow_gate() -> Address {
    k(160)
}

fn the_mint() -> Address {
    k(20)
}

fn the_auth() -> Address {
    k(10)
}

fn acct(key: Address, signs: bool) -> Account {
    Account { key, owner: Address::zero(), lamports: DEPOSIT, data: Vec::new(), is_signer: signs }
}

fn created(gate: &Address) -> (MintAccount, Account) {
    let p = progs();
    let cfg = find_config_address(&the_mint(), &p.token_acl).unwrap().0;
    let mint = MintAccount {
        key: the_mint(),
        owner: p.token,
        data: Vec::new(),
        state: Some(MintState { freeze_authority: Some(the_auth()), default_account_state: true }),
    };
    let mut empty = acct(cfg, false);
    empty.lamports = 0;
    let mut cc = CreateConfig::try_from(&p, acct(the_auth(), true), acct(the_auth(), true), mint, empty, Address::zero(), p.token)
        .unwrap();
    cc.process(&p, DEPOSIT, &gate.to_vec()).unwrap();
    (cc.mint, cc.mint_config)
}

fn flags(cfg: &mut Account, freeze: bool, thaw: bool) {
    update_config(&progs(), &acct(the_auth(), true), cfg, ConfigUpdate::SetPermissionless { freeze, thaw }).unwrap();
}

fn holder_account(key: Address, owner: Address, state: AccountState) -> TokenAccount {
    let mut data = the_mint().to_vec();
    data.extend_from_slice(&owner.to_vec());
    data.extend_from_slice(&[0u8; 8]);
    TokenAccount { key, owner: progs().token, data, state: Some(TokenState { mint: the_mint(), owner, state }) }
}

/// The descriptor list of a decision program that needs the associated
/// token program, the token program, the owner, its associated token
/// account and its own list account.
fn deps_metas(thaw: bool) -> Vec<ExtraMeta> {
    let tag: &[u8] = if thaw { b"thaw_extra_account_metas" } else { b"freeze_extra_account_metas" };
    vec![
        ExtraMeta { address: MetaAddress::Fixed(ata_program()), is_signer: false, is_writable: false },
        ExtraMeta { address: MetaAddress::Fixed(progs().token), is_signer: false, is_writable: false },
        ExtraMeta { address: MetaAddress::AccountData { account_index: 1, data_index: 32 }, is_signer: false, is_writable: false },
        ExtraMeta {
            address: MetaAddress::Derived {
                program_index: Some(6),
                seeds: vec![Seed::AccountKey(3), Seed::AccountKey(7), Seed::AccountKey(2)],
            },
            is_signer: false,
            is_writable: false,
        },
        ExtraMeta {
            address: MetaAddress::Derived { program_index: None, seeds: vec![Seed::Literal(tag.to_vec()), Seed::AccountKey(2)] },
            is_signer: false,
            is_writable: false,
        },
    ]
}

fn op_for(mint: MintAccount, cfg: Account, ta: TokenAccount, user: Address, remaining: Vec<AccountRef>) -> Permissionless {
    let p = progs();
    let flag = find_guard_address(&ta.key, &p.token_acl).unwrap().0;
    let mut guard = acct(flag, false);
    guard.lamports = 0;
    Permissionless::try_from(
        &p,
        acct(user, true),
        mint,
        ta,
        guard,
        AccountRef { key: user, data: Vec::new() },
        cfg,
        p.token,
        Address::zero(),
        allow_gate(),
        remaining,
    )
    .unwrap()
}

/// Everything on the ledger a builder may fetch.
fn ledger(ta: &TokenAccount, user: Address, thaw: bool) -> Vec<AccountRef> {
    let list = find_metas_address(&the_mint(), &allow_gate(), thaw).unwrap().0;
    let ata = derive_program_address(&vec![user.to_vec(), progs().token.to_vec(), the_mint().to_vec()], &ata_program()).unwrap().0;
    vec![
        AccountRef { key: ta.key, data: ta.data.clone() },
        AccountRef { key: list, data: vec![1, 2, 3] },
        AccountRef { key: ata_program(), data: Vec::new() },
        AccountRef { key: progs().token, data: Vec::new() },
        AccountRef { key: user, data: Vec::new() },
        AccountRef { key: ata, data: Vec::new() },
        AccountRef { key: the_mint(), data: Vec::new() },
    ]
}

/// The remaining accounts of a built request, with their data from `ledger`.
fn carried(accounts: &[Address], ledger: &[AccountRef]) -> Vec<AccountRef> {
    accounts
        .iter()
        .map(|a| AccountRef { key: *a, data: ledger.iter().find(|r| r.key == *a).map(|r| r.data.clone()).unwrap_or_default() })
        .collect()
}

/// The answer of a decision program that approves any request carrying
/// every account its list names (five fixed, the list, five more), and
/// fails with the runtime's not-enough-accounts error otherwise.
fn allow_with_deps(call: &[AccountRef]) -> Decision {
    if call.len() < 11 {
        Decision::Deny(TokenAclError::NotEnoughAccountKeys)
    } else {
        Decision::Approve
    }
}

/// Opens the request, lets the decision program answer the call it builds,
/// and closes the request with that answer.
fn gated_run(op: &mut Permissionless, metas: &Vec<ExtraMeta>, thaw: bool) -> Result<(), TokenAclError> {
    let p = progs();
    match op.begin(&p, metas, thaw, false)? {
        None => Ok(()),
        Some(call) => {
            // while the decision program runs, the guard record is held
            assert_eq!(op.flag_account.owner, p.token_acl);
            assert_eq!(op.flag_account.data, vec![1u8]);
            assert_eq!(call[4].key, op.flag_account.key);
            assert_eq!(call[4].data, vec![1u8]);
            let answer = allow_with_deps(&call);
            op.complete(thaw, answer)
        },
    }
}

#[test]
fn test_freeze_permissionless_always_block() {
    let p = progs();
    let (mint, mut cfg) = created(&allow_gate());
    let user = k(52);
    let mut ta = holder_account(k(53), user, AccountState::Frozen);
    thaw(&p, &acct(the_auth(), true), &mint, &cfg, &mut ta, &p.token).unwrap();
    assert_eq!(ta.state.unwrap().state, AccountState::Initialized);
    let mut op = FreezePermissionless { op: op_for(mint, cfg, ta, user, Vec::new()) };
    assert_eq!(op.process(&p, &Vec::new(), false, Decision::Deny(TokenAclError::GateRejected(999999999))), Err(TokenAclError::PermissionlessFreezeNotEnabled));
    cfg = op.op.mint_config;
    flags(&mut cfg, true, false);
    let mut op = FreezePermissionless { op: op_for(op.op.mint, cfg, op.op.token_account, user, Vec::new()) };
    assert_eq!(op.process(&p, &Vec::new(), false, Decision::Deny(TokenAclError::GateRejected(999999999))), Err(TokenAclError::GateRejected(999999999)));
    assert_eq!(op.op.token_account.state.unwrap().state, AccountState::Initialized);
}

#[test]
fn test_freeze_permissionless_always_allow_with_deps() {
    let p = progs();
    let (mint, mut cfg) = created(&allow_gate());
    let user = k(52);
    let mut ta = holder_account(k(53), user, AccountState::Frozen);
    thaw(&p, &acct(the_auth(), true), &mint, &cfg, &mut ta, &p.token).unwrap();
    assert_eq!(ta.state.unwrap().state, AccountState::Initialized);
    flags(&mut cfg, true, false);
    let chain = ledger(&ta, user, false);
    let list = find_metas_address(&the_mint(), &allow_gate(), false).unwrap().0;

    // no remaining accounts: the decision program itself lacks accounts
    let mut op = op_for(mint, cfg, ta, user, Vec::new());
    assert_eq!(gated_run(&mut op, &deps_metas(false), false), Err(TokenAclError::NotEnoughAccountKeys));
    assert_eq!(op.flag_account.owner, Address::zero());
    assert!(op.flag_account.data.is_empty());
    assert_eq!(op.token_account.state.unwrap().state, AccountState::Initialized);

    // the list account alone: its descriptors name accounts not supplied
    op.remaining_accounts = carried(&[list], &chain);
    assert_eq!(gated_run(&mut op, &deps_metas(false), false), Err(TokenAclError::NotEnoughAccountKeys));
    assert!(op.flag_account.data.is_empty());

    let ix = create_freeze_permissionless_instruction_with_extra_metas(
        &p.token_acl,
        &user,
        &op.token_account.key,
        &the_mint(),
        &op.mint_config.key,
        &p.token,
        &user,
        false,
        &Some(op.mint_config.data.clone()),
        &deps_metas(false),
        &chain,
    )
    .unwrap();
    assert_eq!(ix.accounts.len(), 15);
    let extra: Vec<Address> = ix.accounts[9..].iter().map(|m| m.pubkey).collect();
    op.remaining_accounts = carried(&extra, &chain);
    assert_eq!(gated_run(&mut op, &deps_metas(false), false), Ok(()));
    assert_eq!(op.token_account.state.unwrap().state, AccountState::Frozen);
    assert!(op.flag_account.data.is_empty());
}

#[test]
fn test_thaw_permissionless_always_allow_with_deps() {
    let p = progs();
    let (mint, mut cfg) = created(&allow_gate());
    flags(&mut cfg, false, true);
    let user = k(52);
    let ta = holder_account(k(53), user, AccountState::Frozen);
    let chain = ledger(&ta, user, true);
    let list = find_metas_address(&the_mint(), &allow_gate(), true).unwrap().0;
    // no remaining accounts: the decision program itself lacks accounts
    let mut op = ThawPermissionless { op: op_for(mint, cfg, ta, user, Vec::new()) };
    assert_eq!(gated_run(&mut op.op, &deps_metas(true), true), Err(TokenAclError::NotEnoughAccountKeys));
    assert_eq!(op.op.token_account.state.unwrap().state, AccountState::Frozen);
    assert!(op.op.flag_account.data.is_empty());

    // the list account alone: its descriptors name accounts not supplied
    op.op.remaining_accounts = carried(&[list], &chain);
    assert_eq!(op.process(&p, &deps_metas(true), false, Decision::Approve), Err(TokenAclError::NotEnoughAccountKeys));
    assert_eq!(op.op.token_account.state.unwrap().state, AccountState::Frozen);

    let ix = create_thaw_permissionless_instruction_with_extra_metas(
        &p.token_acl,
        &user,
        &op.op.token_account.key,
        &the_mint(),
        &op.op.mint_config.key,
        &p.token,
        &user,
        false,
        &Some(op.op.mint_config.data.clone()),
        &deps_metas(true),
        &chain,
    )
    .unwrap();
    let extra: Vec<Address> = ix.accounts[9..].iter().map(|m| m.pubkey).collect();
    assert_eq!(extra[0], list);
    assert_eq!(extra[3], user);
    assert_eq!(extra[5], list);
    op.op.remaining_accounts = carried(&extra, &chain);
    assert_eq!(gated_run(&mut op.op, &deps_metas(true), true), Ok(()));
    assert_eq!(op.op.token_account.state.unwrap().state, AccountState::Initialized);
}

#[test]
fn test_create_ata_and_thaw_permissionless() {
    let p = progs();
    let (mint, mut cfg) = created(&allow_gate());
    flags(&mut cfg, false, true);
    let user = k(52);
    let ata = derive_program_address(&vec![user.to_vec(), p.token.to_vec(), the_mint().to_vec()], &ata_program()).unwrap().0;
    let fresh = holder_account(ata, user, AccountState::Frozen);
    let mut chain = ledger(&fresh, user, true);
    chain.remove(0);
    let (key, value) = set_mint_tacl_metadata_field(&allow_gate());
    let ixs = create_ata_and_thaw_permissionless_instructions(
        &p.token_acl,
        &user,
        &the_mint(),
        &p.token,
        &user,
        true,
        &p.token,
        &ata_program(),
        &Some(vec![(key, value)]),
        &deps_metas(true),
        &chain,
    )
    .unwrap();
    assert_eq!(ixs.len(), 2);
    assert_eq!(ixs[0].data, vec![1]);
    assert_eq!(ixs[1].data, vec![6, 1]);
    let extra: Vec<Address> = ixs[1].accounts[9..].iter().map(|m| m.pubkey).collect();
    assert_eq!(extra.len(), 6);

    // once the account exists (frozen by default), the thaw goes through
    chain.push(AccountRef { key: ata, data: fresh.data.clone() });
    let mut op = ThawPermissionless { op: op_for(mint, cfg, fresh, user, carried(&extra, &chain)) };
    assert_eq!(op.process(&p, &deps_metas(true), true, Decision::Approve), Ok(()));
    assert_eq!(op.op.token_account.state.unwrap().state, AccountState::Initialized);
    // a second, non-idempotent thaw is refused by the token program
    assert_eq!(op.process(&p, &deps_metas(true), false, Decision::Approve), Err(TokenAclError::TokenInvalidState));
    // an idempotent one is a no-op
    assert_eq!(op.process(&p, &deps_metas(true), true, Decision::Approve), Ok(()));
}
