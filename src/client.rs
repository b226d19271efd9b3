use vstd::prelude::*;
use crate::address::{Address, zero_address};
use crate::error::TokenAclError;
use crate::instruction::{InstructionModel, TokenAclInstruction, encode_instruction};
use crate::metadata::{fields_view, gating_program_of, get_gating_program_from_mint_data};
use crate::pda::{
    config_address_of, find_config_address, find_guard_address, find_program_address, guard_address_of,
    program_address, seeds_view,
};
use crate::permissionless::{gate_call_spec, gate_call_accounts};
use crate::resolver::{
    AccountRef, AccountRefModel, ExtraMeta, ExtraMetaModel, copy_bytes, fetch, fetched, find_in_pool, lemma_resolve_extends,
    metas_view, pool_find, refs_view,
};
use crate::state::{MintConfig, decode_config};

verus! {

/// One account of a request, with its roles.
#[derive(Clone, Copy, Debug)]
pub struct AccountMeta {
    pub pubkey: Address,
    pub is_signer: bool,
    pub is_writable: bool,
}

pub struct AccountMetaModel {
    pub pubkey: Seq<u8>,
    pub is_signer: bool,
    pub is_writable: bool,
}

impl View for AccountMeta {
    type V = AccountMetaModel;

    open spec fn view(&self) -> AccountMetaModel {
        AccountMetaModel { pubkey: self.pubkey@, is_signer: self.is_signer, is_writable: self.is_writable }
    }
}

/// A request ready to submit: the program, its accounts in order, and its
/// bytes.
#[derive(Debug)]
pub struct Instruction {
    pub program_id: Address,
    pub accounts: Vec<AccountMeta>,
    pub data: Vec<u8>,
}

pub struct InstructionView {
    pub program_id: Seq<u8>,
    pub accounts: Seq<AccountMetaModel>,
    pub data: Seq<u8>,
}

pub open spec fn account_metas_view(s: Seq<AccountMeta>) -> Seq<AccountMetaModel> {
    s.map_values(|a: AccountMeta| a@)
}

impl View for Instruction {
    type V = InstructionView;

    open spec fn view(&self) -> InstructionView {
        InstructionView {
            program_id: self.program_id@,
            accounts: account_metas_view(self.accounts@),
            data: self.data@,
        }
    }
}

pub open spec fn meta(k: Seq<u8>, s: bool, w: bool) -> AccountMetaModel {
    AccountMetaModel { pubkey: k, is_signer: s, is_writable: w }
}

/// The fixed accounts of a permissionless request, in the order the
/// program reads them.
pub open spec fn permissionless_fixed_metas(
    signer: Seq<u8>,
    mint: Seq<u8>,
    token_account: Seq<u8>,
    flag: Seq<u8>,
    owner: Seq<u8>,
    config: Seq<u8>,
    token_program: Seq<u8>,
    gate: Seq<u8>,
) -> Seq<AccountMetaModel> {
    seq![
        meta(signer, true, true),
        meta(mint, false, false),
        meta(token_account, false, true),
        meta(flag, false, true),
        meta(owner, false, false),
        meta(config, false, false),
        meta(token_program, false, false),
        meta(zero_address(), false, false),
        meta(gate, false, false),
    ]
}

/// The accounts a decision call adds after its five fixed ones: the list
/// account, then one per descriptor with the descriptor's roles.
pub open spec fn extra_account_metas(l: Seq<AccountRefModel>, metas: Seq<ExtraMetaModel>) -> Seq<AccountMetaModel> {
    Seq::new(
        (l.len() - 5) as nat,
        |i: int|
            if i == 0 {
                meta(l[5].key, false, false)
            } else {
                meta(l[5 + i].key, metas[i - 1].is_signer, metas[i - 1].is_writable)
            },
    )
}

/// The permissionless request built from a snapshot of the ledger: the
/// configuration record's data (if it exists), the descriptor list of the
/// decision program's list account, and the accounts fetched.
pub open spec fn permissionless_instruction_spec(
    program_id: Seq<u8>,
    signer: Seq<u8>,
    token_account: Seq<u8>,
    mint: Seq<u8>,
    mint_config: Seq<u8>,
    token_program: Seq<u8>,
    owner: Seq<u8>,
    idempotent: bool,
    config_data: Option<Seq<u8>>,
    metas: Seq<ExtraMetaModel>,
    snapshot: Seq<AccountRefModel>,
    thaw: bool,
) -> Result<InstructionView, TokenAclError> {
    let c = match config_data {
        None => None,
        Some(d) => decode_config(d),
    };
    match c {
        None => Err(TokenAclError::InvalidAccountData),
        Some(c) => if thaw && !c.enable_permissionless_thaw {
            Err(TokenAclError::PermissionlessThawNotEnabled)
        } else if !thaw && !c.enable_permissionless_freeze {
            Err(TokenAclError::PermissionlessFreezeNotEnabled)
        } else {
            match guard_address_of(token_account, program_id) {
                None => Err(TokenAclError::InvalidSeeds),
                Some((flag, _)) => if c.gating_program == zero_address() {
                    Ok(InstructionView {
                        program_id,
                        accounts: permissionless_fixed_metas(signer, mint, token_account, flag, owner, mint_config, token_program, c.gating_program),
                        data: permissionless_data(idempotent, thaw),
                    })
                } else {
                    request_with_extras(program_id, signer, token_account, mint, mint_config, token_program, owner, flag,
                        c.gating_program, idempotent, metas, snapshot, thaw)
                },
            }
        },
    }
}

/// The bytes of a permissionless request.
pub open spec fn permissionless_data(idempotent: bool, thaw: bool) -> Seq<u8> {
    encode_instruction(
        if thaw { InstructionModel::ThawPermissionless(idempotent) } else { InstructionModel::FreezePermissionless(idempotent) },
    )
}

/// The five fixed accounts of a decision call as a builder sees them ahead
/// of the request: as `snapshot` gives them, but the guard record, which
/// the program creates just before the call, holding its mark 1.
pub open spec fn builder_base(
    snapshot: Seq<AccountRefModel>,
    signer: Seq<u8>,
    token_account: Seq<u8>,
    mint: Seq<u8>,
    owner: Seq<u8>,
    flag: Seq<u8>,
) -> Seq<AccountRefModel> {
    seq![
        fetched(snapshot, signer),
        fetched(snapshot, token_account),
        fetched(snapshot, mint),
        fetched(snapshot, owner),
        AccountRefModel { key: flag, data: seq![1u8] },
    ]
}

/// A permissionless request through decision program `gate`, with the
/// accounts the decision call needs resolved from `snapshot`, as the
/// program will resolve them; accounts the snapshot lacks (not created
/// yet) are named all the same.
pub open spec fn request_with_extras(
    program_id: Seq<u8>,
    signer: Seq<u8>,
    token_account: Seq<u8>,
    mint: Seq<u8>,
    mint_config: Seq<u8>,
    token_program: Seq<u8>,
    owner: Seq<u8>,
    flag: Seq<u8>,
    gate: Seq<u8>,
    idempotent: bool,
    metas: Seq<ExtraMetaModel>,
    snapshot: Seq<AccountRefModel>,
    thaw: bool,
) -> Result<InstructionView, TokenAclError> {
    let fixed = permissionless_fixed_metas(signer, mint, token_account, flag, owner, mint_config, token_program, gate);
    match gate_call_spec(gate, builder_base(snapshot, signer, token_account, mint, owner, flag), mint, snapshot, metas, thaw, false) {
        Err(e) => Err(e),
        Ok(l) => Ok(InstructionView { program_id, accounts: fixed + extra_account_metas(l, metas), data: permissionless_data(idempotent, thaw) }),
    }
}

fn extra_metas_from(l: &Vec<AccountRef>, metas: &Vec<ExtraMeta>) -> (r: Vec<AccountMeta>)
    requires
        l@.len() == 5 || l@.len() == 6 + metas@.len(),
    ensures
        account_metas_view(r@) == extra_account_metas(refs_view(l@), metas_view(metas@)),
{
    let ghost target = extra_account_metas(refs_view(l@), metas_view(metas@));
    let mut r: Vec<AccountMeta> = Vec::new();
    let mut i: usize = 5;
    while i < l.len()
        invariant
            5 <= i <= l@.len(),
            l@.len() == 5 || l@.len() == 6 + metas@.len(),
            target == extra_account_metas(refs_view(l@), metas_view(metas@)),
            account_metas_view(r@) == target.subrange(0, i - 5),
        decreases l@.len() - i,
    {
        let m = if i == 5 {
            AccountMeta { pubkey: l[i].key, is_signer: false, is_writable: false }
        } else {
            AccountMeta { pubkey: l[i].key, is_signer: metas[i - 6].is_signer, is_writable: metas[i - 6].is_writable }
        };
        let ghost prev = account_metas_view(r@);
        r.push(m);
        assert(account_metas_view(r@) =~= prev.push(m@));
        i += 1;
        assert(account_metas_view(r@) =~= target.subrange(0, i - 5));
    }
    assert(target.subrange(0, l@.len() - 5) =~= target);
    r
}

fn fixed_metas(
    signer: &Address,
    mint: &Address,
    token_account: &Address,
    flag: &Address,
    owner: &Address,
    config: &Address,
    token_program: &Address,
    gate: &Address,
) -> (r: Vec<AccountMeta>)
    ensures
        account_metas_view(r@) == permissionless_fixed_metas(signer@, mint@, token_account@, flag@, owner@, config@, token_program@, gate@),
{
    let mut r: Vec<AccountMeta> = Vec::new();
    r.push(AccountMeta { pubkey: *signer, is_signer: true, is_writable: true });
    r.push(AccountMeta { pubkey: *mint, is_signer: false, is_writable: false });
    r.push(AccountMeta { pubkey: *token_account, is_signer: false, is_writable: true });
    r.push(AccountMeta { pubkey: *flag, is_signer: false, is_writable: true });
    r.push(AccountMeta { pubkey: *owner, is_signer: false, is_writable: false });
    r.push(AccountMeta { pubkey: *config, is_signer: false, is_writable: false });
    r.push(AccountMeta { pubkey: *token_program, is_signer: false, is_writable: false });
    r.push(AccountMeta { pubkey: Address::zero(), is_signer: false, is_writable: false });
    r.push(AccountMeta { pubkey: *gate, is_signer: false, is_writable: false });
    assert(account_metas_view(r@) =~= permissionless_fixed_metas(signer@, mint@, token_account@, flag@, owner@, config@, token_program@, gate@));
    r
}

fn build_request(
    program_id: &Address,
    signer: &Address,
    token_account: &Address,
    mint: &Address,
    mint_config: &Address,
    token_program: &Address,
    owner: &Address,
    flag: &Address,
    gate: &Address,
    idempotent: bool,
    metas: &Vec<ExtraMeta>,
    snapshot: &Vec<AccountRef>,
    thaw: bool,
) -> (r: Result<Instruction, TokenAclError>)
    ensures
        match r {
            Ok(ix) => request_with_extras(program_id@, signer@, token_account@, mint@, mint_config@, token_program@, owner@,
                flag@, gate@, idempotent, metas_view(metas@), refs_view(snapshot@), thaw) == Ok::<InstructionView, TokenAclError>(ix@),
            Err(e) => request_with_extras(program_id@, signer@, token_account@, mint@, mint_config@, token_program@, owner@,
                flag@, gate@, idempotent, metas_view(metas@), refs_view(snapshot@), thaw) == Err::<InstructionView, TokenAclError>(e),
        },
{
    let mut accounts = fixed_metas(signer, mint, token_account, flag, owner, mint_config, token_program, gate);
    let data = permissionless_bytes(idempotent, thaw);
    let mut base: Vec<AccountRef> = Vec::new();
    base.push(fetch(snapshot, signer));
    base.push(fetch(snapshot, token_account));
    base.push(fetch(snapshot, mint));
    base.push(fetch(snapshot, owner));
    let mut mark: Vec<u8> = Vec::new();
    mark.push(1u8);
    base.push(AccountRef { key: *flag, data: mark });
    let ghost bv = builder_base(refs_view(snapshot@), signer@, token_account@, mint@, owner@, flag@);
    assert(refs_view(base@) =~= bv);
    let l = gate_call_accounts(gate, base, mint, snapshot, metas, thaw, false)?;
    proof {
        let v = crate::pda::metas_address_of(mint@, gate@, thaw)->Some_0.0;
        if pool_find(refs_view(snapshot@), v) is Some {
            lemma_resolve_extends(metas_view(metas@), bv.push(fetched(refs_view(snapshot@), v)), refs_view(snapshot@), gate@, false);
        }
    }
    let extras = extra_metas_from(&l, metas);
    let ghost fixed = account_metas_view(accounts@);
    let mut j: usize = 0;
    while j < extras.len()
        invariant
            j <= extras@.len(),
            account_metas_view(accounts@) == fixed + account_metas_view(extras@).subrange(0, j as int),
        decreases extras@.len() - j,
    {
        let ghost prev = account_metas_view(accounts@);
        accounts.push(extras[j]);
        assert(account_metas_view(accounts@) =~= prev.push(extras@[j as int]@));
        j += 1;
        assert(account_metas_view(accounts@) =~= fixed + account_metas_view(extras@).subrange(0, j as int));
    }
    assert(account_metas_view(extras@).subrange(0, extras@.len() as int) =~= account_metas_view(extras@));
    Ok(Instruction { program_id: *program_id, accounts, data })
}

fn permissionless_bytes(idempotent: bool, thaw: bool) -> (r: Vec<u8>)
    ensures
        r@ == permissionless_data(idempotent, thaw),
{
    let op = if thaw {
        TokenAclInstruction::ThawPermissionless { idempotent }
    } else {
        TokenAclInstruction::FreezePermissionless { idempotent }
    };
    op.pack()
}

fn permissionless_instruction(
    program_id: &Address,
    signer_pubkey: &Address,
    token_account_pubkey: &Address,
    mint_pubkey: &Address,
    mint_config_pubkey: &Address,
    token_program_pubkey: &Address,
    token_account_owner_pubkey: &Address,
    idempotent: bool,
    mint_config_data: &Option<Vec<u8>>,
    metas: &Vec<ExtraMeta>,
    snapshot: &Vec<AccountRef>,
    thaw: bool,
) -> (r: Result<Instruction, TokenAclError>)
    ensures
        match r {
            Ok(ix) => permissionless_instruction_spec(program_id@, signer_pubkey@, token_account_pubkey@, mint_pubkey@,
                mint_config_pubkey@, token_program_pubkey@, token_account_owner_pubkey@, idempotent,
                match mint_config_data { Some(d) => Some(d@), None => None }, metas_view(metas@), refs_view(snapshot@), thaw)
                == Ok::<InstructionView, TokenAclError>(ix@),
            Err(e) => permissionless_instruction_spec(program_id@, signer_pubkey@, token_account_pubkey@, mint_pubkey@,
                mint_config_pubkey@, token_program_pubkey@, token_account_owner_pubkey@, idempotent,
                match mint_config_data { Some(d) => Some(d@), None => None }, metas_view(metas@), refs_view(snapshot@), thaw)
                == Err::<InstructionView, TokenAclError>(e),
        },
{
    let c = match mint_config_data {
        None => None,
        Some(d) => MintConfig::decode(d),
    };
    let c = match c {
        None => {
            return Err(TokenAclError::InvalidAccountData);
        },
        Some(c) => c,
    };
    if thaw && !c.is_permissionless_thaw_enabled() {
        return Err(TokenAclError::PermissionlessThawNotEnabled);
    }
    if !thaw && !c.is_permissionless_freeze_enabled() {
        return Err(TokenAclError::PermissionlessFreezeNotEnabled);
    }
    let flag = match find_guard_address(token_account_pubkey, program_id) {
        None => {
            return Err(TokenAclError::InvalidSeeds);
        },
        Some((f, _)) => f,
    };
    if c.gating_program.is_zero() {
        let accounts = fixed_metas(
            signer_pubkey,
            mint_pubkey,
            token_account_pubkey,
            &flag,
            token_account_owner_pubkey,
            mint_config_pubkey,
            token_program_pubkey,
            &c.gating_program,
        );
        return Ok(Instruction { program_id: *program_id, accounts, data: permissionless_bytes(idempotent, thaw) });
    }
    build_request(program_id, signer_pubkey, token_account_pubkey, mint_pubkey, mint_config_pubkey, token_program_pubkey,
        token_account_owner_pubkey, &flag, &c.gating_program, idempotent, metas, snapshot, thaw)
}

/// Builds a permissionless thaw request for the token account from a
/// snapshot of the ledger. `mint_config_data` is the record's data where the
/// record exists; `metas` is the descriptor list the decision program's list
/// account holds, consulted only where `snapshot` holds that account. The
/// extra accounts are resolved exactly as the program resolves them.
pub fn create_thaw_permissionless_instruction_with_extra_metas(
    program_id: &Address,
    signer_pubkey: &Address,
    token_account_pubkey: &Address,
    mint_pubkey: &Address,
    mint_config_pubkey: &Address,
    token_program_pubkey: &Address,
    token_account_owner_pubkey: &Address,
    idempotent: bool,
    mint_config_data: &Option<Vec<u8>>,
    metas: &Vec<ExtraMeta>,
    snapshot: &Vec<AccountRef>,
) -> (r: Result<Instruction, TokenAclError>)
    ensures
        match r {
            Ok(ix) => permissionless_instruction_spec(program_id@, signer_pubkey@, token_account_pubkey@, mint_pubkey@,
                mint_config_pubkey@, token_program_pubkey@, token_account_owner_pubkey@, idempotent,
                match mint_config_data { Some(d) => Some(d@), None => None }, metas_view(metas@), refs_view(snapshot@), true)
                == Ok::<InstructionView, TokenAclError>(ix@),
            Err(e) => permissionless_instruction_spec(program_id@, signer_pubkey@, token_account_pubkey@, mint_pubkey@,
                mint_config_pubkey@, token_program_pubkey@, token_account_owner_pubkey@, idempotent,
                match mint_config_data { Some(d) => Some(d@), None => None }, metas_view(metas@), refs_view(snapshot@), true)
                == Err::<InstructionView, TokenAclError>(e),
        },
{
    permissionless_instruction(program_id, signer_pubkey, token_account_pubkey, mint_pubkey, mint_config_pubkey,
        token_program_pubkey, token_account_owner_pubkey, idempotent, mint_config_data, metas, snapshot, true)
}

/// Builds a permissionless freeze request; as the thaw builder otherwise.
pub fn create_freeze_permissionless_instruction_with_extra_metas(
    program_id: &Address,
    signer_pubkey: &Address,
    token_account_pubkey: &Address,
    mint_pubkey: &Address,
    mint_config_pubkey: &Address,
    token_program_pubkey: &Address,
    token_account_owner_pubkey: &Address,
    idempotent: bool,
    mint_config_data: &Option<Vec<u8>>,
    metas: &Vec<ExtraMeta>,
    snapshot: &Vec<AccountRef>,
) -> (r: Result<Instruction, TokenAclError>)
    ensures
        match r {
            Ok(ix) => permissionless_instruction_spec(program_id@, signer_pubkey@, token_account_pubkey@, mint_pubkey@,
                mint_config_pubkey@, token_program_pubkey@, token_account_owner_pubkey@, idempotent,
                match mint_config_data { Some(d) => Some(d@), None => None }, metas_view(metas@), refs_view(snapshot@), false)
                == Ok::<InstructionView, TokenAclError>(ix@),
            Err(e) => permissionless_instruction_spec(program_id@, signer_pubkey@, token_account_pubkey@, mint_pubkey@,
                mint_config_pubkey@, token_program_pubkey@, token_account_owner_pubkey@, idempotent,
                match mint_config_data { Some(d) => Some(d@), None => None }, metas_view(metas@), refs_view(snapshot@), false)
                == Err::<InstructionView, TokenAclError>(e),
        },
{
    permissionless_instruction(program_id, signer_pubkey, token_account_pubkey, mint_pubkey, mint_config_pubkey,
        token_program_pubkey, token_account_owner_pubkey, idempotent, mint_config_data, metas, snapshot, false)
}

/// The bytes of an empty, frozen token account of `mint` held by `owner`,
/// with no delegate, native amount or close authority, in the token
/// program's 165-byte account layout: mint, owner, amount (8), delegate
/// (4 + 32), state (1; frozen is 2), native amount (4 + 8), delegated
/// amount (8), close authority (4 + 32).
pub open spec fn frozen_account_bytes(mint: Seq<u8>, owner: Seq<u8>) -> Seq<u8> {
    mint + owner + Seq::new(44, |i: int| 0u8) + seq![2u8] + Seq::new(56, |i: int| 0u8)
}

fn push_zeros(out: &mut Vec<u8>, n: usize)
    ensures
        final(out)@ == old(out)@ + Seq::new(n as nat, |i: int| 0u8),
{
    let mut i: usize = 0;
    while i < n
        invariant
            i <= n,
            out@ == old(out)@ + Seq::new(i as nat, |j: int| 0u8),
        decreases n - i,
    {
        out.push(0u8);
        i += 1;
        assert(out@ =~= old(out)@ + Seq::new(i as nat, |j: int| 0u8));
    }
}

/// The bytes of an empty, frozen token account of `mint` held by `owner`;
/// see `frozen_account_bytes`.
pub fn frozen_account_data(mint: &Address, owner: &Address) -> (r: Vec<u8>)
    ensures
        r@ == frozen_account_bytes(mint@, owner@),
        r@.len() == 165,
{
    let mut r = mint.to_vec();
    let o = owner.to_vec();
    let mut i: usize = 0;
    while i < 32
        invariant
            i <= 32,
            o@ == owner@,
            owner@.len() == 32,
            r@ == mint@ + owner@.subrange(0, i as int),
        decreases 32 - i,
    {
        r.push(o[i]);
        i += 1;
        assert(r@ =~= mint@ + owner@.subrange(0, i as int));
    }
    assert(owner@.subrange(0, 32) =~= owner@);
    push_zeros(&mut r, 44);
    r.push(2u8);
    push_zeros(&mut r, 56);
    assert(r@ =~= frozen_account_bytes(mint@, owner@));
    r
}

/// The request that creates the associated token account `ata` of `owner`
/// for `mint`, paid by `payer`; the idempotent form succeeds where it exists.
pub open spec fn ata_instruction_spec(
    ata_program: Seq<u8>,
    payer: Seq<u8>,
    ata: Seq<u8>,
    owner: Seq<u8>,
    mint: Seq<u8>,
    token_2022: Seq<u8>,
    idempotent: bool,
) -> InstructionView {
    InstructionView {
        program_id: ata_program,
        accounts: seq![
            meta(payer, true, true),
            meta(ata, false, true),
            meta(owner, false, false),
            meta(mint, false, false),
            meta(zero_address(), false, false),
            meta(token_2022, false, false),
        ],
        data: seq![if idempotent { 1u8 } else { 0u8 }],
    }
}

pub open spec fn instructions_view(s: Seq<Instruction>) -> Seq<InstructionView> {
    s.map_values(|i: Instruction| i@)
}

/// The requests that create `owner`'s associated token account for `mint`
/// and then thaw it permissionlessly through the decision program that the
/// mint's metadata names; the thaw is left out where the metadata names
/// none. The new account is not on the ledger yet, so descriptors read it as
/// `frozen_account_bytes(mint, owner)`.
pub open spec fn ata_and_thaw_spec(
    program_id: Seq<u8>,
    payer: Seq<u8>,
    mint: Seq<u8>,
    token_program: Seq<u8>,
    owner: Seq<u8>,
    idempotent: bool,
    token_2022: Seq<u8>,
    ata_program: Seq<u8>,
    metadata: Option<Seq<(Seq<char>, Seq<char>)>>,
    metas: Seq<ExtraMetaModel>,
    snapshot: Seq<AccountRefModel>,
) -> Result<Seq<InstructionView>, TokenAclError> {
    match program_address(seq![owner, token_2022, mint], ata_program) {
        None => Err(TokenAclError::InvalidSeeds),
        Some((ata, _)) => {
            let ata_ix = ata_instruction_spec(ata_program, payer, ata, owner, mint, token_2022, idempotent);
            if pool_find(snapshot, mint) is None {
                Err(TokenAclError::InvalidTokenMint)
            } else {
                match config_address_of(mint, program_id) {
                    None => Err(TokenAclError::InvalidSeeds),
                    Some((cfg, _)) => match guard_address_of(ata, program_id) {
                        None => Err(TokenAclError::InvalidSeeds),
                        Some((flag, _)) => match gating_program_of(metadata) {
                            Err(_) => Ok(seq![ata_ix]),
                            Ok(gate) => match request_with_extras(
                                program_id, payer, ata, mint, cfg, token_program, owner, flag, gate, idempotent, metas,
                                seq![AccountRefModel { key: ata, data: frozen_account_bytes(mint, owner) }] + snapshot, true,
                            ) {
                                Err(e) => Err(e),
                                Ok(ix) => Ok(seq![ata_ix, ix]),
                            },
                        },
                    },
                }
            }
        },
    }
}

fn ata_instruction(
    ata_program: &Address,
    payer: &Address,
    ata: &Address,
    owner: &Address,
    mint: &Address,
    token_2022: &Address,
    idempotent: bool,
) -> (r: Instruction)
    ensures
        r@ == ata_instruction_spec(ata_program@, payer@, ata@, owner@, mint@, token_2022@, idempotent),
{
    let mut accounts: Vec<AccountMeta> = Vec::new();
    accounts.push(AccountMeta { pubkey: *payer, is_signer: true, is_writable: true });
    accounts.push(AccountMeta { pubkey: *ata, is_signer: false, is_writable: true });
    accounts.push(AccountMeta { pubkey: *owner, is_signer: false, is_writable: false });
    accounts.push(AccountMeta { pubkey: *mint, is_signer: false, is_writable: false });
    accounts.push(AccountMeta { pubkey: Address::zero(), is_signer: false, is_writable: false });
    accounts.push(AccountMeta { pubkey: *token_2022, is_signer: false, is_writable: false });
    let mut data: Vec<u8> = Vec::new();
    data.push(if idempotent { 1u8 } else { 0u8 });
    let r = Instruction { program_id: *ata_program, accounts, data };
    assert(r@.accounts =~= ata_instruction_spec(ata_program@, payer@, ata@, owner@, mint@, token_2022@, idempotent).accounts);
    assert(r@.data =~= ata_instruction_spec(ata_program@, payer@, ata@, owner@, mint@, token_2022@, idempotent).data);
    r
}

fn with_first(first: AccountRef, rest: &Vec<AccountRef>) -> (r: Vec<AccountRef>)
    ensures
        refs_view(r@) == seq![first@] + refs_view(rest@),
{
    let ghost fv = first@;
    let mut r: Vec<AccountRef> = Vec::new();
    r.push(first);
    let mut i: usize = 0;
    while i < rest.len()
        invariant
            i <= rest@.len(),
            refs_view(r@) == seq![fv] + refs_view(rest@).subrange(0, i as int),
        decreases rest@.len() - i,
    {
        let ghost prev = refs_view(r@);
        let a = rest[i].copy();
        r.push(a);
        assert(refs_view(r@) =~= prev.push(rest@[i as int]@));
        i += 1;
        assert(refs_view(r@) =~= seq![fv] + refs_view(rest@).subrange(0, i as int));
    }
    assert(refs_view(rest@).subrange(0, rest@.len() as int) =~= refs_view(rest@));
    r
}

/// Builds the requests that create `owner`'s associated token account for
/// the mint and thaw it permissionlessly; see `ata_and_thaw_spec`.
pub fn create_ata_and_thaw_permissionless_instructions(
    program_id: &Address,
    payer_pubkey: &Address,
    mint_pubkey: &Address,
    token_program_pubkey: &Address,
    token_account_owner_pubkey: &Address,
    idempotent: bool,
    token_2022_program: &Address,
    associated_token_program: &Address,
    mint_metadata: &Option<Vec<(String, String)>>,
    metas: &Vec<ExtraMeta>,
    snapshot: &Vec<AccountRef>,
) -> (r: Result<Vec<Instruction>, TokenAclError>)
    ensures
        match r {
            Ok(ixs) => ata_and_thaw_spec(program_id@, payer_pubkey@, mint_pubkey@, token_program_pubkey@,
                token_account_owner_pubkey@, idempotent, token_2022_program@, associated_token_program@,
                fields_view(*mint_metadata), metas_view(metas@), refs_view(snapshot@))
                == Ok::<Seq<InstructionView>, TokenAclError>(instructions_view(ixs@)),
            Err(e) => ata_and_thaw_spec(program_id@, payer_pubkey@, mint_pubkey@, token_program_pubkey@,
                token_account_owner_pubkey@, idempotent, token_2022_program@, associated_token_program@,
                fields_view(*mint_metadata), metas_view(metas@), refs_view(snapshot@))
                == Err::<Seq<InstructionView>, TokenAclError>(e),
        },
{
    let mut seeds: Vec<Vec<u8>> = Vec::new();
    seeds.push(token_account_owner_pubkey.to_vec());
    seeds.push(token_2022_program.to_vec());
    seeds.push(mint_pubkey.to_vec());
    assert(seeds_view(seeds@) =~= seq![token_account_owner_pubkey@, token_2022_program@, mint_pubkey@]);
    let ata = match find_program_address(&seeds, associated_token_program) {
        None => {
            return Err(TokenAclError::InvalidSeeds);
        },
        Some((a, _)) => a,
    };
    let ata_ix = ata_instruction(associated_token_program, payer_pubkey, &ata, token_account_owner_pubkey, mint_pubkey,
        token_2022_program, idempotent);
    if find_in_pool(snapshot, mint_pubkey).is_none() {
        return Err(TokenAclError::InvalidTokenMint);
    }
    let cfg = match find_config_address(mint_pubkey, program_id) {
        None => {
            return Err(TokenAclError::InvalidSeeds);
        },
        Some((c, _)) => c,
    };
    let flag = match find_guard_address(&ata, program_id) {
        None => {
            return Err(TokenAclError::InvalidSeeds);
        },
        Some((f, _)) => f,
    };
    let mut out: Vec<Instruction> = Vec::new();
    match get_gating_program_from_mint_data(mint_metadata) {
        Err(_) => {
            let ghost iv = ata_ix@;
            out.push(ata_ix);
            assert(instructions_view(out@) =~= seq![iv]);
            Ok(out)
        },
        Ok(gate) => {
            let pool = with_first(AccountRef { key: ata, data: frozen_account_data(mint_pubkey, token_account_owner_pubkey) }, snapshot);
            let ix = build_request(program_id, payer_pubkey, &ata, mint_pubkey, &cfg, token_program_pubkey,
                token_account_owner_pubkey, &flag, &gate, idempotent, metas, &pool, true)?;
            let ghost iv = ata_ix@;
            let ghost xv = ix@;
            out.push(ata_ix);
            out.push(ix);
            assert(instructions_view(out@) =~= seq![iv, xv]);
            Ok(out)
        },
    }
}

} // verus!
