use vstd::prelude::*;
use crate::address::{Address, zero_address};
use crate::client::{AccountMeta, AccountMetaModel, Instruction, InstructionView, meta};
use crate::error::TokenAclError;
use crate::instruction::{InstructionModel, TokenAclInstruction, encode_instruction};
use crate::pda::{config_address_of, find_config_address};

verus! {

/// The request for `op` to `program_id` over `accounts`, where `mint` has
/// a derived record address; the accounts are given that address.
pub open spec fn config_request(
    program_id: Seq<u8>,
    mint: Seq<u8>,
    accounts: spec_fn(Seq<u8>) -> Seq<AccountMetaModel>,
    op: InstructionModel,
) -> Result<InstructionView, TokenAclError> {
    match config_address_of(mint, program_id) {
        None => Err(TokenAclError::InvalidSeeds),
        Some((cfg, _)) => Ok(InstructionView { program_id, accounts: accounts(cfg), data: encode_instruction(op) }),
    }
}

pub open spec fn result_view(r: Result<Instruction, TokenAclError>) -> Result<InstructionView, TokenAclError> {
    match r {
        Ok(ix) => Ok(ix@),
        Err(e) => Err(e),
    }
}

fn config_of(mint: &Address, program_id: &Address) -> (r: Result<Address, TokenAclError>)
    ensures
        match r {
            Ok(a) => config_address_of(mint@, program_id@) matches Some(found) && found.0 == a@,
            Err(e) => config_address_of(mint@, program_id@) is None && e == TokenAclError::InvalidSeeds,
        },
{
    match find_config_address(mint, program_id) {
        None => Err(TokenAclError::InvalidSeeds),
        Some((a, _)) => Ok(a),
    }
}

/// The accounts of a creation.
pub open spec fn create_config_metas(payer: Seq<u8>, authority: Seq<u8>, mint: Seq<u8>, token_program: Seq<u8>) -> spec_fn(Seq<u8>) -> Seq<AccountMetaModel> {
    |cfg: Seq<u8>| seq![
        meta(payer, true, true),
        meta(authority, true, false),
        meta(mint, false, true),
        meta(cfg, false, true),
        meta(zero_address(), false, false),
        meta(token_program, false, false),
    ]
}

/// The request that creates `mint`'s record, delegating to `gating_program`
/// (the null identity for none).
pub fn create_config_instruction(
    program_id: &Address,
    payer: &Address,
    authority: &Address,
    mint: &Address,
    token_program: &Address,
    gating_program: &Address,
) -> (r: Result<Instruction, TokenAclError>)
    ensures
        result_view(r) == config_request(program_id@, mint@, create_config_metas(payer@, authority@, mint@, token_program@),
            InstructionModel::CreateConfig(gating_program@)),
{
    let cfg = config_of(mint, program_id)?;
    let mut accounts: Vec<AccountMeta> = Vec::new();
    accounts.push(AccountMeta { pubkey: *payer, is_signer: true, is_writable: true });
    accounts.push(AccountMeta { pubkey: *authority, is_signer: true, is_writable: false });
    accounts.push(AccountMeta { pubkey: *mint, is_signer: false, is_writable: true });
    accounts.push(AccountMeta { pubkey: cfg, is_signer: false, is_writable: true });
    accounts.push(AccountMeta { pubkey: Address::zero(), is_signer: false, is_writable: false });
    accounts.push(AccountMeta { pubkey: *token_program, is_signer: false, is_writable: false });
    let data = TokenAclInstruction::CreateConfig { gating_program: *gating_program }.pack();
    let r = Instruction { program_id: *program_id, accounts, data };
    assert(r@.accounts =~= (create_config_metas(payer@, authority@, mint@, token_program@))(cfg@));
    Ok(r)
}

/// The accounts of a deletion.
pub open spec fn delete_config_metas(authority: Seq<u8>, receiver: Seq<u8>, mint: Seq<u8>, token_program: Seq<u8>) -> spec_fn(Seq<u8>) -> Seq<AccountMetaModel> {
    |cfg: Seq<u8>| seq![
        meta(authority, true, false),
        meta(receiver, false, true),
        meta(mint, false, true),
        meta(cfg, false, true),
        meta(token_program, false, false),
    ]
}

/// The request that deletes `mint`'s record, handing the native freeze
/// authority to `new_freeze_authority` and the deposit to `receiver`.
pub fn delete_config_instruction(
    program_id: &Address,
    authority: &Address,
    receiver: &Address,
    mint: &Address,
    token_program: &Address,
    new_freeze_authority: &Address,
) -> (r: Result<Instruction, TokenAclError>)
    ensures
        result_view(r) == config_request(program_id@, mint@, delete_config_metas(authority@, receiver@, mint@, token_program@),
            InstructionModel::DeleteConfig(new_freeze_authority@)),
{
    let cfg = config_of(mint, program_id)?;
    let mut accounts: Vec<AccountMeta> = Vec::new();
    accounts.push(AccountMeta { pubkey: *authority, is_signer: true, is_writable: false });
    accounts.push(AccountMeta { pubkey: *receiver, is_signer: false, is_writable: true });
    accounts.push(AccountMeta { pubkey: *mint, is_signer: false, is_writable: true });
    accounts.push(AccountMeta { pubkey: cfg, is_signer: false, is_writable: true });
    accounts.push(AccountMeta { pubkey: *token_program, is_signer: false, is_writable: false });
    let data = TokenAclInstruction::DeleteConfig { new_freeze_authority: *new_freeze_authority }.pack();
    let r = Instruction { program_id: *program_id, accounts, data };
    assert(r@.accounts =~= (delete_config_metas(authority@, receiver@, mint@, token_program@))(cfg@));
    Ok(r)
}

/// The accounts of a change to a record.
pub open spec fn update_metas(authority: Seq<u8>) -> spec_fn(Seq<u8>) -> Seq<AccountMetaModel> {
    |cfg: Seq<u8>| seq![meta(authority, true, false), meta(cfg, false, true)]
}

fn update_instruction(program_id: &Address, authority: &Address, mint: &Address, op: TokenAclInstruction) -> (r: Result<Instruction, TokenAclError>)
    ensures
        result_view(r) == config_request(program_id@, mint@, update_metas(authority@), op@),
{
    let cfg = config_of(mint, program_id)?;
    let mut accounts: Vec<AccountMeta> = Vec::new();
    accounts.push(AccountMeta { pubkey: *authority, is_signer: true, is_writable: false });
    accounts.push(AccountMeta { pubkey: cfg, is_signer: false, is_writable: true });
    let data = op.pack();
    let r = Instruction { program_id: *program_id, accounts, data };
    assert(r@.accounts =~= (update_metas(authority@))(cfg@));
    Ok(r)
}

/// The request that makes `new_authority` the authority of `mint`'s record.
pub fn set_authority_instruction(program_id: &Address, authority: &Address, mint: &Address, new_authority: &Address) -> (r: Result<Instruction, TokenAclError>)
    ensures
        result_view(r) == config_request(program_id@, mint@, update_metas(authority@), InstructionModel::SetAuthority(new_authority@)),
{
    update_instruction(program_id, authority, mint, TokenAclInstruction::SetAuthority { new_authority: *new_authority })
}

/// The request that delegates `mint`'s decisions to `new_gating_program`.
pub fn set_gating_program_instruction(program_id: &Address, authority: &Address, mint: &Address, new_gating_program: &Address) -> (r: Result<Instruction, TokenAclError>)
    ensures
        result_view(r) == config_request(program_id@, mint@, update_metas(authority@), InstructionModel::SetGatingProgram(new_gating_program@)),
{
    update_instruction(program_id, authority, mint, TokenAclInstruction::SetGatingProgram { new_gating_program: *new_gating_program })
}

/// The request that sets which permissionless operations `mint` allows.
pub fn set_permissionless_instructions(
    program_id: &Address,
    authority: &Address,
    mint: &Address,
    freeze_enabled: bool,
    thaw_enabled: bool,
) -> (r: Result<Instruction, TokenAclError>)
    ensures
        result_view(r) == config_request(program_id@, mint@, update_metas(authority@),
            InstructionModel::TogglePermissionlessInstructions(freeze_enabled, thaw_enabled)),
{
    update_instruction(program_id, authority, mint, TokenAclInstruction::TogglePermissionlessInstructions { freeze_enabled, thaw_enabled })
}

/// The accounts of a freeze or thaw signed by the record's authority.
pub open spec fn permissioned_metas(authority: Seq<u8>, mint: Seq<u8>, token_account: Seq<u8>, token_program: Seq<u8>) -> spec_fn(Seq<u8>) -> Seq<AccountMetaModel> {
    |cfg: Seq<u8>| seq![
        meta(authority, true, false),
        meta(mint, false, false),
        meta(token_account, false, true),
        meta(cfg, false, false),
        meta(token_program, false, false),
    ]
}

fn permissioned_instruction(
    program_id: &Address,
    authority: &Address,
    mint: &Address,
    token_account: &Address,
    token_program: &Address,
    op: TokenAclInstruction,
) -> (r: Result<Instruction, TokenAclError>)
    ensures
        result_view(r) == config_request(program_id@, mint@, permissioned_metas(authority@, mint@, token_account@, token_program@), op@),
{
    let cfg = config_of(mint, program_id)?;
    let mut accounts: Vec<AccountMeta> = Vec::new();
    accounts.push(AccountMeta { pubkey: *authority, is_signer: true, is_writable: false });
    accounts.push(AccountMeta { pubkey: *mint, is_signer: false, is_writable: false });
    accounts.push(AccountMeta { pubkey: *token_account, is_signer: false, is_writable: true });
    accounts.push(AccountMeta { pubkey: cfg, is_signer: false, is_writable: false });
    accounts.push(AccountMeta { pubkey: *token_program, is_signer: false, is_writable: false });
    let data = op.pack();
    let r = Instruction { program_id: *program_id, accounts, data };
    assert(r@.accounts =~= (permissioned_metas(authority@, mint@, token_account@, token_program@))(cfg@));
    Ok(r)
}

/// The request that freezes `token_account` under the record's authority.
pub fn freeze_instruction(program_id: &Address, authority: &Address, mint: &Address, token_account: &Address, token_program: &Address) -> (r: Result<Instruction, TokenAclError>)
    ensures
        result_view(r) == config_request(program_id@, mint@, permissioned_metas(authority@, mint@, token_account@, token_program@), InstructionModel::Freeze),
{
    permissioned_instruction(program_id, authority, mint, token_account, token_program, TokenAclInstruction::Freeze)
}

/// The request that thaws `token_account` under the record's authority.
pub fn thaw_instruction(program_id: &Address, authority: &Address, mint: &Address, token_account: &Address, token_program: &Address) -> (r: Result<Instruction, TokenAclError>)
    ensures
        result_view(r) == config_request(program_id@, mint@, permissioned_metas(authority@, mint@, token_account@, token_program@), InstructionModel::Thaw),
{
    permissioned_instruction(program_id, authority, mint, token_account, token_program, TokenAclInstruction::Thaw)
}

} // verus!
