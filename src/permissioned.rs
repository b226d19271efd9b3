use vstd::prelude::*;
use crate::accounts::{
    Account, AccountModel, AccountState, MintAccount, MintModel, Programs, TokenAccount, TokenModel,
    TokenState, TokenStateModel, token_toggle, token_toggle_result,
};
use crate::address::Address;
use crate::config::{authorized_record, unit_result};
use crate::error::TokenAclError;
use crate::state::MintConfig;

verus! {

/// What a freeze (or thaw) signed by the record's authority comes to: an
/// error, or the token account's new status.
pub open spec fn permissioned_outcome(
    p: Programs,
    authority: AccountModel,
    mint: MintModel,
    mint_config: AccountModel,
    token_account: TokenModel,
    token_program: Seq<u8>,
    freeze: bool,
) -> Result<AccountState, TokenAclError> {
    if token_program != p.token@ {
        Err(TokenAclError::InvalidTokenProgram)
    } else {
        match authorized_record(p, authority, mint_config) {
            Err(e) => Err(e),
            Ok(c) => if c.mint != mint.key {
                Err(TokenAclError::InvalidTokenMint)
            } else {
                token_toggle(mint, mint_config.key, token_account, freeze)
            },
        }
    }
}

/// `t` with status `s` where the outcome is `Ok(s)`; `t` otherwise.
pub open spec fn token_after(t: TokenModel, outcome: Result<AccountState, TokenAclError>) -> TokenModel {
    match outcome {
        Ok(s) => TokenModel {
            state: match t.state {
                Some(ts) => Some(TokenStateModel { state: s, ..ts }),
                None => None,
            },
            ..t
        },
        Err(_) => t,
    }
}

fn permissioned(
    programs: &Programs,
    authority: &Account,
    mint: &MintAccount,
    mint_config: &Account,
    token_account: &mut TokenAccount,
    token_program: &Address,
    freeze: bool,
) -> (r: Result<(), TokenAclError>)
    ensures
        r == unit_result(permissioned_outcome(*programs, authority@, mint@, mint_config@, old(token_account)@, token_program@, freeze)),
        final(token_account)@ == token_after(old(token_account)@,
            permissioned_outcome(*programs, authority@, mint@, mint_config@, old(token_account)@, token_program@, freeze)),
{
    if !token_program.same(&programs.token) {
        return Err(TokenAclError::InvalidTokenProgram);
    }
    if !authority.is_signer {
        return Err(TokenAclError::InvalidAuthority);
    }
    if !mint_config.owner.same(&programs.token_acl) {
        return Err(TokenAclError::InvalidMintConfig);
    }
    let c = match MintConfig::decode(&mint_config.data) {
        None => {
            return Err(TokenAclError::InvalidAccountData);
        },
        Some(c) => c,
    };
    if !c.freeze_authority.same(&authority.key) {
        return Err(TokenAclError::InvalidAuthority);
    }
    if !c.mint.same(&mint.key) {
        return Err(TokenAclError::InvalidTokenMint);
    }
    let s = token_toggle_result(mint, &mint_config.key, token_account, freeze)?;
    match &token_account.state {
        Some(ts) => {
            token_account.state = Some(TokenState { mint: ts.mint, owner: ts.owner, state: s });
        },
        None => {},
    }
    Ok(())
}

/// Freezes the token account, signed by the record's authority, with the
/// record signing for the mint's native freeze authority. No guard record
/// and no decision call.
pub fn freeze(
    programs: &Programs,
    authority: &Account,
    mint: &MintAccount,
    mint_config: &Account,
    token_account: &mut TokenAccount,
    token_program: &Address,
) -> (r: Result<(), TokenAclError>)
    ensures
        r == unit_result(permissioned_outcome(*programs, authority@, mint@, mint_config@, old(token_account)@, token_program@, true)),
        final(token_account)@ == token_after(old(token_account)@,
            permissioned_outcome(*programs, authority@, mint@, mint_config@, old(token_account)@, token_program@, true)),
{
    permissioned(programs, authority, mint, mint_config, token_account, token_program, true)
}

/// Thaws the token account, signed by the record's authority, with the
/// record signing for the mint's native freeze authority. No guard record
/// and no decision call.
pub fn thaw(
    programs: &Programs,
    authority: &Account,
    mint: &MintAccount,
    mint_config: &Account,
    token_account: &mut TokenAccount,
    token_program: &Address,
) -> (r: Result<(), TokenAclError>)
    ensures
        r == unit_result(permissioned_outcome(*programs, authority@, mint@, mint_config@, old(token_account)@, token_program@, false)),
        final(token_account)@ == token_after(old(token_account)@,
            permissioned_outcome(*programs, authority@, mint@, mint_config@, old(token_account)@, token_program@, false)),
{
    permissioned(programs, authority, mint, mint_config, token_account, token_program, false)
}

} // verus!
