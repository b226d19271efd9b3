use vstd::prelude::*;
use crate::address::Address;
use crate::error::TokenAclError;

verus! {

/// An account as an operation sees it: its identity, the program that owns
/// it, its deposit, its data, and whether it signed the request.
#[derive(Debug)]
pub struct Account {
    pub key: Address,
    pub owner: Address,
    pub lamports: u64,
    pub data: Vec<u8>,
    pub is_signer: bool,
}

pub struct AccountModel {
    pub key: Seq<u8>,
    pub owner: Seq<u8>,
    pub lamports: u64,
    pub data: Seq<u8>,
    pub is_signer: bool,
}

impl View for Account {
    type V = AccountModel;

    open spec fn view(&self) -> AccountModel {
        AccountModel {
            key: self.key@,
            owner: self.owner@,
            lamports: self.lamports,
            data: self.data@,
            is_signer: self.is_signer,
        }
    }
}

/// What this system reads of a mint: its native freeze authority, and
/// whether it carries the default-frozen-on-creation feature.
#[derive(Clone, Copy, Debug)]
pub struct MintState {
    pub freeze_authority: Option<Address>,
    pub default_account_state: bool,
}

pub struct MintStateModel {
    pub freeze_authority: Option<Seq<u8>>,
    pub default_account_state: bool,
}

pub open spec fn opt_view(a: Option<Address>) -> Option<Seq<u8>> {
    match a {
        Some(x) => Some(x@),
        None => None,
    }
}

impl View for MintState {
    type V = MintStateModel;

    open spec fn view(&self) -> MintStateModel {
        MintStateModel {
            freeze_authority: opt_view(self.freeze_authority),
            default_account_state: self.default_account_state,
        }
    }
}

/// A mint account. `state` is `None` where the account holds no mint
/// (closed, or never initialized); `data` is its raw bytes, which context
/// descriptors may read.
#[derive(Debug)]
pub struct MintAccount {
    pub key: Address,
    pub owner: Address,
    pub data: Vec<u8>,
    pub state: Option<MintState>,
}

pub struct MintModel {
    pub key: Seq<u8>,
    pub owner: Seq<u8>,
    pub data: Seq<u8>,
    pub state: Option<MintStateModel>,
}

impl View for MintAccount {
    type V = MintModel;

    open spec fn view(&self) -> MintModel {
        MintModel {
            key: self.key@,
            owner: self.owner@,
            data: self.data@,
            state: match self.state {
                Some(s) => Some(s@),
                None => None,
            },
        }
    }
}

/// The status of a token account.
#[derive(Clone, Copy, Debug, PartialEq, Eq, Structural)]
pub enum AccountState {
    Uninitialized,
    Initialized,
    Frozen,
}

/// What this system reads of a token account.
#[derive(Clone, Copy, Debug)]
pub struct TokenState {
    pub mint: Address,
    pub owner: Address,
    pub state: AccountState,
}

pub struct TokenStateModel {
    pub mint: Seq<u8>,
    pub owner: Seq<u8>,
    pub state: AccountState,
}

impl View for TokenState {
    type V = TokenStateModel;

    open spec fn view(&self) -> TokenStateModel {
        TokenStateModel { mint: self.mint@, owner: self.owner@, state: self.state }
    }
}

/// A token account. `state` is `None` where its data cannot be read as
/// one; `data` is its raw bytes, which context descriptors may read.
#[derive(Debug)]
pub struct TokenAccount {
    pub key: Address,
    pub owner: Address,
    pub data: Vec<u8>,
    pub state: Option<TokenState>,
}

pub struct TokenModel {
    pub key: Seq<u8>,
    pub owner: Seq<u8>,
    pub data: Seq<u8>,
    pub state: Option<TokenStateModel>,
}

impl View for TokenAccount {
    type V = TokenModel;

    open spec fn view(&self) -> TokenModel {
        TokenModel {
            key: self.key@,
            owner: self.owner@,
            data: self.data@,
            state: match self.state {
                Some(s) => Some(s@),
                None => None,
            },
        }
    }
}

/// The identities of the programs an operation deals with: this program
/// and the token program. The system program's identity is the null one.
#[derive(Clone, Copy, Debug)]
pub struct Programs {
    pub token_acl: Address,
    pub token: Address,
}

/// What the token program does when the holder of `authority` asks it to
/// freeze (or thaw) `account` of `mint`: the account's new status, or its
/// refusal.
pub open spec fn token_toggle(mint: MintModel, authority: Seq<u8>, account: TokenModel, freeze: bool) -> Result<AccountState, TokenAclError> {
    match account.state {
        None => Err(TokenAclError::InvalidAccountData),
        Some(ts) => {
            if ts.state == AccountState::Uninitialized {
                Err(TokenAclError::TokenUninitializedState)
            } else if freeze == (ts.state == AccountState::Frozen) {
                Err(TokenAclError::TokenInvalidState)
            } else if ts.mint != mint.key {
                Err(TokenAclError::TokenMintMismatch)
            } else {
                match mint.state {
                    None => Err(TokenAclError::InvalidAccountData),
                    Some(ms) => if ms.freeze_authority != Some(authority) {
                        Err(TokenAclError::TokenOwnerMismatch)
                    } else if freeze {
                        Ok(AccountState::Frozen)
                    } else {
                        Ok(AccountState::Initialized)
                    },
                }
            }
        },
    }
}

/// The token program's answer to a freeze (or thaw) of `account`, signed
/// for by `authority`; nothing is changed here.
pub fn token_toggle_result(mint: &MintAccount, authority: &Address, account: &TokenAccount, freeze: bool) -> (r: Result<AccountState, TokenAclError>)
    ensures
        r == token_toggle(mint@, authority@, account@, freeze),
{
    match &account.state {
        None => Err(TokenAclError::InvalidAccountData),
        Some(ts) => {
            if ts.state == AccountState::Uninitialized {
                Err(TokenAclError::TokenUninitializedState)
            } else if freeze == (ts.state == AccountState::Frozen) {
                Err(TokenAclError::TokenInvalidState)
            } else if !ts.mint.same(&mint.key) {
                Err(TokenAclError::TokenMintMismatch)
            } else {
                match &mint.state {
                    None => Err(TokenAclError::InvalidAccountData),
                    Some(ms) => {
                        let holds = match &ms.freeze_authority {
                            Some(a) => a.same(authority),
                            None => false,
                        };
                        if !holds {
                            Err(TokenAclError::TokenOwnerMismatch)
                        } else if freeze {
                            Ok(AccountState::Frozen)
                        } else {
                            Ok(AccountState::Initialized)
                        }
                    },
                }
            }
        },
    }
}

} // verus!
