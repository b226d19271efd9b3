use vstd::prelude::*;
use crate::accounts::{Account, AccountModel, MintAccount, MintModel, MintState, MintStateModel, Programs};
use crate::address::{Address, zero_address};
use crate::error::TokenAclError;
use crate::pda::{config_address_of, find_config_address};
use crate::state::{MintConfig, MintConfigModel, config_bytes, decode_config};

verus! {

/// The accounts of a configuration record's creation, checked.
#[derive(Debug)]
pub struct CreateConfig {
    /// Pays the record's deposit.
    pub payer: Account,
    /// The mint's current native freeze authority.
    pub authority: Account,
    pub mint: MintAccount,
    pub mint_config: Account,
    pub system_program: Address,
    pub token_program: Address,
    pub config_bump: u8,
}

pub struct CreateConfigModel {
    pub payer: AccountModel,
    pub authority: AccountModel,
    pub mint: MintModel,
    pub mint_config: AccountModel,
    pub system_program: Seq<u8>,
    pub token_program: Seq<u8>,
    pub config_bump: u8,
}

impl View for CreateConfig {
    type V = CreateConfigModel;

    open spec fn view(&self) -> CreateConfigModel {
        CreateConfigModel {
            payer: self.payer@,
            authority: self.authority@,
            mint: self.mint@,
            mint_config: self.mint_config@,
            system_program: self.system_program@,
            token_program: self.token_program@,
            config_bump: self.config_bump,
        }
    }
}

/// The checks on the accounts of a creation, in order; the record's bump
/// where they pass.
pub open spec fn create_accounts_check(
    p: Programs,
    authority: AccountModel,
    mint: MintModel,
    mint_config: AccountModel,
    system_program: Seq<u8>,
    token_program: Seq<u8>,
) -> Result<u8, TokenAclError> {
    if !authority.is_signer {
        Err(TokenAclError::InvalidAuthority)
    } else {
        match config_address_of(mint.key, p.token_acl@) {
            None => Err(TokenAclError::InvalidSeeds),
            Some((a, bump)) => if mint_config.key != a {
                Err(TokenAclError::InvalidMintConfig)
            } else if system_program != zero_address() {
                Err(TokenAclError::InvalidSystemProgram)
            } else if token_program != p.token@ {
                Err(TokenAclError::InvalidTokenProgram)
            } else if mint.owner != p.token@ {
                Err(TokenAclError::InvalidTokenProgram)
            } else {
                Ok(bump)
            },
        }
    }
}

/// What the payer must add for the record to hold `rent` lamports.
pub open spec fn deposit_shortfall(lamports: u64, rent: u64) -> u64 {
    if lamports < rent { (rent - lamports) as u64 } else { 0 }
}

/// What a creation comes to: an error, or the mint state it starts from.
pub open spec fn create_outcome(c: CreateConfigModel, rent: u64, data: Seq<u8>) -> Result<MintStateModel, TokenAclError> {
    if data.len() != 32 {
        Err(TokenAclError::InvalidInstructionData)
    } else {
        match c.mint.state {
            None => Err(TokenAclError::InvalidAccountData),
            Some(ms) => if !ms.default_account_state {
                Err(TokenAclError::InvalidTokenMint)
            } else {
                match ms.freeze_authority {
                    None => Err(TokenAclError::InvalidTokenMint),
                    Some(fa) => {
                        let diff = deposit_shortfall(c.mint_config.lamports, rent);
                        if fa != c.authority.key {
                            Err(TokenAclError::InvalidAuthority)
                        } else if diff > 0 && !c.payer.is_signer {
                            Err(TokenAclError::MissingRequiredSignature)
                        } else if diff > c.payer.lamports {
                            Err(TokenAclError::InsufficientFunds)
                        } else if c.mint_config.data.len() != 0 || c.mint_config.owner != zero_address() {
                            Err(TokenAclError::AccountAlreadyInUse)
                        } else {
                            Ok(ms)
                        }
                    },
                }
            },
        }
    }
}

/// The record a creation writes: the mint, the signer as authority, the
/// requested decision program, the bump, and both flags off.
pub open spec fn created_record(c: CreateConfigModel, data: Seq<u8>) -> MintConfigModel {
    MintConfigModel {
        mint: c.mint.key,
        freeze_authority: c.authority.key,
        gating_program: data,
        bump: c.config_bump,
        enable_permissionless_freeze: false,
        enable_permissionless_thaw: false,
    }
}

/// The accounts after a creation: the payer has topped the record up to
/// `rent`, the record is owned by this program and holds its bytes, and the
/// mint's native freeze authority is the record's address.
pub open spec fn create_after(p: Programs, c: CreateConfigModel, rent: u64, data: Seq<u8>) -> CreateConfigModel {
    match create_outcome(c, rent, data) {
        Err(_) => c,
        Ok(ms) => {
            let diff = deposit_shortfall(c.mint_config.lamports, rent);
            CreateConfigModel {
                payer: AccountModel { lamports: (c.payer.lamports - diff) as u64, ..c.payer },
                mint: MintModel {
                    state: Some(MintStateModel { freeze_authority: Some(c.mint_config.key), ..ms }),
                    ..c.mint
                },
                mint_config: AccountModel {
                    lamports: (c.mint_config.lamports + diff) as u64,
                    owner: p.token_acl@,
                    data: config_bytes(created_record(c, data)),
                    ..c.mint_config
                },
                ..c
            }
        },
    }
}

pub open spec fn unit_result<T>(r: Result<T, TokenAclError>) -> Result<(), TokenAclError> {
    match r {
        Ok(_) => Ok(()),
        Err(e) => Err(e),
    }
}

impl CreateConfig {
    /// Checks the accounts of a creation: the authority signs, the record is
    /// at the mint's derived address, and the collaborators are the system
    /// and token programs.
    pub fn try_from(
        programs: &Programs,
        payer: Account,
        authority: Account,
        mint: MintAccount,
        mint_config: Account,
        system_program: Address,
        token_program: Address,
    ) -> (r: Result<CreateConfig, TokenAclError>)
        ensures
            match r {
                Ok(c) => create_accounts_check(*programs, authority@, mint@, mint_config@, system_program@, token_program@)
                    == Ok::<u8, TokenAclError>(c.config_bump)
                    && c@ == (CreateConfigModel {
                        payer: payer@,
                        authority: authority@,
                        mint: mint@,
                        mint_config: mint_config@,
                        system_program: system_program@,
                        token_program: token_program@,
                        config_bump: c.config_bump,
                    }),
                Err(e) => create_accounts_check(*programs, authority@, mint@, mint_config@, system_program@, token_program@)
                    == Err::<u8, TokenAclError>(e),
            },
    {
        if !authority.is_signer {
            return Err(TokenAclError::InvalidAuthority);
        }
        let (expected, config_bump) = match find_config_address(&mint.key, &programs.token_acl) {
            None => {
                return Err(TokenAclError::InvalidSeeds);
            },
            Some(found) => found,
        };
        if !mint_config.key.same(&expected) {
            return Err(TokenAclError::InvalidMintConfig);
        }
        if !system_program.is_zero() {
            return Err(TokenAclError::InvalidSystemProgram);
        }
        if !token_program.same(&programs.token) {
            return Err(TokenAclError::InvalidTokenProgram);
        }
        if !mint.owner.same(&programs.token) {
            return Err(TokenAclError::InvalidTokenProgram);
        }
        Ok(CreateConfig { payer, authority, mint, mint_config, system_program, token_program, config_bump })
    }

    /// Creates the record for the mint, delegating to the decision program
    /// named by the 32 bytes of `remaining_data`, and hands the mint's
    /// native freeze authority to the record. `rent` is the deposit a
    /// record of its size must hold.
    pub fn process(&mut self, programs: &Programs, rent: u64, remaining_data: &Vec<u8>) -> (r: Result<(), TokenAclError>)
        ensures
            r == unit_result(create_outcome(old(self)@, rent, remaining_data@)),
            final(self)@ == create_after(*programs, old(self)@, rent, remaining_data@),
    {
        if remaining_data.len() != 32 {
            return Err(TokenAclError::InvalidInstructionData);
        }
        let gating_program = Address::read_at(remaining_data, 0);
        assert(remaining_data@.subrange(0, 32) =~= remaining_data@);
        let ms = match &self.mint.state {
            None => {
                return Err(TokenAclError::InvalidAccountData);
            },
            Some(ms) => *ms,
        };
        if !ms.default_account_state {
            return Err(TokenAclError::InvalidTokenMint);
        }
        let fa = match &ms.freeze_authority {
            None => {
                return Err(TokenAclError::InvalidTokenMint);
            },
            Some(fa) => *fa,
        };
        if !fa.same(&self.authority.key) {
            return Err(TokenAclError::InvalidAuthority);
        }
        let diff: u64 = if self.mint_config.lamports < rent { rent - self.mint_config.lamports } else { 0 };
        if diff > 0 && !self.payer.is_signer {
            return Err(TokenAclError::MissingRequiredSignature);
        }
        if diff > self.payer.lamports {
            return Err(TokenAclError::InsufficientFunds);
        }
        if self.mint_config.data.len() != 0 || !self.mint_config.owner.is_zero() {
            return Err(TokenAclError::AccountAlreadyInUse);
        }
        self.payer.lamports = self.payer.lamports - diff;
        self.mint_config.lamports = self.mint_config.lamports + diff;
        self.mint_config.owner = programs.token_acl;
        let record = MintConfig {
            mint: self.mint.key,
            freeze_authority: self.authority.key,
            gating_program,
            bump: self.config_bump,
            enable_permissionless_freeze: false,
            enable_permissionless_thaw: false,
        };
        self.mint_config.data = record.encode();
        self.mint.state = Some(MintState { freeze_authority: Some(self.mint_config.key), default_account_state: ms.default_account_state });
        assert(self@ =~= create_after(*programs, old(self)@, rent, remaining_data@));
        Ok(())
    }
}

/// The accounts of a configuration record's deletion, checked.
#[derive(Debug)]
pub struct DeleteConfig {
    /// The record's authority.
    pub authority: Account,
    /// Receives the record's deposit.
    pub receiver: Account,
    pub mint: MintAccount,
    pub mint_config: Account,
    pub token_program: Address,
}

pub struct DeleteConfigModel {
    pub authority: AccountModel,
    pub receiver: AccountModel,
    pub mint: MintModel,
    pub mint_config: AccountModel,
    pub token_program: Seq<u8>,
}

impl View for DeleteConfig {
    type V = DeleteConfigModel;

    open spec fn view(&self) -> DeleteConfigModel {
        DeleteConfigModel {
            authority: self.authority@,
            receiver: self.receiver@,
            mint: self.mint@,
            mint_config: self.mint_config@,
            token_program: self.token_program@,
        }
    }
}

pub open spec fn delete_accounts_check(p: Programs, authority: AccountModel, token_program: Seq<u8>) -> Result<(), TokenAclError> {
    if !authority.is_signer {
        Err(TokenAclError::InvalidAuthority)
    } else if token_program != p.token@ {
        Err(TokenAclError::InvalidTokenProgram)
    } else {
        Ok(())
    }
}

/// Whether the mint still exists and its native freeze authority is still
/// the record's address, so that it can be handed on. A mint without a
/// freeze authority is not in the record's custody.
pub open spec fn custody_held(d: DeleteConfigModel) -> bool {
    match d.mint.state {
        None => false,
        Some(ms) => ms.freeze_authority == Some(d.mint_config.key),
    }
}

/// What a deletion comes to: an error, or whether the native freeze
/// authority is handed on.
pub open spec fn delete_outcome(p: Programs, d: DeleteConfigModel, data: Seq<u8>) -> Result<bool, TokenAclError> {
    if data.len() != 32 {
        Err(TokenAclError::InvalidInstructionData)
    } else if d.mint_config.owner != p.token_acl@ {
        Err(TokenAclError::InvalidMintConfig)
    } else {
        match decode_config(d.mint_config.data) {
            None => Err(TokenAclError::InvalidAccountData),
            Some(c) => if c.freeze_authority != d.authority.key {
                Err(TokenAclError::InvalidAuthority)
            } else if c.mint != d.mint.key {
                Err(TokenAclError::InvalidTokenMint)
            } else if d.receiver.lamports + d.mint_config.lamports > u64::MAX {
                Err(TokenAclError::ArithmeticOverflow)
            } else {
                Ok(custody_held(d))
            },
        }
    }
}

/// The accounts after a deletion: where custody was held, the mint's native
/// freeze authority is the identity in `data`; the receiver has the
/// record's deposit; the record is empty and unowned.
pub open spec fn delete_after(p: Programs, d: DeleteConfigModel, data: Seq<u8>) -> DeleteConfigModel {
    match delete_outcome(p, d, data) {
        Err(_) => d,
        Ok(restore) => DeleteConfigModel {
            mint: if restore {
                MintModel {
                    state: match d.mint.state {
                        Some(ms) => Some(MintStateModel { freeze_authority: Some(data), ..ms }),
                        None => None,
                    },
                    ..d.mint
                }
            } else {
                d.mint
            },
            receiver: AccountModel { lamports: (d.receiver.lamports + d.mint_config.lamports) as u64, ..d.receiver },
            mint_config: AccountModel { lamports: 0, owner: zero_address(), data: Seq::empty(), ..d.mint_config },
            ..d
        },
    }
}

impl DeleteConfig {
    /// Checks the accounts of a deletion: the authority signs and the token
    /// program is the token program.
    pub fn try_from(
        programs: &Programs,
        authority: Account,
        receiver: Account,
        mint: MintAccount,
        mint_config: Account,
        token_program: Address,
    ) -> (r: Result<DeleteConfig, TokenAclError>)
        ensures
            match r {
                Ok(d) => delete_accounts_check(*programs, authority@, token_program@) is Ok
                    && d@ == (DeleteConfigModel {
                        authority: authority@,
                        receiver: receiver@,
                        mint: mint@,
                        mint_config: mint_config@,
                        token_program: token_program@,
                    }),
                Err(e) => delete_accounts_check(*programs, authority@, token_program@) == Err::<(), TokenAclError>(e),
            },
    {
        if !authority.is_signer {
            return Err(TokenAclError::InvalidAuthority);
        }
        if !token_program.same(&programs.token) {
            return Err(TokenAclError::InvalidTokenProgram);
        }
        Ok(DeleteConfig { authority, receiver, mint, mint_config, token_program })
    }

    /// Deletes the record. Where the mint still exists and its native freeze
    /// authority is still the record, it is handed to the identity in the 32
    /// bytes of `remaining_data`; otherwise that step is skipped. The
    /// deposit goes to the receiver and the record's address is released.
    pub fn process(&mut self, programs: &Programs, remaining_data: &Vec<u8>) -> (r: Result<(), TokenAclError>)
        ensures
            r == unit_result(delete_outcome(*programs, old(self)@, remaining_data@)),
            final(self)@ == delete_after(*programs, old(self)@, remaining_data@),
    {
        if remaining_data.len() != 32 {
            return Err(TokenAclError::InvalidInstructionData);
        }
        let new_freeze_authority = Address::read_at(remaining_data, 0);
        assert(remaining_data@.subrange(0, 32) =~= remaining_data@);
        let restore = match &self.mint.state {
            None => false,
            Some(ms) => match &ms.freeze_authority {
                Some(a) => a.same(&self.mint_config.key),
                None => false,
            },
        };
        if !self.mint_config.owner.same(&programs.token_acl) {
            return Err(TokenAclError::InvalidMintConfig);
        }
        let c = match MintConfig::decode(&self.mint_config.data) {
            None => {
                return Err(TokenAclError::InvalidAccountData);
            },
            Some(c) => c,
        };
        if !c.freeze_authority.same(&self.authority.key) {
            return Err(TokenAclError::InvalidAuthority);
        }
        if !c.mint.same(&self.mint.key) {
            return Err(TokenAclError::InvalidTokenMint);
        }
        if self.receiver.lamports > u64::MAX - self.mint_config.lamports {
            return Err(TokenAclError::ArithmeticOverflow);
        }
        if restore {
            match &self.mint.state {
                Some(ms) => {
                    self.mint.state = Some(MintState {
                        freeze_authority: Some(new_freeze_authority),
                        default_account_state: ms.default_account_state,
                    });
                },
                None => {},
            }
        }
        self.receiver.lamports = self.receiver.lamports + self.mint_config.lamports;
        self.mint_config.lamports = 0;
        self.mint_config.data = Vec::new();
        self.mint_config.owner = Address::zero();
        assert(self@.mint_config.data =~= Seq::<u8>::empty());
        assert(self@ =~= delete_after(*programs, old(self)@, remaining_data@));
        Ok(())
    }
}

/// A change to a configuration record.
#[derive(Clone, Copy, Debug)]
pub enum ConfigUpdate {
    SetAuthority(Address),
    SetGatingProgram(Address),
    /// Sets both permissionless flags.
    SetPermissionless { freeze: bool, thaw: bool },
}

pub enum ConfigUpdateModel {
    SetAuthority(Seq<u8>),
    SetGatingProgram(Seq<u8>),
    SetPermissionless { freeze: bool, thaw: bool },
}

impl View for ConfigUpdate {
    type V = ConfigUpdateModel;

    open spec fn view(&self) -> ConfigUpdateModel {
        match *self {
            ConfigUpdate::SetAuthority(a) => ConfigUpdateModel::SetAuthority(a@),
            ConfigUpdate::SetGatingProgram(a) => ConfigUpdateModel::SetGatingProgram(a@),
            ConfigUpdate::SetPermissionless { freeze, thaw } => ConfigUpdateModel::SetPermissionless { freeze, thaw },
        }
    }
}

/// `c` with `u` applied; no other field changes.
pub open spec fn apply_update(c: MintConfigModel, u: ConfigUpdateModel) -> MintConfigModel {
    match u {
        ConfigUpdateModel::SetAuthority(a) => MintConfigModel { freeze_authority: a, ..c },
        ConfigUpdateModel::SetGatingProgram(g) => MintConfigModel { gating_program: g, ..c },
        ConfigUpdateModel::SetPermissionless { freeze, thaw } => MintConfigModel {
            enable_permissionless_freeze: freeze,
            enable_permissionless_thaw: thaw,
            ..c
        },
    }
}

/// The record as it stands where `authority` may change it.
pub open spec fn authorized_record(p: Programs, authority: AccountModel, mint_config: AccountModel) -> Result<MintConfigModel, TokenAclError> {
    if !authority.is_signer {
        Err(TokenAclError::InvalidAuthority)
    } else if mint_config.owner != p.token_acl@ {
        Err(TokenAclError::InvalidMintConfig)
    } else {
        match decode_config(mint_config.data) {
            None => Err(TokenAclError::InvalidAccountData),
            Some(c) => if c.freeze_authority != authority.key {
                Err(TokenAclError::InvalidAuthority)
            } else {
                Ok(c)
            },
        }
    }
}

fn load_authorized(programs: &Programs, authority: &Account, mint_config: &Account) -> (r: Result<MintConfig, TokenAclError>)
    ensures
        match r {
            Ok(c) => authorized_record(*programs, authority@, mint_config@) == Ok::<MintConfigModel, TokenAclError>(c@),
            Err(e) => authorized_record(*programs, authority@, mint_config@) == Err::<MintConfigModel, TokenAclError>(e),
        },
{
    if !authority.is_signer {
        return Err(TokenAclError::InvalidAuthority);
    }
    if !mint_config.owner.same(&programs.token_acl) {
        return Err(TokenAclError::InvalidMintConfig);
    }
    let c = match MintConfig::decode(&mint_config.data) {
        None => {
            return Err(TokenAclError::InvalidAccountData);
        },
        Some(c) => c,
    };
    if !c.freeze_authority.same(&authority.key) {
        return Err(TokenAclError::InvalidAuthority);
    }
    Ok(c)
}

/// Applies `update` to the record, signed by its authority; nothing else
/// changes.
pub fn update_config(programs: &Programs, authority: &Account, mint_config: &mut Account, update: ConfigUpdate) -> (r: Result<(), TokenAclError>)
    ensures
        r == unit_result(authorized_record(*programs, authority@, old(mint_config)@)),
        match authorized_record(*programs, authority@, old(mint_config)@) {
            Ok(c) => final(mint_config)@ == AccountModel { data: config_bytes(apply_update(c, update@)), ..old(mint_config)@ },
            Err(_) => final(mint_config)@ == old(mint_config)@,
        },
{
    let c = load_authorized(programs, authority, mint_config)?;
    let updated = match update {
        ConfigUpdate::SetAuthority(a) => MintConfig { freeze_authority: a, ..c },
        ConfigUpdate::SetGatingProgram(g) => MintConfig { gating_program: g, ..c },
        ConfigUpdate::SetPermissionless { freeze, thaw } => MintConfig {
            enable_permissionless_freeze: freeze,
            enable_permissionless_thaw: thaw,
            ..c
        },
    };
    assert(updated@ == apply_update(c@, update@));
    mint_config.data = updated.encode();
    Ok(())
}

} // verus!
