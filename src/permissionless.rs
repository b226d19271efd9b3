use vstd::prelude::*;
use crate::accounts::{
    Account, AccountModel, AccountState, MintAccount, MintModel, Programs, TokenAccount, TokenModel,
    TokenState, token_toggle, token_toggle_result,
};
use crate::address::{Address, zero_address};
use crate::error::TokenAclError;
use crate::pda::{find_guard_address, find_metas_address, guard_address_of, metas_address_of};
use crate::resolver::{
    AccountRef, AccountRefModel, ExtraMeta, ExtraMetaModel, copy_bytes, find_in_pool, metas_view,
    fetch, fetched, pool_find, refs_view, resolve, resolve_spec,
};
use crate::state::{MintConfig, MintConfigModel, decode_config};

verus! {

/// The decision program's answer to a permissionless request.
#[derive(Clone, Copy, Debug, PartialEq, Eq, Structural)]
pub enum Decision {
    Approve,
    /// A refusal, with the error the program returned: its own custom code
    /// (`GateRejected`) or a failure of the runtime's kinds.
    Deny(TokenAclError),
}

/// The accounts of the decision call: the submitter, the token account, the
/// mint, the token account's owner and the guard record, then, where
/// `additional` holds the decision program's descriptor list account for
/// `mint`, that account and the accounts its descriptors resolve to. See
/// `resolve_spec` for `strict`.
pub open spec fn gate_call_spec(
    gate: Seq<u8>,
    base: Seq<AccountRefModel>,
    mint: Seq<u8>,
    additional: Seq<AccountRefModel>,
    metas: Seq<ExtraMetaModel>,
    thaw: bool,
    strict: bool,
) -> Result<Seq<AccountRefModel>, TokenAclError> {
    match metas_address_of(mint, gate, thaw) {
        None => Err(TokenAclError::InvalidSeeds),
        Some((v, _)) => if pool_find(additional, v) is None {
            Ok(base)
        } else {
            resolve_spec(metas, base.push(fetched(additional, v)), additional, gate, strict)
        },
    }
}

pub(crate) fn gate_call_accounts(
    gate: &Address,
    base: Vec<AccountRef>,
    mint: &Address,
    additional: &Vec<AccountRef>,
    metas: &Vec<ExtraMeta>,
    thaw: bool,
    strict: bool,
) -> (r: Result<Vec<AccountRef>, TokenAclError>)
    ensures
        match r {
            Ok(l) => gate_call_spec(gate@, refs_view(base@), mint@, refs_view(additional@), metas_view(metas@), thaw, strict)
                == Ok::<Seq<AccountRefModel>, TokenAclError>(refs_view(l@)),
            Err(e) => gate_call_spec(gate@, refs_view(base@), mint@, refs_view(additional@), metas_view(metas@), thaw, strict)
                == Err::<Seq<AccountRefModel>, TokenAclError>(e),
        },
{
    let validation = match find_metas_address(mint, gate, thaw) {
        None => {
            return Err(TokenAclError::InvalidSeeds);
        },
        Some((v, _)) => v,
    };
    if find_in_pool(additional, &validation).is_none() {
        return Ok(base);
    }
    let list_account = fetch(additional, &validation);
    let mut list = base;
    let ghost prev = refs_view(list@);
    let ghost lv = list_account@;
    list.push(list_account);
    assert(refs_view(list@) =~= prev.push(lv));
    resolve(metas, list, additional, gate, strict)
}

fn five_accounts(
    signer: AccountRef,
    token_account: AccountRef,
    mint: AccountRef,
    token_account_owner: AccountRef,
    flag_account: AccountRef,
) -> (r: Vec<AccountRef>)
    ensures
        refs_view(r@) == seq![signer@, token_account@, mint@, token_account_owner@, flag_account@],
{
    let ghost expected = seq![signer@, token_account@, mint@, token_account_owner@, flag_account@];
    let mut r: Vec<AccountRef> = Vec::new();
    r.push(signer);
    r.push(token_account);
    r.push(mint);
    r.push(token_account_owner);
    r.push(flag_account);
    assert(refs_view(r@) =~= expected);
    r
}

/// Builds the accounts of the thaw decision call to `program_id`.
pub fn invoke_can_thaw_permissionless(
    program_id: &Address,
    signer: AccountRef,
    token_account: AccountRef,
    mint: AccountRef,
    token_account_owner: AccountRef,
    flag_account: AccountRef,
    additional_accounts: &Vec<AccountRef>,
    metas: &Vec<ExtraMeta>,
) -> (r: Result<Vec<AccountRef>, TokenAclError>)
    ensures
        match r {
            Ok(l) => gate_call_spec(program_id@, seq![signer@, token_account@, mint@, token_account_owner@, flag_account@],
                mint.key@, refs_view(additional_accounts@), metas_view(metas@), true, true)
                == Ok::<Seq<AccountRefModel>, TokenAclError>(refs_view(l@)),
            Err(e) => gate_call_spec(program_id@, seq![signer@, token_account@, mint@, token_account_owner@, flag_account@],
                mint.key@, refs_view(additional_accounts@), metas_view(metas@), true, true)
                == Err::<Seq<AccountRefModel>, TokenAclError>(e),
        },
{
    let mint_key = mint.key;
    let base = five_accounts(signer, token_account, mint, token_account_owner, flag_account);
    gate_call_accounts(program_id, base, &mint_key, additional_accounts, metas, true, true)
}

/// Builds the accounts of the freeze decision call to `program_id`.
pub fn invoke_can_freeze_permissionless(
    program_id: &Address,
    signer: AccountRef,
    token_account: AccountRef,
    mint: AccountRef,
    token_account_owner: AccountRef,
    flag_account: AccountRef,
    additional_accounts: &Vec<AccountRef>,
    metas: &Vec<ExtraMeta>,
) -> (r: Result<Vec<AccountRef>, TokenAclError>)
    ensures
        match r {
            Ok(l) => gate_call_spec(program_id@, seq![signer@, token_account@, mint@, token_account_owner@, flag_account@],
                mint.key@, refs_view(additional_accounts@), metas_view(metas@), false, true)
                == Ok::<Seq<AccountRefModel>, TokenAclError>(refs_view(l@)),
            Err(e) => gate_call_spec(program_id@, seq![signer@, token_account@, mint@, token_account_owner@, flag_account@],
                mint.key@, refs_view(additional_accounts@), metas_view(metas@), false, true)
                == Err::<Seq<AccountRefModel>, TokenAclError>(e),
        },
{
    let mint_key = mint.key;
    let base = five_accounts(signer, token_account, mint, token_account_owner, flag_account);
    gate_call_accounts(program_id, base, &mint_key, additional_accounts, metas, false, true)
}

/// The accounts of a permissionless freeze or thaw, checked.
#[derive(Debug)]
pub struct Permissionless {
    /// The submitter, who signs and pays for the guard record.
    pub authority: Account,
    pub mint: MintAccount,
    pub token_account: TokenAccount,
    /// The guard record of the token account.
    pub flag_account: Account,
    pub token_account_owner: AccountRef,
    pub mint_config: Account,
    pub token_program: Address,
    pub system_program: Address,
    /// The decision program the submitter names.
    pub gating_program: Address,
    /// The further accounts the request carries, for the decision call.
    pub remaining_accounts: Vec<AccountRef>,
    pub flag_account_bump: u8,
}

pub struct PermissionlessModel {
    pub authority: AccountModel,
    pub mint: MintModel,
    pub token_account: TokenModel,
    pub flag_account: AccountModel,
    pub token_account_owner: AccountRefModel,
    pub mint_config: AccountModel,
    pub token_program: Seq<u8>,
    pub system_program: Seq<u8>,
    pub gating_program: Seq<u8>,
    pub remaining_accounts: Seq<AccountRefModel>,
    pub flag_account_bump: u8,
}

impl View for Permissionless {
    type V = PermissionlessModel;

    open spec fn view(&self) -> PermissionlessModel {
        PermissionlessModel {
            authority: self.authority@,
            mint: self.mint@,
            token_account: self.token_account@,
            flag_account: self.flag_account@,
            token_account_owner: self.token_account_owner@,
            mint_config: self.mint_config@,
            token_program: self.token_program@,
            system_program: self.system_program@,
            gating_program: self.gating_program@,
            remaining_accounts: refs_view(self.remaining_accounts@),
            flag_account_bump: self.flag_account_bump,
        }
    }
}

/// The checks on the accounts of a permissionless request, in order; the
/// guard record's bump where they pass.
pub open spec fn permissionless_accounts_check(
    p: Programs,
    authority: AccountModel,
    token_account: TokenModel,
    mint_config: AccountModel,
    token_program: Seq<u8>,
    system_program: Seq<u8>,
) -> Result<u8, TokenAclError> {
    if !authority.is_signer {
        Err(TokenAclError::InvalidAuthority)
    } else if token_program != p.token@ {
        Err(TokenAclError::InvalidTokenProgram)
    } else if system_program != zero_address() {
        Err(TokenAclError::InvalidSystemProgram)
    } else {
        match guard_address_of(token_account.key, p.token_acl@) {
            None => Err(TokenAclError::InvalidSeeds),
            Some((_, bump)) => if mint_config.owner != p.token_acl@ {
                Err(TokenAclError::InvalidMintConfig)
            } else {
                Ok(bump)
            },
        }
    }
}

/// The record's policy checks: it governs this mint, allows the action
/// permissionlessly, and delegates to the named decision program.
pub open spec fn policy_check(m: PermissionlessModel, thaw: bool) -> Result<MintConfigModel, TokenAclError> {
    match decode_config(m.mint_config.data) {
        None => Err(TokenAclError::InvalidAccountData),
        Some(c) => if c.mint != m.mint.key {
            Err(TokenAclError::InvalidTokenMint)
        } else if thaw && !c.enable_permissionless_thaw {
            Err(TokenAclError::PermissionlessThawNotEnabled)
        } else if !thaw && !c.enable_permissionless_freeze {
            Err(TokenAclError::PermissionlessFreezeNotEnabled)
        } else if c.gating_program != m.gating_program {
            Err(TokenAclError::InvalidGatingProgram)
        } else {
            Ok(c)
        },
    }
}

/// Whether the token account already holds the target state (thawed for a
/// thaw, frozen for a freeze), which only counts where its mint is this
/// mint.
pub open spec fn idempotent_check(m: PermissionlessModel, thaw: bool) -> Result<bool, TokenAclError> {
    match m.token_account.state {
        None => Err(TokenAclError::InvalidAccountData),
        Some(ts) => if ts.state == AccountState::Uninitialized {
            Err(TokenAclError::InvalidAccountData)
        } else if ts.owner != m.token_account_owner.key {
            Err(TokenAclError::InvalidTokenAccountOwner)
        } else if (thaw && ts.state != AccountState::Frozen) || (!thaw && ts.state == AccountState::Frozen) {
            if ts.mint != m.mint.key {
                Err(TokenAclError::InvalidTokenMint)
            } else {
                Ok(true)
            }
        } else {
            Ok(false)
        },
    }
}

/// The five accounts every decision call opens with, as they stand.
pub open spec fn call_base(m: PermissionlessModel) -> Seq<AccountRefModel> {
    seq![
        AccountRefModel { key: m.authority.key, data: m.authority.data },
        AccountRefModel { key: m.token_account.key, data: m.token_account.data },
        AccountRefModel { key: m.mint.key, data: m.mint.data },
        m.token_account_owner,
        AccountRefModel { key: m.flag_account.key, data: m.flag_account.data },
    ]
}

/// The accounts with the guard record created: owned by this program and
/// holding the in-flight mark 1.
pub open spec fn guarded(p: Programs, m: PermissionlessModel) -> PermissionlessModel {
    PermissionlessModel { flag_account: AccountModel { owner: p.token_acl@, data: seq![1u8], ..m.flag_account }, ..m }
}

/// Whether the guard record can be created: it is at the token account's
/// derived address, and nothing is there yet.
pub open spec fn guard_check(p: Programs, m: PermissionlessModel) -> Result<(), TokenAclError> {
    match guard_address_of(m.token_account.key, p.token_acl@) {
        None => Err(TokenAclError::InvalidSeeds),
        Some((g, _)) => if m.flag_account.key != g {
            Err(TokenAclError::MissingRequiredSignature)
        } else if m.flag_account.data.len() != 0 || m.flag_account.owner != zero_address() {
            Err(TokenAclError::AccountAlreadyInUse)
        } else {
            Ok(())
        },
    }
}

/// What opening a permissionless request comes to: an error, `Ok(None)`
/// for the idempotent no-op, or `Ok(Some(l))`, the guard record created
/// and `l` the accounts the decision call receives, in order, the guard
/// record among them holding its mark.
pub open spec fn begin_outcome(
    p: Programs,
    m: PermissionlessModel,
    metas: Seq<ExtraMetaModel>,
    thaw: bool,
    idempotent: bool,
) -> Result<Option<Seq<AccountRefModel>>, TokenAclError> {
    match policy_check(m, thaw) {
        Err(e) => Err(e),
        Ok(_) => {
            let early = if idempotent { idempotent_check(m, thaw) } else { Ok(false) };
            match early {
                Err(e) => Err(e),
                Ok(true) => Ok(None),
                Ok(false) => match guard_check(p, m) {
                    Err(e) => Err(e),
                    Ok(_) => match gate_call_spec(m.gating_program, call_base(guarded(p, m)), m.mint.key, m.remaining_accounts, metas, thaw, true) {
                        Err(e) => Err(e),
                        Ok(l) => Ok(Some(l)),
                    },
                },
            }
        },
    }
}

/// The accounts after opening a request: the guard record is created where
/// the decision call is to be made; otherwise nothing changed.
pub open spec fn begin_after(p: Programs, m: PermissionlessModel, o: Result<Option<Seq<AccountRefModel>>, TokenAclError>) -> PermissionlessModel {
    match o {
        Ok(Some(_)) => guarded(p, m),
        _ => m,
    }
}

/// What closing a request comes to, given the decision program's answer:
/// its refusal as it gave it, the token program's refusal, or the token
/// account's new status.
pub open spec fn complete_outcome(m: PermissionlessModel, thaw: bool, decision: Decision) -> Result<AccountState, TokenAclError> {
    match decision {
        Decision::Deny(e) => Err(e),
        Decision::Approve => match token_toggle(m.mint, m.mint_config.key, m.token_account, !thaw) {
            Err(e) => Err(e),
            Ok(s) => if m.authority.lamports + m.flag_account.lamports > u64::MAX {
                Err(TokenAclError::ArithmeticOverflow)
            } else {
                Ok(s)
            },
        },
    }
}

/// The accounts after closing a request: the guard record is released
/// either way; on success the token account has its new status and the
/// guard's deposit is back with the submitter.
pub open spec fn complete_after(m: PermissionlessModel, o: Result<AccountState, TokenAclError>) -> PermissionlessModel {
    match o {
        Ok(s) => PermissionlessModel {
            authority: AccountModel { lamports: (m.authority.lamports + m.flag_account.lamports) as u64, ..m.authority },
            token_account: TokenModel {
                state: match m.token_account.state {
                    Some(ts) => Some(crate::accounts::TokenStateModel { state: s, ..ts }),
                    None => None,
                },
                ..m.token_account
            },
            flag_account: AccountModel { lamports: 0, owner: zero_address(), data: Seq::empty(), ..m.flag_account },
            ..m
        },
        Err(_) => PermissionlessModel {
            flag_account: AccountModel { owner: zero_address(), data: Seq::empty(), ..m.flag_account },
            ..m
        },
    }
}

/// What a whole permissionless request comes to: an error, `Ok(None)` for
/// the idempotent no-op, or `Ok(Some(s))` with the token account's new
/// status. `decision` is the answer to the call that `begin_outcome` gives.
pub open spec fn permissionless_outcome(
    p: Programs,
    m: PermissionlessModel,
    metas: Seq<ExtraMetaModel>,
    thaw: bool,
    idempotent: bool,
    decision: Decision,
) -> Result<Option<AccountState>, TokenAclError> {
    match begin_outcome(p, m, metas, thaw, idempotent) {
        Err(e) => Err(e),
        Ok(None) => Ok(None),
        Ok(Some(_)) => match complete_outcome(guarded(p, m), thaw, decision) {
            Err(e) => Err(e),
            Ok(s) => Ok(Some(s)),
        },
    }
}

/// The accounts after a whole request: where it completed, the token
/// account has its new status and the guard record is gone, its deposit
/// back with the submitter; otherwise nothing changed.
pub open spec fn permissionless_after(p: Programs, m: PermissionlessModel, outcome: Result<Option<AccountState>, TokenAclError>) -> PermissionlessModel {
    match outcome {
        Ok(Some(s)) => complete_after(guarded(p, m), Ok(s)),
        _ => m,
    }
}

pub open spec fn outcome_result(o: Result<Option<AccountState>, TokenAclError>) -> Result<(), TokenAclError> {
    match o {
        Ok(_) => Ok(()),
        Err(e) => Err(e),
    }
}

pub open spec fn unit_of<T>(o: Result<T, TokenAclError>) -> Result<(), TokenAclError> {
    match o {
        Ok(_) => Ok(()),
        Err(e) => Err(e),
    }
}

impl Permissionless {
    /// Checks the accounts of a permissionless freeze or thaw.
    pub fn try_from(
        programs: &Programs,
        authority: Account,
        mint: MintAccount,
        token_account: TokenAccount,
        flag_account: Account,
        token_account_owner: AccountRef,
        mint_config: Account,
        token_program: Address,
        system_program: Address,
        gating_program: Address,
        remaining_accounts: Vec<AccountRef>,
    ) -> (r: Result<Permissionless, TokenAclError>)
        ensures
            match r {
                Ok(op) => permissionless_accounts_check(*programs, authority@, token_account@, mint_config@, token_program@, system_program@)
                    == Ok::<u8, TokenAclError>(op.flag_account_bump)
                    && op@ == (PermissionlessModel {
                        authority: authority@,
                        mint: mint@,
                        token_account: token_account@,
                        flag_account: flag_account@,
                        token_account_owner: token_account_owner@,
                        mint_config: mint_config@,
                        token_program: token_program@,
                        system_program: system_program@,
                        gating_program: gating_program@,
                        remaining_accounts: refs_view(remaining_accounts@),
                        flag_account_bump: op.flag_account_bump,
                    }),
                Err(e) => permissionless_accounts_check(*programs, authority@, token_account@, mint_config@, token_program@, system_program@)
                    == Err::<u8, TokenAclError>(e),
            },
    {
        if !authority.is_signer {
            return Err(TokenAclError::InvalidAuthority);
        }
        if !token_program.same(&programs.token) {
            return Err(TokenAclError::InvalidTokenProgram);
        }
        if !system_program.is_zero() {
            return Err(TokenAclError::InvalidSystemProgram);
        }
        let flag_account_bump = match find_guard_address(&token_account.key, &programs.token_acl) {
            None => {
                return Err(TokenAclError::InvalidSeeds);
            },
            Some((_, b)) => b,
        };
        if !mint_config.owner.same(&programs.token_acl) {
            return Err(TokenAclError::InvalidMintConfig);
        }
        Ok(Permissionless {
            authority,
            mint,
            token_account,
            flag_account,
            token_account_owner,
            mint_config,
            token_program,
            system_program,
            gating_program,
            remaining_accounts,
            flag_account_bump,
        })
    }

    fn check_policy(&self, thaw: bool) -> (r: Result<MintConfig, TokenAclError>)
        ensures
            match r {
                Ok(c) => policy_check(self@, thaw) == Ok::<MintConfigModel, TokenAclError>(c@),
                Err(e) => policy_check(self@, thaw) == Err::<MintConfigModel, TokenAclError>(e),
            },
    {
        let c = match MintConfig::decode(&self.mint_config.data) {
            None => {
                return Err(TokenAclError::InvalidAccountData);
            },
            Some(c) => c,
        };
        if !c.mint.same(&self.mint.key) {
            Err(TokenAclError::InvalidTokenMint)
        } else if thaw && !c.is_permissionless_thaw_enabled() {
            Err(TokenAclError::PermissionlessThawNotEnabled)
        } else if !thaw && !c.is_permissionless_freeze_enabled() {
            Err(TokenAclError::PermissionlessFreezeNotEnabled)
        } else if !c.gating_program.same(&self.gating_program) {
            Err(TokenAclError::InvalidGatingProgram)
        } else {
            Ok(c)
        }
    }

    fn check_idempotent(&self, thaw: bool) -> (r: Result<bool, TokenAclError>)
        ensures
            r == idempotent_check(self@, thaw),
    {
        match &self.token_account.state {
            None => Err(TokenAclError::InvalidAccountData),
            Some(ts) => {
                if ts.state == AccountState::Uninitialized {
                    Err(TokenAclError::InvalidAccountData)
                } else if !ts.owner.same(&self.token_account_owner.key) {
                    Err(TokenAclError::InvalidTokenAccountOwner)
                } else if (thaw && ts.state != AccountState::Frozen) || (!thaw && ts.state == AccountState::Frozen) {
                    if !ts.mint.same(&self.mint.key) {
                        Err(TokenAclError::InvalidTokenMint)
                    } else {
                        Ok(true)
                    }
                } else {
                    Ok(false)
                }
            },
        }
    }

    fn check_guard(&self, programs: &Programs) -> (r: Result<(), TokenAclError>)
        ensures
            r == guard_check(*programs, self@),
    {
        match find_guard_address(&self.token_account.key, &programs.token_acl) {
            None => Err(TokenAclError::InvalidSeeds),
            Some((g, _)) => {
                if !self.flag_account.key.same(&g) {
                    Err(TokenAclError::MissingRequiredSignature)
                } else if self.flag_account.data.len() != 0 || !self.flag_account.owner.is_zero() {
                    Err(TokenAclError::AccountAlreadyInUse)
                } else {
                    Ok(())
                }
            },
        }
    }

    fn guarded_call_base(&self) -> (r: Vec<AccountRef>)
        ensures
            refs_view(r@) == seq![
                AccountRefModel { key: self@.authority.key, data: self@.authority.data },
                AccountRefModel { key: self@.token_account.key, data: self@.token_account.data },
                AccountRefModel { key: self@.mint.key, data: self@.mint.data },
                self@.token_account_owner,
                AccountRefModel { key: self@.flag_account.key, data: seq![1u8] },
            ],
    {
        let mut flag_data: Vec<u8> = Vec::new();
        flag_data.push(1u8);
        let r = five_accounts(
            AccountRef { key: self.authority.key, data: copy_bytes(&self.authority.data) },
            AccountRef { key: self.token_account.key, data: copy_bytes(&self.token_account.data) },
            AccountRef { key: self.mint.key, data: copy_bytes(&self.mint.data) },
            self.token_account_owner.copy(),
            AccountRef { key: self.flag_account.key, data: flag_data },
        );
        assert(flag_data@ =~= seq![1u8]);
        r
    }

    /// Opens a permissionless freeze (`thaw` false) or thaw: checks the
    /// record's policy, takes the idempotent fast path where asked and
    /// possible (`Ok(None)`), else creates the guard record and returns the
    /// accounts of the decision call (`Ok(Some(accounts))`). `metas` is the
    /// descriptor list held by the decision program's list account, read
    /// only where that account is among the remaining accounts. On an error
    /// nothing changes.
    pub fn begin(&mut self, programs: &Programs, metas: &Vec<ExtraMeta>, thaw: bool, is_idempotent: bool) -> (r: Result<Option<Vec<AccountRef>>, TokenAclError>)
        ensures
            match r {
                Ok(Some(l)) => begin_outcome(*programs, old(self)@, metas_view(metas@), thaw, is_idempotent)
                    == Ok::<Option<Seq<AccountRefModel>>, TokenAclError>(Some(refs_view(l@))),
                Ok(None) => begin_outcome(*programs, old(self)@, metas_view(metas@), thaw, is_idempotent)
                    == Ok::<Option<Seq<AccountRefModel>>, TokenAclError>(None),
                Err(e) => begin_outcome(*programs, old(self)@, metas_view(metas@), thaw, is_idempotent)
                    == Err::<Option<Seq<AccountRefModel>>, TokenAclError>(e),
            },
            final(self)@ == begin_after(*programs, old(self)@, begin_outcome(*programs, old(self)@, metas_view(metas@), thaw, is_idempotent)),
    {
        self.check_policy(thaw)?;
        if is_idempotent {
            let already = self.check_idempotent(thaw)?;
            if already {
                return Ok(None);
            }
        }
        self.check_guard(programs)?;
        let base = self.guarded_call_base();
        let call = gate_call_accounts(&self.gating_program, base, &self.mint.key, &self.remaining_accounts, metas, thaw, true)?;
        self.flag_account.owner = programs.token_acl;
        let mut mark: Vec<u8> = Vec::new();
        mark.push(1u8);
        self.flag_account.data = mark;
        assert(self@.flag_account.data =~= seq![1u8]);
        assert(self@ == guarded(*programs, old(self)@));
        Ok(Some(call))
    }

    /// Closes a request that `begin` opened, given the decision program's
    /// answer: on approval the token program freezes (or thaws) the
    /// account, signed for by the record; the guard record is released
    /// whatever happens, its deposit back with the submitter on success.
    pub fn complete(&mut self, thaw: bool, decision: Decision) -> (r: Result<(), TokenAclError>)
        ensures
            r == unit_of(complete_outcome(old(self)@, thaw, decision)),
            final(self)@ == complete_after(old(self)@, complete_outcome(old(self)@, thaw, decision)),
    {
        let outcome: Result<AccountState, TokenAclError> = match decision {
            Decision::Deny(e) => Err(e),
            Decision::Approve => match token_toggle_result(&self.mint, &self.mint_config.key, &self.token_account, !thaw) {
                Err(e) => Err(e),
                Ok(s) => if self.authority.lamports > u64::MAX - self.flag_account.lamports {
                    Err(TokenAclError::ArithmeticOverflow)
                } else {
                    Ok(s)
                },
            },
        };
        match outcome {
            Err(e) => {
                self.flag_account.owner = Address::zero();
                self.flag_account.data = Vec::new();
                assert(self@.flag_account.data =~= Seq::<u8>::empty());
                Err(e)
            },
            Ok(s) => {
                match &self.token_account.state {
                    Some(ts) => {
                        self.token_account.state = Some(TokenState { mint: ts.mint, owner: ts.owner, state: s });
                    },
                    None => {},
                }
                self.authority.lamports = self.authority.lamports + self.flag_account.lamports;
                self.flag_account.lamports = 0;
                self.flag_account.owner = Address::zero();
                self.flag_account.data = Vec::new();
                assert(self@.flag_account.data =~= Seq::<u8>::empty());
                Ok(())
            },
        }
    }

    /// Runs a whole permissionless freeze (`thaw` false) or thaw: `begin`,
    /// then `complete` with `decision`, the decision program's answer to the
    /// call `begin` builds. Either the whole request takes effect or
    /// nothing changes.
    pub fn run(
        &mut self,
        programs: &Programs,
        metas: &Vec<ExtraMeta>,
        thaw: bool,
        is_idempotent: bool,
        decision: Decision,
    ) -> (r: Result<(), TokenAclError>)
        ensures
            r == outcome_result(permissionless_outcome(*programs, old(self)@, metas_view(metas@), thaw, is_idempotent, decision)),
            final(self)@ == permissionless_after(*programs, old(self)@, permissionless_outcome(*programs, old(self)@, metas_view(metas@), thaw, is_idempotent, decision)),
    {
        let ghost m = self@;
        match self.begin(programs, metas, thaw, is_idempotent)? {
            None => Ok(()),
            Some(_call) => {
                let r = self.complete(thaw, decision);
                proof {
                    if r is Err {
                        assert(m.flag_account.data =~= Seq::<u8>::empty());
                        assert(self@.flag_account == m.flag_account);
                        assert(self@ == m);
                    }
                }
                r
            },
        }
    }
}

/// A permissionless thaw.
#[derive(Debug)]
pub struct ThawPermissionless {
    pub op: Permissionless,
}

/// A permissionless freeze.
#[derive(Debug)]
pub struct FreezePermissionless {
    pub op: Permissionless,
}

impl ThawPermissionless {
    /// Thaws the token account if the decision program approves; see
    /// `Permissionless::run`.
    pub fn process(&mut self, programs: &Programs, metas: &Vec<ExtraMeta>, is_idempotent: bool, decision: Decision) -> (r: Result<(), TokenAclError>)
        ensures
            r == outcome_result(permissionless_outcome(*programs, old(self).op@, metas_view(metas@), true, is_idempotent, decision)),
            final(self).op@ == permissionless_after(*programs, old(self).op@, permissionless_outcome(*programs, old(self).op@, metas_view(metas@), true, is_idempotent, decision)),
    {
        self.op.run(programs, metas, true, is_idempotent, decision)
    }
}

impl FreezePermissionless {
    /// Freezes the token account if the decision program approves; see
    /// `Permissionless::run`.
    pub fn process(&mut self, programs: &Programs, metas: &Vec<ExtraMeta>, is_idempotent: bool, decision: Decision) -> (r: Result<(), TokenAclError>)
        ensures
            r == outcome_result(permissionless_outcome(*programs, old(self).op@, metas_view(metas@), false, is_idempotent, decision)),
            final(self).op@ == permissionless_after(*programs, old(self).op@, permissionless_outcome(*programs, old(self).op@, metas_view(metas@), false, is_idempotent, decision)),
    {
        self.op.run(programs, metas, false, is_idempotent, decision)
    }
}

} // verus!
