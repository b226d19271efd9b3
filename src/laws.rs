use vstd::prelude::*;
use crate::accounts::{AccountModel, AccountState, MintStateModel, Programs, TokenStateModel};
use crate::address::zero_address;
use crate::client::{InstructionView, builder_base, extra_account_metas, permissionless_data, permissionless_fixed_metas, request_with_extras};
use crate::config::{
    ConfigUpdateModel, CreateConfigModel, DeleteConfigModel, apply_update, authorized_record,
    create_accounts_check, create_after, create_outcome, created_record, custody_held, delete_after, delete_outcome,
};
use crate::error::TokenAclError;
use crate::permissionless::{
    Decision, PermissionlessModel, gate_call_spec, call_base, guard_check, guarded, idempotent_check,
    permissionless_after, permissionless_outcome, policy_check,
};
use crate::pda::metas_address_of;
use crate::resolver::{AccountRefModel, ExtraMetaModel, fetched, lemma_resolve_same_snapshot, lemma_strict_agrees, pool_find};
use crate::state::{config_bytes, config_wf, lemma_config_round_trip};

verus! {

/// Creating a mint's record twice fails the second time with an authority
/// error: the first creation moved the mint's native freeze authority to the
/// record's address, which cannot sign the second request.
pub proof fn law_create_twice_fails(
    p: Programs,
    first: CreateConfigModel,
    rent: u64,
    data: Seq<u8>,
    second: CreateConfigModel,
    rent2: u64,
    data2: Seq<u8>,
)
    requires
        create_accounts_check(p, first.authority, first.mint, first.mint_config, first.system_program, first.token_program) is Ok,
        create_outcome(first, rent, data) is Ok,
        second.mint == create_after(p, first, rent, data).mint,
        create_accounts_check(p, second.authority, second.mint, second.mint_config, second.system_program, second.token_program) is Ok,
        second.authority.key != second.mint_config.key,
        data2.len() == 32,
    ensures
        create_outcome(second, rent2, data2) == Err::<MintStateModel, TokenAclError>(TokenAclError::InvalidAuthority),
{
    assert(second.mint.key == first.mint.key);
}

/// An idempotent thaw of an account that is already thawed changes nothing
/// and succeeds where the account's mint is the mint; where it is not, it
/// still fails with an invalid-mint error.
pub proof fn law_idempotent_thaw(
    p: Programs,
    m: PermissionlessModel,
    metas: Seq<ExtraMetaModel>,
    decision: Decision,
    ts: TokenStateModel,
)
    requires
        policy_check(m, true) is Ok,
        m.token_account.state == Some(ts),
        ts.state == AccountState::Initialized,
        ts.owner == m.token_account_owner.key,
    ensures
        ts.mint == m.mint.key ==> permissionless_outcome(p, m, metas, true, true, decision)
            == Ok::<Option<AccountState>, TokenAclError>(None),
        ts.mint == m.mint.key ==> permissionless_after(p, m, permissionless_outcome(p, m, metas, true, true, decision)) == m,
        ts.mint != m.mint.key ==> permissionless_outcome(p, m, metas, true, true, decision)
            == Err::<Option<AccountState>, TokenAclError>(TokenAclError::InvalidTokenMint),
{
}

/// Deleting a record right after its creation hands the mint's native
/// freeze authority to the identity the caller chose, and pays the record's
/// deposit to the receiver.
pub proof fn law_delete_after_create(
    p: Programs,
    c: CreateConfigModel,
    rent: u64,
    data: Seq<u8>,
    d: DeleteConfigModel,
    new_authority: Seq<u8>,
)
    requires
        c.mint.key.len() == 32,
        c.authority.key.len() == 32,
        create_outcome(c, rent, data) is Ok,
        d.mint == create_after(p, c, rent, data).mint,
        d.mint_config == create_after(p, c, rent, data).mint_config,
        d.authority.key == c.authority.key,
        new_authority.len() == 32,
        d.receiver.lamports + d.mint_config.lamports <= u64::MAX,
    ensures
        delete_outcome(p, d, new_authority) == Ok::<bool, TokenAclError>(true),
        delete_after(p, d, new_authority).mint.state matches Some(ms) && ms.freeze_authority == Some(new_authority),
        delete_after(p, d, new_authority).receiver.lamports == d.receiver.lamports + d.mint_config.lamports,
        delete_after(p, d, new_authority).mint_config.lamports == 0,
{
    lemma_config_round_trip(created_record(c, data));
}

/// Deleting a record whose mint was closed after its creation still
/// succeeds: the deposit goes to the receiver and the record is released,
/// and the hand-back of the freeze authority is skipped.
pub proof fn law_delete_after_mint_closed(
    p: Programs,
    c: CreateConfigModel,
    rent: u64,
    data: Seq<u8>,
    d: DeleteConfigModel,
    new_authority: Seq<u8>,
)
    requires
        c.mint.key.len() == 32,
        c.authority.key.len() == 32,
        create_outcome(c, rent, data) is Ok,
        d.mint.key == c.mint.key,
        d.mint.state is None,
        d.mint_config == create_after(p, c, rent, data).mint_config,
        d.authority.key == c.authority.key,
        new_authority.len() == 32,
        d.receiver.lamports + d.mint_config.lamports <= u64::MAX,
    ensures
        delete_outcome(p, d, new_authority) == Ok::<bool, TokenAclError>(false),
        delete_after(p, d, new_authority).mint == d.mint,
        delete_after(p, d, new_authority).receiver.lamports == d.receiver.lamports + d.mint_config.lamports,
        delete_after(p, d, new_authority).mint_config.lamports == 0,
        delete_after(p, d, new_authority).mint_config.owner == zero_address(),
{
    lemma_config_round_trip(created_record(c, data));
}

/// After the flags are set to freeze-only, a permissionless thaw fails with
/// the not-enabled error; a permissionless freeze that a decision program
/// denies fails with the error that program gave, unchanged; and one it
/// approves leaves the token account frozen.
pub proof fn law_freeze_only_flags(
    p: Programs,
    authority: AccountModel,
    config_account: AccountModel,
    m: PermissionlessModel,
    metas: Seq<ExtraMetaModel>,
    idempotent: bool,
    decision: Decision,
    denial: TokenAclError,
    ts: TokenStateModel,
    ms: MintStateModel,
)
    requires
        authorized_record(p, authority, config_account) is Ok,
        config_wf(authorized_record(p, authority, config_account)->Ok_0),
        m.mint_config.data == config_bytes(apply_update(
            authorized_record(p, authority, config_account)->Ok_0,
            ConfigUpdateModel::SetPermissionless { freeze: true, thaw: false },
        )),
        m.mint.key == authorized_record(p, authority, config_account)->Ok_0.mint,
        m.gating_program == authorized_record(p, authority, config_account)->Ok_0.gating_program,
    ensures
        permissionless_outcome(p, m, metas, true, idempotent, decision)
            == Err::<Option<AccountState>, TokenAclError>(TokenAclError::PermissionlessThawNotEnabled),
        guard_check(p, m) is Ok && gate_call_spec(m.gating_program, call_base(guarded(p, m)), m.mint.key, m.remaining_accounts, metas, false, true) is Ok
            ==> permissionless_outcome(p, m, metas, false, false, Decision::Deny(denial))
                == Err::<Option<AccountState>, TokenAclError>(denial)
                && permissionless_after(p, m, permissionless_outcome(p, m, metas, false, false, Decision::Deny(denial))) == m,
        guard_check(p, m) is Ok && gate_call_spec(m.gating_program, call_base(guarded(p, m)), m.mint.key, m.remaining_accounts, metas, false, true) is Ok
            && m.token_account.state == Some(ts) && ts.state == AccountState::Initialized && ts.mint == m.mint.key
            && m.mint.state == Some(ms) && ms.freeze_authority == Some(m.mint_config.key)
            && m.authority.lamports + m.flag_account.lamports <= u64::MAX
            ==> permissionless_outcome(p, m, metas, false, false, Decision::Approve)
                == Ok::<Option<AccountState>, TokenAclError>(Some(AccountState::Frozen))
                && permissionless_after(p, m, permissionless_outcome(p, m, metas, false, false, Decision::Approve)).token_account.state
                    == Some(TokenStateModel { state: AccountState::Frozen, ..ts }),
{
    let c = apply_update(
        authorized_record(p, authority, config_account)->Ok_0,
        ConfigUpdateModel::SetPermissionless { freeze: true, thaw: false },
    );
    lemma_config_round_trip(c);
}

/// Two permissionless requests on one token account cannot both proceed:
/// while the first holds the guard record, a second one that does not end
/// at the idempotent no-op (which touches nothing) fails, and where its
/// policy checks pass it fails creating the guard record. A request that
/// completes releases the guard record.
pub proof fn law_guard_excludes(
    p: Programs,
    first: PermissionlessModel,
    second: PermissionlessModel,
    metas: Seq<ExtraMetaModel>,
    thaw: bool,
    idempotent: bool,
    decision: Decision,
    metas1: Seq<ExtraMetaModel>,
    thaw1: bool,
    idempotent1: bool,
    decision1: Decision,
)
    requires
        guard_check(p, first) is Ok,
        second.token_account.key == first.token_account.key,
        second.flag_account == guarded(p, first).flag_account,
        !idempotent || idempotent_check(second, thaw) == Ok::<bool, TokenAclError>(false),
    ensures
        permissionless_outcome(p, second, metas, thaw, idempotent, decision) is Err,
        policy_check(second, thaw) is Ok ==> permissionless_outcome(p, second, metas, thaw, idempotent, decision)
            == Err::<Option<AccountState>, TokenAclError>(TokenAclError::AccountAlreadyInUse),
        permissionless_outcome(p, first, metas1, thaw1, idempotent1, decision1) matches Ok(Some(_)) ==> {
            let after = permissionless_after(p, first, permissionless_outcome(p, first, metas1, thaw1, idempotent1, decision1));
            after.flag_account.data.len() == 0 && after.flag_account.owner == zero_address()
        },
{
    assert(second.flag_account.data.len() == 1);
}

/// Two snapshots that give the same account for every identity give the
/// same decision call, derived and data-read descriptors included;
/// resolving twice from one snapshot is the case where the two are one.
pub proof fn law_resolution_agrees(
    gate: Seq<u8>,
    base: Seq<AccountRefModel>,
    mint: Seq<u8>,
    pool1: Seq<AccountRefModel>,
    pool2: Seq<AccountRefModel>,
    metas: Seq<ExtraMetaModel>,
    thaw: bool,
    strict: bool,
)
    requires
        forall|k: Seq<u8>| #[trigger] pool_find(pool1, k) == pool_find(pool2, k),
    ensures
        gate_call_spec(gate, base, mint, pool1, metas, thaw, strict) == gate_call_spec(gate, base, mint, pool2, metas, thaw, strict),
{
    match metas_address_of(mint, gate, thaw) {
        None => {},
        Some((v, _)) => {
            assert(pool_find(pool1, v) == pool_find(pool2, v));
            if pool_find(pool1, v) is Some {
                assert(fetched(pool1, v) == fetched(pool2, v));
                lemma_resolve_same_snapshot(metas, base.push(fetched(pool1, v)), pool1, pool2, gate, strict);
            }
        },
    }
}

/// The off-chain builder and the program agree on the decision call: where
/// the builder's snapshot gives the same account as the program's remaining
/// accounts for every identity, and the same data for the four fixed
/// accounts other than the guard record, and the program's call `l`
/// resolves, the request the builder assembles carries, after its nine
/// fixed accounts, exactly the accounts of `l` after its five fixed ones,
/// in order.
pub proof fn law_builder_matches_program(
    p: Programs,
    m: PermissionlessModel,
    metas: Seq<ExtraMetaModel>,
    snapshot: Seq<AccountRefModel>,
    thaw: bool,
    idempotent: bool,
    mint_config: Seq<u8>,
    token_program: Seq<u8>,
    l: Seq<AccountRefModel>,
)
    requires
        forall|k: Seq<u8>| #[trigger] pool_find(snapshot, k) == pool_find(m.remaining_accounts, k),
        fetched(snapshot, m.authority.key).data == m.authority.data,
        fetched(snapshot, m.token_account.key).data == m.token_account.data,
        fetched(snapshot, m.mint.key).data == m.mint.data,
        fetched(snapshot, m.token_account_owner.key) == m.token_account_owner,
        gate_call_spec(m.gating_program, call_base(guarded(p, m)), m.mint.key, m.remaining_accounts, metas, thaw, true)
            == Ok::<Seq<AccountRefModel>, TokenAclError>(l),
    ensures
        request_with_extras(p.token_acl@, m.authority.key, m.token_account.key, m.mint.key, mint_config, token_program,
            m.token_account_owner.key, m.flag_account.key, m.gating_program, idempotent, metas, snapshot, thaw)
            == Ok::<InstructionView, TokenAclError>(InstructionView {
                program_id: p.token_acl@,
                accounts: permissionless_fixed_metas(m.authority.key, m.mint.key, m.token_account.key, m.flag_account.key,
                    m.token_account_owner.key, mint_config, token_program, m.gating_program) + extra_account_metas(l, metas),
                data: permissionless_data(idempotent, thaw),
            }),
        forall|i: int| 0 <= i < l.len() - 5 ==> (#[trigger] extra_account_metas(l, metas)[i]).pubkey == l[5 + i].key,
{
    let gate = m.gating_program;
    let base = call_base(guarded(p, m));
    assert(builder_base(snapshot, m.authority.key, m.token_account.key, m.mint.key, m.token_account_owner.key, m.flag_account.key)
        =~= base);
    law_resolution_agrees(gate, base, m.mint.key, snapshot, m.remaining_accounts, metas, thaw, true);
    match metas_address_of(m.mint.key, gate, thaw) {
        None => {},
        Some((v, _)) => {
            if pool_find(snapshot, v) is Some {
                lemma_strict_agrees(metas, base.push(fetched(snapshot, v)), snapshot, gate);
            }
        },
    }
}

/// A deletion that succeeds hands the native freeze authority to the chosen
/// identity exactly where the mint still exists and its freeze authority is
/// the record's address, and leaves the mint as it was otherwise; either
/// way the receiver has the record's deposit and the record is released.
pub proof fn law_delete_restore_rule(p: Programs, d: DeleteConfigModel, new_authority: Seq<u8>)
    requires
        delete_outcome(p, d, new_authority) is Ok,
    ensures
        custody_held(d) <==> (d.mint.state matches Some(ms) && ms.freeze_authority == Some(d.mint_config.key)),
        custody_held(d) ==> (delete_after(p, d, new_authority).mint.state matches Some(ms)
            && ms.freeze_authority == Some(new_authority)),
        !custody_held(d) ==> delete_after(p, d, new_authority).mint == d.mint,
        delete_after(p, d, new_authority).receiver.lamports == d.receiver.lamports + d.mint_config.lamports,
        delete_after(p, d, new_authority).mint_config.lamports == 0,
        delete_after(p, d, new_authority).mint_config.data.len() == 0,
        delete_after(p, d, new_authority).mint_config.owner == zero_address(),
{
}

} // verus!
