use vstd::prelude::*;
use crate::address::Address;
use crate::error::TokenAclError;
use crate::pda::{find_program_address, program_address, seeds_view};

verus! {

/// An account's identity and data, as a snapshot holds it.
#[derive(Debug)]
pub struct AccountRef {
    pub key: Address,
    pub data: Vec<u8>,
}

pub struct AccountRefModel {
    pub key: Seq<u8>,
    pub data: Seq<u8>,
}

impl View for AccountRef {
    type V = AccountRefModel;

    open spec fn view(&self) -> AccountRefModel {
        AccountRefModel { key: self.key@, data: self.data@ }
    }
}

/// One seed of a derived identity.
#[derive(Debug)]
pub enum Seed {
    /// These bytes as they are.
    Literal(Vec<u8>),
    /// The identity of the account at this index of the list built so far.
    AccountKey(u8),
}

pub enum SeedModel {
    Literal(Seq<u8>),
    AccountKey(u8),
}

impl View for Seed {
    type V = SeedModel;

    open spec fn view(&self) -> SeedModel {
        match self {
            Seed::Literal(b) => SeedModel::Literal(b@),
            Seed::AccountKey(i) => SeedModel::AccountKey(*i),
        }
    }
}

/// How a descriptor names its account.
#[derive(Debug)]
pub enum MetaAddress {
    /// A literal identity.
    Fixed(Address),
    /// The 32 bytes at `data_index` in the data of the account at
    /// `account_index` of the list built so far.
    AccountData { account_index: u8, data_index: u8 },
    /// The identity derived from `seeds` under the program at
    /// `program_index` of the list built so far, or under the decision
    /// program where that is `None`.
    Derived { program_index: Option<u8>, seeds: Vec<Seed> },
}

pub enum MetaAddressModel {
    Fixed(Seq<u8>),
    AccountData { account_index: u8, data_index: u8 },
    Derived { program_index: Option<u8>, seeds: Seq<SeedModel> },
}

impl View for MetaAddress {
    type V = MetaAddressModel;

    open spec fn view(&self) -> MetaAddressModel {
        match self {
            MetaAddress::Fixed(a) => MetaAddressModel::Fixed(a@),
            MetaAddress::AccountData { account_index, data_index } => MetaAddressModel::AccountData {
                account_index: *account_index,
                data_index: *data_index,
            },
            MetaAddress::Derived { program_index, seeds } => MetaAddressModel::Derived {
                program_index: *program_index,
                seeds: seeds@.map_values(|s: Seed| s@),
            },
        }
    }
}

/// One descriptor of an extra-context list.
#[derive(Debug)]
pub struct ExtraMeta {
    pub address: MetaAddress,
    pub is_signer: bool,
    pub is_writable: bool,
}

pub struct ExtraMetaModel {
    pub address: MetaAddressModel,
    pub is_signer: bool,
    pub is_writable: bool,
}

impl View for ExtraMeta {
    type V = ExtraMetaModel;

    open spec fn view(&self) -> ExtraMetaModel {
        ExtraMetaModel { address: self.address@, is_signer: self.is_signer, is_writable: self.is_writable }
    }
}

pub open spec fn refs_view(s: Seq<AccountRef>) -> Seq<AccountRefModel> {
    s.map_values(|a: AccountRef| a@)
}

pub open spec fn metas_view(s: Seq<ExtraMeta>) -> Seq<ExtraMetaModel> {
    s.map_values(|m: ExtraMeta| m@)
}

/// The first account of `pool` with identity `key`.
pub open spec fn pool_find(pool: Seq<AccountRefModel>, key: Seq<u8>) -> Option<AccountRefModel>
    decreases pool.len(),
{
    if pool.len() == 0 {
        None
    } else if pool[0].key == key {
        Some(pool[0])
    } else {
        pool_find(pool.drop_first(), key)
    }
}

/// The bytes of one seed, given the list built so far.
pub open spec fn seed_value(s: SeedModel, list: Seq<AccountRefModel>) -> Result<Seq<u8>, TokenAclError> {
    match s {
        SeedModel::Literal(b) => Ok(b),
        SeedModel::AccountKey(i) => if (i as int) < list.len() {
            Ok(list[i as int].key)
        } else {
            Err(TokenAclError::NotEnoughAccountKeys)
        },
    }
}

/// The bytes of every seed in order; the first seed that fails decides.
pub open spec fn seed_values(seeds: Seq<SeedModel>, list: Seq<AccountRefModel>) -> Result<Seq<Seq<u8>>, TokenAclError>
    decreases seeds.len(),
{
    if seeds.len() == 0 {
        Ok(Seq::empty())
    } else {
        match seed_values(seeds.drop_last(), list) {
            Err(e) => Err(e),
            Ok(v) => match seed_value(seeds.last(), list) {
                Err(e) => Err(e),
                Ok(b) => Ok(v.push(b)),
            },
        }
    }
}

/// The identity one descriptor names, given the list built so far and the
/// decision program that owns the list.
pub open spec fn meta_key(m: MetaAddressModel, list: Seq<AccountRefModel>, program: Seq<u8>) -> Result<Seq<u8>, TokenAclError> {
    match m {
        MetaAddressModel::Fixed(a) => Ok(a),
        MetaAddressModel::AccountData { account_index, data_index } => {
            if (account_index as int) >= list.len() {
                Err(TokenAclError::NotEnoughAccountKeys)
            } else if data_index + 32 > list[account_index as int].data.len() {
                Err(TokenAclError::AccountDataTooSmall)
            } else {
                Ok(list[account_index as int].data.subrange(data_index as int, data_index + 32))
            }
        },
        MetaAddressModel::Derived { program_index, seeds } => {
            let owner = match program_index {
                None => Ok(program),
                Some(i) => if (i as int) < list.len() {
                    Ok(list[i as int].key)
                } else {
                    Err(TokenAclError::NotEnoughAccountKeys)
                },
            };
            match owner {
                Err(e) => Err(e),
                Ok(p) => match seed_values(seeds, list) {
                    Err(e) => Err(e),
                    Ok(v) => match program_address(v, p) {
                        None => Err(TokenAclError::InvalidSeeds),
                        Some((a, _)) => Ok(a),
                    },
                },
            }
        },
    }
}

/// An account as a snapshot gives it: its data where the snapshot holds
/// it, none otherwise.
pub open spec fn fetched(pool: Seq<AccountRefModel>, key: Seq<u8>) -> AccountRefModel {
    AccountRefModel {
        key,
        data: match pool_find(pool, key) {
            Some(a) => a.data,
            None => Seq::empty(),
        },
    }
}

/// Resolves `metas` in order onto `list`: each descriptor names an identity
/// from what is already in the list, and that account, with its data from
/// `pool`, is appended. Where `strict`, as when the program makes the call,
/// every named account must be in `pool`; otherwise, as when a request is
/// built before some of its accounts exist, an account missing from `pool`
/// is appended with no data.
pub open spec fn resolve_spec(
    metas: Seq<ExtraMetaModel>,
    list: Seq<AccountRefModel>,
    pool: Seq<AccountRefModel>,
    program: Seq<u8>,
    strict: bool,
) -> Result<Seq<AccountRefModel>, TokenAclError>
    decreases metas.len(),
{
    if metas.len() == 0 {
        Ok(list)
    } else {
        match meta_key(metas[0].address, list, program) {
            Err(e) => Err(e),
            Ok(k) => if strict && pool_find(pool, k) is None {
                Err(TokenAclError::NotEnoughAccountKeys)
            } else {
                resolve_spec(metas.drop_first(), list.push(fetched(pool, k)), pool, program, strict)
            },
        }
    }
}

proof fn lemma_seed_values_err_extends(all: Seq<SeedModel>, j: int, list: Seq<AccountRefModel>, e: TokenAclError)
    requires
        0 <= j <= all.len(),
        seed_values(all.take(j), list) == Err::<Seq<Seq<u8>>, TokenAclError>(e),
    ensures
        seed_values(all, list) == Err::<Seq<Seq<u8>>, TokenAclError>(e),
    decreases all.len() - j,
{
    if j < all.len() {
        assert(all.take(j + 1).drop_last() =~= all.take(j));
        lemma_seed_values_err_extends(all, j + 1, list, e);
    } else {
        assert(all.take(j) =~= all);
    }
}

/// A copy of `v`.
pub fn copy_bytes(v: &Vec<u8>) -> (r: Vec<u8>)
    ensures
        r@ == v@,
{
    let mut r: Vec<u8> = Vec::new();
    let mut i: usize = 0;
    while i < v.len()
        invariant
            i <= v@.len(),
            r@ == v@.subrange(0, i as int),
        decreases v@.len() - i,
    {
        r.push(v[i]);
        i += 1;
        assert(r@ =~= v@.subrange(0, i as int));
    }
    assert(v@.subrange(0, v@.len() as int) =~= v@);
    r
}

impl AccountRef {
    pub fn copy(&self) -> (r: AccountRef)
        ensures
            r@ == self@,
    {
        AccountRef { key: self.key, data: copy_bytes(&self.data) }
    }
}

/// The first account of `pool` with identity `key`, copied.
pub fn find_in_pool(pool: &Vec<AccountRef>, key: &Address) -> (r: Option<AccountRef>)
    ensures
        match r {
            Some(a) => pool_find(refs_view(pool@), key@) == Some(a@),
            None => pool_find(refs_view(pool@), key@) is None,
        },
{
    let mut i: usize = 0;
    assert(refs_view(pool@).skip(0) =~= refs_view(pool@));
    while i < pool.len()
        invariant
            i <= pool@.len(),
            pool_find(refs_view(pool@), key@) == pool_find(refs_view(pool@).skip(i as int), key@),
        decreases pool@.len() - i,
    {
        let ghost rest = refs_view(pool@).skip(i as int);
        assert(rest.drop_first() =~= refs_view(pool@).skip(i + 1));
        if pool[i].key.same(key) {
            return Some(pool[i].copy());
        }
        i += 1;
    }
    None
}

fn seed_bytes(s: &Seed, list: &Vec<AccountRef>) -> (r: Result<Vec<u8>, TokenAclError>)
    ensures
        match r {
            Ok(b) => seed_value(s@, refs_view(list@)) == Ok::<Seq<u8>, TokenAclError>(b@),
            Err(e) => seed_value(s@, refs_view(list@)) == Err::<Seq<u8>, TokenAclError>(e),
        },
{
    match s {
        Seed::Literal(b) => Ok(copy_bytes(b)),
        Seed::AccountKey(i) => {
            if (*i as usize) < list.len() {
                Ok(list[*i as usize].key.to_vec())
            } else {
                Err(TokenAclError::NotEnoughAccountKeys)
            }
        },
    }
}

fn all_seed_bytes(seeds: &Vec<Seed>, list: &Vec<AccountRef>) -> (r: Result<Vec<Vec<u8>>, TokenAclError>)
    ensures
        match r {
            Ok(v) => seed_values(seeds@.map_values(|s: Seed| s@), refs_view(list@)) == Ok::<Seq<Seq<u8>>, TokenAclError>(seeds_view(v@)),
            Err(e) => seed_values(seeds@.map_values(|s: Seed| s@), refs_view(list@)) == Err::<Seq<Seq<u8>>, TokenAclError>(e),
        },
{
    let ghost all = seeds@.map_values(|s: Seed| s@);
    let mut out: Vec<Vec<u8>> = Vec::new();
    let mut i: usize = 0;
    assert(all.take(0) =~= Seq::<SeedModel>::empty());
    assert(seeds_view(out@) =~= Seq::<Seq<u8>>::empty());
    while i < seeds.len()
        invariant
            i <= seeds@.len(),
            all == seeds@.map_values(|s: Seed| s@),
            seed_values(all.take(i as int), refs_view(list@)) == Ok::<Seq<Seq<u8>>, TokenAclError>(seeds_view(out@)),
        decreases seeds@.len() - i,
    {
        assert(all.take(i + 1).drop_last() =~= all.take(i as int));
        assert(all.take(i + 1).last() == seeds@[i as int]@);
        match seed_bytes(&seeds[i], list) {
            Err(e) => {
                assert(seed_values(all.take(i + 1), refs_view(list@)) == Err::<Seq<Seq<u8>>, TokenAclError>(e));
                proof { lemma_seed_values_err_extends(all, i + 1, refs_view(list@), e); }
                return Err(e);
            },
            Ok(b) => {
                let ghost prev = seeds_view(out@);
                let ghost bv = b@;
                out.push(b);
                assert(seeds_view(out@) =~= prev.push(bv));
                i += 1;
            },
        }
    }
    assert(all.take(seeds@.len() as int) =~= all);
    Ok(out)
}

fn meta_address_key(m: &MetaAddress, list: &Vec<AccountRef>, program: &Address) -> (r: Result<Address, TokenAclError>)
    ensures
        match r {
            Ok(a) => meta_key(m@, refs_view(list@), program@) == Ok::<Seq<u8>, TokenAclError>(a@),
            Err(e) => meta_key(m@, refs_view(list@), program@) == Err::<Seq<u8>, TokenAclError>(e),
        },
{
    match m {
        MetaAddress::Fixed(a) => Ok(*a),
        MetaAddress::AccountData { account_index, data_index } => {
            let ai = *account_index as usize;
            let di = *data_index as usize;
            if ai >= list.len() {
                Err(TokenAclError::NotEnoughAccountKeys)
            } else if di + 32 > list[ai].data.len() {
                Err(TokenAclError::AccountDataTooSmall)
            } else {
                Ok(Address::read_at(&list[ai].data, di))
            }
        },
        MetaAddress::Derived { program_index, seeds } => {
            let owner = match program_index {
                None => *program,
                Some(i) => {
                    if (*i as usize) < list.len() {
                        list[*i as usize].key
                    } else {
                        return Err(TokenAclError::NotEnoughAccountKeys);
                    }
                },
            };
            let values = all_seed_bytes(seeds, list)?;
            match find_program_address(&values, &owner) {
                None => Err(TokenAclError::InvalidSeeds),
                Some((a, _)) => Ok(a),
            }
        },
    }
}

/// The account with identity `key` as `pool` gives it; see `fetched`.
pub fn fetch(pool: &Vec<AccountRef>, key: &Address) -> (r: AccountRef)
    ensures
        r@ == fetched(refs_view(pool@), key@),
{
    match find_in_pool(pool, key) {
        Some(a) => AccountRef { key: *key, data: a.data },
        None => AccountRef { key: *key, data: Vec::new() },
    }
}

/// Resolves `metas` in order onto `base`. Each descriptor names an identity
/// from the accounts already in the list (literal, read from an account's
/// data, or derived from seeds); that account, with its data from `pool`,
/// is appended. `program` is the decision program that owns the list; see
/// `resolve_spec` for `strict`. The result is a function of the inputs
/// alone.
pub fn resolve(
    metas: &Vec<ExtraMeta>,
    base: Vec<AccountRef>,
    pool: &Vec<AccountRef>,
    program: &Address,
    strict: bool,
) -> (r: Result<Vec<AccountRef>, TokenAclError>)
    ensures
        match r {
            Ok(l) => resolve_spec(metas_view(metas@), refs_view(base@), refs_view(pool@), program@, strict)
                == Ok::<Seq<AccountRefModel>, TokenAclError>(refs_view(l@)),
            Err(e) => resolve_spec(metas_view(metas@), refs_view(base@), refs_view(pool@), program@, strict)
                == Err::<Seq<AccountRefModel>, TokenAclError>(e),
        },
{
    let ghost all = metas_view(metas@);
    let mut list = base;
    let mut i: usize = 0;
    assert(all.skip(0) =~= all);
    while i < metas.len()
        invariant
            i <= metas@.len(),
            all == metas_view(metas@),
            resolve_spec(all, refs_view(base@), refs_view(pool@), program@, strict)
                == resolve_spec(all.skip(i as int), refs_view(list@), refs_view(pool@), program@, strict),
        decreases metas@.len() - i,
    {
        assert(all.skip(i as int).drop_first() =~= all.skip(i + 1));
        assert(all.skip(i as int)[0] == metas@[i as int]@);
        let k = meta_address_key(&metas[i].address, &list, program)?;
        let a = match find_in_pool(pool, &k) {
            None => {
                if strict {
                    return Err(TokenAclError::NotEnoughAccountKeys);
                }
                AccountRef { key: k, data: Vec::new() }
            },
            Some(a) => AccountRef { key: k, data: a.data },
        };
        let ghost prev = refs_view(list@);
        let ghost av = a@;
        list.push(a);
        assert(refs_view(list@) =~= prev.push(av));
        i += 1;
    }
    assert(all.skip(metas@.len() as int) =~= Seq::<ExtraMetaModel>::empty());
    Ok(list)
}

/// Resolution reads the pool only by identity: two snapshots that give the
/// same account for every identity resolve any descriptor list to the same
/// ordered accounts, whatever order or repeats either snapshot holds.
pub proof fn lemma_resolve_same_snapshot(
    metas: Seq<ExtraMetaModel>,
    list: Seq<AccountRefModel>,
    pool1: Seq<AccountRefModel>,
    pool2: Seq<AccountRefModel>,
    program: Seq<u8>,
    strict: bool,
)
    requires
        forall|k: Seq<u8>| #[trigger] pool_find(pool1, k) == pool_find(pool2, k),
    ensures
        resolve_spec(metas, list, pool1, program, strict) == resolve_spec(metas, list, pool2, program, strict),
    decreases metas.len(),
{
    if metas.len() > 0 {
        match meta_key(metas[0].address, list, program) {
            Err(_) => {},
            Ok(k) => {
                assert(pool_find(pool1, k) == pool_find(pool2, k));
                assert(fetched(pool1, k) == fetched(pool2, k));
                lemma_resolve_same_snapshot(metas.drop_first(), list.push(fetched(pool1, k)), pool1, pool2, program, strict);
            },
        }
    }
}

/// Where the program's resolution from `pool` succeeds, a builder's
/// resolution from the same accounts, which tolerates missing ones, gives
/// the same list.
pub proof fn lemma_strict_agrees(
    metas: Seq<ExtraMetaModel>,
    list: Seq<AccountRefModel>,
    pool: Seq<AccountRefModel>,
    program: Seq<u8>,
)
    requires
        resolve_spec(metas, list, pool, program, true) is Ok,
    ensures
        resolve_spec(metas, list, pool, program, false) == resolve_spec(metas, list, pool, program, true),
    decreases metas.len(),
{
    if metas.len() > 0 {
        let k = meta_key(metas[0].address, list, program)->Ok_0;
        lemma_strict_agrees(metas.drop_first(), list.push(fetched(pool, k)), pool, program);
    }
}

/// A resolution that succeeds appends one account for each descriptor and
/// keeps what the list held.
pub proof fn lemma_resolve_extends(
    metas: Seq<ExtraMetaModel>,
    list: Seq<AccountRefModel>,
    pool: Seq<AccountRefModel>,
    program: Seq<u8>,
    strict: bool,
)
    requires
        resolve_spec(metas, list, pool, program, strict) is Ok,
    ensures
        resolve_spec(metas, list, pool, program, strict)->Ok_0.len() == list.len() + metas.len(),
        resolve_spec(metas, list, pool, program, strict)->Ok_0.subrange(0, list.len() as int) == list,
    decreases metas.len(),
{
    if metas.len() == 0 {
        assert(list.subrange(0, list.len() as int) =~= list);
    } else {
        let k = meta_key(metas[0].address, list, program)->Ok_0;
        let a = fetched(pool, k);
        lemma_resolve_extends(metas.drop_first(), list.push(a), pool, program, strict);
        let l = resolve_spec(metas, list, pool, program, strict)->Ok_0;
        assert(l.subrange(0, list.len() as int) =~= list.push(a).subrange(0, list.len() as int));
        assert(list.push(a).subrange(0, list.len() as int) =~= list);
    }
}

} // verus!
