use vstd::prelude::*;
use crate::address::Address;

verus! {

/// The tag that opens a configuration record.
pub const CONFIG_DISCRIMINATOR: u8 = 1;

/// The size in bytes of a configuration record.
pub const CONFIG_LEN: usize = 100;

/// The namespace tag of configuration record addresses, "MINT_CFG".
pub open spec fn config_seed() -> Seq<u8> {
    seq![77, 73, 78, 84, 95, 67, 70, 71]
}

/// The namespace tag of guard record addresses, "FLAG_ACCOUNT".
pub open spec fn guard_seed() -> Seq<u8> {
    seq![70, 76, 65, 71, 95, 65, 67, 67, 79, 85, 78, 84]
}

/// The namespace tag of the thaw descriptor list's address,
/// "thaw_extra_account_metas".
pub open spec fn thaw_metas_seed() -> Seq<u8> {
    seq![116, 104, 97, 119, 95, 101, 120, 116, 114, 97, 95, 97, 99, 99, 111, 117, 110, 116, 95, 109, 101, 116, 97, 115]
}

/// The namespace tag of the freeze descriptor list's address,
/// "freeze_extra_account_metas".
pub open spec fn freeze_metas_seed() -> Seq<u8> {
    seq![102, 114, 101, 101, 122, 101, 95, 101, 120, 116, 114, 97, 95, 97, 99, 99, 111, 117, 110, 116, 95, 109, 101, 116, 97, 115]
}

pub fn config_seed_bytes() -> (r: Vec<u8>)
    ensures
        r@ == config_seed(),
{
    let r: Vec<u8> = vec![77, 73, 78, 84, 95, 67, 70, 71];
    assert(r@ =~= config_seed());
    r
}

pub fn guard_seed_bytes() -> (r: Vec<u8>)
    ensures
        r@ == guard_seed(),
{
    let r: Vec<u8> = vec![70, 76, 65, 71, 95, 65, 67, 67, 79, 85, 78, 84];
    assert(r@ =~= guard_seed());
    r
}

pub fn thaw_metas_seed_bytes() -> (r: Vec<u8>)
    ensures
        r@ == thaw_metas_seed(),
{
    let r: Vec<u8> = vec![116, 104, 97, 119, 95, 101, 120, 116, 114, 97, 95, 97, 99, 99, 111, 117, 110, 116, 95, 109, 101, 116, 97, 115];
    assert(r@ =~= thaw_metas_seed());
    r
}

pub fn freeze_metas_seed_bytes() -> (r: Vec<u8>)
    ensures
        r@ == freeze_metas_seed(),
{
    let r: Vec<u8> = vec![102, 114, 101, 101, 122, 101, 95, 101, 120, 116, 114, 97, 95, 97, 99, 99, 111, 117, 110, 116, 95, 109, 101, 116, 97, 115];
    assert(r@ =~= freeze_metas_seed());
    r
}

/// The per-mint configuration record.
#[derive(Clone, Copy, Debug)]
pub struct MintConfig {
    pub mint: Address,
    pub freeze_authority: Address,
    pub gating_program: Address,
    pub bump: u8,
    pub enable_permissionless_freeze: bool,
    pub enable_permissionless_thaw: bool,
}

pub struct MintConfigModel {
    pub mint: Seq<u8>,
    pub freeze_authority: Seq<u8>,
    pub gating_program: Seq<u8>,
    pub bump: u8,
    pub enable_permissionless_freeze: bool,
    pub enable_permissionless_thaw: bool,
}

impl View for MintConfig {
    type V = MintConfigModel;

    open spec fn view(&self) -> MintConfigModel {
        MintConfigModel {
            mint: self.mint@,
            freeze_authority: self.freeze_authority@,
            gating_program: self.gating_program@,
            bump: self.bump,
            enable_permissionless_freeze: self.enable_permissionless_freeze,
            enable_permissionless_thaw: self.enable_permissionless_thaw,
        }
    }
}

/// A record whose identities are 32 bytes each.
pub open spec fn config_wf(c: MintConfigModel) -> bool {
    c.mint.len() == 32 && c.freeze_authority.len() == 32 && c.gating_program.len() == 32
}

pub open spec fn bool_byte(b: bool) -> u8 {
    if b { 1u8 } else { 0u8 }
}

/// The record's bytes: tag, mint, authority, decision program, bump, then
/// the freeze and thaw flags.
pub open spec fn config_bytes(c: MintConfigModel) -> Seq<u8> {
    seq![CONFIG_DISCRIMINATOR] + c.mint + c.freeze_authority + c.gating_program + seq![
        c.bump,
        bool_byte(c.enable_permissionless_freeze),
        bool_byte(c.enable_permissionless_thaw),
    ]
}

/// Whether `data` is a configuration record.
pub open spec fn is_config_data(data: Seq<u8>) -> bool {
    data.len() == CONFIG_LEN && data[0] == CONFIG_DISCRIMINATOR
}

/// The record that `data` holds, if it holds one.
pub open spec fn decode_config(data: Seq<u8>) -> Option<MintConfigModel> {
    if is_config_data(data) {
        Some(MintConfigModel {
            mint: data.subrange(1, 33),
            freeze_authority: data.subrange(33, 65),
            gating_program: data.subrange(65, 97),
            bump: data[97],
            enable_permissionless_freeze: data[98] != 0,
            enable_permissionless_thaw: data[99] != 0,
        })
    } else {
        None
    }
}

pub open spec fn config_opt_view(c: Option<MintConfig>) -> Option<MintConfigModel> {
    match c {
        Some(x) => Some(x@),
        None => None,
    }
}

fn push_address(out: &mut Vec<u8>, a: &Address)
    ensures
        final(out)@ == old(out)@ + a@,
{
    let mut i: usize = 0;
    while i < 32
        invariant
            i <= 32,
            a@.len() == 32,
            out@ == old(out)@ + a@.subrange(0, i as int),
        decreases 32 - i,
    {
        out.push(a.bytes[i]);
        i += 1;
        assert(out@ =~= old(out)@ + a@.subrange(0, i as int));
    }
    assert(a@.subrange(0, 32) =~= a@);
}

impl MintConfig {
    /// The record's bytes.
    pub fn encode(&self) -> (r: Vec<u8>)
        ensures
            r@ == config_bytes(self@),
            r@.len() == CONFIG_LEN,
    {
        let mut r: Vec<u8> = Vec::new();
        r.push(CONFIG_DISCRIMINATOR);
        push_address(&mut r, &self.mint);
        push_address(&mut r, &self.freeze_authority);
        push_address(&mut r, &self.gating_program);
        r.push(self.bump);
        r.push(if self.enable_permissionless_freeze { 1u8 } else { 0u8 });
        r.push(if self.enable_permissionless_thaw { 1u8 } else { 0u8 });
        assert(r@ =~= config_bytes(self@));
        r
    }

    /// Reads a record from account data; `None` unless the data is exactly
    /// a record's size and opens with the record's tag.
    pub fn decode(data: &Vec<u8>) -> (r: Option<MintConfig>)
        ensures
            config_opt_view(r) == decode_config(data@),
    {
        if data.len() != CONFIG_LEN || data[0] != CONFIG_DISCRIMINATOR {
            return None;
        }
        let mint = Address::read_at(data, 1);
        let freeze_authority = Address::read_at(data, 33);
        let gating_program = Address::read_at(data, 65);
        Some(MintConfig {
            mint,
            freeze_authority,
            gating_program,
            bump: data[97],
            enable_permissionless_freeze: data[98] != 0,
            enable_permissionless_thaw: data[99] != 0,
        })
    }

    pub fn is_permissionless_freeze_enabled(&self) -> (r: bool)
        ensures
            r == self.enable_permissionless_freeze,
    {
        self.enable_permissionless_freeze
    }

    pub fn is_permissionless_thaw_enabled(&self) -> (r: bool)
        ensures
            r == self.enable_permissionless_thaw,
    {
        self.enable_permissionless_thaw
    }
}

/// Decoding the bytes of a record gives that record back.
pub proof fn lemma_config_round_trip(c: MintConfigModel)
    requires
        config_wf(c),
    ensures
        decode_config(config_bytes(c)) == Some(c),
{
    let b = config_bytes(c);
    assert(b.subrange(1, 33) =~= c.mint);
    assert(b.subrange(33, 65) =~= c.freeze_authority);
    assert(b.subrange(65, 97) =~= c.gating_program);
}

} // verus!
