use vstd::prelude::*;
use crate::address::Address;
use crate::error::TokenAclError;

verus! {

/// The identity that base58 text `s` spells, if it spells one.
pub uninterp spec fn base58_address(s: Seq<char>) -> Option<Seq<u8>>;

/// The base58 text of identity `a`.
pub uninterp spec fn base58_text(a: Seq<u8>) -> Seq<char>;

/// Relies on solana_pubkey::Pubkey's FromStr: base58 text to a 32-byte
/// identity, or an error; the result depends on the text alone.
#[verifier::external_body]
fn parse_address(s: &String) -> (r: Option<Address>)
    ensures
        match r {
            Some(a) => base58_address(s@) == Some(a@),
            None => base58_address(s@) is None,
        },
{
    s.parse::<solana_pubkey::Pubkey>().ok().map(|p| Address { bytes: p.to_bytes() })
}

/// Relies on solana_pubkey::Pubkey's Display: the base58 text of the
/// identity's bytes, a function of them alone.
#[verifier::external_body]
fn address_text(a: &Address) -> (r: String)
    ensures
        r@ == base58_text(a@),
{
    solana_pubkey::Pubkey::new_from_array(a.bytes).to_string()
}

/// The token-metadata key under which a mint names its decision program,
/// "token_acl".
pub open spec fn tacl_metadata_key() -> Seq<char> {
    seq!['t', 'o', 'k', 'e', 'n', '_', 'a', 'c', 'l']
}

pub fn tacl_metadata_key_string() -> (r: String)
    ensures
        r@ == tacl_metadata_key(),
{
    let r = "token_acl".to_owned();
    proof {
        reveal_strlit("token_acl");
    }
    assert(r@ =~= tacl_metadata_key());
    r
}

pub open spec fn pairs_view(s: Seq<(String, String)>) -> Seq<(Seq<char>, Seq<char>)> {
    s.map_values(|p: (String, String)| (p.0@, p.1@))
}

/// The value of the first field of `fields` under `key`.
pub open spec fn field_value(fields: Seq<(Seq<char>, Seq<char>)>, key: Seq<char>) -> Option<Seq<char>>
    decreases fields.len(),
{
    if fields.len() == 0 {
        None
    } else if fields[0].0 == key {
        Some(fields[0].1)
    } else {
        field_value(fields.drop_first(), key)
    }
}

/// The decision program a mint names in its metadata fields; an
/// invalid-mint error where the mint has no metadata, no such field, or a
/// value that is not an identity.
pub open spec fn gating_program_of(fields: Option<Seq<(Seq<char>, Seq<char>)>>) -> Result<Seq<u8>, TokenAclError> {
    match fields {
        None => Err(TokenAclError::InvalidTokenMint),
        Some(fs) => match field_value(fs, tacl_metadata_key()) {
            None => Err(TokenAclError::InvalidTokenMint),
            Some(v) => match base58_address(v) {
                None => Err(TokenAclError::InvalidTokenMint),
                Some(a) => Ok(a),
            },
        },
    }
}

pub open spec fn fields_view(fields: Option<Vec<(String, String)>>) -> Option<Seq<(Seq<char>, Seq<char>)>> {
    match fields {
        Some(fs) => Some(pairs_view(fs@)),
        None => None,
    }
}

/// Reads the decision program from a mint's token-metadata fields
/// (`None` where the mint cannot be read or carries no metadata).
pub fn get_gating_program_from_mint_data(additional_metadata: &Option<Vec<(String, String)>>) -> (r: Result<Address, TokenAclError>)
    ensures
        match r {
            Ok(a) => gating_program_of(fields_view(*additional_metadata)) == Ok::<Seq<u8>, TokenAclError>(a@),
            Err(e) => gating_program_of(fields_view(*additional_metadata)) == Err::<Seq<u8>, TokenAclError>(e),
        },
{
    let fields = match additional_metadata {
        None => {
            return Err(TokenAclError::InvalidTokenMint);
        },
        Some(fs) => fs,
    };
    let key = tacl_metadata_key_string();
    let ghost all = pairs_view(fields@);
    let mut i: usize = 0;
    assert(all.skip(0) =~= all);
    while i < fields.len()
        invariant
            i <= fields@.len(),
            all == pairs_view(fields@),
            fields_view(*additional_metadata) == Some(all),
            key@ == tacl_metadata_key(),
            field_value(all, key@) == field_value(all.skip(i as int), key@),
        decreases fields@.len() - i,
    {
        assert(all.skip(i as int).drop_first() =~= all.skip(i + 1));
        assert(all.skip(i as int)[0] == (fields@[i as int].0@, fields@[i as int].1@));
        if fields[i].0 == key {
            return match parse_address(&fields[i].1) {
                None => Err(TokenAclError::InvalidTokenMint),
                Some(a) => Ok(a),
            };
        }
        i += 1;
    }
    Err(TokenAclError::InvalidTokenMint)
}

/// The metadata field by which a mint names `gating_program` as its
/// decision program: the key and the program's base58 text.
pub fn set_mint_tacl_metadata_field(gating_program: &Address) -> (r: (String, String))
    ensures
        r.0@ == tacl_metadata_key(),
        r.1@ == base58_text(gating_program@),
{
    (tacl_metadata_key_string(), address_text(gating_program))
}

} // verus!
