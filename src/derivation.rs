use vstd::prelude::*;

use crate::address::Address;

verus! {

/// The program-derived address and bump seed for `seeds` under `program`,
/// when a bump seed gives an address off the curve.
pub uninterp spec fn program_address_of(seeds: Seq<Seq<u8>>, program: Seq<u8>) -> Option<
    (Seq<u8>, u8),
>;

/// A derived address and bump, seen as plain bytes.
pub open spec fn derived_view(d: Option<(Address, u8)>) -> Option<(Seq<u8>, u8)> {
    match d {
        Some((a, b)) => Some((a@, b)),
        None => None,
    }
}

/// The namespace of the configuration record: the bytes of "config".
pub open spec fn config_seed() -> Seq<u8> {
    seq![99u8, 111u8, 110u8, 102u8, 105u8, 103u8]
}

/// The namespace of the vaults: the bytes of "vault".
pub open spec fn vault_seed() -> Seq<u8> {
    seq![118u8, 97u8, 117u8, 108u8, 116u8]
}

/// Where the configuration record of `program` lives: derived from its namespace alone.
pub open spec fn config_address_spec(program: Seq<u8>) -> Option<(Seq<u8>, u8)> {
    program_address_of(seq![config_seed()], program)
}

/// Where the vault of `program` for the asset `mint` lives.
pub open spec fn vault_address_spec(program: Seq<u8>, mint: Seq<u8>) -> Option<(Seq<u8>, u8)> {
    program_address_of(seq![vault_seed(), mint], program)
}

/// Relies on `Pubkey::try_find_program_address` of solana-program (re-exported by
/// anchor-lang): the address and bump seed it finds depend on the seeds and the
/// program id alone; `None` when no bump seed gives an address off the curve.
#[verifier::external_body]
fn find_program_address(seeds: &Vec<Vec<u8>>, program: &Address) -> (r: Option<(Address, u8)>)
    ensures
        derived_view(r) == program_address_of(seeds.deep_view(), program@),
{
    let s: Vec<&[u8]> = seeds.iter().map(|x| x.as_slice()).collect();
    let p = anchor_lang::prelude::Pubkey::new_from_array(program.bytes);
    anchor_lang::prelude::Pubkey::try_find_program_address(&s, &p).map(
        |(k, b)| (Address { bytes: k.to_bytes() }, b),
    )
}

/// The address and bump of the configuration record of `program_id`.
pub fn config_address(program_id: &Address) -> (r: Option<(Address, u8)>)
    ensures
        derived_view(r) == config_address_spec(program_id@),
{
    let mut seeds: Vec<Vec<u8>> = Vec::new();
    seeds.push(vec![99u8, 111u8, 110u8, 102u8, 105u8, 103u8]);
    assert(seeds.deep_view() =~= seq![config_seed()]) by {
        assert(seeds@[0].deep_view() =~= config_seed());
    }
    find_program_address(&seeds, program_id)
}

/// The address and bump of the vault of `program_id` for the asset `mint`;
/// anyone who knows the asset can compute it.
pub fn vault_address(program_id: &Address, mint: &Address) -> (r: Option<(Address, u8)>)
    ensures
        derived_view(r) == vault_address_spec(program_id@, mint@),
{
    let mut seeds: Vec<Vec<u8>> = Vec::new();
    seeds.push(vec![118u8, 97u8, 117u8, 108u8, 116u8]);
    seeds.push(mint.to_vec());
    assert(seeds.deep_view() =~= seq![vault_seed(), mint@]) by {
        assert(seeds@[0].deep_view() =~= vault_seed());
        assert(seeds@[1].deep_view() =~= mint@);
    }
    find_program_address(&seeds, program_id)
}

} // verus!
