//! Program-derived addresses.
//!
//! Every record of the ledger lives at an address that is derived from a tag
//! and the values that identify the record. A derivation hashes the seeds, a
//! bump seed and the id of the deriving program, and is valid only where the
//! hash is no point of the signing curve: no private key belongs to such an
//! address, so that only the deriving program can sign for it. The canonical
//! bump seed of a list of seeds is the greatest one that gives a valid
//! address.

use crate::address::Address;
use anchor_lang::prelude::Pubkey;
use vstd::prelude::*;
use vstd::utf8::encode_utf8;

verus! {

/// The id of this program, under which its accounts are derived.
pub const ID: [u8; 32] = [
    255, 217, 79, 232, 253, 186, 86, 7, 43, 9, 166, 135, 222, 163, 84, 212,
    237, 176, 234, 80, 13, 153, 158, 198, 0, 0, 200, 186, 184, 222, 21, 44,
];

/// The id of the token program, which owns the holding accounts.
pub const TOKEN_PROGRAM_ID: [u8; 32] = [
    6, 221, 246, 225, 215, 101, 161, 147, 217, 203, 225, 70, 206, 235, 121, 172,
    28, 180, 133, 237, 95, 91, 55, 145, 58, 140, 245, 133, 126, 255, 0, 169,
];

/// The id of the associated-token-account program, under which the holding
/// account of a wallet and a mint is derived.
pub const ASSOCIATED_TOKEN_PROGRAM_ID: [u8; 32] = [
    140, 151, 37, 143, 78, 36, 137, 241, 187, 61, 16, 41, 20, 142, 13, 131,
    11, 90, 19, 153, 218, 255, 16, 132, 4, 142, 123, 216, 219, 233, 248, 89,
];

/// A derivation takes fewer seeds than this, the bump seed not counted.
pub const MAX_SEEDS: usize = 16;

/// The greatest length of one seed, in bytes.
pub const MAX_SEED_LEN: usize = 32;

/// The seeds that a vector of byte vectors holds.
pub open spec fn seeds_view(seeds: Vec<Vec<u8>>) -> Seq<Seq<u8>> {
    Seq::new(seeds@.len(), |i: int| seeds@[i]@)
}

/// The seeds followed by a bump seed.
pub open spec fn with_bump(seeds: Seq<Seq<u8>>, bump: u8) -> Seq<Seq<u8>> {
    seeds.push(seq![bump])
}

/// Seeds that a search for a bump seed accepts.
pub open spec fn seeds_fit(seeds: Seq<Seq<u8>>) -> bool {
    &&& seeds.len() < MAX_SEEDS
    &&& forall|i: int| 0 <= i < seeds.len() ==> (#[trigger] seeds[i]).len() <= MAX_SEED_LEN
}

/// The address that `Pubkey::create_program_address` derives from the seeds
/// under the program id, and `None` where it derives none.
pub uninterp spec fn program_address(seeds: Seq<Seq<u8>>, program_id: Seq<u8>) -> Option<Seq<u8>>;

/// `bump` is the canonical bump seed of the seeds: the greatest of the bump
/// seeds from 1 to 255 with which they derive an address.
pub open spec fn is_canonical_bump(seeds: Seq<Seq<u8>>, program_id: Seq<u8>, bump: u8) -> bool {
    &&& 1 <= bump
    &&& program_address(with_bump(seeds, bump), program_id) is Some
    &&& forall|b: u8|
        bump < b ==> (#[trigger] program_address(with_bump(seeds, b), program_id)) is None
}

/// The canonical address of the seeds with its bump seed, and `None` where the
/// seeds do not fit or no bump seed derives an address.
pub open spec fn spec_find_program_address(seeds: Seq<Seq<u8>>, program_id: Seq<u8>) -> Option<
    (Seq<u8>, u8),
> {
    if seeds_fit(seeds) && exists|b: u8| is_canonical_bump(seeds, program_id, b) {
        let bump = choose|b: u8| is_canonical_bump(seeds, program_id, b);
        Some((program_address(with_bump(seeds, bump), program_id)->0, bump))
    } else {
        None
    }
}

/// `key` is the address that the seeds derive with `bump`.
pub open spec fn derives(seeds: Seq<Seq<u8>>, bump: u8, program_id: Seq<u8>, key: Address) -> bool {
    program_address(with_bump(seeds, bump), program_id) == Some(key.seed())
}

/// `key` is the canonical address of the seeds, and `bump` its bump seed.
pub open spec fn is_canonical(seeds: Seq<Seq<u8>>, program_id: Seq<u8>, key: Address, bump: u8) -> bool {
    spec_find_program_address(seeds, program_id) == Some((key.seed(), bump))
}

/// Calls `Pubkey::create_program_address`, which anchor-lang has from
/// solana-address. It hashes the seeds, the program id and a marker, and
/// gives the hash as the address unless it is a point of the curve; it gives
/// no address either where there are more than 16 seeds or one of them is
/// longer than 32 bytes. The result is a function of the seeds and the
/// program id, named `program_address`.
#[verifier::external_body]
fn create_program_address(seeds: &Vec<Vec<u8>>, program_id: &Address) -> (derived: Option<Address>)
    ensures
        program_address(seeds_view(*seeds), program_id.seed()) == match derived {
            Some(address) => Some(address.seed()),
            None => None,
        },
{
    let parts: Vec<&[u8]> = seeds.iter().map(|seed| seed.as_slice()).collect();
    match Pubkey::create_program_address(&parts, &Pubkey::new_from_array(program_id.bytes)) {
        Ok(key) => Some(Address { bytes: key.to_bytes() }),
        Err(_) => None,
    }
}

/// Calls `Pubkey::try_find_program_address`, which anchor-lang has from
/// solana-address. It gives nothing for 16 seeds or more, or a seed longer
/// than 32 bytes. Else it tries the bump seeds from 255 down to 1, appends
/// each to the seeds, and gives the first address that
/// `create_program_address` derives with the bump seed that derived it; it
/// gives nothing where none of them derives an address.
#[verifier::external_body]
fn try_find_program_address(seeds: &Vec<Vec<u8>>, program_id: &Address) -> (found: Option<
    (Address, u8),
>)
    ensures
        match found {
            Some((address, bump)) => {
                &&& seeds_fit(seeds_view(*seeds))
                &&& is_canonical_bump(seeds_view(*seeds), program_id.seed(), bump)
                &&& derives(seeds_view(*seeds), bump, program_id.seed(), address)
            },
            None => {
                ||| !seeds_fit(seeds_view(*seeds))
                ||| forall|b: u8|
                    1 <= b ==> (#[trigger] program_address(
                        with_bump(seeds_view(*seeds), b),
                        program_id.seed(),
                    )) is None
            },
        },
{
    let parts: Vec<&[u8]> = seeds.iter().map(|seed| seed.as_slice()).collect();
    match Pubkey::try_find_program_address(&parts, &Pubkey::new_from_array(program_id.bytes)) {
        Some((key, bump)) => Some((Address { bytes: key.to_bytes() }, bump)),
        None => None,
    }
}

/// A list of seeds has at most one canonical bump seed.
pub proof fn lemma_canonical_bump_unique(
    seeds: Seq<Seq<u8>>,
    program_id: Seq<u8>,
    first: u8,
    second: u8,
)
    requires
        is_canonical_bump(seeds, program_id, first),
        is_canonical_bump(seeds, program_id, second),
    ensures
        first == second,
{
    if first < second {
        assert(program_address(with_bump(seeds, second), program_id) is None);
    }
    if second < first {
        assert(program_address(with_bump(seeds, first), program_id) is None);
    }
}

/// The id of this program as an address.
pub fn id() -> (program_id: Address)
    ensures
        program_id.bytes == ID,
        program_id.seed() == ID@,
{
    Address { bytes: ID }
}

/// The canonical address of the seeds under the program id, with its bump
/// seed.
pub fn find_program_address(seeds: &Vec<Vec<u8>>, program_id: &Address) -> (found: Option<
    (Address, u8),
>)
    ensures
        spec_find_program_address(seeds_view(*seeds), program_id.seed()) == match found {
            Some((address, bump)) => Some((address.seed(), bump)),
            None => None,
        },
{
    let found = try_find_program_address(seeds, program_id);
    proof {
        let sv = seeds_view(*seeds);
        let pid = program_id.seed();
        match found {
            Some((address, bump)) => {
                let chosen = choose|b: u8| is_canonical_bump(sv, pid, b);
                lemma_canonical_bump_unique(sv, pid, bump, chosen);
            },
            None => {
                if seeds_fit(sv) {
                    assert forall|b: u8| !is_canonical_bump(sv, pid, b) by {
                        if 1 <= b {
                            assert(program_address(with_bump(sv, b), pid) is None);
                        }
                    }
                }
            },
        }
    }
    found
}

/// The seeds followed by a bump seed.
pub fn push_bump(seeds: Vec<Vec<u8>>, bump: u8) -> (extended: Vec<Vec<u8>>)
    ensures
        seeds_view(extended) == with_bump(seeds_view(seeds), bump),
{
    let mut extended = seeds;
    let mut last: Vec<u8> = Vec::new();
    last.push(bump);
    extended.push(last);
    assert(seeds_view(extended) =~= with_bump(seeds_view(seeds), bump));
    extended
}

/// Whether `key` is the address that the seeds derive with `bump`.
pub fn is_program_address(key: &Address, seeds: Vec<Vec<u8>>, bump: u8, program_id: &Address) -> (ok:
    bool)
    ensures
        ok == derives(seeds_view(seeds), bump, program_id.seed(), *key),
{
    let seeds = push_bump(seeds, bump);
    match create_program_address(&seeds, program_id) {
        Some(address) => {
            proof {
                Address::lemma_seed_injective(address, *key);
            }
            address == *key
        },
        None => false,
    }
}

/// The seeds of the master wallet of an authority.
pub open spec fn spec_master_wallet_seeds(authority: Address) -> Seq<Seq<u8>> {
    seq![encode_utf8("master_wallet"@), authority.seed()]
}

/// The seeds of the account of a handle under a master wallet.
pub open spec fn spec_user_seeds(handle: Seq<char>, master_wallet: Address) -> Seq<Seq<u8>> {
    seq![encode_utf8("user"@), encode_utf8(handle), master_wallet.seed()]
}

/// The seeds of the escrow of a handle under a master wallet.
pub open spec fn spec_escrow_seeds(handle: Seq<char>, master_wallet: Address) -> Seq<Seq<u8>> {
    seq![encode_utf8("escrow"@), encode_utf8(handle), master_wallet.seed()]
}

/// The seeds of the holding account of a wallet for a mint.
pub open spec fn spec_associated_token_seeds(wallet: Address, mint: Address) -> Seq<Seq<u8>> {
    seq![wallet.seed(), TOKEN_PROGRAM_ID@, mint.seed()]
}

/// The address of the holding account of a wallet for a mint: the canonical
/// address of the wallet, the token program and the mint under the
/// associated-token-account program.
pub open spec fn spec_associated_token_address(wallet: Address, mint: Address) -> Option<Seq<u8>> {
    match spec_find_program_address(
        spec_associated_token_seeds(wallet, mint),
        ASSOCIATED_TOKEN_PROGRAM_ID@,
    ) {
        Some((address, _)) => Some(address),
        None => None,
    }
}

/// `key` is the holding account of the wallet for the mint.
pub open spec fn is_associated_token_address(key: Address, wallet: Address, mint: Address) -> bool {
    spec_associated_token_address(wallet, mint) == Some(key.seed())
}

/// The seeds of an account of a handle: the tag of its kind, the handle and
/// the master wallet.
fn tagged_seeds(tag: &str, handle: &str, master_wallet: &Address) -> (seeds: Vec<Vec<u8>>)
    ensures
        seeds_view(seeds) == seq![encode_utf8(tag@), encode_utf8(handle@), master_wallet.seed()],
{
    let mut seeds: Vec<Vec<u8>> = Vec::new();
    seeds.push(vstd::slice::slice_to_vec(tag.as_bytes()));
    seeds.push(vstd::slice::slice_to_vec(handle.as_bytes()));
    seeds.push(master_wallet.to_seed());
    assert(seeds_view(seeds) =~= seq![
        encode_utf8(tag@),
        encode_utf8(handle@),
        master_wallet.seed(),
    ]);
    seeds
}

/// The seeds of the master wallet of an authority.
pub fn master_wallet_seeds(authority: &Address) -> (seeds: Vec<Vec<u8>>)
    ensures
        seeds_view(seeds) == spec_master_wallet_seeds(*authority),
{
    let mut seeds: Vec<Vec<u8>> = Vec::new();
    seeds.push(vstd::slice::slice_to_vec("master_wallet".as_bytes()));
    seeds.push(authority.to_seed());
    assert(seeds_view(seeds) =~= spec_master_wallet_seeds(*authority));
    seeds
}

/// The seeds of the account of a handle under a master wallet.
pub fn user_seeds(handle: &str, master_wallet: &Address) -> (seeds: Vec<Vec<u8>>)
    ensures
        seeds_view(seeds) == spec_user_seeds(handle@, *master_wallet),
{
    tagged_seeds("user", handle, master_wallet)
}

/// The seeds of the escrow of a handle under a master wallet.
pub fn escrow_seeds(handle: &str, master_wallet: &Address) -> (seeds: Vec<Vec<u8>>)
    ensures
        seeds_view(seeds) == spec_escrow_seeds(handle@, *master_wallet),
{
    tagged_seeds("escrow", handle, master_wallet)
}

/// The canonical address of the master wallet of an authority, with its bump
/// seed.
pub fn master_wallet_address(authority: &Address) -> (found: Option<(Address, u8)>)
    ensures
        spec_find_program_address(spec_master_wallet_seeds(*authority), ID@) == match found {
            Some((address, bump)) => Some((address.seed(), bump)),
            None => None,
        },
{
    find_program_address(&master_wallet_seeds(authority), &id())
}

/// The canonical address of the account of a handle under a master wallet,
/// with its bump seed. A handle of more than 32 bytes has none.
pub fn user_address(handle: &str, master_wallet: &Address) -> (found: Option<(Address, u8)>)
    ensures
        spec_find_program_address(spec_user_seeds(handle@, *master_wallet), ID@) == match found {
            Some((address, bump)) => Some((address.seed(), bump)),
            None => None,
        },
{
    find_program_address(&user_seeds(handle, master_wallet), &id())
}

/// The canonical address of the escrow of a handle under a master wallet,
/// with its bump seed. A handle of more than 32 bytes has none.
pub fn escrow_address(handle: &str, master_wallet: &Address) -> (found: Option<(Address, u8)>)
    ensures
        spec_find_program_address(spec_escrow_seeds(handle@, *master_wallet), ID@) == match found {
            Some((address, bump)) => Some((address.seed(), bump)),
            None => None,
        },
{
    find_program_address(&escrow_seeds(handle, master_wallet), &id())
}

/// Calls `get_associated_token_address` of anchor-spl. It gives the address
/// that `Pubkey::find_program_address` finds for the wallet, the id of the
/// token program and the mint, in this order, under the id of the
/// associated-token-account program, and panics where that finds none.
#[verifier::external_body]
fn get_associated_token_address(wallet: &Address, mint: &Address) -> (address: Address)
    requires
        spec_associated_token_address(*wallet, *mint) is Some,
    ensures
        spec_associated_token_address(*wallet, *mint) == Some(address.seed()),
{
    let key = anchor_spl::associated_token::get_associated_token_address(
        &Pubkey::new_from_array(wallet.bytes),
        &Pubkey::new_from_array(mint.bytes),
    );
    Address { bytes: key.to_bytes() }
}

/// The seeds of the holding account of a wallet for a mint.
pub fn associated_token_seeds(wallet: &Address, mint: &Address) -> (seeds: Vec<Vec<u8>>)
    ensures
        seeds_view(seeds) == spec_associated_token_seeds(*wallet, *mint),
{
    let mut seeds: Vec<Vec<u8>> = Vec::new();
    seeds.push(wallet.to_seed());
    seeds.push(vstd::slice::slice_to_vec(TOKEN_PROGRAM_ID.as_slice()));
    seeds.push(mint.to_seed());
    assert(seeds_view(seeds) =~= spec_associated_token_seeds(*wallet, *mint));
    seeds
}

/// The address of the holding account of a wallet for a mint, if the
/// derivation finds one.
pub fn associated_token_address(wallet: &Address, mint: &Address) -> (found: Option<Address>)
    ensures
        spec_associated_token_address(*wallet, *mint) == match found {
            Some(address) => Some(address.seed()),
            None => None,
        },
{
    let seeds = associated_token_seeds(wallet, mint);
    let program = Address { bytes: ASSOCIATED_TOKEN_PROGRAM_ID };
    match find_program_address(&seeds, &program) {
        Some(_) => Some(get_associated_token_address(wallet, mint)),
        None => None,
    }
}

} // verus!
