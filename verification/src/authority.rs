//! The derived authority resolver.
//!
//! A derived address is computed deterministically from a domain tag plus
//! identifying fields, together with a one-byte discriminant (the "bump")
//! that makes the derivation land on an address with no private key. The
//! program proves its right to act as that address by reconstructing the
//! same derivation from the same seeds at call time; it never holds a key.
//!
//! The derivation itself is the host's: `Pubkey::create_program_address`
//! hashes the seeds and the program id and refuses addresses that have a
//! private key, and `Pubkey::try_find_program_address` searches downward
//! from the largest discriminant for one that `create_program_address`
//! accepts. Both are deterministic functions of their arguments alone;
//! their results are named here, not written out.

use vstd::prelude::*;

use crate::keys::Pubkey;
use crate::keys::pubkey_eq;
use anchor_lang::solana_program::pubkey::Pubkey as HostKey;

verus! {

/// What `Pubkey::create_program_address` returns for these seeds and this
/// program id: the derived address, or `None` where the derivation is
/// refused (a seed too long, too many seeds, or an address that would have
/// a private key).
pub uninterp spec fn derived_address(seeds: Seq<Seq<u8>>, program_id: Seq<u8>) -> Option<Seq<u8>>;

/// What `Pubkey::try_find_program_address` returns for these seeds and
/// this program id: a derived address and the discriminant that produces
/// it, or `None` where no viable discriminant exists.
pub uninterp spec fn derived_authority(seeds: Seq<Seq<u8>>, program_id: Seq<u8>) -> Option<(Seq<u8>, u8)>;

/// The view of a list of seeds: each seed as its byte sequence.
pub open spec fn seeds_view(seeds: Seq<Vec<u8>>) -> Seq<Seq<u8>> {
    seeds.map_values(|s: Vec<u8>| s@)
}

/// Relies on `Pubkey::create_program_address` (solana-pubkey): the derived
/// address is a deterministic function of the seeds and the program id; an
/// error means the derivation is refused for these inputs.
#[verifier::external_body]
fn create_program_address(seeds: &Vec<Vec<u8>>, program_id: &Pubkey) -> (r: Option<Pubkey>)
    ensures
        match r {
            Some(k) => derived_address(seeds_view(seeds@), program_id@) == Some(k@),
            None => derived_address(seeds_view(seeds@), program_id@) is None,
        },
{
    let parts: Vec<&[u8]> = seeds.iter().map(|s: &Vec<u8>| s.as_slice()).collect();
    let program = HostKey::new_from_array(program_id.bytes);
    match HostKey::create_program_address(&parts, &program) {
        Ok(k) => Some(Pubkey { bytes: k.to_bytes() }),
        Err(_) => None,
    }
}

/// Relies on `Pubkey::try_find_program_address` (solana-pubkey): it returns
/// the first discriminant, searching downward from 255, for which
/// `create_program_address` accepts the seeds extended by that one-byte
/// discriminant, together with the address so derived; `None` where no
/// discriminant is viable. Its result is a deterministic function of the
/// seeds and the program id.
#[verifier::external_body]
fn try_find_program_address(seeds: &Vec<Vec<u8>>, program_id: &Pubkey) -> (r: Option<(Pubkey, u8)>)
    ensures
        match r {
            Some((k, bump)) => {
                &&& derived_authority(seeds_view(seeds@), program_id@) == Some((k@, bump))
                &&& derived_address(seeds_view(seeds@).push(seq![bump]), program_id@) == Some(k@)
            },
            None => derived_authority(seeds_view(seeds@), program_id@) is None,
        },
{
    let parts: Vec<&[u8]> = seeds.iter().map(|s: &Vec<u8>| s.as_slice()).collect();
    let program = HostKey::new_from_array(program_id.bytes);
    match HostKey::try_find_program_address(&parts, &program) {
        Some((k, bump)) => Some((Pubkey { bytes: k.to_bytes() }, bump)),
        None => None,
    }
}

/// The domain tag of an order's own address: the bytes of `"order"`.
pub open spec fn order_tag() -> Seq<u8> {
    seq![111u8, 114u8, 100u8, 101u8, 114u8]
}

/// The domain tag of an escrow holding account's address: the bytes of
/// `"escrow"`.
pub open spec fn escrow_tag() -> Seq<u8> {
    seq![101u8, 115u8, 99u8, 114u8, 111u8, 119u8]
}

/// The seeds that identify an order: the tag, the maker, and the order id
/// in little-endian bytes.
pub open spec fn order_seeds(maker: Seq<u8>, order_id: u64) -> Seq<Seq<u8>> {
    seq![order_tag(), maker, vstd::bytes::spec_u64_to_le_bytes(order_id)]
}

/// The seeds that identify an order's escrow holding account: the tag and
/// the order's own derived address.
pub open spec fn escrow_seeds(order_address: Seq<u8>) -> Seq<Seq<u8>> {
    seq![escrow_tag(), order_address]
}

/// Whether `bump` reconstructs `address` as the derived address of the
/// order identified by `maker` and `order_id`.
pub open spec fn order_address_ok(
    maker: Seq<u8>,
    order_id: u64,
    bump: u8,
    address: Seq<u8>,
    program_id: Seq<u8>,
) -> bool {
    derived_address(order_seeds(maker, order_id).push(seq![bump]), program_id) == Some(address)
}

fn order_tag_bytes() -> (r: Vec<u8>)
    ensures
        r@ == order_tag(),
{
    let mut v: Vec<u8> = Vec::new();
    v.push(111u8);  // 'o'
    v.push(114u8);  // 'r'
    v.push(100u8);  // 'd'
    v.push(101u8);  // 'e'
    v.push(114u8);  // 'r'
    proof {
        assert(v@ =~= order_tag());
    }
    v
}

fn escrow_tag_bytes() -> (r: Vec<u8>)
    ensures
        r@ == escrow_tag(),
{
    let mut v: Vec<u8> = Vec::new();
    v.push(101u8);  // 'e'
    v.push(115u8);  // 's'
    v.push(99u8);  // 'c'
    v.push(114u8);  // 'r'
    v.push(111u8);  // 'o'
    v.push(119u8);  // 'w'
    proof {
        assert(v@ =~= escrow_tag());
    }
    v
}

fn order_seed_bytes(maker: &Pubkey, order_id: u64) -> (r: Vec<Vec<u8>>)
    ensures
        seeds_view(r@) == order_seeds(maker@, order_id),
{
    let mut seeds: Vec<Vec<u8>> = Vec::new();
    seeds.push(order_tag_bytes());
    let mut maker_bytes: Vec<u8> = Vec::new();
    let mut i: usize = 0;
    while i < 32
        invariant
            0 <= i <= 32,
            maker_bytes@ == maker@.subrange(0, i as int),
        decreases 32 - i,
    {
        maker_bytes.push(maker.bytes[i]);
        proof {
            assert(maker_bytes@ =~= maker@.subrange(0, i + 1));
        }
        i += 1;
    }
    proof {
        assert(maker_bytes@ =~= maker@);
    }
    seeds.push(maker_bytes);
    seeds.push(vstd::bytes::u64_to_le_bytes(order_id));
    proof {
        assert(seeds_view(seeds@) =~= order_seeds(maker@, order_id));
    }
    seeds
}

fn escrow_seed_bytes(order_address: &Pubkey) -> (r: Vec<Vec<u8>>)
    ensures
        seeds_view(r@) == escrow_seeds(order_address@),
{
    let mut seeds: Vec<Vec<u8>> = Vec::new();
    seeds.push(escrow_tag_bytes());
    let mut addr_bytes: Vec<u8> = Vec::new();
    let mut i: usize = 0;
    while i < 32
        invariant
            0 <= i <= 32,
            addr_bytes@ == order_address@.subrange(0, i as int),
        decreases 32 - i,
    {
        addr_bytes.push(order_address.bytes[i]);
        proof {
            assert(addr_bytes@ =~= order_address@.subrange(0, i + 1));
        }
        i += 1;
    }
    proof {
        assert(addr_bytes@ =~= order_address@);
    }
    seeds.push(addr_bytes);
    proof {
        assert(seeds_view(seeds@) =~= escrow_seeds(order_address@));
    }
    seeds
}

/// Resolve the derived address and discriminant of the order identified by
/// `maker` and `order_id`, or `None` where no discriminant is viable.
pub fn find_order_address(maker: &Pubkey, order_id: u64, program_id: &Pubkey) -> (r: Option<(Pubkey, u8)>)
    ensures
        match r {
            Some((k, bump)) => {
                &&& derived_authority(order_seeds(maker@, order_id), program_id@) == Some((k@, bump))
                &&& order_address_ok(maker@, order_id, bump, k@, program_id@)
            },
            None => derived_authority(order_seeds(maker@, order_id), program_id@) is None,
        },
{
    let seeds = order_seed_bytes(maker, order_id);
    try_find_program_address(&seeds, program_id)
}

/// Resolve the derived address and discriminant of the escrow holding
/// account custodied under the order at `order_address`.
pub fn find_escrow_address(order_address: &Pubkey, program_id: &Pubkey) -> (r: Option<(Pubkey, u8)>)
    ensures
        match r {
            Some((k, bump)) => derived_authority(escrow_seeds(order_address@), program_id@) == Some((k@, bump)),
            None => derived_authority(escrow_seeds(order_address@), program_id@) is None,
        },
{
    let seeds = escrow_seed_bytes(order_address);
    try_find_program_address(&seeds, program_id)
}

/// Decide whether `bump` reconstructs `address` for the order identified
/// by `maker` and `order_id`: the fail-closed check made before any
/// transfer is authorized "as" the order's address.
pub fn verify_order_address(
    maker: &Pubkey,
    order_id: u64,
    bump: u8,
    address: &Pubkey,
    program_id: &Pubkey,
) -> (r: bool)
    ensures
        r == order_address_ok(maker@, order_id, bump, address@, program_id@),
{
    let mut seeds = order_seed_bytes(maker, order_id);
    let mut bump_seed: Vec<u8> = Vec::new();
    bump_seed.push(bump);
    seeds.push(bump_seed);
    proof {
        assert(seeds_view(seeds@) =~= order_seeds(maker@, order_id).push(seq![bump]));
    }
    match create_program_address(&seeds, program_id) {
        Some(k) => pubkey_eq(&k, address),
        None => false,
    }
}

} // verus!
