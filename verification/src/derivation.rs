//! Where the records live: the seeds of a root identity and of a context
//! identity, and their derivation under this program's id.

use crate::address::{derived_view, find_address, program_address, seeds_view, Address};
use vstd::prelude::*;

verus! {

/// The id under which every address of this program is derived.
pub const PROGRAM_ID: [u8; 32] = [
    189, 93, 215, 236, 117, 211, 160, 212, 181, 55, 157, 156, 215, 182, 45, 24,
    167, 140, 206, 166, 137, 90, 50, 226, 226, 181, 83, 148, 46, 5, 123, 120,
];

/// The first seed of a root identity: the ASCII bytes of `root`.
pub open spec fn root_tag() -> Seq<u8> {
    seq![114u8, 111u8, 111u8, 116u8]
}

/// The first seed of a context identity: the ASCII bytes of `context`.
pub open spec fn context_tag() -> Seq<u8> {
    seq![99u8, 111u8, 110u8, 116u8, 101u8, 120u8, 116u8]
}

/// A context index as a seed: two bytes, the low one first.
pub open spec fn index_seed(index: u16) -> Seq<u8> {
    seq![(index % 256) as u8, (index / 256) as u8]
}

/// The seeds of an owner's root identity.
pub open spec fn root_seeds(owner: Seq<u8>) -> Seq<Seq<u8>> {
    seq![root_tag(), owner]
}

/// The seeds of the context with a given index under a root.
pub open spec fn context_seeds(root: Seq<u8>, index: u16) -> Seq<Seq<u8>> {
    seq![context_tag(), root, index_seed(index)]
}

/// The address and bump of an owner's root identity, if the derivation finds one.
pub open spec fn root_address(owner: Seq<u8>) -> Option<(Seq<u8>, u8)> {
    program_address(root_seeds(owner), PROGRAM_ID@)
}

/// The address and bump of the context with a given index under a root, if
/// the derivation finds one.
pub open spec fn context_address(root: Seq<u8>, index: u16) -> Option<(Seq<u8>, u8)> {
    program_address(context_seeds(root, index), PROGRAM_ID@)
}

/// The bytes of an address as a vector.
fn seed_of(address: &Address) -> (seed: Vec<u8>)
    ensures
        seed@ == address@,
{
    let mut seed: Vec<u8> = Vec::new();
    let mut i: usize = 0;
    while i < 32
        invariant
            i <= 32,
            seed@ == address@.take(i as int),
        decreases 32 - i,
    {
        seed.push(address.bytes[i]);
        assert(address@.take(i + 1) =~= address@.take(i as int).push(address@[i as int]));
        i += 1;
    }
    assert(address@.take(32) =~= address@);
    seed
}

/// Derives the address of an owner's root identity.
pub fn find_root_address(owner: &Address) -> (found: Option<(Address, u8)>)
    ensures
        derived_view(found) == root_address(owner@),
{
    let mut seeds: Vec<Vec<u8>> = Vec::new();
    seeds.push(vec![114u8, 111u8, 111u8, 116u8]);
    seeds.push(seed_of(owner));
    assert(seeds_view(seeds@) =~= root_seeds(owner@)) by {
        assert(seeds@[0]@ =~= root_tag());
    }
    let id = Address { bytes: PROGRAM_ID };
    find_address(&seeds, &id)
}

/// Derives the address of the context with a given index under a root.
pub fn find_context_address(root: &Address, index: u16) -> (found: Option<(Address, u8)>)
    ensures
        derived_view(found) == context_address(root@, index),
{
    let mut seeds: Vec<Vec<u8>> = Vec::new();
    seeds.push(vec![99u8, 111u8, 110u8, 116u8, 101u8, 120u8, 116u8]);
    seeds.push(seed_of(root));
    let low: u8 = (index % 256) as u8;
    let high: u8 = (index / 256) as u8;
    seeds.push(vec![low, high]);
    assert(seeds_view(seeds@) =~= context_seeds(root@, index)) by {
        assert(seeds@[0]@ =~= context_tag());
        assert(seeds@[2]@ =~= index_seed(index));
    }
    let id = Address { bytes: PROGRAM_ID };
    find_address(&seeds, &id)
}

} // verus!
