//! Record addresses and their derivation.
//!
//! An address is 32 bytes. The address of a record is derived from a list of
//! seeds under this program's id; the derivation itself and the SHA-256 digest
//! are computed by `solana_program`, and stand here behind two trusted
//! functions whose results are named, not described.

use anchor_lang::solana_program::hash::hash;
use anchor_lang::solana_program::pubkey::Pubkey;
use vstd::prelude::*;

verus! {

/// The 32 bytes that locate a record or name a principal.
#[derive(Clone, Copy, Debug)]
pub struct Address {
    pub bytes: [u8; 32],
}

/// Thirty-two zero bytes.
pub const ZERO_BYTES: [u8; 32] = [
    0, 0, 0, 0, 0, 0, 0, 0, 0, 0, 0, 0, 0, 0, 0, 0,
    0, 0, 0, 0, 0, 0, 0, 0, 0, 0, 0, 0, 0, 0, 0, 0,
];

/// The all-zero address.
pub open spec fn zero_address() -> Address {
    Address { bytes: ZERO_BYTES }
}

impl View for Address {
    type V = Seq<u8>;

    open spec fn view(&self) -> Seq<u8> {
        self.bytes@
    }
}

/// The SHA-256 digest of a byte string.
pub uninterp spec fn sha256(data: Seq<u8>) -> Seq<u8>;

/// The program-derived address of a seed list under a program id, with the
/// bump that was appended to the seeds to reach it; `None` where no bump gives
/// an address or the seeds are not admissible.
pub uninterp spec fn program_address(seeds: Seq<Seq<u8>>, program_id: Seq<u8>) -> Option<
    (Seq<u8>, u8),
>;

/// What a derivation gave, with the address as its bytes.
pub open spec fn derived_view(derived: Option<(Address, u8)>) -> Option<(Seq<u8>, u8)> {
    match derived {
        Some((address, bump)) => Some((address@, bump)),
        None => None,
    }
}

/// The seed lists that a vector of byte vectors stands for.
pub open spec fn seeds_view(seeds: Seq<Vec<u8>>) -> Seq<Seq<u8>> {
    seeds.map_values(|seed: Vec<u8>| seed@)
}

/// Calls `solana_program::hash::hash` on the 32 bytes and returns the digest's
/// bytes. Trusted: the result is the SHA-256 digest of `data`. Nothing is
/// claimed of which bytes those are.
#[verifier::external_body]
pub(crate) fn digest_of(data: &[u8; 32]) -> (digest: [u8; 32])
    ensures
        digest@ == sha256(data@),
{
    hash(data).to_bytes()
}

/// Calls `Pubkey::try_find_program_address` with the seeds in their order and
/// the program id, and returns the key it found as its bytes, with the bump.
/// Trusted: the result is the named derivation of exactly these seeds under
/// exactly this program id. Nothing is claimed of which address that is.
#[verifier::external_body]
pub(crate) fn find_address(seeds: &Vec<Vec<u8>>, program_id: &Address) -> (found: Option<
    (Address, u8),
>)
    ensures
        derived_view(found) == program_address(seeds_view(seeds@), program_id@),
{
    let parts: Vec<&[u8]> = seeds.iter().map(|s| s.as_slice()).collect();
    let id = Pubkey::new_from_array(program_id.bytes);
    match Pubkey::try_find_program_address(&parts, &id) {
        Some((key, bump)) => Some((Address { bytes: key.to_bytes() }, bump)),
        None => None,
    }
}

/// Whether two 32-byte strings are the same.
pub fn bytes_equal(a: &[u8; 32], b: &[u8; 32]) -> (r: bool)
    ensures
        r == (a@ == b@),
        r == (*a == *b),
{
    let mut i: usize = 0;
    while i < 32
        invariant
            i <= 32,
            forall|j: int| 0 <= j < i ==> a[j] == b[j],
        decreases 32 - i,
    {
        if a[i] != b[i] {
            return false;
        }
        i += 1;
    }
    assert(a@ =~= b@);
    assert(*a =~= *b);
    true
}

impl PartialEq for Address {
    fn eq(&self, other: &Address) -> (r: bool) {
        bytes_equal(&self.bytes, &other.bytes)
    }
}

impl Eq for Address {

}

impl vstd::std_specs::cmp::PartialEqSpecImpl for Address {
    open spec fn obeys_eq_spec() -> bool {
        true
    }

    open spec fn eq_spec(&self, other: &Address) -> bool {
        self.bytes@ == other.bytes@
    }
}

/// Addresses with the same bytes are the same address.
pub proof fn address_equality(a: Address, b: Address)
    ensures
        (a@ == b@) <==> (a == b),
{
    if a@ == b@ {
        assert(a.bytes =~= b.bytes);
    }
}

impl Address {
    /// The all-zero address, which stands for "no address".
    pub fn zero() -> (a: Address)
        ensures
            a == zero_address(),
    {
        Address { bytes: ZERO_BYTES }
    }

    /// Whether two addresses hold the same bytes.
    pub fn same(&self, other: &Address) -> (r: bool)
        ensures
            r == (*self == *other),
            r == (self@ == other@),
    {
        proof {
            address_equality(*self, *other);
        }
        bytes_equal(&self.bytes, &other.bytes)
    }
}

} // verus!
