//! Account identities and the two facts about them that the engine reads
//! from the chain library: where a participant's record lives, and whether a
//! key is a point on the ed25519 curve.
use anchor_lang::prelude::Pubkey;
use vstd::prelude::*;

verus! {

/// A 32-byte account identity.
#[derive(Clone, Copy, Debug)]
pub struct Address {
    pub bytes: [u8; 32],
}

impl PartialEq for Address {
    fn eq(&self, other: &Address) -> (r: bool) {
        let mut i: usize = 0;
        while i < 32
            invariant
                0 <= i <= 32,
                forall|j: int| 0 <= j < i ==> self.bytes@[j] == other.bytes@[j],
            decreases 32 - i,
        {
            if self.bytes[i] != other.bytes[i] {
                return false;
            }
            i = i + 1;
        }
        proof {
            assert(self.bytes@ =~= other.bytes@);
        }
        true
    }
}

impl vstd::std_specs::cmp::PartialEqSpecImpl for Address {
    open spec fn obeys_eq_spec() -> bool {
        true
    }

    open spec fn eq_spec(&self, other: &Address) -> bool {
        self.bytes@ == other.bytes@
    }
}

impl Eq for Address {

}

impl Address {
    /// The same key, compared byte by byte.
    pub fn same_as(&self, other: &Address) -> (r: bool)
        ensures
            r == (*self == *other),
            r == (self.bytes@ == other.bytes@),
    {
        let r = *self == *other;
        proof {
            if r {
                vstd::array::axiom_array_ext_equal(self.bytes, other.bytes);
            }
        }
        r
    }
}

/// The program-derived address for `seed` and `owner` under `program`: the
/// first off-curve hash found while the bump seed counts down from 255, or
/// `None` when no bump seed gives one.
pub uninterp spec fn program_address(seed: Seq<char>, owner: Seq<u8>, program: Seq<u8>) -> Option<Seq<u8>>;

/// Whether 32 bytes decompress to a point of the ed25519 curve.
pub uninterp spec fn on_curve(bytes: Seq<u8>) -> bool;

/// Relies on `Pubkey::try_find_program_address` (solana-program, through
/// anchor-lang) with the seeds `[seed, owner]`: the derived address, or its
/// absence, depends on the seeds and the program alone.
#[verifier::external_body]
pub(crate) fn find_record_address(seed: &str, owner: &Address, program_id: &Address) -> (r: Option<
    Address,
>)
    ensures
        r is Some <==> program_address(seed@, owner.bytes@, program_id.bytes@) is Some,
        r matches Some(a) ==> program_address(seed@, owner.bytes@, program_id.bytes@) == Some(
            a.bytes@,
        ),
{
    let program = Pubkey::new_from_array(program_id.bytes);
    match Pubkey::try_find_program_address(&[seed.as_bytes(), &owner.bytes], &program) {
        Some((key, _bump)) => Some(Address { bytes: key.to_bytes() }),
        None => None,
    }
}

/// Relies on `Pubkey::is_on_curve` (solana-program, through anchor-lang).
#[verifier::external_body]
pub(crate) fn key_is_on_curve(key: &Address) -> (r: bool)
    ensures
        r == on_curve(key.bytes@),
{
    Pubkey::new_from_array(key.bytes).is_on_curve()
}

} // verus!
