use crate::address::Address;
use anchor_lang::solana_program::pubkey::Pubkey;
use vstd::prelude::*;

verus! {

/// The bytes of the protocol seed, `b"escrow"`.
pub open spec fn escrow_seed_bytes() -> Seq<u8> {
    seq![101u8, 115u8, 99u8, 114u8, 111u8, 119u8]
}

/// The protocol seed that, with a record's address, derives that record's
/// custodial address.
pub fn escrow_seed() -> (r: Vec<u8>)
    ensures
        r@ == escrow_seed_bytes(),
{
    let r = vec![101u8, 115u8, 99u8, 114u8, 111u8, 119u8];
    assert(r@ =~= escrow_seed_bytes());
    r
}

/// The address and bump seed that a program-address search finds for
/// `seeds` under `program_id`, if it finds one.
pub uninterp spec fn program_address_of(seeds: Seq<Seq<u8>>, program_id: Seq<u8>) -> Option<(Seq<u8>, u8)>;

pub open spec fn found_view(r: Option<(Address, u8)>) -> Option<(Seq<u8>, u8)> {
    match r {
        Some((a, bump)) => Some((a@, bump)),
        None => None,
    }
}

/// Relies on `Pubkey::try_find_program_address`: a pure search (hashing
/// and a curve test) whose result depends on the seeds and the program id
/// alone; `None` when no bump seed yields an address off the curve.
#[verifier::external_body]
fn try_find_program_address(seed: &Vec<u8>, record: &Address, program_id: &Address) -> (r: Option<(Address, u8)>)
    ensures
        found_view(r) == program_address_of(seq![seed@, record@], program_id@),
{
    let program = Pubkey::new_from_array(program_id.bytes);
    match Pubkey::try_find_program_address(&[seed.as_slice(), &record.bytes], &program) {
        Some((found, bump)) => Some((Address { bytes: found.to_bytes() }, bump)),
        None => None,
    }
}

/// The address whose bytes are `s` (for a sequence of 32 bytes).
pub open spec fn address_from(s: Seq<u8>) -> Address {
    Address { bytes: choose|b: [u8; 32]| b@ == s }
}

/// The right to sign as a record's custodial address: the address itself
/// and the seeds (protocol seed, record address, bump) that prove it.
#[derive(Clone, Copy, Debug, PartialEq, Eq)]
pub struct CustodialAuthority {
    pub record: Address,
    pub address: Address,
    pub bump: u8,
}

/// The custodial authority of `record` under `program_id`, or `None` where
/// no address can be derived.
pub open spec fn custodial_of(program_id: Address, record: Address) -> Option<CustodialAuthority> {
    match program_address_of(seq![escrow_seed_bytes(), record@], program_id@) {
        Some((found, bump)) => Some(CustodialAuthority { record, address: address_from(found), bump }),
        None => None,
    }
}

pub proof fn lemma_address_from_view(a: Address)
    ensures
        address_from(a@) == a,
{
    assert(exists|b: [u8; 32]| b@ == a@) by {
        assert(a.bytes@ == a@);
    }
    let b = choose|b: [u8; 32]| b@ == a@;
    assert forall|i: int| 0 <= i < 32 implies b[i] == a.bytes[i] by {
        assert(b@[i] == a@[i]);
    }
    assert(b =~= a.bytes);
}

/// Derives the custodial authority of `record` under `program_id`: the
/// same two inputs give the same authority on every call.
pub fn find_custodial(program_id: &Address, record: &Address) -> (r: Option<CustodialAuthority>)
    ensures
        r == custodial_of(*program_id, *record),
{
    let seed = escrow_seed();
    match try_find_program_address(&seed, record, program_id) {
        Some((address, bump)) => {
            proof {
                lemma_address_from_view(address);
            }
            Some(CustodialAuthority { record: *record, address, bump })
        },
        None => None,
    }
}

impl CustodialAuthority {
    /// The seeds with which the protocol signs as the custodial address.
    pub fn signer_seeds(&self) -> (r: Vec<Vec<u8>>)
        ensures
            r@.len() == 3,
            r@[0]@ == escrow_seed_bytes(),
            r@[1]@ == self.record@,
            r@[2]@ == seq![self.bump],
    {
        let mut record_bytes: Vec<u8> = Vec::new();
        let mut i: usize = 0;
        while i < 32
            invariant
                i <= 32,
                record_bytes@ == self.record@.take(i as int),
            decreases 32 - i,
        {
            record_bytes.push(self.record.bytes[i]);
            i = i + 1;
            assert(record_bytes@ =~= self.record@.take(i as int));
        }
        assert(self.record@.take(32) =~= self.record@);
        let mut r: Vec<Vec<u8>> = Vec::new();
        r.push(escrow_seed());
        r.push(record_bytes);
        r.push(vec![self.bump]);
        assert(r@[2]@ =~= seq![self.bump]);
        r
    }
}

} // verus!
