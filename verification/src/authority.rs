//! Program-derived addresses and the system signer.
//!
//! The program owns no private key. It signs with an address that is derived
//! from a fixed label and the program's own identity, and that anyone can
//! recompute. The derivation hashes its inputs and is done by the Solana
//! program library; this module gives its result a name and builds the signer
//! on it.

use crate::address::Address;
use anchor_lang::prelude::Pubkey;
use vstd::prelude::*;

verus! {

/// Label from which the configuration singleton, and with it the system
/// signer, is derived: the ASCII text `cfg`.
pub const CFG_SEED: [u8; 3] = [0x63, 0x66, 0x67];

/// Label from which each participant's referral record is derived: the ASCII
/// text `ref`.
pub const REF_SEED: [u8; 3] = [0x72, 0x65, 0x66];

/// The address and bump seed that the Solana program library derives from
/// `seeds` for the program `program_id`, or `None` where it finds none.
pub uninterp spec fn program_address(seeds: Seq<Seq<u8>>, program_id: Seq<u8>) -> Option<
    (Seq<u8>, u8),
>;

/// The seeds of the configuration singleton.
pub open spec fn config_seeds() -> Seq<Seq<u8>> {
    seq![CFG_SEED@]
}

/// The seeds of the referral record of `participant`.
pub open spec fn referral_seeds(participant: Seq<u8>) -> Seq<Seq<u8>> {
    seq![REF_SEED@, participant]
}

/// What a derivation found, with the address taken by its bytes.
pub open spec fn derived_view(found: Option<(Address, u8)>) -> Option<(Seq<u8>, u8)> {
    match found {
        Some((address, bump)) => Some((address@, bump)),
        None => None,
    }
}

/// Calls `Pubkey::try_find_program_address` of the Solana program library.
///
/// Trusted: the result is a function of the seeds and the program id alone,
/// and is the one that `program_address` names. The library searches the bump
/// seeds from 255 downwards for a hash of the seeds, the bump and the program
/// id that is no point of the ed25519 curve; it returns `None`, and does not
/// panic, where no bump gives one, a seed is longer than it accepts, or there
/// are more seeds than it accepts.
#[verifier::external_body]
fn find_program_address(seeds: &Vec<Vec<u8>>, program_id: &Address) -> (found: Option<
    (Address, u8),
>)
    ensures
        derived_view(found) == program_address(seeds.deep_view(), program_id@),
{
    let parts: Vec<&[u8]> = seeds.iter().map(|seed| seed.as_slice()).collect();
    let id = Pubkey::new_from_array(program_id.bytes);
    match Pubkey::try_find_program_address(&parts, &id) {
        Some((key, bump)) => Some((Address { bytes: key.to_bytes() }, bump)),
        None => None,
    }
}

/// A copy of `bytes` on the heap.
fn seed_of<const N: usize>(bytes: &[u8; N]) -> (seed: Vec<u8>)
    ensures
        seed@ == bytes@,
{
    let mut seed: Vec<u8> = Vec::new();
    let mut i: usize = 0;
    while i < N
        invariant
            0 <= i <= N,
            seed@ == bytes@.take(i as int),
        decreases N - i,
    {
        seed.push(bytes[i]);
        i += 1;
        assert(seed@ == bytes@.take(i as int));
    }
    assert(bytes@.take(N as int) == bytes@);
    seed
}

/// The address of the referral record of `participant` under the program
/// `program_id`, with its bump seed; `None` where the derivation finds none.
pub fn referral_record_address(program_id: &Address, participant: &Address) -> (found: Option<
    (Address, u8),
>)
    ensures
        derived_view(found) == program_address(referral_seeds(participant@), program_id@),
{
    let mut seeds: Vec<Vec<u8>> = Vec::new();
    seeds.push(seed_of(&REF_SEED));
    seeds.push(seed_of(&participant.bytes));
    assert(seeds.deep_view() =~~= referral_seeds(participant@));
    find_program_address(&seeds, program_id)
}

/// The system signer: the derived address under which the program itself
/// mints and hands over minting rights.
///
/// A value of this type can only be made by [`SystemSigner::derive`], so an
/// operation that takes one never acts on an address chosen by its caller.
#[derive(Clone, Copy, Debug)]
pub struct SystemSigner {
    program_id: Address,
    address: Address,
    bump: u8,
}

impl SystemSigner {
    /// Holds of every signer: its address and bump are the ones that the
    /// fixed label derives for its program.
    #[verifier::type_invariant]
    pub closed spec fn is_derived(self) -> bool {
        program_address(config_seeds(), self.program_id@) == Some((self.address@, self.bump))
    }

    /// The program this signer belongs to.
    pub closed spec fn spec_program_id(&self) -> Address {
        self.program_id
    }

    /// The signer's address, which is also that of the configuration singleton.
    pub closed spec fn spec_address(&self) -> Address {
        self.address
    }

    /// The bump seed that completes the signer's seeds.
    pub closed spec fn spec_bump(&self) -> u8 {
        self.bump
    }

    /// Derives the signer of the program `program_id` from the fixed label.
    /// Returns `None` exactly where the label yields no address for it.
    pub fn derive(program_id: &Address) -> (signer: Option<SystemSigner>)
        ensures
            match signer {
                Some(s) => {
                    &&& s.spec_program_id() == *program_id
                    &&& program_address(config_seeds(), program_id@) == Some(
                        (s.spec_address()@, s.spec_bump()),
                    )
                },
                None => program_address(config_seeds(), program_id@) is None,
            },
    {
        let mut seeds: Vec<Vec<u8>> = Vec::new();
        seeds.push(seed_of(&CFG_SEED));
        assert(seeds.deep_view() =~~= config_seeds());
        match find_program_address(&seeds, program_id) {
            Some((address, bump)) => Some(SystemSigner { program_id: *program_id, address, bump }),
            None => None,
        }
    }

    /// The program this signer belongs to.
    #[verifier::when_used_as_spec(spec_program_id)]
    pub fn program_id(&self) -> (id: Address)
        ensures
            id == self.spec_program_id(),
    {
        self.program_id
    }

    /// The signer's address.
    #[verifier::when_used_as_spec(spec_address)]
    pub fn address(&self) -> (address: Address)
        ensures
            address == self.spec_address(),
    {
        self.address
    }

    /// The bump seed that completes the signer's seeds.
    #[verifier::when_used_as_spec(spec_bump)]
    pub fn bump(&self) -> (bump: u8)
        ensures
            bump == self.spec_bump(),
    {
        self.bump
    }

    /// Whatever signer a program has, it is the one its identity derives: two
    /// signers of one program are the same signer.
    pub proof fn lemma_one_signer_per_program(a: SystemSigner, b: SystemSigner)
        requires
            a.is_derived(),
            b.is_derived(),
            a.spec_program_id() == b.spec_program_id(),
        ensures
            a == b,
    {
        Address::lemma_view_injective(a.address, b.address);
    }
}

} // verus!
