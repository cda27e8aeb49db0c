use vstd::prelude::*;

verus! {

/// The fixed seed label for vault derivation: the ASCII bytes of "vault".
pub open spec fn vault_seed() -> Seq<u8> {
    seq![118u8, 97u8, 117u8, 108u8, 116u8]
}

/// The address, if any, that the ledger's program-derived-address search yields
/// for the seed pair (seed, owner) under the given program. The search is a
/// pure computation over its arguments (a hash of the seeds, a bump byte and
/// the program address, retried until the result lies off the signing curve),
/// so the outcome is a function of the three inputs alone.
pub uninterp spec fn pda_of(seed: Seq<u8>, owner: Seq<u8>, program: Seq<u8>) -> Option<Seq<u8>>;

/// The canonical vault address for an owner under a program, if the
/// program-derived-address search succeeds.
pub open spec fn vault_address_of(owner: Seq<u8>, program: Seq<u8>) -> Option<Seq<u8>> {
    pda_of(vault_seed(), owner, program)
}

/// Relies on solana_address::Address::try_find_program_address (the type that
/// pinocchio re-exports as its Address): searches bump seeds for a derived
/// address that lies off the signing curve; a pure, deterministic function of
/// the seeds and the program address; returns a 32-byte address, and None
/// rather than panicking when no bump works or a seed is over-long.
#[verifier::external_body]
fn find_program_address(seed: &[u8], owner: &[u8], program: &Vec<u8>) -> (r: Option<Vec<u8>>)
    requires
        program@.len() == 32,
    ensures
        match r {
            Some(v) => pda_of(seed@, owner@, program@) == Some(v@) && v@.len() == 32,
            None => pda_of(seed@, owner@, program@) is None,
        },
{
    let mut pid = [0u8; 32];
    pid.copy_from_slice(program.as_slice());
    let program_id = pinocchio::Address::from(pid);
    pinocchio::Address::try_find_program_address(&[seed, owner], &program_id)
        .map(|(address, _bump)| address.to_bytes().to_vec())
}

/// The seed label as bytes, for handing to the derivation call.
fn vault_seed_bytes() -> (r: Vec<u8>)
    ensures
        r@ == vault_seed(),
{
    let mut v: Vec<u8> = Vec::new();
    v.push(118);
    v.push(97);
    v.push(117);
    v.push(108);
    v.push(116);
    proof {
        assert(v@ =~= vault_seed());
    }
    v
}

/// Recompute the canonical vault address for `owner` under `program_id`.
pub fn derive_vault_address(owner: &Vec<u8>, program_id: &Vec<u8>) -> (r: Option<Vec<u8>>)
    requires
        program_id@.len() == 32,
    ensures
        match r {
            Some(v) => vault_address_of(owner@, program_id@) == Some(v@) && v@.len() == 32,
            None => vault_address_of(owner@, program_id@) is None,
        },
{
    let seed = vault_seed_bytes();
    find_program_address(seed.as_slice(), owner.as_slice(), program_id)
}

/// Law: vault-address derivation is pure and deterministic — the derived
/// address is a function of the owner and program addresses alone, so any two
/// derivations over equal inputs yield the identical outcome.
pub proof fn lemma_derivation_deterministic(
    owner1: Seq<u8>,
    program1: Seq<u8>,
    owner2: Seq<u8>,
    program2: Seq<u8>,
)
    requires
        owner1 == owner2,
        program1 == program2,
    ensures
        vault_address_of(owner1, program1) == vault_address_of(owner2, program2),
{
}

} // verus!
