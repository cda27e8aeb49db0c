use vstd::prelude::*;

verus! {

/// The base system program's address: 32 zero bytes. This is the program that
/// owns plain, not-yet-repurposed accounts, and the owner a vault must still
/// have at deposit time.
pub open spec fn system_program_id() -> Seq<u8> {
    Seq::new(32, |i: int| 0u8)
}

/// Relies on pinocchio_system::ID: the base system program's address, declared
/// there as the base-58 string "11111111111111111111111111111111", which
/// decodes to 32 zero bytes.
#[verifier::external_body]
fn fetch_system_program_id() -> (r: Vec<u8>)
    ensures
        r@ == system_program_id(),
{
    pinocchio_system::ID.to_bytes().to_vec()
}

/// The base system program's address as bytes.
pub fn system_program_address() -> (r: Vec<u8>)
    ensures
        r@ == system_program_id(),
        r@.len() == 32,
{
    fetch_system_program_id()
}

} // verus!
