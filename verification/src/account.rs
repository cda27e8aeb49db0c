use vstd::prelude::*;

verus! {

/// An account as the ledger runtime presents it to the handler: a fixed-size
/// address, the address of the program that currently owns the account, its
/// native balance, and whether this address signed the enclosing transaction.
///
/// The runtime loads these fields before the handler runs; the handler reads
/// them and, in the transfer step, updates the balances.
#[derive(Clone, Debug)]
pub struct Account {
    /// The account's own address.
    pub address: Vec<u8>,
    /// The address of the program that currently owns the account.
    pub owner_program: Vec<u8>,
    /// The account's native balance.
    pub lamports: u64,
    /// Whether this address authorized the enclosing transaction.
    pub is_signer: bool,
}

/// Byte-for-byte equality of two byte vectors, as used for address comparison.
pub fn bytes_eq(a: &Vec<u8>, b: &Vec<u8>) -> (r: bool)
    ensures
        r == (a@ == b@),
{
    if a.len() != b.len() {
        return false;
    }
    let mut i: usize = 0;
    while i < a.len()
        invariant
            i <= a@.len(),
            a@.len() == b@.len(),
            forall|j: int| 0 <= j < i ==> a@[j] == b@[j],
        decreases a@.len() - i,
    {
        if a[i] != b[i] {
            return false;
        }
        i += 1;
    }
    proof {
        assert(a@ =~= b@);
    }
    true
}

} // verus!
