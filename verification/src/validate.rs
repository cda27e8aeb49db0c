use vstd::prelude::*;

use crate::account::Account;
use crate::account::bytes_eq;
use crate::error::DepositError;
use crate::pda::derive_vault_address;
use crate::pda::vault_address_of;
use crate::system::system_program_id;
use crate::system::system_program_address;

verus! {

/// The validated account pair for one deposit: the signing owner (the source
/// of funds) and the canonical vault derived from the owner's address.
pub struct DepositAccounts {
    /// The account funding the deposit; it signed the transaction.
    pub owner: Account,
    /// The per-owner vault receiving the deposit; system-owned and unfunded.
    pub vault: Account,
}

/// The exact outcome of account validation, with the checks in their required
/// order: the list must hold exactly two accounts (owner first, vault second);
/// the owner must have signed; the vault must still be owned by the base
/// system program; the vault must hold no balance; and the vault's address
/// must equal the canonical address derived from the seed label and the
/// owner's address under the executing program. The first violated check
/// decides the error.
pub open spec fn validate_outcome(accounts: Seq<Account>, program_id: Seq<u8>) -> Result<
    (),
    DepositError,
> {
    if accounts.len() != 2 {
        Err(DepositError::StructuralError)
    } else if !accounts[0].is_signer {
        Err(DepositError::AuthorizationError)
    } else if accounts[1].owner_program@ != system_program_id() {
        Err(DepositError::OwnershipError)
    } else if accounts[1].lamports != 0 {
        Err(DepositError::StateError)
    } else if vault_address_of(accounts[0].address@, program_id) != Some(accounts[1].address@) {
        Err(DepositError::OwnershipError)
    } else {
        Ok(())
    }
}

impl DepositAccounts {
    /// Validate an ordered account list against the deposit's security
    /// invariants, returning the validated pair or the first violated check.
    pub fn try_from(accounts: Vec<Account>, program_id: &Vec<u8>) -> (r: Result<
        DepositAccounts,
        DepositError,
    >)
        requires
            program_id@.len() == 32,
        ensures
            r matches Ok(v) ==> validate_outcome(accounts@, program_id@) is Ok && v.owner
                == accounts@[0] && v.vault == accounts@[1],
            r matches Err(e) ==> validate_outcome(accounts@, program_id@) == Err::<
                (),
                DepositError,
            >(e),
    {
        let mut accounts = accounts;
        if accounts.len() != 2 {
            return Err(DepositError::StructuralError);
        }
        let vault = accounts.pop().unwrap();
        let owner = accounts.pop().unwrap();
        if !owner.is_signer {
            return Err(DepositError::AuthorizationError);
        }
        let system_id = system_program_address();
        if !bytes_eq(&vault.owner_program, &system_id) {
            return Err(DepositError::OwnershipError);
        }
        if vault.lamports != 0 {
            return Err(DepositError::StateError);
        }
        let derived = derive_vault_address(&owner.address, program_id);
        match derived {
            None => Err(DepositError::OwnershipError),
            Some(address) => {
                if !bytes_eq(&vault.address, &address) {
                    Err(DepositError::OwnershipError)
                } else {
                    Ok(DepositAccounts { vault, owner })
                }
            },
        }
    }
}

/// Law: an account list of any length other than two is rejected with the
/// structural error, before any account field is consulted.
pub proof fn lemma_wrong_arity_rejected(accounts: Seq<Account>, program_id: Seq<u8>)
    requires
        accounts.len() != 2,
    ensures
        validate_outcome(accounts, program_id) == Err::<(), DepositError>(
            DepositError::StructuralError,
        ),
{
}

/// Law: with exactly two accounts, a non-signing owner is rejected with the
/// authorization error, regardless of every property of the vault.
pub proof fn lemma_unsigned_owner_rejected(accounts: Seq<Account>, program_id: Seq<u8>)
    requires
        accounts.len() == 2,
        !accounts[0].is_signer,
    ensures
        validate_outcome(accounts, program_id) == Err::<(), DepositError>(
            DepositError::AuthorizationError,
        ),
{
}

/// Law: with a signing owner, a vault not owned by the base system program is
/// rejected with the ownership error.
pub proof fn lemma_foreign_owned_vault_rejected(accounts: Seq<Account>, program_id: Seq<u8>)
    requires
        accounts.len() == 2,
        accounts[0].is_signer,
        accounts[1].owner_program@ != system_program_id(),
    ensures
        validate_outcome(accounts, program_id) == Err::<(), DepositError>(
            DepositError::OwnershipError,
        ),
{
}

/// Law: a vault holding any nonzero balance is rejected with the state error,
/// even when its ownership and address are otherwise correct.
pub proof fn lemma_funded_vault_rejected(accounts: Seq<Account>, program_id: Seq<u8>)
    requires
        accounts.len() == 2,
        accounts[0].is_signer,
        accounts[1].owner_program@ == system_program_id(),
        accounts[1].lamports != 0,
    ensures
        validate_outcome(accounts, program_id) == Err::<(), DepositError>(
            DepositError::StateError,
        ),
{
}

/// Law: a vault whose address differs from the canonical derived address for
/// the owner is rejected with the ownership error, even when it is
/// system-owned and holds no balance.
pub proof fn lemma_spoofed_vault_rejected(accounts: Seq<Account>, program_id: Seq<u8>)
    requires
        accounts.len() == 2,
        accounts[0].is_signer,
        accounts[1].owner_program@ == system_program_id(),
        accounts[1].lamports == 0,
        vault_address_of(accounts[0].address@, program_id) != Some(accounts[1].address@),
    ensures
        validate_outcome(accounts, program_id) == Err::<(), DepositError>(
            DepositError::OwnershipError,
        ),
{
}

} // verus!
