use vstd::prelude::*;

use crate::account::Account;
use crate::error::DepositError;
use crate::payload::DepositInstructionData;
use crate::payload::parse_outcome;
use crate::validate::DepositAccounts;
use crate::validate::validate_outcome;

verus! {

use vstd::bytes::spec_u64_from_le_bytes;

/// The routing-layer tag that selects the deposit operation. The tag carries
/// no payload semantics; the outer router strips it before this handler runs.
pub const DEPOSIT_DISCRIMINATOR: u8 = 0;

/// A validated deposit request: the owner/vault pair together with the
/// decoded, positive amount. Built per invocation and consumed immediately by
/// the transfer step.
pub struct Deposit {
    /// The validated owner and vault accounts.
    pub accounts: DepositAccounts,
    /// The decoded instruction payload.
    pub instruction_data: DepositInstructionData,
}

/// The exact outcome of building a deposit: account validation runs first,
/// then payload parsing; the first failure is propagated unchanged.
pub open spec fn build_outcome(
    data: Seq<u8>,
    accounts: Seq<Account>,
    program_id: Seq<u8>,
) -> Result<(), DepositError> {
    match validate_outcome(accounts, program_id) {
        Err(e) => Err(e),
        Ok(_) => match parse_outcome(data) {
            Err(e) => Err(e),
            Ok(_) => Ok(()),
        },
    }
}

impl Deposit {
    /// A deposit ready for the transfer step: the vault was validated as
    /// unfunded and the decoded amount is positive.
    pub open spec fn wf(self) -> bool {
        self.accounts.vault.lamports == 0 && self.instruction_data.amount > 0
    }

    /// Validate the raw account list and decode the raw payload, producing a
    /// deposit ready to process, or the first violated invariant.
    pub fn try_from(data: &[u8], accounts: Vec<Account>, program_id: &Vec<u8>) -> (r: Result<
        Deposit,
        DepositError,
    >)
        requires
            program_id@.len() == 32,
        ensures
            r matches Ok(d) ==> build_outcome(data@, accounts@, program_id@) is Ok
                && d.accounts.owner == accounts@[0] && d.accounts.vault == accounts@[1]
                && d.instruction_data.amount == spec_u64_from_le_bytes(data@) && d.wf(),
            r matches Err(e) ==> build_outcome(data@, accounts@, program_id@) == Err::<
                (),
                DepositError,
            >(e),
    {
        let validated = match DepositAccounts::try_from(accounts, program_id) {
            Ok(v) => v,
            Err(e) => {
                return Err(e);
            },
        };
        let instruction_data = match DepositInstructionData::try_from(data) {
            Ok(d) => d,
            Err(e) => {
                return Err(e);
            },
        };
        Ok(Deposit { accounts: validated, instruction_data })
    }

    /// Execute the transfer: move the validated amount from the owner's
    /// balance into the vault. Fails only when the owner's balance cannot
    /// cover the amount, in which case nothing changes.
    pub fn process(&mut self) -> (r: Result<(), DepositError>)
        requires
            old(self).wf(),
        ensures
            r is Ok <==> old(self).accounts.owner.lamports >= old(
                self,
            ).instruction_data.amount,
            r is Ok ==> *final(self) == (Deposit {
                accounts: DepositAccounts {
                    owner: (Account {
                        lamports: (old(self).accounts.owner.lamports - old(
                            self,
                        ).instruction_data.amount) as u64,
                        ..old(self).accounts.owner
                    }),
                    vault: (Account {
                        lamports: old(self).instruction_data.amount,
                        ..old(self).accounts.vault
                    }),
                },
                ..*old(self)
            }),
            r matches Err(e) ==> e == DepositError::TransferError && *final(self) == *old(self),
    {
        if self.accounts.owner.lamports < self.instruction_data.amount {
            return Err(DepositError::TransferError);
        }
        let amount = self.instruction_data.amount;
        self.accounts.owner.lamports = self.accounts.owner.lamports - amount;
        self.accounts.vault.lamports = self.accounts.vault.lamports + amount;
        Ok(())
    }
}

/// Law: a successful transfer conserves the combined balance of the owner and
/// the vault — the vault gains exactly what the owner loses.
pub proof fn lemma_transfer_conserves_balance(before: Deposit, after: Deposit)
    requires
        before.wf(),
        before.accounts.owner.lamports >= before.instruction_data.amount,
        after == (Deposit {
            accounts: DepositAccounts {
                owner: (Account {
                    lamports: (before.accounts.owner.lamports
                        - before.instruction_data.amount) as u64,
                    ..before.accounts.owner
                }),
                vault: (Account {
                    lamports: before.instruction_data.amount,
                    ..before.accounts.vault
                }),
            },
            ..before
        }),
    ensures
        after.accounts.owner.lamports + after.accounts.vault.lamports
            == before.accounts.owner.lamports + before.accounts.vault.lamports,
        after.accounts.vault.lamports == before.instruction_data.amount,
{
}

} // verus!
