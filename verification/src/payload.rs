use vstd::prelude::*;

use crate::error::DepositError;

verus! {

use vstd::bytes::spec_u64_from_le_bytes;
use vstd::bytes::u64_from_le_bytes;

/// The deposit amount decoded from the raw instruction payload.
pub struct DepositInstructionData {
    /// The validated, positive amount of native balance units to move.
    pub amount: u64,
}

/// What parsing a payload must yield: the payload is exactly 8 bytes holding a
/// little-endian unsigned 64-bit amount, and a zero amount is rejected as a
/// malformed payload; anything else decodes to that exact amount.
pub open spec fn parse_outcome(data: Seq<u8>) -> Result<u64, DepositError> {
    if data.len() != 8 {
        Err(DepositError::PayloadError)
    } else if spec_u64_from_le_bytes(data) == 0 {
        Err(DepositError::PayloadError)
    } else {
        Ok(spec_u64_from_le_bytes(data))
    }
}

impl DepositInstructionData {
    /// Decode and validate a raw instruction payload.
    pub fn try_from(data: &[u8]) -> (r: Result<DepositInstructionData, DepositError>)
        ensures
            r matches Ok(d) ==> parse_outcome(data@) == Ok::<u64, DepositError>(d.amount),
            r matches Err(e) ==> parse_outcome(data@) == Err::<u64, DepositError>(e),
    {
        if data.len() != 8 {
            return Err(DepositError::PayloadError);
        }
        let amount = u64_from_le_bytes(data);
        if amount == 0 {
            return Err(DepositError::PayloadError);
        }
        Ok(DepositInstructionData { amount })
    }
}

/// Law: payloads of any length other than 8 are rejected as malformed; an
/// 8-byte payload decoding to zero is rejected as malformed; every other
/// 8-byte payload parses to exactly the little-endian integer it holds.
pub proof fn lemma_parse_exact(data: Seq<u8>)
    ensures
        data.len() != 8 ==> parse_outcome(data) == Err::<u64, DepositError>(
            DepositError::PayloadError,
        ),
        data.len() == 8 && spec_u64_from_le_bytes(data) == 0 ==> parse_outcome(data) == Err::<
            u64,
            DepositError,
        >(DepositError::PayloadError),
        data.len() == 8 && spec_u64_from_le_bytes(data) != 0 ==> parse_outcome(data) == Ok::<
            u64,
            DepositError,
        >(spec_u64_from_le_bytes(data)),
{
}

} // verus!
