//! What the submitter reads of a transaction when it writes diagnostics.

use vstd::prelude::*;

verus! {

/// The two encodings of a transaction message.
#[derive(Clone, Copy, Debug, PartialEq, Eq, Structural)]
pub enum MessageVersion {
    Legacy,
    V0,
}

/// One instruction of a message, in compiled form: every account is an index
/// into the message's key table.
#[derive(Clone, Debug, PartialEq, Eq)]
pub struct CompiledInstruction {
    /// Index of the program's address in the key table.
    pub program_id_index: u8,
    /// Indices of the accounts handed to the program.
    pub accounts: Vec<u8>,
    /// The instruction's raw input bytes.
    pub data: Vec<u8>,
}

/// The parts of a signed transaction that diagnostics show.
#[derive(Clone, Debug, PartialEq, Eq)]
pub struct TransactionSummary {
    pub version: MessageVersion,
    /// The message's static key table.
    pub account_keys: Vec<[u8; 32]>,
    pub instructions: Vec<CompiledInstruction>,
}

impl TransactionSummary {
    /// Every instruction names a program that the key table holds.
    pub open spec fn well_formed(&self) -> bool {
        forall|i: int|
            0 <= i < self.instructions@.len() ==> (#[trigger] self.instructions@[i]).program_id_index
                < self.account_keys@.len()
    }

    /// The address of the program that instruction `i` calls.
    pub open spec fn program_key(&self, i: int) -> Seq<u8> {
        self.account_keys@[self.instructions@[i].program_id_index as int]@
    }

    /// Tells whether every instruction names a program that the key table
    /// holds.
    pub fn is_well_formed(&self) -> (ok: bool)
        ensures
            ok == self.well_formed(),
    {
        let mut i: usize = 0;
        while i < self.instructions.len()
            invariant
                i <= self.instructions@.len(),
                forall|j: int|
                    0 <= j < i ==> (#[trigger] self.instructions@[j]).program_id_index
                        < self.account_keys@.len(),
            decreases self.instructions@.len() - i,
        {
            if self.instructions[i].program_id_index as usize >= self.account_keys.len() {
                return false;
            }
            i += 1;
        }
        true
    }
}

} // verus!
