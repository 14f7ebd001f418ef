//! A transaction as the transport delivers it.

use vstd::prelude::*;
use crate::metadata::Timestamp;
use crate::pubkey::Pubkey;

verus! {

/// An instruction that names its program and its accounts by their position
/// among the account keys of the transaction.
#[derive(Clone, Debug, PartialEq, Eq)]
pub struct CompiledInstruction {
    pub program_id_index: u8,
    pub accounts: Vec<u8>,
    pub data: Vec<u8>,
}

/// A top-level instruction with the inner instructions that it caused, in
/// their order.
#[derive(Clone, Debug, PartialEq, Eq)]
pub struct InstructionWithInner {
    pub instruction: CompiledInstruction,
    pub inner_instructions: Vec<CompiledInstruction>,
}

/// A transaction and the slot in which it was seen.
#[derive(Clone, Debug, PartialEq, Eq)]
pub struct TransactionWithSlot {
    pub signature: String,
    pub slot: u64,
    pub block_time: Option<Timestamp>,
    pub account_keys: Vec<Pubkey>,
    pub instructions: Vec<InstructionWithInner>,
}

/// The program of an instruction, if its position is among the keys.
pub open spec fn program_of(instruction: CompiledInstruction, keys: Seq<Pubkey>) -> Option<Pubkey> {
    if (instruction.program_id_index as int) < keys.len() {
        Some(keys[instruction.program_id_index as int])
    } else {
        None
    }
}

/// Whether every position is among the keys.
pub open spec fn positions_valid(positions: Seq<u8>, keys: Seq<Pubkey>) -> bool {
    forall|i: int| 0 <= i < positions.len() ==> (#[trigger] positions[i] as int) < keys.len()
}

/// The keys at the given positions, in the order of the positions.
pub open spec fn keys_at(positions: Seq<u8>, keys: Seq<Pubkey>) -> Seq<Pubkey> {
    Seq::new(positions.len(), |i: int| keys[positions[i] as int])
}

/// The program of an instruction, if its position is among the keys.
pub fn resolve_program(instruction: &CompiledInstruction, keys: &[Pubkey]) -> (r: Option<Pubkey>)
    ensures
        r == program_of(*instruction, keys@),
{
    let at: usize = instruction.program_id_index as usize;
    if at < keys.len() {
        Some(keys[at])
    } else {
        None
    }
}

/// The accounts of an instruction; none where a position is not among the
/// keys.
pub fn resolve_accounts(positions: &[u8], keys: &[Pubkey]) -> (r: Option<Vec<Pubkey>>)
    ensures
        r.is_some() == positions_valid(positions@, keys@),
        r matches Some(v) ==> v@ == keys_at(positions@, keys@),
{
    let mut out: Vec<Pubkey> = Vec::new();
    let mut i: usize = 0;
    while i < positions.len()
        invariant
            i <= positions@.len(),
            out@.len() == i,
            forall|j: int| 0 <= j < i ==> (#[trigger] positions@[j] as int) < keys@.len(),
            forall|j: int| 0 <= j < i ==> out@[j] == keys@[positions@[j] as int],
        decreases positions@.len() - i,
    {
        let at: usize = positions[i] as usize;
        if at >= keys.len() {
            return None;
        }
        out.push(keys[at]);
        i += 1;
    }
    assert(out@ =~= keys_at(positions@, keys@));
    Some(out)
}

} // verus!
