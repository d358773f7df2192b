use crate::address::Address;
use crate::error::PrereqError;
use crate::instruction::{AccountMeta, AccountMetaView, Instruction, InstructionView};
use solana_program::pubkey::Pubkey;
use vstd::prelude::*;

verus! {

/// `n` as eight little-endian bytes.
pub open spec fn le_u64(n: u64) -> Seq<u8> {
    Seq::new(8, |i: int| ((n as nat / pow256(i as nat)) % 256) as u8)
}

pub open spec fn pow256(k: nat) -> nat
    decreases k,
{
    if k == 0 { 1 } else { 256 * pow256((k - 1) as nat) }
}

/// The system program's `Transfer` payload: variant index 2 as a 32-bit
/// little-endian integer, then the amount as a 64-bit one.
pub open spec fn transfer_data(lamports: u64) -> Seq<u8> {
    seq![2u8, 0u8, 0u8, 0u8] + le_u64(lamports)
}

/// The system program's transfer of `lamports` from `from` to `to`.
pub open spec fn transfer_view(from: Seq<u8>, to: Seq<u8>, lamports: u64) -> InstructionView {
    InstructionView {
        program_id: Seq::new(32, |i: int| 0u8),
        accounts: seq![(from, true, true), (to, false, true)],
        data: transfer_data(lamports),
    }
}

/// Relies on `solana_program::system_instruction::transfer`: the system program,
/// the source as writable signer and the destination as writable, and the
/// `Transfer { lamports }` variant serialized by bincode (fixed-width, little-endian).
#[verifier::external_body]
fn system_transfer(from: &Address, to: &Address, lamports: u64) -> (r: Instruction)
    ensures
        r@ == transfer_view(from@, to@, lamports),
{
    #[allow(deprecated)]
    let ix = solana_program::system_instruction::transfer(
        &Pubkey::new_from_array(from.bytes), &Pubkey::new_from_array(to.bytes), lamports);
    let accounts: Vec<AccountMeta> = ix.accounts.iter().map(|m| AccountMeta {
        address: Address { bytes: m.pubkey.to_bytes() }, is_signer: m.is_signer, is_writable: m.is_writable,
    }).collect();
    Instruction { program_id: Address { bytes: ix.program_id.to_bytes() }, accounts, data: ix.data }
}

/// A transfer ready to be signed: who pays, who receives, how much, the fee it was
/// planned against (none for a fixed amount), and the instruction that performs it.
#[derive(Clone, Debug)]
pub struct TransferPlan {
    pub source: Address,
    pub destination: Address,
    pub amount: u64,
    pub fee: Option<u64>,
    pub instruction: Instruction,
}

/// A plan as plain values.
pub struct PlanView {
    pub source: Seq<u8>,
    pub destination: Seq<u8>,
    pub amount: u64,
    pub fee: Option<u64>,
    pub instruction: InstructionView,
}

impl View for TransferPlan {
    type V = PlanView;

    open spec fn view(&self) -> PlanView {
        PlanView {
            source: self.source@,
            destination: self.destination@,
            amount: self.amount,
            fee: self.fee,
            instruction: self.instruction@,
        }
    }
}

pub open spec fn plan_result_view(r: Result<TransferPlan, PrereqError>) -> Result<PlanView, PrereqError> {
    match r {
        Ok(p) => Ok(p@),
        Err(e) => Err(e),
    }
}

/// The sweep of `balance` net of `fee`: everything beyond the fee, or
/// `InsufficientBalance` when nothing would be left to transfer.
pub open spec fn sweep_outcome(source: Seq<u8>, destination: Seq<u8>, balance: u64, fee: u64) -> Result<PlanView, PrereqError> {
    if fee < balance {
        Ok(PlanView {
            source,
            destination,
            amount: (balance - fee) as u64,
            fee: Some(fee),
            instruction: transfer_view(source, destination, (balance - fee) as u64),
        })
    } else {
        Err(PrereqError::InsufficientBalance)
    }
}

/// The transfer of a fixed `amount`, or `InvalidAmount` when it is zero.
pub open spec fn fixed_outcome(source: Seq<u8>, destination: Seq<u8>, amount: u64) -> Result<PlanView, PrereqError> {
    if amount > 0 {
        Ok(PlanView {
            source,
            destination,
            amount,
            fee: None,
            instruction: transfer_view(source, destination, amount),
        })
    } else {
        Err(PrereqError::InvalidAmount)
    }
}

/// The instruction whose fee a sweep is planned against: a transfer of the whole
/// balance, of the same shape as the final one.
pub fn sweep_fee_probe(source: &Address, destination: &Address, balance: u64) -> (r: Instruction)
    ensures
        r@ == transfer_view(source@, destination@, balance),
{
    system_transfer(source, destination, balance)
}

/// Plans a transfer of everything that `balance` holds beyond `fee`. Fails with
/// `InsufficientBalance` when the fee takes all of it or more.
pub fn plan_full_sweep(source: &Address, destination: &Address, balance: u64, fee: u64) -> (r: Result<TransferPlan, PrereqError>)
    ensures
        plan_result_view(r) == sweep_outcome(source@, destination@, balance, fee),
{
    if fee >= balance {
        return Err(PrereqError::InsufficientBalance);
    }
    let amount: u64 = balance - fee;
    let instruction = system_transfer(source, destination, amount);
    Ok(TransferPlan { source: *source, destination: *destination, amount, fee: Some(fee), instruction })
}

/// Plans a transfer of exactly `amount`, leaving overdraft to the ledger. Fails
/// with `InvalidAmount` when the amount is zero.
pub fn plan_fixed_amount(source: &Address, destination: &Address, amount: u64) -> (r: Result<TransferPlan, PrereqError>)
    ensures
        plan_result_view(r) == fixed_outcome(source@, destination@, amount),
{
    if amount == 0 {
        return Err(PrereqError::InvalidAmount);
    }
    let instruction = system_transfer(source, destination, amount);
    Ok(TransferPlan { source: *source, destination: *destination, amount, fee: None, instruction })
}

/// A sweep is fee-exact: when the balance exceeds the fee, the amount is the
/// balance minus the fee, amount and fee add up to the balance, and the transfer
/// carries that amount; when the fee exceeds the balance, the sweep fails with
/// `InsufficientBalance` and no instruction exists.
pub proof fn lemma_sweep_exact(source: Seq<u8>, destination: Seq<u8>, balance: u64, fee: u64)
    ensures
        fee < balance ==> (sweep_outcome(source, destination, balance, fee) matches Ok(p)
            && p.amount == balance - fee
            && p.amount + fee == balance
            && p.instruction == transfer_view(source, destination, p.amount)),
        balance < fee ==> sweep_outcome(source, destination, balance, fee) == Err::<PlanView, PrereqError>(PrereqError::InsufficientBalance),
{
}

/// The probe and the final transfer differ in the amount only: same program, same
/// accounts, same payload length. A fee that depends on the shape alone is the
/// same for both.
pub proof fn lemma_sweep_same_shape(source: Seq<u8>, destination: Seq<u8>, a: u64, b: u64)
    ensures
        transfer_view(source, destination, a).program_id == transfer_view(source, destination, b).program_id,
        transfer_view(source, destination, a).accounts == transfer_view(source, destination, b).accounts,
        transfer_view(source, destination, a).data.len() == transfer_view(source, destination, b).data.len(),
        transfer_view(source, destination, a).data.len() == 12,
{
}

} // verus!
