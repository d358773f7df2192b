//! Enrollment and transfer planning for an on-chain prerequisite program:
//! program-owned address derivation, instruction payload encoding, fee-exact
//! sweep planning, and the submission state machine.

mod address;
mod error;
mod instruction;
mod submit;
mod transfer;

pub use address::{
    derive_address, derive_prereq_address, derive_view, expected_derivation, get_program_id,
    is_program_owned, lemma_derive_deterministic, on_curve, option_address_view, prereq_seed,
    program_address_of, pubkey_from_base58, seeds_view, system_program_address, Address,
    PROGRAM_ID,
};
pub use error::PrereqError;
pub use instruction::{
    create_submit_instruction, encode_instruction, lemma_payload_layout, le_u32, payload,
    submit_accounts, AccountMeta, AccountMetaView, Instruction, InstructionView,
    COMPLETE_DISCRIMINATOR,
};
pub use transfer::{
    le_u64, lemma_sweep_exact, lemma_sweep_same_shape, plan_fixed_amount, plan_full_sweep,
    pow256, sweep_fee_probe, transfer_data, transfer_view, TransferPlan, PlanView,
    plan_result_view, sweep_outcome, fixed_outcome,
};
pub use submit::{
    has_fetch_before, is_terminal, lemma_enrolled_never_submits, lemma_fetch_before_sign, run,
    signs_after_fetch, start, start_spec, step, step_spec, trace, Action, Event, Stage, Submission,
};
