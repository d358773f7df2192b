use prereq::{
    create_submit_instruction, derive_address, derive_prereq_address, encode_instruction,
    get_program_id, is_program_owned, plan_fixed_amount, plan_full_sweep, start, step,
    sweep_fee_probe, system_program_address, Action, Address, Event, PrereqError, Stage,
    COMPLETE_DISCRIMINATOR,
};
use solana_program::pubkey::Pubkey;
use solana_keypair::Keypair;
use solana_signer::Signer;
use std::str::FromStr;

fn addr(b: u8) -> Address {
    Address { bytes: [b; 32] }
}

#[test]
fn empty_argument_payload_is_twelve_bytes() {
    let p = encode_instruction(&[0, 77, 224, 147, 136, 25, 88, 76], &vec![]).unwrap();
    assert_eq!(p.len(), 12);
    assert_eq!(&p[8..12], &[0, 0, 0, 0]);
    assert_eq!(&p[0..8], &[0, 77, 224, 147, 136, 25, 88, 76]);
}

#[test]
fn payload_layout_is_pinned() {
    let p = encode_instruction(&COMPLETE_DISCRIMINATOR, &b"mp-web3".to_vec()).unwrap();
    assert_eq!(
        p,
        vec![0, 77, 224, 147, 136, 25, 88, 76, 7, 0, 0, 0, b'm', b'p', b'-', b'w', b'e', b'b', b'3']
    );
}

#[test]
fn payload_length_prefix_is_little_endian() {
    let arg = vec![9u8; 300];
    let p = encode_instruction(&[1, 2, 3, 4, 5, 6, 7, 8], &arg).unwrap();
    assert_eq!(p.len(), 12 + 300);
    assert_eq!(&p[8..12], &[44, 1, 0, 0]);
    assert_eq!(&p[12..], &arg[..]);
}

#[test]
fn sweep_scenario_million_minus_fee() {
    let plan = plan_full_sweep(&addr(1), &addr(2), 1_000_000, 5_000).unwrap();
    assert_eq!(plan.amount, 995_000);
    assert_eq!(plan.amount + plan.fee.unwrap(), 1_000_000);
    assert_eq!(plan.instruction.data, vec![2, 0, 0, 0, 184, 46, 15, 0, 0, 0, 0, 0]);
}

#[test]
fn sweep_fails_when_fee_exceeds_balance() {
    let r = plan_full_sweep(&addr(1), &addr(2), 4_999, 5_000);
    assert!(matches!(r, Err(PrereqError::InsufficientBalance)));
}

#[test]
fn sweep_fails_when_nothing_would_remain() {
    let r = plan_full_sweep(&addr(1), &addr(2), 5_000, 5_000);
    assert!(matches!(r, Err(PrereqError::InsufficientBalance)));
}

#[test]
fn sweep_probe_has_the_final_shape() {
    let probe = sweep_fee_probe(&addr(1), &addr(2), 1_000_000);
    let plan = plan_full_sweep(&addr(1), &addr(2), 1_000_000, 5_000).unwrap();
    assert_eq!(probe.accounts.len(), plan.instruction.accounts.len());
    assert_eq!(probe.data.len(), plan.instruction.data.len());
    assert_ne!(probe.data, plan.instruction.data);
}

#[test]
fn fixed_transfer_instruction() {
    let plan = plan_fixed_amount(&addr(1), &addr(2), 1_000_000).unwrap();
    assert_eq!(plan.amount, 1_000_000);
    assert_eq!(plan.fee, None);
    let ix = &plan.instruction;
    assert_eq!(ix.program_id.bytes, [0u8; 32]);
    assert_eq!(ix.data, vec![2, 0, 0, 0, 0x40, 0x42, 0x0F, 0, 0, 0, 0, 0]);
    assert_eq!(ix.accounts.len(), 2);
    assert_eq!(ix.accounts[0].address.bytes, [1u8; 32]);
    assert!(ix.accounts[0].is_signer && ix.accounts[0].is_writable);
    assert_eq!(ix.accounts[1].address.bytes, [2u8; 32]);
    assert!(!ix.accounts[1].is_signer && ix.accounts[1].is_writable);
}

#[test]
fn fixed_transfer_of_zero_is_refused() {
    assert!(matches!(plan_fixed_amount(&addr(1), &addr(2), 0), Err(PrereqError::InvalidAmount)));
}

#[test]
fn program_id_decodes() {
    let id = get_program_id().unwrap();
    let expected = Pubkey::from_str("ADcaide4vBtKuyZQqdU689YqEGZMCmS4tL35bdTv9wJa").unwrap();
    assert_eq!(id.bytes, expected.to_bytes());
    assert_ne!(id.bytes, [0u8; 32]);
}

#[test]
fn system_program_is_zero_key() {
    assert_eq!(system_program_address().bytes, [0u8; 32]);
}

#[test]
fn derivation_is_deterministic_and_off_curve() {
    let signer = addr(7);
    let (a1, b1) = derive_prereq_address(&signer).unwrap();
    let (a2, b2) = derive_prereq_address(&signer).unwrap();
    assert_eq!(a1.bytes, a2.bytes);
    assert_eq!(b1, b2);
    assert!(is_program_owned(&a1));
    let program = Pubkey::from_str("ADcaide4vBtKuyZQqdU689YqEGZMCmS4tL35bdTv9wJa").unwrap();
    let (pda, bump) =
        Pubkey::find_program_address(&[b"prereq", Pubkey::new_from_array([7; 32]).as_ref()], &program);
    assert_eq!(a1.bytes, pda.to_bytes());
    assert_eq!(b1, bump);
}

#[test]
fn derivation_depends_on_the_signer() {
    let (a1, _) = derive_prereq_address(&addr(7)).unwrap();
    let (a2, _) = derive_prereq_address(&addr(8)).unwrap();
    assert_ne!(a1.bytes, a2.bytes);
}

#[test]
fn derivation_with_too_long_seed_is_a_configuration_error() {
    let program = get_program_id().unwrap();
    let r = derive_address(&vec![vec![0u8; 33]], &program);
    assert!(matches!(r, Err(PrereqError::Configuration)));
}

#[test]
fn keypair_address_is_not_program_owned() {
    let kp = Keypair::new();
    let a = Address { bytes: kp.pubkey().to_bytes() };
    assert!(!is_program_owned(&a));
}

#[test]
fn submit_instruction_accounts_and_data() {
    let ix = create_submit_instruction(&addr(1), &addr(2), b"mp-web3".to_vec()).unwrap();
    assert_eq!(ix.program_id.bytes, get_program_id().unwrap().bytes);
    assert_eq!(ix.accounts.len(), 3);
    assert_eq!(ix.accounts[0].address.bytes, [1u8; 32]);
    assert!(ix.accounts[0].is_signer && ix.accounts[0].is_writable);
    assert_eq!(ix.accounts[1].address.bytes, [2u8; 32]);
    assert!(!ix.accounts[1].is_signer && ix.accounts[1].is_writable);
    assert_eq!(ix.accounts[2].address.bytes, [0u8; 32]);
    assert!(!ix.accounts[2].is_signer && !ix.accounts[2].is_writable);
    assert_eq!(ix.data[0..8], COMPLETE_DISCRIMINATOR);
    assert_eq!(ix.data[8..12], [7, 0, 0, 0]);
    assert_eq!(ix.data.len(), 19);
}

#[test]
fn enrollment_already_complete_never_submits() {
    let (s, a) = start(true, true);
    assert_eq!(a, Action::CheckAccount);
    let (s, a) = step(s, Event::AccountChecked { exists: true });
    assert_eq!(a, Action::Finish);
    assert_eq!(s.stage, Stage::AlreadyComplete);
    let mut s = s;
    for e in [Event::InstructionBuilt, Event::StateReceived, Event::SignatureMade, Event::SubmitAccepted] {
        let (n, a) = step(s, e);
        assert_eq!(a, Action::Idle);
        s = n;
    }
    assert_eq!(s.stage, Stage::AlreadyComplete);
}

#[test]
fn enrollment_full_path() {
    let (s, _) = start(true, true);
    let (s, a) = step(s, Event::AccountChecked { exists: false });
    assert_eq!(a, Action::BuildInstruction);
    let (s, a) = step(s, Event::InstructionBuilt);
    assert_eq!(a, Action::FetchState);
    let (s, a) = step(s, Event::StateReceived);
    assert_eq!(a, Action::Sign);
    let (s, a) = step(s, Event::SignatureMade);
    assert_eq!(a, Action::Submit);
    let (s, a) = step(s, Event::SubmitAccepted);
    assert_eq!(a, Action::Confirm);
    let (s, a) = step(s, Event::Confirmation { confirmed: true });
    assert_eq!(a, Action::Finish);
    assert_eq!(s.stage, Stage::Confirmed);
}

#[test]
fn signing_waits_for_the_state_token() {
    let (s, a) = start(false, false);
    assert_eq!(a, Action::FetchState);
    let (s, a) = step(s, Event::SignatureMade);
    assert_eq!(a, Action::Idle);
    assert_eq!(s.stage, Stage::Built);
    let (s, a) = step(s, Event::StateReceived);
    assert_eq!(a, Action::Sign);
    let (s, a) = step(s, Event::SignatureMade);
    assert_eq!(a, Action::Submit);
    let (s, a) = step(s, Event::SubmitAccepted);
    assert_eq!(a, Action::Finish);
    assert_eq!(s.stage, Stage::Submitted);
}

#[test]
fn rejection_network_and_unconfirmed_are_distinct() {
    let signed = |confirm: bool| {
        let (s, _) = start(false, confirm);
        let (s, _) = step(s, Event::StateReceived);
        step(s, Event::SignatureMade).0
    };
    let (s, a) = step(signed(true), Event::SubmitFailed { rejected: true });
    assert_eq!(a, Action::Abort(PrereqError::RemoteRejection));
    assert_eq!(s.stage, Stage::Rejected);
    let (_, a) = step(signed(true), Event::SubmitFailed { rejected: false });
    assert_eq!(a, Action::Abort(PrereqError::Network));
    let (s, _) = step(signed(true), Event::SubmitAccepted);
    let (s, a) = step(s, Event::Confirmation { confirmed: false });
    assert_eq!(a, Action::Abort(PrereqError::Unconfirmed));
    assert_eq!(s.stage, Stage::Unconfirmed);
    let (s, _) = start(false, true);
    let (s, a) = step(s, Event::CallFailed);
    assert_eq!(a, Action::Abort(PrereqError::Network));
    assert_eq!(s.stage, Stage::Failed);
}
