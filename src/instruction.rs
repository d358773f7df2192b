use crate::address::{get_program_id, pubkey_from_base58, system_program_address, Address, PROGRAM_ID};
use crate::error::PrereqError;
use vstd::prelude::*;

verus! {

/// The operation tag of the program's `complete` instruction.
pub const COMPLETE_DISCRIMINATOR: [u8; 8] = [0, 77, 224, 147, 136, 25, 88, 76];

/// An account that an instruction touches, with its role.
#[derive(Clone, Copy, Debug)]
pub struct AccountMeta {
    pub address: Address,
    pub is_signer: bool,
    pub is_writable: bool,
}

/// An account reference as plain values: (address, signer, writable).
pub type AccountMetaView = (Seq<u8>, bool, bool);

impl View for AccountMeta {
    type V = AccountMetaView;

    open spec fn view(&self) -> AccountMetaView {
        (self.address@, self.is_signer, self.is_writable)
    }
}

/// A call of a program: its id, the accounts in order, and the payload.
#[derive(Clone, Debug)]
pub struct Instruction {
    pub program_id: Address,
    pub accounts: Vec<AccountMeta>,
    pub data: Vec<u8>,
}

/// An instruction as plain values.
pub struct InstructionView {
    pub program_id: Seq<u8>,
    pub accounts: Seq<AccountMetaView>,
    pub data: Seq<u8>,
}

impl View for Instruction {
    type V = InstructionView;

    open spec fn view(&self) -> InstructionView {
        InstructionView {
            program_id: self.program_id@,
            accounts: self.accounts@.map_values(|m: AccountMeta| m@),
            data: self.data@,
        }
    }
}

/// `n` as four little-endian bytes.
pub open spec fn le_u32(n: nat) -> Seq<u8> {
    seq![
        (n % 256) as u8,
        ((n / 256) % 256) as u8,
        ((n / 65536) % 256) as u8,
        ((n / 16777216) % 256) as u8,
    ]
}

/// The payload layout: discriminator, length of the argument, argument.
pub open spec fn payload(discriminator: Seq<u8>, argument: Seq<u8>) -> Seq<u8> {
    discriminator + le_u32(argument.len()) + argument
}

/// Builds the payload for `discriminator` and `argument`. Fails with `Encoding`
/// when the argument's length does not fit in 32 bits.
pub fn encode_instruction(discriminator: &[u8; 8], argument: &Vec<u8>) -> (r: Result<Vec<u8>, PrereqError>)
    ensures
        r is Ok <==> argument@.len() <= u32::MAX,
        r matches Ok(v) ==> v@ == payload(discriminator@, argument@),
        r matches Err(e) ==> e == PrereqError::Encoding,
{
    if argument.len() as u64 > 4294967295u64 {
        return Err(PrereqError::Encoding);
    }
    let n: u32 = argument.len() as u32;
    let mut out: Vec<u8> = Vec::new();
    let mut i: usize = 0;
    while i < 8
        invariant
            i <= 8,
            out@ == discriminator@.subrange(0, i as int),
        decreases 8 - i,
    {
        out.push(discriminator[i]);
        i = i + 1;
    }
    out.push((n % 256) as u8);
    out.push(((n / 256) % 256) as u8);
    out.push(((n / 65536) % 256) as u8);
    out.push(((n / 16777216) % 256) as u8);
    let ghost head = out@;
    assert(head =~= discriminator@ + le_u32(argument@.len()));
    let mut j: usize = 0;
    while j < argument.len()
        invariant
            j <= argument@.len(),
            out@ == head + argument@.subrange(0, j as int),
        decreases argument@.len() - j,
    {
        out.push(argument[j]);
        j = j + 1;
        assert(out@ =~= head + argument@.subrange(0, j as int));
    }
    assert(argument@.subrange(0, argument@.len() as int) =~= argument@);
    Ok(out)
}

/// The payload's layout read back: the discriminator, then the argument's length
/// as four little-endian bytes, then the argument verbatim, twelve bytes more
/// than the argument in all.
pub proof fn lemma_payload_layout(discriminator: Seq<u8>, argument: Seq<u8>)
    requires
        discriminator.len() == 8,
        argument.len() <= u32::MAX,
    ensures
        payload(discriminator, argument).len() == 12 + argument.len(),
        payload(discriminator, argument).subrange(0, 8) == discriminator,
        payload(discriminator, argument).subrange(8, 12) == le_u32(argument.len()),
        payload(discriminator, argument).subrange(12, 12 + argument.len() as int) == argument,
        ({
            let p = payload(discriminator, argument);
            p[8] as nat + 256 * p[9] as nat + 65536 * p[10] as nat + 16777216 * p[11] as nat
        }) == argument.len(),
{
    let p = payload(discriminator, argument);
    assert(p.subrange(0, 8) =~= discriminator);
    assert(p.subrange(8, 12) =~= le_u32(argument.len()));
    assert(p.subrange(12, 12 + argument.len() as int) =~= argument);
    let n = argument.len();
    assert(p[8] as nat == n % 256);
    assert(p[9] as nat == (n / 256) % 256);
    assert(p[10] as nat == (n / 65536) % 256);
    assert(p[11] as nat == (n / 16777216) % 256);
    assert(n % 256 + 256 * ((n / 256) % 256) + 65536 * ((n / 65536) % 256) + 16777216 * ((n / 16777216) % 256) == n)
        by (nonlinear_arith)
        requires
            n <= u32::MAX,
    ;
}

/// The accounts of the `complete` call, in the order the program reads them.
pub open spec fn submit_accounts(signer: Seq<u8>, prereq: Seq<u8>) -> Seq<AccountMetaView> {
    seq![(signer, true, true), (prereq, false, true), (Seq::new(32, |i: int| 0u8), false, false)]
}

/// The `complete` instruction for `signer`, whose enrollment account is `prereq`,
/// carrying `github_username`. Fails with `Configuration` when the program id does
/// not decode, and with `Encoding` when the name is longer than 32 bits can state.
pub fn create_submit_instruction(signer: &Address, prereq: &Address, github_username: Vec<u8>) -> (r: Result<Instruction, PrereqError>)
    ensures
        match pubkey_from_base58(PROGRAM_ID@) {
            None => r == Err::<Instruction, PrereqError>(PrereqError::Configuration),
            Some(program) => if github_username@.len() > u32::MAX {
                r == Err::<Instruction, PrereqError>(PrereqError::Encoding)
            } else {
                r matches Ok(ix) && ix@.program_id == program
                    && ix@.accounts == submit_accounts(signer@, prereq@)
                    && ix@.data == payload(COMPLETE_DISCRIMINATOR@, github_username@)
            },
        },
{
    let program_id = match get_program_id() {
        Ok(p) => p,
        Err(e) => return Err(e),
    };
    let data = match encode_instruction(&COMPLETE_DISCRIMINATOR, &github_username) {
        Ok(d) => d,
        Err(e) => return Err(e),
    };
    let accounts: Vec<AccountMeta> = vec![
        AccountMeta { address: *signer, is_signer: true, is_writable: true },
        AccountMeta { address: *prereq, is_signer: false, is_writable: true },
        AccountMeta { address: system_program_address(), is_signer: false, is_writable: false },
    ];
    let ix = Instruction { program_id, accounts, data };
    assert(ix@.accounts =~= submit_accounts(signer@, prereq@));
    Ok(ix)
}

} // verus!
