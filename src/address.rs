use crate::error::PrereqError;
use solana_program::pubkey::Pubkey;
use vstd::prelude::*;

verus! {

/// The program whose enrollment accounts this library derives.
pub const PROGRAM_ID: &'static str = "ADcaide4vBtKuyZQqdU689YqEGZMCmS4tL35bdTv9wJa";

/// A 32-byte account identity.
#[derive(Clone, Copy, Debug)]
pub struct Address {
    pub bytes: [u8; 32],
}

impl View for Address {
    type V = Seq<u8>;

    open spec fn view(&self) -> Seq<u8> {
        self.bytes@
    }
}

/// The program address and bump that `Pubkey::try_find_program_address` finds
/// for the given seeds and program, if any.
pub uninterp spec fn program_address_of(seeds: Seq<Seq<u8>>, program: Seq<u8>) -> Option<(Seq<u8>, u8)>;

/// Whether the 32 bytes decompress to a point of the ed25519 curve.
pub uninterp spec fn on_curve(bytes: Seq<u8>) -> bool;

/// The 32 bytes that `Pubkey::from_str` decodes from a base58 text, if it accepts it.
pub uninterp spec fn pubkey_from_base58(text: Seq<char>) -> Option<Seq<u8>>;

pub open spec fn seeds_view(seeds: &Vec<Vec<u8>>) -> Seq<Seq<u8>> {
    seeds@.map_values(|s: Vec<u8>| s@)
}

pub open spec fn option_address_view(a: Option<Address>) -> Option<Seq<u8>> {
    match a {
        Some(x) => Some(x@),
        None => None,
    }
}

/// What a derivation returns, as plain values.
pub open spec fn derive_view(r: Result<(Address, u8), PrereqError>) -> Result<(Seq<u8>, u8), PrereqError> {
    match r {
        Ok((a, bump)) => Ok((a@, bump)),
        Err(e) => Err(e),
    }
}

/// The derivation that the seeds and the program determine.
pub open spec fn expected_derivation(seeds: Seq<Seq<u8>>, program: Seq<u8>) -> Result<(Seq<u8>, u8), PrereqError> {
    match program_address_of(seeds, program) {
        Some(found) => Ok(found),
        None => Err(PrereqError::Configuration),
    }
}

/// Relies on `Pubkey::try_find_program_address`: its result depends on the seeds
/// and the program alone, and an address it returns passed `create_program_address`,
/// which refuses every hash that `bytes_are_curve_point` accepts.
#[verifier::external_body]
fn find_program_address(seeds: &Vec<Vec<u8>>, program: &Address) -> (r: Option<(Address, u8)>)
    ensures
        match r {
            Some((a, bump)) => program_address_of(seeds_view(seeds), program@) == Some((a@, bump))
                && !on_curve(a@),
            None => program_address_of(seeds_view(seeds), program@) is None,
        },
{
    let parts: Vec<&[u8]> = seeds.iter().map(|s| s.as_slice()).collect();
    match Pubkey::try_find_program_address(&parts, &Pubkey::new_from_array(program.bytes)) {
        Some((a, bump)) => Some((Address { bytes: a.to_bytes() }, bump)),
        None => None,
    }
}

/// Relies on `Pubkey::is_on_curve`: whether the key decompresses to a curve point.
#[verifier::external_body]
fn pubkey_is_on_curve(a: &Address) -> (r: bool)
    ensures
        r == on_curve(a@),
{
    Pubkey::new_from_array(a.bytes).is_on_curve()
}

/// Relies on `Pubkey::from_str`: base58 decoding of a 32-byte key, a function of the text.
#[verifier::external_body]
fn parse_address(text: &str) -> (r: Option<Address>)
    ensures
        option_address_view(r) == pubkey_from_base58(text@),
{
    match <Pubkey as std::str::FromStr>::from_str(text) {
        Ok(p) => Some(Address { bytes: p.to_bytes() }),
        Err(_) => None,
    }
}

/// Relies on `solana_program::system_program::id()`, declared as the base58 text
/// of 32 zero bytes.
#[verifier::external_body]
pub fn system_program_address() -> (r: Address)
    ensures
        r@ == Seq::new(32, |i: int| 0u8),
{
    Address { bytes: solana_program::system_program::id().to_bytes() }
}

/// Derives the program-owned address for `seeds` under `program`, with its bump.
/// Fails with `Configuration` when no bump gives an off-curve address.
pub fn derive_address(seeds: &Vec<Vec<u8>>, program: &Address) -> (r: Result<(Address, u8), PrereqError>)
    ensures
        derive_view(r) == expected_derivation(seeds_view(seeds), program@),
        r matches Ok((a, _)) ==> !on_curve(a@),
{
    match find_program_address(seeds, program) {
        Some(found) => Ok(found),
        None => Err(PrereqError::Configuration),
    }
}

/// Whether `a` is program-owned, i.e. not a point of the curve.
pub fn is_program_owned(a: &Address) -> (r: bool)
    ensures
        r == !on_curve(a@),
{
    !pubkey_is_on_curve(a)
}

/// Two derivations from the same seeds and program give the same address and bump.
pub proof fn lemma_derive_deterministic(
    seeds: Seq<Seq<u8>>,
    program: Seq<u8>,
    r1: Result<(Address, u8), PrereqError>,
    r2: Result<(Address, u8), PrereqError>,
)
    requires
        derive_view(r1) == expected_derivation(seeds, program),
        derive_view(r2) == expected_derivation(seeds, program),
    ensures
        derive_view(r1) == derive_view(r2),
{
}

/// The program id, decoded from its base58 text.
pub fn get_program_id() -> (r: Result<Address, PrereqError>)
    ensures
        match pubkey_from_base58(PROGRAM_ID@) {
            Some(b) => r matches Ok(a) && a@ == b,
            None => r == Err::<Address, PrereqError>(PrereqError::Configuration),
        },
{
    match parse_address(PROGRAM_ID) {
        Some(a) => Ok(a),
        None => Err(PrereqError::Configuration),
    }
}

/// The seed that names enrollment accounts: the text `prereq`.
pub open spec fn prereq_seed() -> Seq<u8> {
    seq![112u8, 114u8, 101u8, 114u8, 101u8, 113u8]
}

/// The bytes of an address, as a vector.
fn address_bytes(a: &Address) -> (v: Vec<u8>)
    ensures
        v@ == a@,
{
    let mut v: Vec<u8> = Vec::new();
    let mut i: usize = 0;
    while i < 32
        invariant
            i <= 32,
            v@ == a@.subrange(0, i as int),
        decreases 32 - i,
    {
        v.push(a.bytes[i]);
        i = i + 1;
    }
    assert(a@.subrange(0, 32) =~= a@);
    v
}

/// The enrollment account of `signer`: derived from the seeds `prereq` and the
/// signer's bytes, under the program id.
pub fn derive_prereq_address(signer: &Address) -> (r: Result<(Address, u8), PrereqError>)
    ensures
        derive_view(r) == match pubkey_from_base58(PROGRAM_ID@) {
            Some(program) => expected_derivation(seq![prereq_seed(), signer@], program),
            None => Err(PrereqError::Configuration),
        },
        r matches Ok((a, _)) ==> !on_curve(a@),
{
    let program = match get_program_id() {
        Ok(p) => p,
        Err(e) => return Err(e),
    };
    let seed: Vec<u8> = vec![112u8, 114u8, 101u8, 114u8, 101u8, 113u8];
    let seeds: Vec<Vec<u8>> = vec![seed, address_bytes(signer)];
    assert(seeds_view(&seeds) =~= seq![prereq_seed(), signer@]);
    derive_address(&seeds, &program)
}

} // verus!
