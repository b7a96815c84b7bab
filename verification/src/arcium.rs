//! Trusted bindings to the computation network's client crates.
//!
//! The protocol hands the network an `ArgumentList` assembled through
//! `arcium_anchor::ArgBuilder`, and derives its resource identities with
//! `arcium_anchor::comp_def_offset` and Solana's program-derived addresses.
//! Those calls are wrapped here; everything the contracts say about them is
//! what the crates' own sources show.

use vstd::prelude::*;

verus! {

#[verifier::external_type_specification]
#[verifier::external_body]
pub struct ExArgBuilder(arcium_anchor::ArgBuilder);

#[verifier::external_type_specification]
#[verifier::external_body]
pub struct ExArgumentList(arcium_anchor::prelude::ArgumentList);

/// Mirror of the argument references an `ArgumentList` holds, restricted to
/// the kinds this protocol submits. Each names the side collection it indexes
/// (byte arrays for the key and the ciphertexts, 128-bit values for the
/// nonce) and the position within it.
pub enum ArgRef {
    X25519Pubkey(u8),
    PlaintextU128(u8),
    EncryptedU64(u8),
}

/// The argument references a builder has accumulated, in submission order.
pub uninterp spec fn builder_arg_refs(b: arcium_anchor::ArgBuilder) -> Seq<ArgRef>;

/// The 32-byte blocks a builder has accumulated, in push order.
pub uninterp spec fn builder_byte_arrays(b: arcium_anchor::ArgBuilder) -> Seq<Seq<u8>>;

/// The 128-bit plaintext values a builder has accumulated, in push order.
pub uninterp spec fn builder_u128_values(b: arcium_anchor::ArgBuilder) -> Seq<u128>;

/// The argument references of a built list, in submission order.
pub uninterp spec fn list_arg_refs(l: arcium_anchor::prelude::ArgumentList) -> Seq<ArgRef>;

/// The 32-byte blocks of a built list, in push order.
pub uninterp spec fn list_byte_arrays(l: arcium_anchor::prelude::ArgumentList) -> Seq<Seq<u8>>;

/// The 128-bit plaintext values of a built list, in push order.
pub uninterp spec fn list_u128_values(l: arcium_anchor::prelude::ArgumentList) -> Seq<u128>;

/// Relies on arcium_anchor::ArgBuilder::new: the builder starts with every
/// collection empty.
#[verifier::external_body]
pub fn arg_builder_new() -> (b: arcium_anchor::ArgBuilder)
    ensures
        builder_arg_refs(b) == Seq::<ArgRef>::empty(),
        builder_byte_arrays(b) == Seq::<Seq<u8>>::empty(),
        builder_u128_values(b) == Seq::<u128>::empty(),
{
    arcium_anchor::ArgBuilder::new()
}

/// Relies on arcium_anchor::ArgBuilder::x25519_pubkey: appends an
/// X25519Pubkey reference naming the next byte-array slot and stores the key
/// there. It panics past 256 byte arrays; the precondition rules that out.
#[verifier::external_body]
pub fn arg_builder_x25519_pubkey(b: arcium_anchor::ArgBuilder, value: [u8; 32]) -> (r:
    arcium_anchor::ArgBuilder)
    requires
        builder_byte_arrays(b).len() < 256,
    ensures
        builder_arg_refs(r) == builder_arg_refs(b).push(
            ArgRef::X25519Pubkey(builder_byte_arrays(b).len() as u8),
        ),
        builder_byte_arrays(r) == builder_byte_arrays(b).push(value@),
        builder_u128_values(r) == builder_u128_values(b),
{
    b.x25519_pubkey(value)
}

/// Relies on arcium_anchor::ArgBuilder::plaintext_u128: appends a
/// PlaintextU128 reference naming the next 128-bit slot and stores the value
/// there. It panics past 256 such values; the precondition rules that out.
#[verifier::external_body]
pub fn arg_builder_plaintext_u128(b: arcium_anchor::ArgBuilder, value: u128) -> (r:
    arcium_anchor::ArgBuilder)
    requires
        builder_u128_values(b).len() < 256,
    ensures
        builder_arg_refs(r) == builder_arg_refs(b).push(
            ArgRef::PlaintextU128(builder_u128_values(b).len() as u8),
        ),
        builder_u128_values(r) == builder_u128_values(b).push(value),
        builder_byte_arrays(r) == builder_byte_arrays(b),
{
    b.plaintext_u128(value)
}

/// Relies on arcium_anchor::ArgBuilder::encrypted_u64: appends an
/// EncryptedU64 reference naming the next byte-array slot and stores the
/// ciphertext there. It panics past 256 byte arrays; the precondition rules
/// that out.
#[verifier::external_body]
pub fn arg_builder_encrypted_u64(b: arcium_anchor::ArgBuilder, value: [u8; 32]) -> (r:
    arcium_anchor::ArgBuilder)
    requires
        builder_byte_arrays(b).len() < 256,
    ensures
        builder_arg_refs(r) == builder_arg_refs(b).push(
            ArgRef::EncryptedU64(builder_byte_arrays(b).len() as u8),
        ),
        builder_byte_arrays(r) == builder_byte_arrays(b).push(value@),
        builder_u128_values(r) == builder_u128_values(b),
{
    b.encrypted_u64(value)
}

/// Relies on arcium_anchor::ArgBuilder::build: hands back the accumulated
/// argument list unchanged.
#[verifier::external_body]
pub fn arg_builder_build(b: arcium_anchor::ArgBuilder) -> (l:
    arcium_anchor::prelude::ArgumentList)
    ensures
        list_arg_refs(l) == builder_arg_refs(b),
        list_byte_arrays(l) == builder_byte_arrays(b),
        list_u128_values(l) == builder_u128_values(b),
{
    b.build()
}

/// The computation-definition offset the network derives from a circuit's
/// name: the first four bytes, little-endian, of the name's SHA-256 digest —
/// a function of the name alone.
pub uninterp spec fn comp_def_offset_of(circuit_name: Seq<char>) -> u32;

/// Relies on arcium_anchor::comp_def_offset: deterministic in the circuit
/// name; see `comp_def_offset_of`.
#[verifier::external_body]
pub fn comp_def_offset(circuit_name: &str) -> (r: u32)
    ensures
        r == comp_def_offset_of(circuit_name@),
{
    arcium_anchor::comp_def_offset(circuit_name)
}

/// The program-derived address and bump seed that Solana derives from two
/// seeds under a program id — a function of those inputs alone; None in the
/// statistically improbable case that no bump seed yields a valid off-curve
/// address. Solana hashes the seeds' concatenation, so an empty second seed
/// stands for a single-seed derivation.
pub uninterp spec fn pda_of(seed_a: Seq<u8>, seed_b: Seq<u8>, program_id: Seq<u8>) -> Option<
    (Seq<u8>, u8),
>;

/// Relies on Pubkey::try_find_program_address (solana-pubkey, re-exported by
/// anchor_lang's prelude): deterministic in the seeds and program id; see
/// `pda_of`.
#[verifier::external_body]
pub fn derive_pda(seed_a: &[u8], seed_b: &[u8], program_id: &[u8; 32]) -> (r: Option<
    ([u8; 32], u8),
>)
    ensures
        match r {
            Some(kb) => pda_of(seed_a@, seed_b@, program_id@) == Some((kb.0@, kb.1)),
            None => pda_of(seed_a@, seed_b@, program_id@) is None,
        },
{
    let program = anchor_lang::prelude::Pubkey::new_from_array(*program_id);
    anchor_lang::prelude::Pubkey::try_find_program_address(&[seed_a, seed_b], &program).map(
        |kb: (anchor_lang::prelude::Pubkey, u8)| (kb.0.to_bytes(), kb.1),
    )
}

} // verus!
