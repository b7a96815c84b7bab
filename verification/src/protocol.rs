//! The computation lifecycle protocol.
//!
//! Enrollment stores an owner's encrypted template once; an authentication
//! request turns that template plus a fresh attempt into a uniquely-offset
//! request for the computation network, with the argument payload in the
//! circuit's fixed order; the callback handler verifies the result's origin
//! before decoding it, and drives each request through exactly one
//! transition, Pending to Verified or Aborted.
//!
//! Submission and callback are separate invocations with no shared memory:
//! everything crosses between them through this state, keyed by the
//! computation offset. The chain runtime around this core performs the
//! ledger writes, the queueing call and the cluster-signature check, and
//! hands their outcomes in as plain values.

use vstd::prelude::*;

use crate::arcium::ArgRef;
use crate::arcium::arg_builder_build;
use crate::arcium::arg_builder_encrypted_u64;
use crate::arcium::arg_builder_new;
use crate::arcium::arg_builder_plaintext_u128;
use crate::arcium::arg_builder_x25519_pubkey;
use crate::arcium::comp_def_offset;
use crate::arcium::comp_def_offset_of;
use crate::arcium::derive_pda;
use crate::arcium::list_arg_refs;
use crate::arcium::list_byte_arrays;
use crate::arcium::list_u128_values;
use crate::arcium::pda_of;

verus! {

/// A 32-byte account identity, held as plain bytes.
#[derive(Clone, Copy)]
pub struct Pubkey {
    pub bytes: [u8; 32],
}

impl View for Pubkey {
    type V = Seq<u8>;

    open spec fn view(&self) -> Seq<u8> {
        self.bytes@
    }
}

impl Pubkey {
    /// Byte-wise equality of two identities.
    pub fn eq_key(&self, other: &Pubkey) -> (r: bool)
        ensures
            r == (self@ == other@),
    {
        let mut i: usize = 0;
        while i < 32
            invariant
                i <= 32,
                forall|j: int| 0 <= j < i ==> self.bytes@[j] == other.bytes@[j],
            decreases 32 - i,
        {
            if self.bytes[i] != other.bytes[i] {
                return false;
            }
            i += 1;
        }
        proof {
            assert(self@ =~= other@);
        }
        true
    }
}

/// The protocol's error taxonomy. Validation errors are raised before a
/// request is submitted; the one trust error, `AbortedComputation`, is raised
/// while handling a callback whose signature check failed.
#[derive(Clone, Copy, PartialEq, Eq, Structural, Debug)]
pub enum ErrorCode {
    /// Callback signature verification failed; the request is aborted.
    AbortedComputation,
    /// The deployment's computation definition was never initialized.
    ClusterNotSet,
    /// The one-time configuration was already initialized.
    AlreadyInitialized,
    /// The owner already has a template; enrollment is create-once.
    AlreadyRegistered,
    /// No template is enrolled for the owner named by the request.
    ProfileNotFound,
    /// The computation offset was already used by an earlier request.
    OffsetAlreadyUsed,
    /// A callback arrived for an offset no request was queued under.
    UnknownOffset,
    /// A callback arrived for a request that already left Pending.
    RequestNotPending,
    /// No derivation proof exists for the owner (statistically improbable).
    DerivationFailed,
}

/// The durable enrollment record: the owner's identity, the enrolled
/// template (one 32-byte ciphertext per feature segment, order-preserving),
/// and the bump proving the record's identity derives from the owner.
/// Created once; never mutated afterwards.
#[derive(Clone, Copy)]
pub struct BiometricProfile {
    pub owner: Pubkey,
    pub encrypted_template: [[u8; 32]; 4],
    pub bump: u8,
}

/// The decoded outcome of a completed computation.
#[derive(Clone, Copy)]
pub struct VerifiedOutcome {
    pub match_score: u64,
    pub is_authenticated: bool,
}

/// Lifecycle of one request: Pending on submission, then exactly one
/// transition — Verified with the decoded outcome, or Aborted with nothing
/// decoded. Both outcomes are terminal.
#[derive(Clone, Copy)]
pub enum RequestStatus {
    Pending,
    Verified(VerifiedOutcome),
    Aborted,
}

/// The durable trace of one computation request, keyed by its offset.
#[derive(Clone, Copy)]
pub struct RequestRecord {
    pub offset: u64,
    pub user: Pubkey,
    pub status: RequestStatus,
}

/// The circuit's output bundle as the callback delivers it: the decision
/// re-encrypted under the requester's key, two ciphertext slots — the score,
/// then the 0/1 decision — each carrying a little-endian integer in its first
/// eight bytes.
pub struct VerifyBiometricOutput {
    pub encryption_key: [u8; 32],
    pub nonce: u128,
    pub ciphertexts: [[u8; 32]; 2],
}

/// The only externally durable artifact of a completed authentication.
#[derive(Clone, Copy)]
pub struct AuthEvent {
    pub user: Pubkey,
    pub success: bool,
    pub score: u64,
    pub timestamp: i64,
}

/// A request ready for the network's queue: its unique offset, the argument
/// payload in the circuit's fixed order, the callback binding pre-committed
/// to the same offset, the computation-definition binding of the matching
/// circuit, and the required execution-node count (one: a single node is
/// trusted for correctness, never for confidentiality).
pub struct ComputationRequest {
    pub offset: u64,
    pub args: arcium_anchor::prelude::ArgumentList,
    pub callback_offset: u64,
    pub comp_def: u32,
    pub node_count: u8,
}

/// One deployment's durable protocol state: the deployment identity, the
/// one-time circuit binding, the signer authority's derivation proof (lazily
/// initialized by the first successful request, a shared per-deployment
/// resource), the enrolled templates (at most one per owner), and the trace
/// of every request ever queued (offsets never repeat, so a completed offset
/// can never be reused).
pub struct BioAuthState {
    pub program_id: [u8; 32],
    pub comp_def: Option<u32>,
    pub signer_bump: Option<u8>,
    pub profiles: Vec<BiometricProfile>,
    pub requests: Vec<RequestRecord>,
}

/// The seed prefix, `b"bio_auth"`, under which template identities are
/// derived.
pub open spec fn spec_bio_seed() -> Seq<u8> {
    seq![98u8, 105u8, 111u8, 95u8, 97u8, 117u8, 116u8, 104u8]
}

/// The byte form of the seed prefix `b"bio_auth"`.
pub fn bio_seed() -> (r: [u8; 8])
    ensures
        r@ == spec_bio_seed(),
{
    let r: [u8; 8] = [98u8, 105u8, 111u8, 95u8, 97u8, 117u8, 116u8, 104u8];
    proof {
        assert(r@ =~= spec_bio_seed());
    }
    r
}

/// The seed, `b"ArciumSignerAccount"`, under which the deployment's signer
/// authority is derived (the second seed of the derivation stays empty).
pub open spec fn spec_signer_seed() -> Seq<u8> {
    seq![
        65u8, 114u8, 99u8, 105u8, 117u8, 109u8, 83u8, 105u8, 103u8, 110u8, 101u8, 114u8, 65u8,
        99u8, 99u8, 111u8, 117u8, 110u8, 116u8,
    ]
}

/// The byte form of the signer-authority seed `b"ArciumSignerAccount"`.
pub fn signer_seed() -> (r: [u8; 19])
    ensures
        r@ == spec_signer_seed(),
{
    let r: [u8; 19] = [
        65u8, 114u8, 99u8, 105u8, 117u8, 109u8, 83u8, 105u8, 103u8, 110u8, 101u8, 114u8, 65u8,
        99u8, 99u8, 111u8, 117u8, 110u8, 116u8,
    ];
    proof {
        assert(r@ =~= spec_signer_seed());
    }
    r
}

/// The bump seed of the deployment's signer authority (zero in the
/// underivable case, which request submission rejects).
pub open spec fn spec_signer_bump(program_id: Seq<u8>) -> u8 {
    match pda_of(spec_signer_seed(), Seq::<u8>::empty(), program_id) {
        Some(kb) => kb.1,
        None => 0,
    }
}

/// Name of the matching circuit, as the computation network knows it.
pub open spec fn spec_circuit_name() -> Seq<char> {
    "verify_biometric"@
}

/// Name of the matching circuit, as the computation network knows it.
pub fn circuit_name() -> (r: &'static str)
    ensures
        r@ == spec_circuit_name(),
{
    "verify_biometric"
}

/// The bump seed of the template identity derived for `owner` under
/// `program_id` (zero in the underivable case, which enrollment rejects).
pub open spec fn spec_bump_of(owner: Seq<u8>, program_id: Seq<u8>) -> u8 {
    match pda_of(spec_bio_seed(), owner, program_id) {
        Some(kb) => kb.1,
        None => 0,
    }
}

/// The ciphertext blocks of a template or attempt, in segment order.
pub open spec fn shares_view(shares: [[u8; 32]; 4]) -> Seq<Seq<u8>> {
    Seq::new(4, |i: int| shares@[i]@)
}

/// The argument references of a well-formed request payload: the
/// re-encryption key, the nonce, then the eight ciphertexts — the template's
/// four, then the attempt's four — in that fixed, circuit-defined order.
pub open spec fn spec_expected_arg_refs() -> Seq<ArgRef> {
    seq![
        ArgRef::X25519Pubkey(0),
        ArgRef::PlaintextU128(0),
        ArgRef::EncryptedU64(1),
        ArgRef::EncryptedU64(2),
        ArgRef::EncryptedU64(3),
        ArgRef::EncryptedU64(4),
        ArgRef::EncryptedU64(5),
        ArgRef::EncryptedU64(6),
        ArgRef::EncryptedU64(7),
        ArgRef::EncryptedU64(8),
    ]
}

impl BioAuthState {
    /// No two templates share an owner; no two requests share an offset.
    pub open spec fn well_formed(self) -> bool {
        &&& forall|i: int, j: int|
            0 <= i < j < self.profiles@.len() ==> self.profiles@[i].owner@
                != self.profiles@[j].owner@
        &&& forall|i: int, j: int|
            0 <= i < j < self.requests@.len() ==> self.requests@[i].offset
                != self.requests@[j].offset
    }

    /// Whether a template is enrolled for `owner`.
    pub open spec fn spec_has_profile(self, owner: Seq<u8>) -> bool {
        exists|i: int| 0 <= i < self.profiles@.len() && self.profiles@[i].owner@ == owner
    }

    /// Index of the template enrolled for `owner` (unique when the state is
    /// well-formed).
    pub open spec fn spec_profile_index(self, owner: Seq<u8>) -> int {
        choose|i: int| 0 <= i < self.profiles@.len() && self.profiles@[i].owner@ == owner
    }

    /// The template enrolled for `owner`.
    pub open spec fn spec_profile(self, owner: Seq<u8>) -> BiometricProfile {
        self.profiles@[self.spec_profile_index(owner)]
    }

    /// Whether `offset` was ever used by a queued request, pending or
    /// completed.
    pub open spec fn spec_offset_used(self, offset: u64) -> bool {
        exists|i: int| 0 <= i < self.requests@.len() && self.requests@[i].offset == offset
    }

    /// Index of the request queued under `offset` (unique when the state is
    /// well-formed).
    pub open spec fn spec_request_index(self, offset: u64) -> int {
        choose|i: int| 0 <= i < self.requests@.len() && self.requests@[i].offset == offset
    }

    /// A fresh deployment: nothing configured, nothing enrolled, nothing
    /// queued.
    pub fn new(program_id: [u8; 32]) -> (s: BioAuthState)
        ensures
            s.program_id == program_id,
            s.comp_def is None,
            s.signer_bump is None,
            s.profiles@ == Seq::<BiometricProfile>::empty(),
            s.requests@ == Seq::<RequestRecord>::empty(),
            s.well_formed(),
    {
        BioAuthState {
            program_id,
            comp_def: None,
            signer_bump: None,
            profiles: Vec::new(),
            requests: Vec::new(),
        }
    }

    fn find_profile(&self, owner: &Pubkey) -> (r: Option<usize>)
        ensures
            match r {
                Some(i) => i < self.profiles@.len() && self.profiles@[i as int].owner@ == owner@,
                None => !self.spec_has_profile(owner@),
            },
    {
        let mut i: usize = 0;
        while i < self.profiles.len()
            invariant
                i <= self.profiles@.len(),
                forall|j: int| 0 <= j < i ==> self.profiles@[j].owner@ != owner@,
            decreases self.profiles@.len() - i,
        {
            if self.profiles[i].owner.eq_key(owner) {
                return Some(i);
            }
            i += 1;
        }
        None
    }

    fn find_request(&self, offset: u64) -> (r: Option<usize>)
        ensures
            match r {
                Some(i) => i < self.requests@.len() && self.requests@[i as int].offset == offset,
                None => !self.spec_offset_used(offset),
            },
    {
        let mut i: usize = 0;
        while i < self.requests.len()
            invariant
                i <= self.requests@.len(),
                forall|j: int| 0 <= j < i ==> self.requests@[j].offset != offset,
            decreases self.requests@.len() - i,
        {
            if self.requests[i].offset == offset {
                return Some(i);
            }
            i += 1;
        }
        None
    }

    /// One-time configuration: derives and pins the computation-definition
    /// offset of the matching circuit. Initialize before first use, immutable
    /// thereafter: a second initialization is rejected and changes nothing.
    pub fn init_bio_config(&mut self) -> (r: Result<(), ErrorCode>)
        ensures
            final(self).program_id == old(self).program_id,
            final(self).signer_bump == old(self).signer_bump,
            final(self).profiles@ == old(self).profiles@,
            final(self).requests@ == old(self).requests@,
            match r {
                Ok(()) => old(self).comp_def is None && final(self).comp_def == Some(
                    comp_def_offset_of(spec_circuit_name()),
                ),
                Err(e) => e == ErrorCode::AlreadyInitialized && old(self).comp_def is Some
                    && *final(self) == *old(self),
            },
    {
        if self.comp_def.is_some() {
            return Err(ErrorCode::AlreadyInitialized);
        }
        let offset: u32 = comp_def_offset(circuit_name());
        self.comp_def = Some(offset);
        Ok(())
    }

    /// Enrollment: creates the owner's template record, bound to the identity
    /// deterministically derived from the owner, with the derivation's bump
    /// seed stored as proof. Create-once: an owner that already has a template
    /// is rejected, and nothing — in particular not the stored template —
    /// changes.
    pub fn register_biometrics(&mut self, owner: Pubkey, encrypted_features: [[u8; 32]; 4]) -> (r:
        Result<(), ErrorCode>)
        requires
            old(self).well_formed(),
        ensures
            final(self).well_formed(),
            final(self).program_id == old(self).program_id,
            final(self).comp_def == old(self).comp_def,
            final(self).signer_bump == old(self).signer_bump,
            final(self).requests@ == old(self).requests@,
            match r {
                Ok(()) => {
                    &&& !old(self).spec_has_profile(owner@)
                    &&& pda_of(spec_bio_seed(), owner@, old(self).program_id@) is Some
                    &&& final(self).profiles@ == old(self).profiles@.push(
                        BiometricProfile {
                            owner,
                            encrypted_template: encrypted_features,
                            bump: spec_bump_of(owner@, old(self).program_id@),
                        },
                    )
                },
                Err(e) => {
                    &&& *final(self) == *old(self)
                    &&& (e == ErrorCode::AlreadyRegistered ==> old(self).spec_has_profile(owner@))
                    &&& (e == ErrorCode::DerivationFailed ==> !old(self).spec_has_profile(owner@)
                        && pda_of(spec_bio_seed(), owner@, old(self).program_id@) is None)
                    &&& (e == ErrorCode::AlreadyRegistered || e == ErrorCode::DerivationFailed)
                },
            },
    {
        match self.find_profile(&owner) {
            Some(_) => {
                return Err(ErrorCode::AlreadyRegistered);
            },
            None => {},
        }
        let seed: [u8; 8] = bio_seed();
        let owner_bytes: [u8; 32] = owner.bytes;
        match derive_pda(seed.as_slice(), owner_bytes.as_slice(), &self.program_id) {
            None => Err(ErrorCode::DerivationFailed),
            Some((_, bump)) => {
                let profile = BiometricProfile { owner, encrypted_template: encrypted_features, bump };
                self.profiles.push(profile);
                proof {
                    assert forall|i: int, j: int|
                        0 <= i < j < self.profiles@.len() implies self.profiles@[i].owner@
                        != self.profiles@[j].owner@ by {
                        if j == self.profiles@.len() - 1 {
                            assert(self.profiles@[i] == old(self).profiles@[i]);
                        }
                    }
                }
                Ok(())
            },
        }
    }

    /// Queues an authentication request: validates that the deployment is
    /// configured, that the named owner has an enrolled template, and that
    /// the caller-chosen offset was never used before (a reused offset risks
    /// result confusion, so it is a rejected protocol violation, never a
    /// no-op). On success the argument payload carries, in the circuit's
    /// fixed order: the re-encryption key, the nonce, the template's four
    /// ciphertexts, then the attempt's four; the callback binding is
    /// committed to this same offset; and the request is recorded as Pending.
    /// No result is available until the callback fires.
    pub fn request_authentication(
        &mut self,
        computation_offset: u64,
        owner: &Pubkey,
        attempt_encrypted: [[u8; 32]; 4],
        pubkey: [u8; 32],
        nonce: u128,
    ) -> (r: Result<ComputationRequest, ErrorCode>)
        requires
            old(self).well_formed(),
        ensures
            final(self).well_formed(),
            final(self).program_id == old(self).program_id,
            final(self).comp_def == old(self).comp_def,
            final(self).profiles@ == old(self).profiles@,
            match r {
                Ok(req) => {
                    &&& old(self).comp_def == Some(req.comp_def)
                    &&& old(self).spec_has_profile(owner@)
                    &&& !old(self).spec_offset_used(computation_offset)
                    &&& pda_of(spec_signer_seed(), Seq::<u8>::empty(), old(self).program_id@)
                        is Some
                    &&& final(self).signer_bump == Some(spec_signer_bump(old(self).program_id@))
                    &&& req.offset == computation_offset
                    &&& req.callback_offset == computation_offset
                    &&& req.node_count == 1
                    &&& list_arg_refs(req.args) == spec_expected_arg_refs()
                    &&& list_byte_arrays(req.args) == seq![pubkey@] + shares_view(
                        old(self).spec_profile(owner@).encrypted_template,
                    ) + shares_view(attempt_encrypted)
                    &&& list_u128_values(req.args) == seq![nonce]
                    &&& final(self).requests@ == old(self).requests@.push(
                        RequestRecord {
                            offset: computation_offset,
                            user: *owner,
                            status: RequestStatus::Pending,
                        },
                    )
                },
                Err(e) => {
                    &&& *final(self) == *old(self)
                    &&& match e {
                        ErrorCode::ClusterNotSet => old(self).comp_def is None,
                        ErrorCode::ProfileNotFound => old(self).comp_def is Some && !old(
                            self,
                        ).spec_has_profile(owner@),
                        ErrorCode::OffsetAlreadyUsed => old(self).comp_def is Some && old(
                            self,
                        ).spec_has_profile(owner@) && old(self).spec_offset_used(
                            computation_offset,
                        ),
                        ErrorCode::DerivationFailed => old(self).comp_def is Some && old(
                            self,
                        ).spec_has_profile(owner@) && !old(self).spec_offset_used(
                            computation_offset,
                        ) && pda_of(spec_signer_seed(), Seq::<u8>::empty(), old(self).program_id@)
                            is None,
                        _ => false,
                    }
                },
            },
    {
        let comp_def: u32 = match self.comp_def {
            Some(c) => c,
            None => {
                return Err(ErrorCode::ClusterNotSet);
            },
        };
        let idx: usize = match self.find_profile(owner) {
            Some(i) => i,
            None => {
                return Err(ErrorCode::ProfileNotFound);
            },
        };
        match self.find_request(computation_offset) {
            Some(_) => {
                return Err(ErrorCode::OffsetAlreadyUsed);
            },
            None => {},
        }
        proof {
            let k = self.spec_profile_index(owner@);
            assert(self.spec_has_profile(owner@));
            assert(0 <= k < self.profiles@.len() && self.profiles@[k].owner@ == owner@);
            assert(k == idx as int);
        }
        // The signer authority is a shared per-deployment resource: lazily
        // derived on first use, and the same deterministic value thereafter.
        let sseed: [u8; 19] = signer_seed();
        let empty_seed: [u8; 0] = [];
        proof {
            assert(empty_seed@ =~= Seq::<u8>::empty());
        }
        let signer_bump: u8 = match derive_pda(
            sseed.as_slice(),
            empty_seed.as_slice(),
            &self.program_id,
        ) {
            Some((_, bump)) => bump,
            None => {
                return Err(ErrorCode::DerivationFailed);
            },
        };
        let template: [[u8; 32]; 4] = self.profiles[idx].encrypted_template;

        // The argument order is fixed and circuit-defined: reordering would
        // silently change which vector is the template and which the attempt.
        let b = arg_builder_new();
        let b = arg_builder_x25519_pubkey(b, pubkey);
        let b = arg_builder_plaintext_u128(b, nonce);
        let b = arg_builder_encrypted_u64(b, template[0]);
        let b = arg_builder_encrypted_u64(b, template[1]);
        let b = arg_builder_encrypted_u64(b, template[2]);
        let b = arg_builder_encrypted_u64(b, template[3]);
        let b = arg_builder_encrypted_u64(b, attempt_encrypted[0]);
        let b = arg_builder_encrypted_u64(b, attempt_encrypted[1]);
        let b = arg_builder_encrypted_u64(b, attempt_encrypted[2]);
        let b = arg_builder_encrypted_u64(b, attempt_encrypted[3]);
        let args = arg_builder_build(b);
        proof {
            assert(list_arg_refs(args) =~= spec_expected_arg_refs());
            assert(list_byte_arrays(args) =~= seq![pubkey@] + shares_view(template)
                + shares_view(attempt_encrypted));
            assert(list_u128_values(args) =~= seq![nonce]);
        }

        self.signer_bump = Some(signer_bump);
        self.requests.push(
            RequestRecord { offset: computation_offset, user: *owner, status: RequestStatus::Pending },
        );
        proof {
            assert forall|i: int, j: int|
                0 <= i < j < self.requests@.len() implies self.requests@[i].offset
                != self.requests@[j].offset by {
                if j == self.requests@.len() - 1 {
                    assert(self.requests@[i] == old(self).requests@[i]);
                }
            }
        }
        Ok(
            ComputationRequest {
                offset: computation_offset,
                args,
                callback_offset: computation_offset,
                comp_def,
                node_count: 1,
            },
        )
    }

    /// Handles the asynchronous result delivered for the request queued under
    /// `computation_offset`. `signature_valid` is the outcome of the
    /// cluster-signature check the surrounding runtime performs against the
    /// cluster identity and computation account bound at submission; it is
    /// the sole trust boundary, so nothing of the output is decoded, stored
    /// or emitted unless it is true. Each request transitions exactly once:
    /// to Verified with the decoded outcome, or to Aborted with nothing
    /// decoded. A callback for an unknown offset, or a second delivery for
    /// the same offset, is rejected and changes nothing — and a callback can
    /// only ever touch the one request queued under its own offset.
    pub fn verify_biometric_callback(
        &mut self,
        computation_offset: u64,
        output: &VerifyBiometricOutput,
        signature_valid: bool,
        timestamp: i64,
    ) -> (r: Result<AuthEvent, ErrorCode>)
        requires
            old(self).well_formed(),
        ensures
            final(self).well_formed(),
            final(self).program_id == old(self).program_id,
            final(self).comp_def == old(self).comp_def,
            final(self).signer_bump == old(self).signer_bump,
            final(self).profiles@ == old(self).profiles@,
            final(self).requests@.len() == old(self).requests@.len(),
            forall|i: int|
                0 <= i < old(self).requests@.len() && old(self).requests@[i].offset
                    != computation_offset ==> final(self).requests@[i] == old(self).requests@[i],
            match r {
                Ok(event) => {
                    let i = old(self).spec_request_index(computation_offset);
                    &&& signature_valid
                    &&& old(self).spec_offset_used(computation_offset)
                    &&& old(self).requests@[i].status is Pending
                    &&& event.user == old(self).requests@[i].user
                    &&& event.score == vstd::bytes::spec_u64_from_le_bytes(
                        output.ciphertexts@[0]@.subrange(0, 8),
                    )
                    &&& event.success == (vstd::bytes::spec_u64_from_le_bytes(
                        output.ciphertexts@[1]@.subrange(0, 8),
                    ) == 1)
                    &&& event.timestamp == timestamp
                    &&& final(self).requests@ == old(self).requests@.update(
                        i,
                        RequestRecord {
                            offset: computation_offset,
                            user: old(self).requests@[i].user,
                            status: RequestStatus::Verified(
                                VerifiedOutcome {
                                    match_score: event.score,
                                    is_authenticated: event.success,
                                },
                            ),
                        },
                    )
                },
                Err(e) => {
                    let i = old(self).spec_request_index(computation_offset);
                    match e {
                        ErrorCode::UnknownOffset => !old(self).spec_offset_used(computation_offset)
                            && *final(self) == *old(self),
                        ErrorCode::RequestNotPending => old(self).spec_offset_used(
                            computation_offset,
                        ) && !(old(self).requests@[i].status is Pending) && *final(self) == *old(
                            self,
                        ),
                        ErrorCode::AbortedComputation => {
                            &&& !signature_valid
                            &&& old(self).spec_offset_used(computation_offset)
                            &&& old(self).requests@[i].status is Pending
                            &&& final(self).requests@ == old(self).requests@.update(
                                i,
                                RequestRecord {
                                    offset: computation_offset,
                                    user: old(self).requests@[i].user,
                                    status: RequestStatus::Aborted,
                                },
                            )
                        },
                        _ => false,
                    }
                },
            },
    {
        let idx: usize = match self.find_request(computation_offset) {
            Some(i) => i,
            None => {
                return Err(ErrorCode::UnknownOffset);
            },
        };
        proof {
            let k = self.spec_request_index(computation_offset);
            assert(self.spec_offset_used(computation_offset));
            assert(0 <= k < self.requests@.len() && self.requests@[k].offset == computation_offset);
            assert(k == idx as int);
        }
        let is_pending: bool = match self.requests[idx].status {
            RequestStatus::Pending => true,
            _ => false,
        };
        if !is_pending {
            return Err(ErrorCode::RequestNotPending);
        }
        let user: Pubkey = self.requests[idx].user;
        if !signature_valid {
            // Trust error: mark the request terminal and decode nothing.
            self.requests[idx] = RequestRecord {
                offset: computation_offset,
                user,
                status: RequestStatus::Aborted,
            };
            return Err(ErrorCode::AbortedComputation);
        }
        // The signature check passed: only now may the output be decoded.
        let score: u64 = decode_le_u64(&output.ciphertexts[0]);
        let success: bool = decode_le_u64(&output.ciphertexts[1]) == 1;
        self.requests[idx] = RequestRecord {
            offset: computation_offset,
            user,
            status: RequestStatus::Verified(
                VerifiedOutcome { match_score: score, is_authenticated: success },
            ),
        };
        Ok(AuthEvent { user, success, score, timestamp })
    }
}

/// Reads the little-endian integer from the first eight bytes of a 32-byte
/// ciphertext slot.
pub fn decode_le_u64(block: &[u8; 32]) -> (r: u64)
    ensures
        r == vstd::bytes::spec_u64_from_le_bytes(block@.subrange(0, 8)),
{
    let s: &[u8] = block.as_slice();
    let prefix: &[u8] = vstd::slice::slice_subrange(s, 0, 8);
    vstd::bytes::u64_from_le_bytes(prefix)
}

} // verus!
