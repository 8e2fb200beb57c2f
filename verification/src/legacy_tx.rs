use vstd::prelude::*;
use vstd::string::*;

use crate::errors::{SubmitFailure, TxError};
use crate::instruction::{
    check_signers, copy_accounts, key_views, signers_cover, spec_keys_contain, AccountRef,
    Instruction,
};

verus! {

/// The SHA-256 digest of a byte string, named but not interpreted: the
/// verifier knows of it only that the same bytes always give the same digest.
pub uninterp spec fn sha256_of(bytes: Seq<u8>) -> Seq<u8>;

/// Relies on solana_sha256_hasher::hash: returns the 32-byte SHA-256 digest
/// of the input, a function of the input bytes alone.
#[verifier::external_body]
fn sha256(input: &[u8]) -> (r: [u8; 32])
    ensures
        r@ == sha256_of(input@),
{
    solana_sha256_hasher::hash(input).to_bytes()
}

/// The preimage a discriminant is derived from: the namespace, one colon,
/// and the method name, as UTF-8 bytes.
pub open spec fn discriminant_preimage(namespace: Seq<u8>, name: Seq<u8>) -> Seq<u8> {
    namespace + seq![58u8] + name
}

/// The 8-byte discriminant of a (namespace, name) pair: the first 8 bytes of
/// the SHA-256 digest of `namespace:name`.
pub open spec fn spec_discriminant(namespace: Seq<u8>, name: Seq<u8>) -> Seq<u8> {
    sha256_of(discriminant_preimage(namespace, name)).take(8)
}

/// The UTF-8 bytes behind a string's characters.
pub open spec fn utf8_bytes(s: Seq<char>) -> Seq<u8> {
    vstd::utf8::encode_utf8(s)
}

/// Returns the 8-byte selector that identifies a program entry point,
/// derived from a namespace and a method name.
pub fn get_discriminant(namespace: &str, name: &str) -> (r: [u8; 8])
    ensures
        r@ == spec_discriminant(namespace.spec_bytes(), name.spec_bytes()),
{
    let ns = namespace.as_bytes();
    let nm = name.as_bytes();
    let mut preimage: Vec<u8> = Vec::new();
    let mut i: usize = 0;
    while i < ns.len()
        invariant
            0 <= i <= ns@.len(),
            preimage@ =~= ns@.take(i as int),
        decreases ns@.len() - i,
    {
        preimage.push(ns[i]);
        i += 1;
    }
    // 58 is the colon that separates namespace from name
    preimage.push(58u8);
    let mut j: usize = 0;
    while j < nm.len()
        invariant
            0 <= j <= nm@.len(),
            preimage@ =~= ns@ + seq![58u8] + nm@.take(j as int),
        decreases nm@.len() - j,
    {
        preimage.push(nm[j]);
        j += 1;
    }
    assert(preimage@ =~= discriminant_preimage(namespace.spec_bytes(), name.spec_bytes()));
    let digest = sha256(preimage.as_slice());
    let r: [u8; 8] = [
        digest[0],
        digest[1],
        digest[2],
        digest[3],
        digest[4],
        digest[5],
        digest[6],
        digest[7],
    ];
    proof {
        assert(r@ =~= sha256_of(preimage@).take(8));
    }
    r
}

/// Deriving a discriminant twice from the same namespace and name gives the
/// same bytes: the derivation is a pure function of its inputs.
pub proof fn lemma_discriminant_deterministic(
    namespace: Seq<u8>,
    name: Seq<u8>,
    r1: Seq<u8>,
    r2: Seq<u8>,
)
    requires
        r1 == spec_discriminant(namespace, name),
        r2 == spec_discriminant(namespace, name),
    ensures
        r1 == r2,
{
}

/// Build the single instruction of a call: the method's discriminant under
/// the given namespace followed by the serialized argument payload, aimed at
/// `program_id` and touching `accounts`.
pub fn build_named_instruction(
    program_id: &[u8; 32],
    namespace: &str,
    instruction_name: &str,
    instruction_data: &Vec<u8>,
    accounts: &Vec<AccountRef>,
) -> (ix: Instruction)
    ensures
        ix.program_id@ == program_id@,
        ix.data@ == spec_discriminant(namespace.spec_bytes(), instruction_name.spec_bytes())
            + instruction_data@,
        ix.accounts@ == accounts@,
{
    let d = get_discriminant(namespace, instruction_name);
    let mut data: Vec<u8> = Vec::new();
    let mut i: usize = 0;
    while i < 8
        invariant
            0 <= i <= 8,
            data@ =~= d@.take(i as int),
        decreases 8 - i,
    {
        data.push(d[i]);
        i += 1;
    }
    let mut j: usize = 0;
    while j < instruction_data.len()
        invariant
            0 <= j <= instruction_data@.len(),
            data@ =~= d@ + instruction_data@.take(j as int),
        decreases instruction_data@.len() - j,
    {
        data.push(instruction_data[j]);
        j += 1;
    }
    assert(data@ =~= d@ + instruction_data@);
    Instruction { program_id: *program_id, data, accounts: copy_accounts(accounts) }
}

/// Everything a legacy submission needs besides the network: the target
/// program, the fee payer, the public keys behind the supplied signing key
/// pairs, the method name, its serialized argument payload, and the account
/// references of the single instruction.
pub struct CallRequest {
    pub program_id: [u8; 32],
    pub payer: [u8; 32],
    pub signer_keys: Vec<[u8; 32]>,
    pub instruction_name: String,
    pub instruction_data: Vec<u8>,
    pub accounts: Vec<AccountRef>,
}

/// Whether the supplied key pairs can fully sign the requested transaction:
/// the payer's key and every required signer's key is among them.
pub open spec fn spec_call_covered(req: CallRequest) -> bool {
    signers_cover(key_views(req.signer_keys@), req.payer@, req.accounts@)
}

/// The instruction data a request's call must carry: the discriminant of its
/// method name under the `"global"` namespace, then its argument payload.
pub open spec fn spec_call_data(req: CallRequest) -> Seq<u8> {
    spec_discriminant("global".spec_bytes(), utf8_bytes(req.instruction_name@))
        + req.instruction_data@
}

/// What a legacy submission asks its driver to do next.
pub enum LegacyAction {
    /// Fetch the latest blockhash from the network.
    FetchBlockhash,
    /// Wrap `instruction` in a single message with the request's payer under
    /// `blockhash`, sign it with all supplied key pairs, submit it, and wait
    /// for confirmation.
    SignAndSubmit { instruction: Instruction, blockhash: [u8; 32] },
    /// Nothing: the submission has finished.
    Stop,
}

/// Where a legacy submission stands.
pub enum LegacyState {
    AwaitingBlockhash,
    AwaitingSubmission,
    Done { signature: String },
    Failed { error: TxError },
}

/// What the driver observed for the step it was asked to perform.
pub enum LegacyEvent {
    BlockhashFetched(Result<[u8; 32], ()>),
    SubmissionFinished(Result<String, SubmitFailure>),
}

/// The taxonomy entry for a failed submission round trip.
pub open spec fn spec_submit_error(f: SubmitFailure) -> TxError {
    match f {
        SubmitFailure::Rejected => TxError::SubmissionRejected,
        SubmitFailure::Unconfirmed => TxError::ConfirmationTimeout,
    }
}

/// Begin a legacy submission. When the supplied key pairs cannot cover the
/// required signers it fails at once with `SigningFailed`; otherwise the
/// first step is to fetch the latest blockhash.
pub fn legacy_call_start(req: &CallRequest) -> (r: (LegacyState, LegacyAction))
    ensures
        spec_call_covered(*req) ==> r.0 is AwaitingBlockhash && r.1 is FetchBlockhash,
        !spec_call_covered(*req) ==> (r.0 matches LegacyState::Failed { error } && error
            == TxError::SigningFailed) && r.1 is Stop,
{
    if check_signers(&req.signer_keys, &req.payer, &req.accounts) {
        (LegacyState::AwaitingBlockhash, LegacyAction::FetchBlockhash)
    } else {
        ((LegacyState::Failed { error: TxError::SigningFailed }), LegacyAction::Stop)
    }
}

/// Advance a legacy submission by one observed event. The steps happen
/// strictly in order: the blockhash is fetched first, then the one
/// instruction is built, signed, and submitted in a single round trip, and
/// every failure short-circuits the submission with its taxonomy entry.
pub fn legacy_call_step(req: &CallRequest, state: LegacyState, event: LegacyEvent) -> (r: (
    LegacyState,
    LegacyAction,
))
    requires
        state is AwaitingBlockhash || state is AwaitingSubmission,
        state is AwaitingBlockhash ==> event is BlockhashFetched,
        state is AwaitingSubmission ==> event is SubmissionFinished,
    ensures
        state is AwaitingBlockhash ==> (event matches LegacyEvent::BlockhashFetched(Ok(h)) ==> r.0
            is AwaitingSubmission && (
        r.1 matches LegacyAction::SignAndSubmit { instruction, blockhash } && blockhash == h
            && instruction.program_id@ == req.program_id@ && instruction.data@ == spec_call_data(
            *req,
        ) && instruction.accounts@ == req.accounts@)),
        state is AwaitingBlockhash ==> (event matches LegacyEvent::BlockhashFetched(Err(_)) ==> (
        r.0 matches LegacyState::Failed { error } && error == TxError::NetworkUnavailable)
            && r.1 is Stop),
        state is AwaitingSubmission ==> (event matches LegacyEvent::SubmissionFinished(Ok(sig))
            ==> (r.0 matches LegacyState::Done { signature } && signature == sig) && r.1 is Stop),
        state is AwaitingSubmission ==> (event matches LegacyEvent::SubmissionFinished(Err(f)) ==> (
        r.0 matches LegacyState::Failed { error } && error == spec_submit_error(f)) && r.1 is Stop),
{
    match (state, event) {
        (LegacyState::AwaitingBlockhash, LegacyEvent::BlockhashFetched(res)) => match res {
            Ok(h) => {
                let ix = build_named_instruction(
                    &req.program_id,
                    "global",
                    req.instruction_name.as_str(),
                    &req.instruction_data,
                    &req.accounts,
                );
                (
                    LegacyState::AwaitingSubmission,
                    LegacyAction::SignAndSubmit { instruction: ix, blockhash: h },
                )
            },
            Err(_) => (
                (LegacyState::Failed { error: TxError::NetworkUnavailable }),
                LegacyAction::Stop,
            ),
        },
        (LegacyState::AwaitingSubmission, LegacyEvent::SubmissionFinished(res)) => match res {
            Ok(sig) => ((LegacyState::Done { signature: sig }), LegacyAction::Stop),
            Err(SubmitFailure::Rejected) => (
                (LegacyState::Failed { error: TxError::SubmissionRejected }),
                LegacyAction::Stop,
            ),
            Err(SubmitFailure::Unconfirmed) => (
                (LegacyState::Failed { error: TxError::ConfirmationTimeout }),
                LegacyAction::Stop,
            ),
        },
        _ => unreached(),
    }
}

/// A request that misses the key of some required signer is not covered,
/// however many other key pairs were supplied. A submission with uncovered
/// signers therefore fails with `SigningFailed` instead of producing a
/// transaction: a legacy one before anything is fetched, by the contract of
/// `legacy_call_start`, and a versioned one at its blockhash step, before
/// anything is compiled or signed, by the contract of `versioned_call_step`.
pub proof fn lemma_underprovided_request_fails(req: CallRequest, i: int)
    requires
        0 <= i < req.accounts@.len(),
        req.accounts@[i].is_signer,
        !spec_keys_contain(key_views(req.signer_keys@), req.accounts@[i].key@),
    ensures
        !spec_call_covered(req),
{
}

} // verus!
