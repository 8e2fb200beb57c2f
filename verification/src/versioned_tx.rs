use vstd::prelude::*;
use vstd::string::*;

use crate::errors::{FetchFailure, SignFailure, SubmitFailure, TxError};
use crate::instruction::{
    check_signers, key_eq, key_views, keys_contain, signers_cover, spec_keys_contain, AccountRef,
    Instruction,
};
use crate::legacy_tx::{
    build_named_instruction, spec_call_covered, spec_call_data, spec_submit_error, CallRequest,
};

verus! {

/// The library's view of an address lookup table: the table account's own
/// key and the addresses it holds, in order. A table is created empty and
/// extended additively; this code never shrinks or compacts one.
pub struct LookupTable {
    pub key: [u8; 32],
    pub addresses: Vec<[u8; 32]>,
}

impl LookupTable {
    /// A new, empty table under `key`.
    pub fn new(key: [u8; 32]) -> (t: LookupTable)
        ensures
            t.key@ == key@,
            t.addresses@.len() == 0,
    {
        LookupTable { key, addresses: Vec::new() }
    }

    /// Append `new_addresses` to the table, keeping every address already
    /// present, in its old position.
    pub fn extend(&mut self, new_addresses: &Vec<[u8; 32]>)
        ensures
            final(self).key == old(self).key,
            final(self).addresses@ == old(self).addresses@ + new_addresses@,
    {
        let mut i: usize = 0;
        while i < new_addresses.len()
            invariant
                0 <= i <= new_addresses@.len(),
                self.key == old(self).key,
                self.addresses@ =~= old(self).addresses@ + new_addresses@.take(i as int),
            decreases new_addresses@.len() - i,
        {
            self.addresses.push(new_addresses[i]);
            i += 1;
        }
        assert(self.addresses@ =~= old(self).addresses@ + new_addresses@);
    }

    /// Whether the table holds `k`.
    pub fn contains(&self, k: &[u8; 32]) -> (r: bool)
        ensures
            r == spec_keys_contain(key_views(self.addresses@), k@),
    {
        keys_contain(&self.addresses, k)
    }

    /// The first position at which the table holds `k`, if any: the short
    /// index by which a versioned message refers to that address.
    pub fn position_of(&self, k: &[u8; 32]) -> (r: Option<usize>)
        ensures
            r matches Some(i) ==> i < self.addresses@.len() && self.addresses@[i as int]@ == k@ && (
            forall|j: int| 0 <= j < i ==> key_views(self.addresses@)[j] != k@),
            r is None ==> !spec_keys_contain(key_views(self.addresses@), k@),
    {
        let mut i: usize = 0;
        while i < self.addresses.len()
            invariant
                0 <= i <= self.addresses@.len(),
                forall|j: int| 0 <= j < i ==> key_views(self.addresses@)[j] != k@,
            decreases self.addresses@.len() - i,
        {
            if key_eq(&self.addresses[i], k) {
                assert(self.addresses@[i as int]@ == k@);
                return Some(i);
            }
            i += 1;
        }
        None
    }
}

/// Extending a table makes each of the appended addresses present in it.
pub proof fn lemma_extend_then_contains(before: Seq<[u8; 32]>, added: Seq<[u8; 32]>, i: int)
    requires
        0 <= i < added.len(),
    ensures
        spec_keys_contain(key_views(before + added), added[i]@),
{
    assert(key_views(before + added)[before.len() + i] == added[i]@);
}

/// Extending a table keeps every address that was present before.
pub proof fn lemma_extend_preserves(before: Seq<[u8; 32]>, added: Seq<[u8; 32]>, k: Seq<u8>)
    requires
        spec_keys_contain(key_views(before), k),
    ensures
        spec_keys_contain(key_views(before + added), k),
{
    let i = choose|i: int| 0 <= i < key_views(before).len() && key_views(before)[i] == k;
    assert(key_views(before + added)[i] == k);
}

/// Whether every address in `new_addresses` is present in the table: the
/// independent re-check that tells an applied extension apart from a mere
/// confirmation failure.
pub fn extension_applied(table: &LookupTable, new_addresses: &Vec<[u8; 32]>) -> (r: bool)
    ensures
        r == (forall|i: int|
            0 <= i < new_addresses@.len() ==> spec_keys_contain(
                key_views(table.addresses@),
                (#[trigger] new_addresses@[i])@,
            )),
{
    let mut i: usize = 0;
    while i < new_addresses.len()
        invariant
            0 <= i <= new_addresses@.len(),
            forall|j: int|
                0 <= j < i ==> spec_keys_contain(
                    key_views(table.addresses@),
                    (#[trigger] new_addresses@[j])@,
                ),
        decreases new_addresses@.len() - i,
    {
        if !table.contains(&new_addresses[i]) {
            return false;
        }
        i += 1;
    }
    true
}

/// Whether an account's raw data parses as an initialized address lookup
/// table, named but not interpreted.
pub uninterp spec fn table_data_parses(data: Seq<u8>) -> bool;

/// The 32-byte address entries serialized after the 56-byte metadata header
/// of a lookup table account.
pub open spec fn spec_table_entries(data: Seq<u8>) -> Seq<Seq<u8>> {
    if data.len() < 56 {
        Seq::empty()
    } else {
        Seq::new(
            (((data.len() - 56) / 32) as nat),
            |i: int| data.subrange(56 + 32 * i, 88 + 32 * i),
        )
    }
}

/// Relies on AddressLookupTable::deserialize of
/// solana-address-lookup-table-interface: account data parses exactly when
/// its metadata header deserializes to an initialized lookup table and the
/// remainder splits into 32-byte entries; on success the returned keys are
/// exactly the 32-byte chunks after the 56-byte header, in order.
#[verifier::external_body]
fn parse_table_data(data: &Vec<u8>) -> (r: Option<Vec<[u8; 32]>>)
    ensures
        r is Some <==> table_data_parses(data@),
        r matches Some(keys) ==> data@.len() >= 56 && (data@.len() - 56) % 32 == 0 && key_views(
            keys@,
        ) == spec_table_entries(data@),
{
    match solana_address_lookup_table_interface::state::AddressLookupTable::deserialize(data) {
        Ok(t) => Some(t.addresses.iter().map(|p| p.to_bytes()).collect()),
        Err(_) => None,
    }
}

/// The system program's fixed address: thirty-two zero bytes.
pub open spec fn spec_system_program_key() -> Seq<u8> {
    Seq::new(32, |i: int| 0u8)
}

/// The table address the lookup-table program derives from an authority and
/// a recent slot, named but not interpreted: the same authority and slot
/// always give the same address.
pub uninterp spec fn table_address_of(authority: Seq<u8>, recent_slot: u64) -> Seq<u8>;

/// The serialized data of a create-lookup-table instruction: a function of
/// the authority (through the derived bump seed) and the slot alone.
pub uninterp spec fn create_table_data_of(authority: Seq<u8>, recent_slot: u64) -> Seq<u8>;

/// The serialized data of an extend-lookup-table instruction: a function of
/// the appended addresses alone.
pub uninterp spec fn extend_table_data_of(new_addresses: Seq<Seq<u8>>) -> Seq<u8>;

/// Relies on create_lookup_table of solana-address-lookup-table-interface:
/// it derives the table address from (authority, recent_slot) and builds a
/// creation instruction whose four accounts are exactly the derived table
/// (writable), the authority (readonly, no signature required), the payer
/// (writable signer), and the system program (readonly).
#[verifier::external_body]
fn build_create_table_instruction(authority: &[u8; 32], payer: &[u8; 32], recent_slot: u64) -> (r:
    (Instruction, [u8; 32]))
    ensures
        r.1@ == table_address_of(authority@, recent_slot),
        r.0.data@ == create_table_data_of(authority@, recent_slot),
        r.0.accounts@.len() == 4,
        r.0.accounts@[0].key@ == table_address_of(authority@, recent_slot) && r.0.accounts@[0].is_writable && !r.0.accounts@[0].is_signer,
        r.0.accounts@[1].key@ == authority@ && !r.0.accounts@[1].is_writable && !r.0.accounts@[1].is_signer,
        r.0.accounts@[2].key@ == payer@ && r.0.accounts@[2].is_writable && r.0.accounts@[2].is_signer,
        r.0.accounts@[3].key@ == spec_system_program_key() && !r.0.accounts@[3].is_writable && !r.0.accounts@[3].is_signer,
{
    let (ix, table) = solana_address_lookup_table_interface::instruction::create_lookup_table(
        solana_pubkey::Pubkey::new_from_array(*authority),
        solana_pubkey::Pubkey::new_from_array(*payer),
        recent_slot,
    );
    let accounts = ix.accounts.iter().map(
        |m| AccountRef { key: m.pubkey.to_bytes(), is_signer: m.is_signer, is_writable: m.is_writable },
    ).collect();
    (Instruction { program_id: ix.program_id.to_bytes(), data: ix.data, accounts }, table.to_bytes())
}

/// Relies on extend_lookup_table of solana-address-lookup-table-interface
/// (with a funding payer): the instruction's four accounts are exactly the
/// table (writable), the authority (readonly signer), the payer (writable
/// signer), and the system program (readonly), and its data serializes the
/// appended addresses.
#[verifier::external_body]
fn build_extend_table_instruction(
    table_key: &[u8; 32],
    authority: &[u8; 32],
    payer: &[u8; 32],
    new_addresses: &Vec<[u8; 32]>,
) -> (r: Instruction)
    ensures
        r.data@ == extend_table_data_of(key_views(new_addresses@)),
        r.accounts@.len() == 4,
        r.accounts@[0].key@ == table_key@ && r.accounts@[0].is_writable && !r.accounts@[0].is_signer,
        r.accounts@[1].key@ == authority@ && !r.accounts@[1].is_writable && r.accounts@[1].is_signer,
        r.accounts@[2].key@ == payer@ && r.accounts@[2].is_writable && r.accounts@[2].is_signer,
        r.accounts@[3].key@ == spec_system_program_key() && !r.accounts@[3].is_writable && !r.accounts@[3].is_signer,
{
    let ix = solana_address_lookup_table_interface::instruction::extend_lookup_table(
        solana_pubkey::Pubkey::new_from_array(*table_key),
        solana_pubkey::Pubkey::new_from_array(*authority),
        Some(solana_pubkey::Pubkey::new_from_array(*payer)),
        new_addresses.iter().map(|k| solana_pubkey::Pubkey::new_from_array(*k)).collect(),
    );
    let accounts = ix.accounts.iter().map(
        |m| AccountRef { key: m.pubkey.to_bytes(), is_signer: m.is_signer, is_writable: m.is_writable },
    ).collect();
    Instruction { program_id: ix.program_id.to_bytes(), data: ix.data, accounts }
}

/// The standard base64 text, with padding, of a byte string, named but not
/// interpreted: a function of the bytes alone.
pub uninterp spec fn base64_of(bytes: Seq<u8>) -> Seq<char>;

/// Relies on the STANDARD engine of the base64 crate: encodes bytes with the
/// standard alphabet and padding, a function of the input bytes alone.
#[verifier::external_body]
fn base64_encode(bytes: &Vec<u8>) -> (r: String)
    ensures
        r@ == base64_of(bytes@),
{
    base64::Engine::encode(&base64::engine::general_purpose::STANDARD, bytes)
}

/// A versioned submission's inputs: a plain call plus the key of the lookup
/// table the message is compiled against.
pub struct LookupCallRequest {
    pub call: CallRequest,
    pub lookup_table_key: [u8; 32],
}

/// What a versioned submission asks its driver to do next.
pub enum VersionedAction {
    /// Fetch the raw account data stored under the lookup table's key.
    FetchLookupTable { key: [u8; 32] },
    /// Fetch the latest blockhash.
    FetchBlockhash,
    /// Compile `instruction` against `table` into a versioned message under
    /// `blockhash` (replacing any account present in the table by its short
    /// index), sign it with all supplied key pairs, and serialize the signed
    /// transaction to its canonical bytes.
    CompileAndSign { instruction: Instruction, table: LookupTable, blockhash: [u8; 32] },
    /// Submit the base64-encoded transaction through a raw send request,
    /// with preflight enabled at confirmed commitment.
    Submit { encoded_transaction: String },
    /// Wait until the transaction with this signature reaches finalized
    /// commitment.
    AwaitFinalized { signature: String },
    /// Nothing: the submission has finished.
    Stop,
}

/// Where a versioned submission stands.
pub enum VersionedState {
    AwaitingTable,
    AwaitingBlockhash { addresses: Vec<[u8; 32]> },
    AwaitingSignedTransaction,
    AwaitingSubmission,
    AwaitingConfirmation { signature: String },
    Done { signature: String },
    Failed { error: TxError },
}

/// What the driver observed for the step it was asked to perform.
pub enum VersionedEvent {
    TableFetched(Result<Vec<u8>, FetchFailure>),
    BlockhashFetched(Result<[u8; 32], ()>),
    TransactionSigned(Result<Vec<u8>, SignFailure>),
    SubmissionFinished(Result<String, ()>),
    ConfirmationFinished(bool),
}

/// The taxonomy entry for a failed fetch.
pub open spec fn spec_fetch_error(f: FetchFailure) -> TxError {
    match f {
        FetchFailure::NotFound => TxError::AccountNotFound,
        FetchFailure::Network => TxError::NetworkUnavailable,
    }
}

/// The taxonomy entry for a failed compile-and-sign.
pub open spec fn spec_sign_error(f: SignFailure) -> TxError {
    match f {
        SignFailure::Compile => TxError::SerializationFailed,
        SignFailure::Sign => TxError::SigningFailed,
    }
}

/// Whether a versioned step's result reports exactly the failure `e` and
/// asks for nothing more.
pub open spec fn spec_versioned_failed(r: (VersionedState, VersionedAction), e: TxError) -> bool {
    (r.0 matches VersionedState::Failed { error } && error == e) && r.1 is Stop
}

/// Begin a versioned submission: the first step fetches the lookup table's
/// account, before any instruction is built.
pub fn versioned_call_start(req: &LookupCallRequest) -> (r: (VersionedState, VersionedAction))
    ensures
        r.0 is AwaitingTable,
        r.1 matches VersionedAction::FetchLookupTable { key } && key == req.lookup_table_key,
{
    (
        VersionedState::AwaitingTable,
        VersionedAction::FetchLookupTable { key: req.lookup_table_key },
    )
}

/// Advance a versioned submission by one observed event. The steps happen
/// strictly in order: the lookup table account is fetched and parsed before
/// anything is built, then the blockhash, then one compile-and-sign, one raw
/// submission, and one wait for finalized confirmation; every failure
/// short-circuits the submission with its taxonomy entry. In particular a
/// submission whose lookup table account does not exist fails with
/// `AccountNotFound` at the first step, before any instruction exists.
pub fn versioned_call_step(
    req: &LookupCallRequest,
    state: VersionedState,
    event: VersionedEvent,
) -> (r: (VersionedState, VersionedAction))
    requires
        !(state is Done) && !(state is Failed),
        state is AwaitingTable ==> event is TableFetched,
        state is AwaitingBlockhash ==> event is BlockhashFetched,
        state is AwaitingSignedTransaction ==> event is TransactionSigned,
        state is AwaitingSubmission ==> event is SubmissionFinished,
        state is AwaitingConfirmation ==> event is ConfirmationFinished,
    ensures
        state is AwaitingTable ==> (event matches VersionedEvent::TableFetched(Ok(data)) ==> (
        table_data_parses(data@) ==> (r.0 matches VersionedState::AwaitingBlockhash { addresses }
            && key_views(addresses@) == spec_table_entries(data@)) && r.1 is FetchBlockhash) && (
        !table_data_parses(data@) ==> spec_versioned_failed(r, TxError::SerializationFailed))),
        state is AwaitingTable ==> (event matches VersionedEvent::TableFetched(Err(f))
            ==> spec_versioned_failed(r, spec_fetch_error(f))),
        state matches VersionedState::AwaitingBlockhash { addresses } ==> (
        event matches VersionedEvent::BlockhashFetched(Ok(h)) ==> (spec_call_covered(req.call)
            ==> r.0 is AwaitingSignedTransaction && (
        r.1 matches VersionedAction::CompileAndSign { instruction, table, blockhash } && blockhash
            == h && instruction.program_id@ == req.call.program_id@ && instruction.data@
            == spec_call_data(req.call) && instruction.accounts@ == req.call.accounts@ && table.key
            == req.lookup_table_key && table.addresses@ == addresses@)) && (!spec_call_covered(
            req.call,
        ) ==> spec_versioned_failed(r, TxError::SigningFailed))),
        state is AwaitingBlockhash ==> (event matches VersionedEvent::BlockhashFetched(Err(_))
            ==> spec_versioned_failed(r, TxError::NetworkUnavailable)),
        state is AwaitingSignedTransaction ==> (event matches VersionedEvent::TransactionSigned(
            Ok(tx_bytes),
        ) ==> r.0 is AwaitingSubmission && (
        r.1 matches VersionedAction::Submit { encoded_transaction } && encoded_transaction@
            == base64_of(tx_bytes@))),
        state is AwaitingSignedTransaction ==> (event matches VersionedEvent::TransactionSigned(
            Err(f),
        ) ==> spec_versioned_failed(r, spec_sign_error(f))),
        state is AwaitingSubmission ==> (event matches VersionedEvent::SubmissionFinished(Ok(sig))
            ==> (r.0 matches VersionedState::AwaitingConfirmation { signature } && signature == sig)
            && (r.1 matches VersionedAction::AwaitFinalized { signature } && signature == sig)),
        state is AwaitingSubmission ==> (event matches VersionedEvent::SubmissionFinished(Err(_))
            ==> spec_versioned_failed(r, TxError::SubmissionRejected)),
        state matches VersionedState::AwaitingConfirmation { signature } ==> (
        event matches VersionedEvent::ConfirmationFinished(c) ==> (c ==> (
        r.0 matches VersionedState::Done { signature: s } && s == signature) && r.1 is Stop) && (!c
            ==> spec_versioned_failed(r, TxError::ConfirmationTimeout))),
{
    match (state, event) {
        (VersionedState::AwaitingTable, VersionedEvent::TableFetched(res)) => match res {
            Ok(data) => match parse_table_data(&data) {
                Some(addresses) => (
                    VersionedState::AwaitingBlockhash { addresses },
                    VersionedAction::FetchBlockhash,
                ),
                None => (
                    (VersionedState::Failed { error: TxError::SerializationFailed }),
                    VersionedAction::Stop,
                ),
            },
            Err(FetchFailure::NotFound) => (
                (VersionedState::Failed { error: TxError::AccountNotFound }),
                VersionedAction::Stop,
            ),
            Err(FetchFailure::Network) => (
                (VersionedState::Failed { error: TxError::NetworkUnavailable }),
                VersionedAction::Stop,
            ),
        },
        (VersionedState::AwaitingBlockhash { addresses }, VersionedEvent::BlockhashFetched(
            res,
        )) => match res {
            Ok(h) => {
                if check_signers(&req.call.signer_keys, &req.call.payer, &req.call.accounts) {
                    let ix = build_named_instruction(
                        &req.call.program_id,
                        "global",
                        req.call.instruction_name.as_str(),
                        &req.call.instruction_data,
                        &req.call.accounts,
                    );
                    let table = LookupTable { key: req.lookup_table_key, addresses };
                    (
                        VersionedState::AwaitingSignedTransaction,
                        VersionedAction::CompileAndSign { instruction: ix, table, blockhash: h },
                    )
                } else {
                    (
                        (VersionedState::Failed { error: TxError::SigningFailed }),
                        VersionedAction::Stop,
                    )
                }
            },
            Err(_) => (
                (VersionedState::Failed { error: TxError::NetworkUnavailable }),
                VersionedAction::Stop,
            ),
        },
        (VersionedState::AwaitingSignedTransaction, VersionedEvent::TransactionSigned(res)) => match res {
            Ok(tx_bytes) => {
                let encoded = base64_encode(&tx_bytes);
                (
                    VersionedState::AwaitingSubmission,
                    VersionedAction::Submit { encoded_transaction: encoded },
                )
            },
            Err(SignFailure::Compile) => (
                (VersionedState::Failed { error: TxError::SerializationFailed }),
                VersionedAction::Stop,
            ),
            Err(SignFailure::Sign) => (
                (VersionedState::Failed { error: TxError::SigningFailed }),
                VersionedAction::Stop,
            ),
        },
        (VersionedState::AwaitingSubmission, VersionedEvent::SubmissionFinished(res)) => match res {
            Ok(sig) => {
                let sig_again = sig.clone();
                (
                    VersionedState::AwaitingConfirmation { signature: sig },
                    VersionedAction::AwaitFinalized { signature: sig_again },
                )
            },
            Err(_) => (
                (VersionedState::Failed { error: TxError::SubmissionRejected }),
                VersionedAction::Stop,
            ),
        },
        (VersionedState::AwaitingConfirmation { signature }, VersionedEvent::ConfirmationFinished(
            c,
        )) => {
            if c {
                ((VersionedState::Done { signature }), VersionedAction::Stop)
            } else {
                (
                    (VersionedState::Failed { error: TxError::ConfirmationTimeout }),
                    VersionedAction::Stop,
                )
            }
        },
        _ => unreached(),
    }
}

/// What creating a lookup table asks its driver to do next.
pub enum CreateTableAction {
    /// Fetch the current slot from the network.
    FetchSlot,
    /// Sign `instruction` in a single message paid and signed by the payer,
    /// submit it, and wait for confirmation.
    SignAndSubmit { instruction: Instruction },
    /// Nothing: the operation has finished.
    Stop,
}

/// Where creating a lookup table stands.
pub enum CreateTableState {
    AwaitingSlot,
    AwaitingSubmission { table_key: [u8; 32] },
    Done { table_key: [u8; 32] },
    Failed { error: TxError },
}

/// What the driver observed for the step it was asked to perform.
pub enum CreateTableEvent {
    SlotFetched(Result<u64, ()>),
    SubmissionFinished(Result<String, SubmitFailure>),
}

/// Whether a create step's result reports exactly the failure `e` and asks
/// for nothing more.
pub open spec fn spec_create_failed(r: (CreateTableState, CreateTableAction), e: TxError) -> bool {
    (r.0 matches CreateTableState::Failed { error } && error == e) && r.1 is Stop
}

/// Begin creating a lookup table, with the payer as its authority and its
/// funder: the first step fetches the current slot, which the new table's
/// address is derived from.
pub fn create_table_start() -> (r: (CreateTableState, CreateTableAction))
    ensures
        r.0 is AwaitingSlot && r.1 is FetchSlot,
{
    (CreateTableState::AwaitingSlot, CreateTableAction::FetchSlot)
}

/// Advance the creation of a lookup table by one observed event. Once the
/// slot is known, the creation instruction is built, and the payer's own
/// signature covers every signer it requires; the table key reported on
/// success is exactly the one derived from (payer, slot).
pub fn create_table_step(payer: &[u8; 32], state: CreateTableState, event: CreateTableEvent) -> (r:
    (CreateTableState, CreateTableAction))
    requires
        state is AwaitingSlot || state is AwaitingSubmission,
        state is AwaitingSlot ==> event is SlotFetched,
        state is AwaitingSubmission ==> event is SubmissionFinished,
    ensures
        state is AwaitingSlot ==> (event matches CreateTableEvent::SlotFetched(Ok(slot)) ==> (
        r.0 matches CreateTableState::AwaitingSubmission { table_key } && table_key@
            == table_address_of(payer@, slot)) && (
        r.1 matches CreateTableAction::SignAndSubmit { instruction } && instruction.data@
            == create_table_data_of(payer@, slot) && instruction.accounts@.len() == 4
            && instruction.accounts@[0].key@ == table_address_of(payer@, slot) && signers_cover(
            seq![payer@],
            payer@,
            instruction.accounts@,
        ))),
        state is AwaitingSlot ==> (event matches CreateTableEvent::SlotFetched(Err(_))
            ==> spec_create_failed(r, TxError::NetworkUnavailable)),
        state matches CreateTableState::AwaitingSubmission { table_key } ==> (
        event matches CreateTableEvent::SubmissionFinished(Ok(_)) ==> (
        r.0 matches CreateTableState::Done { table_key: k } && k == table_key) && r.1 is Stop),
        state is AwaitingSubmission ==> (event matches CreateTableEvent::SubmissionFinished(Err(f))
            ==> spec_create_failed(r, spec_submit_error(f))),
{
    match (state, event) {
        (CreateTableState::AwaitingSlot, CreateTableEvent::SlotFetched(res)) => match res {
            Ok(slot) => {
                let (ix, table_key) = build_create_table_instruction(payer, payer, slot);
                proof {
                    assert(seq![payer@][0] == payer@);
                }
                (
                    CreateTableState::AwaitingSubmission { table_key },
                    CreateTableAction::SignAndSubmit { instruction: ix },
                )
            },
            Err(_) => (
                (CreateTableState::Failed { error: TxError::NetworkUnavailable }),
                CreateTableAction::Stop,
            ),
        },
        (CreateTableState::AwaitingSubmission { table_key }, CreateTableEvent::SubmissionFinished(
            res,
        )) => match res {
            Ok(_) => ((CreateTableState::Done { table_key }), CreateTableAction::Stop),
            Err(SubmitFailure::Rejected) => (
                (CreateTableState::Failed { error: TxError::SubmissionRejected }),
                CreateTableAction::Stop,
            ),
            Err(SubmitFailure::Unconfirmed) => (
                (CreateTableState::Failed { error: TxError::ConfirmationTimeout }),
                CreateTableAction::Stop,
            ),
        },
        _ => unreached(),
    }
}

/// Extending a lookup table: the payer (also the table's authority) funds a
/// single extend instruction carrying the new addresses.
pub struct ExtendTableRequest {
    pub payer: [u8; 32],
    pub table_key: [u8; 32],
    pub new_addresses: Vec<[u8; 32]>,
}

/// What extending a lookup table asks its driver to do next.
pub enum ExtendTableAction {
    /// Sign `instruction` in a single message paid and signed by the payer,
    /// submit it, and wait for confirmation.
    SignAndSubmit { instruction: Instruction },
    /// Check that the transaction with this signature reached confirmed
    /// commitment.
    AwaitConfirmed { signature: String },
    /// Nothing: the operation has finished.
    Stop,
}

/// Where extending a lookup table stands.
pub enum ExtendTableState {
    AwaitingSubmission,
    AwaitingConfirmation,
    Done,
    Failed { error: TxError },
}

/// What the driver observed for the step it was asked to perform.
pub enum ExtendTableEvent {
    SubmissionFinished(Result<String, SubmitFailure>),
    ConfirmationFinished(bool),
}

/// Whether an extend step's result reports exactly the failure `e` and asks
/// for nothing more.
pub open spec fn spec_extend_failed(r: (ExtendTableState, ExtendTableAction), e: TxError) -> bool {
    (r.0 matches ExtendTableState::Failed { error } && error == e) && r.1 is Stop
}

/// Begin extending a lookup table: the extend instruction carries exactly
/// the requested addresses, and the payer's own signature covers every
/// signer it requires.
pub fn extend_table_start(req: &ExtendTableRequest) -> (r: (ExtendTableState, ExtendTableAction))
    ensures
        r.0 is AwaitingSubmission,
        r.1 matches ExtendTableAction::SignAndSubmit { instruction } && instruction.data@
            == extend_table_data_of(key_views(req.new_addresses@)) && instruction.accounts@.len()
            == 4 && instruction.accounts@[0].key@ == req.table_key@ && signers_cover(
            seq![req.payer@],
            req.payer@,
            instruction.accounts@,
        ),
{
    let ix = build_extend_table_instruction(
        &req.table_key,
        &req.payer,
        &req.payer,
        &req.new_addresses,
    );
    proof {
        assert(seq![req.payer@][0] == req.payer@);
    }
    (ExtendTableState::AwaitingSubmission, ExtendTableAction::SignAndSubmit { instruction: ix })
}

/// Advance the extension of a lookup table by one observed event. A failed
/// confirmation is reported as `ConfirmationTimeout`, never as success: the
/// outcome always tells a confirmation failure apart from an applied
/// extension.
pub fn extend_table_step(state: ExtendTableState, event: ExtendTableEvent) -> (r: (
    ExtendTableState,
    ExtendTableAction,
))
    requires
        state is AwaitingSubmission || state is AwaitingConfirmation,
        state is AwaitingSubmission ==> event is SubmissionFinished,
        state is AwaitingConfirmation ==> event is ConfirmationFinished,
    ensures
        state is AwaitingSubmission ==> (event matches ExtendTableEvent::SubmissionFinished(
            Ok(sig),
        ) ==> r.0 is AwaitingConfirmation && (
        r.1 matches ExtendTableAction::AwaitConfirmed { signature } && signature == sig)),
        state is AwaitingSubmission ==> (event matches ExtendTableEvent::SubmissionFinished(Err(f))
            ==> spec_extend_failed(r, spec_submit_error(f))),
        state is AwaitingConfirmation ==> (event matches ExtendTableEvent::ConfirmationFinished(c)
            ==> (c ==> r.0 is Done && r.1 is Stop) && (!c ==> spec_extend_failed(
            r,
            TxError::ConfirmationTimeout,
        ))),
{
    match (state, event) {
        (ExtendTableState::AwaitingSubmission, ExtendTableEvent::SubmissionFinished(res)) => match res {
            Ok(sig) => (
                ExtendTableState::AwaitingConfirmation,
                ExtendTableAction::AwaitConfirmed { signature: sig },
            ),
            Err(SubmitFailure::Rejected) => (
                (ExtendTableState::Failed { error: TxError::SubmissionRejected }),
                ExtendTableAction::Stop,
            ),
            Err(SubmitFailure::Unconfirmed) => (
                (ExtendTableState::Failed { error: TxError::ConfirmationTimeout }),
                ExtendTableAction::Stop,
            ),
        },
        (ExtendTableState::AwaitingConfirmation, ExtendTableEvent::ConfirmationFinished(c)) => {
            if c {
                (ExtendTableState::Done, ExtendTableAction::Stop)
            } else {
                (
                    (ExtendTableState::Failed { error: TxError::ConfirmationTimeout }),
                    ExtendTableAction::Stop,
                )
            }
        },
        _ => unreached(),
    }
}

} // verus!
