use solana_program_client::errors::{FetchFailure, SubmitFailure, TxError};
use solana_program_client::instruction::AccountRef;
use solana_program_client::legacy_tx::{
    get_discriminant, legacy_call_start, legacy_call_step, CallRequest, LegacyAction, LegacyEvent,
    LegacyState,
};
use solana_program_client::versioned_tx::{
    create_table_start, create_table_step, extend_table_start, extend_table_step,
    extension_applied, versioned_call_start, versioned_call_step, CreateTableAction,
    CreateTableEvent, CreateTableState, ExtendTableAction, ExtendTableEvent, ExtendTableState,
    LookupCallRequest, LookupTable, VersionedAction, VersionedEvent, VersionedState,
};

fn sample_payload() -> Vec<u8> {
    borsh::to_vec(&"another data".as_bytes().to_vec()).unwrap()
}

fn sample_request(signer_keys: Vec<[u8; 32]>, accounts: Vec<AccountRef>) -> CallRequest {
    CallRequest {
        program_id: [7u8; 32],
        payer: [1u8; 32],
        signer_keys,
        instruction_name: String::from("update_blob"),
        instruction_data: sample_payload(),
        accounts,
    }
}

/// A well-formed lookup table account: the 56-byte serialized metadata of an
/// initialized table (state tag, deactivation slot, last extension, an
/// authority), followed by the raw 32-byte address entries.
fn sample_table_account(addresses: &[[u8; 32]]) -> Vec<u8> {
    let mut data = Vec::new();
    data.extend_from_slice(&1u32.to_le_bytes()); // initialized lookup table
    data.extend_from_slice(&u64::MAX.to_le_bytes()); // deactivation slot
    data.extend_from_slice(&0u64.to_le_bytes()); // last extended slot
    data.push(0u8); // last extended slot start index
    data.push(1u8); // authority is present
    data.extend_from_slice(&[2u8; 32]); // authority key
    data.extend_from_slice(&0u16.to_le_bytes()); // padding
    assert_eq!(data.len(), 56);
    for a in addresses {
        data.extend_from_slice(a);
    }
    data
}

#[test]
fn discriminant_is_deterministic() {
    let a = get_discriminant("global", "update_blob");
    let b = get_discriminant("global", "update_blob");
    assert_eq!(a, b);
}

#[test]
fn discriminant_matches_global_update_blob() {
    let d = get_discriminant("global", "update_blob");
    assert_eq!(d, [18, 162, 49, 169, 237, 193, 10, 33]);
}

#[test]
fn discriminants_differ_for_distinct_names() {
    assert_ne!(
        get_discriminant("global", "update_blob"),
        get_discriminant("global", "create_blob")
    );
    assert_ne!(
        get_discriminant("global", "update_blob"),
        get_discriminant("state", "update_blob")
    );
}

#[test]
fn legacy_flow_builds_borsh_compatible_instruction() {
    let payer = [1u8; 32];
    let accounts = vec![
        AccountRef { key: [5u8; 32], is_signer: false, is_writable: true },
        AccountRef { key: payer, is_signer: true, is_writable: true },
    ];
    let req = sample_request(vec![payer], accounts);
    let (state, action) = legacy_call_start(&req);
    assert!(matches!(state, LegacyState::AwaitingBlockhash));
    assert!(matches!(action, LegacyAction::FetchBlockhash));

    let (state, action) =
        legacy_call_step(&req, state, LegacyEvent::BlockhashFetched(Ok([9u8; 32])));
    assert!(matches!(state, LegacyState::AwaitingSubmission));
    match action {
        LegacyAction::SignAndSubmit { instruction, blockhash } => {
            assert_eq!(blockhash, [9u8; 32]);
            assert_eq!(instruction.program_id, [7u8; 32]);
            assert_eq!(instruction.accounts.len(), 2);
            assert!(instruction.accounts[1].is_signer);
            // The instruction data must be laid out exactly as the canonical
            // binary encoding of (discriminant, argument struct), where the
            // argument struct holds one byte vector.
            let disc = get_discriminant("global", "update_blob");
            let expected =
                borsh::to_vec(&(disc, "another data".as_bytes().to_vec())).unwrap();
            assert_eq!(instruction.data, expected);
        }
        _ => panic!("expected a sign-and-submit action"),
    }
}

#[test]
fn legacy_flow_missing_signer_fails() {
    // The payer and one account require signatures, but only an unrelated
    // key pair is supplied.
    let accounts = vec![AccountRef { key: [5u8; 32], is_signer: true, is_writable: true }];
    let req = sample_request(vec![[8u8; 32]], accounts);
    let (state, action) = legacy_call_start(&req);
    assert!(matches!(state, LegacyState::Failed { error: TxError::SigningFailed }));
    assert!(matches!(action, LegacyAction::Stop));
}

#[test]
fn legacy_flow_underprovided_signers_fail() {
    // Two required signers, one supplied key pair.
    let payer = [1u8; 32];
    let accounts = vec![AccountRef { key: [5u8; 32], is_signer: true, is_writable: true }];
    let req = sample_request(vec![payer], accounts);
    let (state, _) = legacy_call_start(&req);
    assert!(matches!(state, LegacyState::Failed { error: TxError::SigningFailed }));
}

#[test]
fn legacy_flow_reports_network_failure() {
    let req = sample_request(vec![[1u8; 32]], Vec::new());
    let (state, _) = legacy_call_start(&req);
    let (state, action) = legacy_call_step(&req, state, LegacyEvent::BlockhashFetched(Err(())));
    assert!(matches!(state, LegacyState::Failed { error: TxError::NetworkUnavailable }));
    assert!(matches!(action, LegacyAction::Stop));
}

#[test]
fn legacy_flow_reports_submission_outcomes() {
    let req = sample_request(vec![[1u8; 32]], Vec::new());

    let (state, _) = legacy_call_start(&req);
    let (state, _) = legacy_call_step(&req, state, LegacyEvent::BlockhashFetched(Ok([9u8; 32])));
    let (state, _) = legacy_call_step(
        &req,
        state,
        LegacyEvent::SubmissionFinished(Ok(String::from("4uQeVj5t"))),
    );
    match state {
        LegacyState::Done { signature } => assert_eq!(signature, "4uQeVj5t"),
        _ => panic!("expected success"),
    }

    let (state, _) = legacy_call_start(&req);
    let (state, _) = legacy_call_step(&req, state, LegacyEvent::BlockhashFetched(Ok([9u8; 32])));
    let (state, _) = legacy_call_step(
        &req,
        state,
        LegacyEvent::SubmissionFinished(Err(SubmitFailure::Rejected)),
    );
    assert!(matches!(state, LegacyState::Failed { error: TxError::SubmissionRejected }));

    let (state, _) = legacy_call_start(&req);
    let (state, _) = legacy_call_step(&req, state, LegacyEvent::BlockhashFetched(Ok([9u8; 32])));
    let (state, _) = legacy_call_step(
        &req,
        state,
        LegacyEvent::SubmissionFinished(Err(SubmitFailure::Unconfirmed)),
    );
    assert!(matches!(state, LegacyState::Failed { error: TxError::ConfirmationTimeout }));
}

#[test]
fn versioned_flow_missing_table_fails_before_anything_is_built() {
    let req = LookupCallRequest {
        call: sample_request(vec![[1u8; 32]], Vec::new()),
        lookup_table_key: [4u8; 32],
    };
    let (state, action) = versioned_call_start(&req);
    assert!(matches!(state, VersionedState::AwaitingTable));
    match action {
        VersionedAction::FetchLookupTable { key } => assert_eq!(key, [4u8; 32]),
        _ => panic!("expected a lookup table fetch"),
    }
    let (state, action) = versioned_call_step(
        &req,
        state,
        VersionedEvent::TableFetched(Err(FetchFailure::NotFound)),
    );
    assert!(matches!(state, VersionedState::Failed { error: TxError::AccountNotFound }));
    assert!(matches!(action, VersionedAction::Stop));
}

#[test]
fn versioned_flow_rejects_malformed_table_account() {
    let req = LookupCallRequest {
        call: sample_request(vec![[1u8; 32]], Vec::new()),
        lookup_table_key: [4u8; 32],
    };
    let (state, _) = versioned_call_start(&req);
    let (state, _) =
        versioned_call_step(&req, state, VersionedEvent::TableFetched(Ok(vec![0u8; 10])));
    assert!(matches!(state, VersionedState::Failed { error: TxError::SerializationFailed }));
}

#[test]
fn versioned_flow_runs_to_finalized_confirmation() {
    let payer = [1u8; 32];
    let entries = [[11u8; 32], [12u8; 32]];
    let req = LookupCallRequest {
        call: sample_request(
            vec![payer],
            vec![AccountRef { key: [11u8; 32], is_signer: false, is_writable: true }],
        ),
        lookup_table_key: [4u8; 32],
    };

    let (state, _) = versioned_call_start(&req);
    let account_data = sample_table_account(&entries);
    let (state, action) =
        versioned_call_step(&req, state, VersionedEvent::TableFetched(Ok(account_data)));
    assert!(matches!(state, VersionedState::AwaitingBlockhash { .. }));
    assert!(matches!(action, VersionedAction::FetchBlockhash));

    let (state, action) =
        versioned_call_step(&req, state, VersionedEvent::BlockhashFetched(Ok([9u8; 32])));
    assert!(matches!(state, VersionedState::AwaitingSignedTransaction));
    match action {
        VersionedAction::CompileAndSign { instruction, table, blockhash } => {
            assert_eq!(blockhash, [9u8; 32]);
            // The parsed table holds exactly the serialized entries, in order.
            assert_eq!(table.key, [4u8; 32]);
            assert_eq!(table.addresses, vec![[11u8; 32], [12u8; 32]]);
            let disc = get_discriminant("global", "update_blob");
            let expected =
                borsh::to_vec(&(disc, "another data".as_bytes().to_vec())).unwrap();
            assert_eq!(instruction.data, expected);
        }
        _ => panic!("expected a compile-and-sign action"),
    }

    let (state, action) = versioned_call_step(
        &req,
        state,
        VersionedEvent::TransactionSigned(Ok(b"hello".to_vec())),
    );
    assert!(matches!(state, VersionedState::AwaitingSubmission));
    match action {
        VersionedAction::Submit { encoded_transaction } => {
            assert_eq!(encoded_transaction, "aGVsbG8=");
        }
        _ => panic!("expected a submit action"),
    }

    let (state, action) = versioned_call_step(
        &req,
        state,
        VersionedEvent::SubmissionFinished(Ok(String::from("3AsdoALg"))),
    );
    match &action {
        VersionedAction::AwaitFinalized { signature } => assert_eq!(signature, "3AsdoALg"),
        _ => panic!("expected a confirmation wait"),
    }
    let (state, action) =
        versioned_call_step(&req, state, VersionedEvent::ConfirmationFinished(true));
    match state {
        VersionedState::Done { signature } => assert_eq!(signature, "3AsdoALg"),
        _ => panic!("expected success"),
    }
    assert!(matches!(action, VersionedAction::Stop));
}

#[test]
fn versioned_flow_unsigned_request_fails() {
    let req = LookupCallRequest {
        call: sample_request(Vec::new(), Vec::new()),
        lookup_table_key: [4u8; 32],
    };
    let (state, _) = versioned_call_start(&req);
    let (state, _) =
        versioned_call_step(&req, state, VersionedEvent::TableFetched(Ok(sample_table_account(&[]))));
    let (state, _) =
        versioned_call_step(&req, state, VersionedEvent::BlockhashFetched(Ok([9u8; 32])));
    assert!(matches!(state, VersionedState::Failed { error: TxError::SigningFailed }));
}

#[test]
fn versioned_flow_confirmation_timeout() {
    let req = LookupCallRequest {
        call: sample_request(vec![[1u8; 32]], Vec::new()),
        lookup_table_key: [4u8; 32],
    };
    let (state, _) = versioned_call_start(&req);
    let (state, _) =
        versioned_call_step(&req, state, VersionedEvent::TableFetched(Ok(sample_table_account(&[]))));
    let (state, _) =
        versioned_call_step(&req, state, VersionedEvent::BlockhashFetched(Ok([9u8; 32])));
    let (state, _) =
        versioned_call_step(&req, state, VersionedEvent::TransactionSigned(Ok(vec![1, 2, 3])));
    let (state, _) = versioned_call_step(
        &req,
        state,
        VersionedEvent::SubmissionFinished(Ok(String::from("sig"))),
    );
    let (state, _) = versioned_call_step(&req, state, VersionedEvent::ConfirmationFinished(false));
    assert!(matches!(state, VersionedState::Failed { error: TxError::ConfirmationTimeout }));
}

#[test]
fn table_extend_then_contains() {
    let mut table = LookupTable::new([3u8; 32]);
    assert_eq!(table.addresses.len(), 0);
    let added = vec![[20u8; 32], [21u8; 32]];
    table.extend(&added);
    assert!(table.contains(&[20u8; 32]));
    assert!(table.contains(&[21u8; 32]));
    assert!(!table.contains(&[22u8; 32]));
    assert_eq!(table.position_of(&[21u8; 32]), Some(1));
    assert_eq!(table.position_of(&[22u8; 32]), None);
    assert!(extension_applied(&table, &added));
    let more = vec![[22u8; 32]];
    assert!(!extension_applied(&table, &more));
    table.extend(&more);
    assert!(extension_applied(&table, &more));
    // What was present before the second extension is still present.
    assert!(table.contains(&[20u8; 32]));
    assert_eq!(table.position_of(&[20u8; 32]), Some(0));
}

#[test]
fn create_table_flow_derives_the_real_table_key() {
    let payer = [1u8; 32];
    let (state, action) = create_table_start();
    assert!(matches!(state, CreateTableState::AwaitingSlot));
    assert!(matches!(action, CreateTableAction::FetchSlot));

    let (state, action) =
        create_table_step(&payer, state, CreateTableEvent::SlotFetched(Ok(42)));
    let expected_key = solana_address_lookup_table_interface::instruction::derive_lookup_table_address(
        &solana_pubkey::Pubkey::new_from_array(payer),
        42,
    )
    .0
    .to_bytes();
    let (expected_ix, _) = solana_address_lookup_table_interface::instruction::create_lookup_table(
        solana_pubkey::Pubkey::new_from_array(payer),
        solana_pubkey::Pubkey::new_from_array(payer),
        42,
    );
    match &state {
        CreateTableState::AwaitingSubmission { table_key } => assert_eq!(*table_key, expected_key),
        _ => panic!("expected to await submission"),
    }
    match action {
        CreateTableAction::SignAndSubmit { instruction } => {
            assert_eq!(instruction.data, expected_ix.data);
            assert_eq!(instruction.program_id, expected_ix.program_id.to_bytes());
            assert_eq!(instruction.accounts.len(), 4);
            assert_eq!(instruction.accounts[0].key, expected_key);
            assert!(instruction.accounts[2].is_signer);
            assert_eq!(instruction.accounts[2].key, payer);
        }
        _ => panic!("expected a sign-and-submit action"),
    }

    let (state, _) = create_table_step(
        &payer,
        state,
        CreateTableEvent::SubmissionFinished(Ok(String::from("sig"))),
    );
    match state {
        CreateTableState::Done { table_key } => assert_eq!(table_key, expected_key),
        _ => panic!("expected success"),
    }
}

#[test]
fn create_table_flow_reports_slot_failure() {
    let payer = [1u8; 32];
    let (state, _) = create_table_start();
    let (state, action) = create_table_step(&payer, state, CreateTableEvent::SlotFetched(Err(())));
    assert!(matches!(state, CreateTableState::Failed { error: TxError::NetworkUnavailable }));
    assert!(matches!(action, CreateTableAction::Stop));
}

#[test]
fn extend_table_flow_builds_the_real_instruction() {
    let req = solana_program_client::versioned_tx::ExtendTableRequest {
        payer: [1u8; 32],
        table_key: [3u8; 32],
        new_addresses: vec![[20u8; 32]],
    };
    let (state, action) = extend_table_start(&req);
    assert!(matches!(state, ExtendTableState::AwaitingSubmission));
    let expected = solana_address_lookup_table_interface::instruction::extend_lookup_table(
        solana_pubkey::Pubkey::new_from_array([3u8; 32]),
        solana_pubkey::Pubkey::new_from_array([1u8; 32]),
        Some(solana_pubkey::Pubkey::new_from_array([1u8; 32])),
        vec![solana_pubkey::Pubkey::new_from_array([20u8; 32])],
    );
    match action {
        ExtendTableAction::SignAndSubmit { instruction } => {
            assert_eq!(instruction.data, expected.data);
            assert_eq!(instruction.program_id, expected.program_id.to_bytes());
            assert_eq!(instruction.accounts.len(), 4);
            assert_eq!(instruction.accounts[0].key, [3u8; 32]);
            assert!(instruction.accounts[1].is_signer);
        }
        _ => panic!("expected a sign-and-submit action"),
    }
}

#[test]
fn extend_table_flow_distinguishes_confirmation_failure() {
    let req = solana_program_client::versioned_tx::ExtendTableRequest {
        payer: [1u8; 32],
        table_key: [3u8; 32],
        new_addresses: vec![[20u8; 32]],
    };

    let (state, _) = extend_table_start(&req);
    let (state, action) = extend_table_step(
        state,
        ExtendTableEvent::SubmissionFinished(Ok(String::from("sig"))),
    );
    assert!(matches!(state, ExtendTableState::AwaitingConfirmation));
    match &action {
        ExtendTableAction::AwaitConfirmed { signature } => assert_eq!(signature, "sig"),
        _ => panic!("expected a confirmation wait"),
    }
    let (confirmed, _) = extend_table_step(state, ExtendTableEvent::ConfirmationFinished(true));
    assert!(matches!(confirmed, ExtendTableState::Done));

    // A confirmation failure is an error of its own, never mistakable for
    // success; an independent re-check of the table contents tells whether
    // the addresses actually landed.
    let (state, _) = extend_table_start(&req);
    let (state, _) = extend_table_step(
        state,
        ExtendTableEvent::SubmissionFinished(Ok(String::from("sig"))),
    );
    let (failed, action) = extend_table_step(state, ExtendTableEvent::ConfirmationFinished(false));
    assert!(matches!(failed, ExtendTableState::Failed { error: TxError::ConfirmationTimeout }));
    assert!(matches!(action, ExtendTableAction::Stop));

    let (state, _) = extend_table_start(&req);
    let (state, action) = extend_table_step(
        state,
        ExtendTableEvent::SubmissionFinished(Err(SubmitFailure::Rejected)),
    );
    assert!(matches!(state, ExtendTableState::Failed { error: TxError::SubmissionRejected }));
    assert!(matches!(action, ExtendTableAction::Stop));
}
