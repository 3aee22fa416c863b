//! End-to-end tests of assembling validated transaction outputs from an
//! output stack, an advice map and a caller-supplied note list, with the
//! real collaborator types linked in.

use miden_objects::accounts::AccountId as VmAccountId;
use miden_objects::assets::{Asset, FungibleAsset};
use miden_objects::notes::{NoteAssets, NoteMetadata};
use miden_objects::transaction::OutputNote;
use miden_objects::vm::AdviceMap;
use miden_objects::{Digest, Felt, StarkField};
use miden_tx_kernel::{
    AccountStubError, StackOutputs, TransactionKernel, TransactionOutputError, Word,
    MAX_OUTPUT_NOTES_PER_TX,
};

fn word(e0: u64, e1: u64, e2: u64, e3: u64) -> Word {
    Word { e0, e1, e2, e3 }
}

fn digest_of(w: Word) -> Digest {
    Digest::new([Felt::new(w.e0), Felt::new(w.e1), Felt::new(w.e2), Felt::new(w.e3)])
}

fn word_of(d: Digest) -> Word {
    let e = d.as_elements();
    word(e[0].as_int(), e[1].as_int(), e[2].as_int(), e[3].as_int())
}

/// A clean output stack asserting the given final account hash and
/// output-notes commitment.
fn clean_stack(final_acct_hash: Word, output_notes_hash: Word) -> StackOutputs {
    TransactionKernel::build_output_stack(final_acct_hash, output_notes_hash)
}

/// Sixteen elements of well-formed account-stub data: identifier and nonce
/// in the first word, then the vault, storage and code roots.
fn stub_elements() -> Vec<Felt> {
    let mut elements = Vec::new();
    for value in [
        7u64, 0, 0, 42, // account id, padding, nonce
        11, 12, 13, 14, // vault root
        21, 22, 23, 24, // storage root
        31, 32, 33, 34, // code root
    ] {
        elements.push(Felt::new(value));
    }
    elements
}

/// An advice map holding `value` under the digest of `key`.
fn advice_with(key: Word, value: Vec<Felt>) -> AdviceMap {
    let mut map = AdviceMap::new();
    map.insert(digest_of(key), value);
    map
}

/// A note with the given distinguishing seed.
fn note(seed: u64) -> OutputNote {
    let sender = VmAccountId::try_from(0x00ff_0000_0000_00ffu64).unwrap();
    let faucet = VmAccountId::try_from(0x8000_0000_0000_00ffu64).unwrap();
    let asset = Asset::Fungible(FungibleAsset::new(faucet, 100).unwrap());
    let assets = NoteAssets::new(&[asset]).unwrap();
    let metadata = NoteMetadata::new(sender, Felt::new(0));
    let recipient = Digest::new([Felt::new(seed), Felt::new(0), Felt::new(0), Felt::new(0)]);
    OutputNote::new(recipient, assets, metadata)
}

#[test]
fn missing_advice_entry_fails() {
    let fah = word(1, 2, 3, 4);
    let stack = clean_stack(fah, Word::zero());
    let map = AdviceMap::new();
    let result = TransactionKernel::from_transaction_parts(&stack, &map, Vec::new());
    assert_eq!(result.err(), Some(TransactionOutputError::FinalAccountDataNotFound));
}

#[test]
fn final_account_stub_is_decoded() {
    let fah = word(1, 2, 3, 4);
    let stack = clean_stack(fah, Word::zero());
    let map = advice_with(fah, stub_elements());
    let result = TransactionKernel::from_transaction_parts(&stack, &map, Vec::new());
    let outputs = result.ok().unwrap();
    assert_eq!(outputs.account.id.value, 7);
    assert_eq!(outputs.account.nonce, 42);
    assert_eq!(outputs.account.vault_root, word(11, 12, 13, 14));
    assert_eq!(outputs.account.storage_root, word(21, 22, 23, 24));
    assert_eq!(outputs.account.code_root, word(31, 32, 33, 34));
    assert_eq!(outputs.output_notes.num_notes(), 0);
    assert_eq!(outputs.output_notes.commitment(), Word::zero());
}

#[test]
fn misaligned_advice_data_fails() {
    let fah = word(1, 2, 3, 4);
    let stack = clean_stack(fah, Word::zero());
    let mut elements = stub_elements();
    elements.truncate(14);
    let map = advice_with(fah, elements);
    let result = TransactionKernel::from_transaction_parts(&stack, &map, Vec::new());
    assert_eq!(
        result.err(),
        Some(TransactionOutputError::FinalAccountStubDataInvalid(
            AccountStubError::NotWordAligned
        )),
    );
}

#[test]
fn wrong_word_count_fails() {
    let fah = word(1, 2, 3, 4);
    let stack = clean_stack(fah, Word::zero());
    let mut elements = stub_elements();
    elements.truncate(12);
    let map = advice_with(fah, elements);
    let result = TransactionKernel::from_transaction_parts(&stack, &map, Vec::new());
    assert_eq!(
        result.err(),
        Some(TransactionOutputError::FinalAccountStubDataInvalid(
            AccountStubError::UnexpectedNumberOfWords
        )),
    );
}

#[test]
fn commitment_mismatch_carries_both_values() {
    let fah = word(1, 2, 3, 4);
    let asserted = word(9, 9, 9, 9);
    let stack = clean_stack(fah, asserted);
    let map = advice_with(fah, stub_elements());
    // No notes were created, so the recomputed commitment is the zero word
    // and cannot match the asserted one.
    let result = TransactionKernel::from_transaction_parts(&stack, &map, Vec::new());
    assert_eq!(
        result.err(),
        Some(TransactionOutputError::OutputNotesCommitmentInconsistent(
            asserted,
            Word::zero(),
        )),
    );
}

#[test]
fn matching_commitment_succeeds_with_real_notes() {
    let fah = word(1, 2, 3, 4);
    let notes = vec![note(1), note(2)];
    let expected_commitment = word_of(
        miden_objects::transaction::OutputNotes::new(notes.clone()).unwrap().commitment(),
    );
    let stack = clean_stack(fah, expected_commitment);
    let map = advice_with(fah, stub_elements());
    let result = TransactionKernel::from_transaction_parts(&stack, &map, notes);
    let outputs = result.ok().unwrap();
    assert_eq!(outputs.account.id.value, 7);
    assert_eq!(outputs.output_notes.num_notes(), 2);
    assert_eq!(outputs.output_notes.commitment(), expected_commitment);
}

#[test]
fn duplicate_notes_fail() {
    let fah = word(1, 2, 3, 4);
    let stack = clean_stack(fah, Word::zero());
    let map = advice_with(fah, stub_elements());
    let notes = vec![note(5), note(5)];
    let result = TransactionKernel::from_transaction_parts(&stack, &map, notes);
    assert_eq!(result.err(), Some(TransactionOutputError::DuplicateOutputNote));
}

#[test]
fn too_many_notes_fail() {
    let fah = word(1, 2, 3, 4);
    let stack = clean_stack(fah, Word::zero());
    let map = advice_with(fah, stub_elements());
    let mut notes = Vec::new();
    for seed in 0..(MAX_OUTPUT_NOTES_PER_TX as u64 + 1) {
        notes.push(note(seed));
    }
    let result = TransactionKernel::from_transaction_parts(&stack, &map, notes);
    assert_eq!(
        result.err(),
        Some(TransactionOutputError::TooManyOutputNotes {
            max: MAX_OUTPUT_NOTES_PER_TX,
            actual: MAX_OUTPUT_NOTES_PER_TX + 1,
        }),
    );
}

#[test]
fn identical_inputs_give_identical_results() {
    let fah = word(1, 2, 3, 4);
    let notes = vec![note(1)];
    let expected_commitment = word_of(
        miden_objects::transaction::OutputNotes::new(notes.clone()).unwrap().commitment(),
    );

    let first = TransactionKernel::from_transaction_parts(
        &clean_stack(fah, expected_commitment),
        &advice_with(fah, stub_elements()),
        notes.clone(),
    );
    let second = TransactionKernel::from_transaction_parts(
        &clean_stack(fah, expected_commitment),
        &advice_with(fah, stub_elements()),
        notes.clone(),
    );
    let first = first.ok().unwrap();
    let second = second.ok().unwrap();
    assert_eq!(first.account, second.account);
    assert_eq!(first.output_notes.num_notes(), second.output_notes.num_notes());
    assert_eq!(first.output_notes.commitment(), second.output_notes.commitment());

    // The error path is deterministic as well.
    let first_err = TransactionKernel::from_transaction_parts(
        &clean_stack(fah, word(9, 9, 9, 9)),
        &advice_with(fah, stub_elements()),
        Vec::new(),
    );
    let second_err = TransactionKernel::from_transaction_parts(
        &clean_stack(fah, word(9, 9, 9, 9)),
        &advice_with(fah, stub_elements()),
        Vec::new(),
    );
    assert!(first_err.is_err());
    assert_eq!(first_err.err(), second_err.err());
}
