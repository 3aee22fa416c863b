//! The transaction kernel's host-side data contract: building the input
//! stack handed to the kernel program, and parsing and validating the output
//! stack and advice map it produces.
//!
//! The element orderings and word positions below are fixed protocol
//! constants shared with the independently authored kernel program; changing
//! any of them requires co-versioning with that program.

use vstd::prelude::*;
use crate::account::{
    group_into_words, parse_final_account_stub, spec_decode_stub, AccountId, FinalAccountStub,
    ACCOUNT_STUB_NUM_WORDS,
};
use crate::advice::{advice_map_get, advice_view};
use crate::errors::{AccountStubError, OutputStackViolation, TransactionOutputError};
use crate::felt::{word_from_seq, zero_word, Word};
use crate::notes::{
    held_notes, no_duplicate_ids, notes_commitment, output_notes_new, OutputNotes,
    MAX_OUTPUT_NOTES_PER_TX,
};
use crate::stack::{stack_word_at, StackInputs, StackOutputs, STACK_INPUT_LEN};

verus! {

/// Word index of the output-notes commitment on the output stack.
pub const OUTPUT_NOTES_COMMITMENT_WORD_IDX: usize = 0;

/// Word index of the final account hash on the output stack.
pub const FINAL_ACCOUNT_HASH_WORD_IDX: usize = 1;

/// Final entity of a successful transaction attempt: the decoded
/// post-transaction account state together with the validated note
/// collection, whose commitment equals the value the kernel program asserted
/// on its output stack.
pub struct TransactionOutputs {
    pub account: FinalAccountStub,
    pub output_notes: OutputNotes,
}

/// The input stack handed to the kernel program, in push order: the kernel
/// hash, the kernel procedure count, the input-notes commitment, the initial
/// account hash, the account identifier, and on top the reference block
/// hash.
pub open spec fn spec_build_input_stack(
    acct_id: AccountId,
    init_acct_hash: Word,
    input_notes_hash: Word,
    block_hash: Word,
    kernel_procs_len: u64,
    kernel_hash: Word,
) -> Seq<u64> {
    kernel_hash@ + seq![kernel_procs_len] + input_notes_hash@ + init_acct_hash@
        + seq![acct_id.value] + block_hash@
}

/// The output stack a clean execution leaves behind, top first: the
/// output-notes commitment word, the final account hash word (each stored in
/// reversed element order), and two all-zero words.
pub open spec fn spec_build_output_stack(final_acct_hash: Word, output_notes_hash: Word) -> Seq<
    u64,
> {
    seq![
        output_notes_hash.e3,
        output_notes_hash.e2,
        output_notes_hash.e1,
        output_notes_hash.e0,
        final_acct_hash.e3,
        final_acct_hash.e2,
        final_acct_hash.e1,
        final_acct_hash.e0,
        0u64,
        0u64,
        0u64,
        0u64,
        0u64,
        0u64,
        0u64,
        0u64,
    ]
}

/// What parsing an output stack yields: the final account hash and the
/// output-notes commitment, provided the third and fourth words are all-zero
/// and the overflow region is empty.
pub open spec fn spec_parse_output_stack(stack: Seq<u64>, overflow: Seq<u64>) -> Result<
    (Word, Word),
    TransactionOutputError,
>
    recommends
        stack.len() >= 16,
{
    if stack_word_at(stack, 8) != zero_word() {
        Err(TransactionOutputError::OutputStackInvalid(OutputStackViolation::ThirdWordNotZero))
    } else if stack_word_at(stack, 12) != zero_word() {
        Err(TransactionOutputError::OutputStackInvalid(OutputStackViolation::FourthWordNotZero))
    } else if overflow.len() > 0 {
        Err(TransactionOutputError::OutputStackInvalid(OutputStackViolation::OverflowNotEmpty))
    } else {
        Ok(
            (
                stack_word_at(stack, (FINAL_ACCOUNT_HASH_WORD_IDX * 4) as int),
                stack_word_at(stack, (OUTPUT_NOTES_COMMITMENT_WORD_IDX * 4) as int),
            ),
        )
    }
}

/// The final account stub described by the advice entry stored under the
/// final account hash, or the error when the entry is absent or misshapen.
pub open spec fn spec_resolve_account_stub(
    advice: Map<Seq<u64>, Seq<u64>>,
    final_acct_hash: Word,
) -> Result<FinalAccountStub, TransactionOutputError> {
    if !advice.dom().contains(final_acct_hash@) {
        Err(TransactionOutputError::FinalAccountDataNotFound)
    } else if advice[final_acct_hash@].len() % 4 != 0 {
        Err(TransactionOutputError::FinalAccountStubDataInvalid(AccountStubError::NotWordAligned))
    } else if advice[final_acct_hash@].len() != ACCOUNT_STUB_NUM_WORDS * 4 {
        Err(
            TransactionOutputError::FinalAccountStubDataInvalid(
                AccountStubError::UnexpectedNumberOfWords,
            ),
        )
    } else {
        Ok(spec_stub_from_elements(advice[final_acct_hash@]))
    }
}

/// The stub described by a 16-element advice entry: identifier and nonce
/// from the first word, then the vault, storage and code roots.
pub open spec fn spec_stub_from_elements(v: Seq<u64>) -> FinalAccountStub
    recommends
        v.len() == ACCOUNT_STUB_NUM_WORDS * 4,
{
    FinalAccountStub {
        id: AccountId { value: v[0] },
        nonce: v[3],
        vault_root: word_from_seq(v.subrange(4, 8)),
        storage_root: word_from_seq(v.subrange(8, 12)),
        code_root: word_from_seq(v.subrange(12, 16)),
    }
}

/// Entry points of the host-side data contract around one kernel execution.
pub struct TransactionKernel;

impl TransactionKernel {
    /// Returns the MASM source text this crate carries for the transaction
    /// kernel: a header stating the kernel's public stack interface, the one
    /// part of the kernel that belongs to the host-side data contract. The
    /// system procedure bodies ship with the VM-program provider, not with
    /// this crate.
    pub fn kernel() -> (r: &'static str)
        ensures
            r@ == (
            "# Transaction kernel, host-side interface.\n# Input stack:  [BLOCK_HASH, acct_id, INITIAL_ACCOUNT_HASH, INPUT_NOTES_COMMITMENT, kernel_procs_len, KERNEL_HASH]\n# Output stack: [OUTPUT_NOTES_COMMITMENT, FINAL_ACCOUNT_HASH, ZERO, ZERO]\n")@,
    {
        "# Transaction kernel, host-side interface.\n# Input stack:  [BLOCK_HASH, acct_id, INITIAL_ACCOUNT_HASH, INPUT_NOTES_COMMITMENT, kernel_procs_len, KERNEL_HASH]\n# Output stack: [OUTPUT_NOTES_COMMITMENT, FINAL_ACCOUNT_HASH, ZERO, ZERO]\n"
    }

    /// Returns the stack with the public inputs required by the transaction
    /// kernel, in push order; the reference block hash, written last, ends up
    /// on top of the stack.
    ///
    /// For an account that does not exist yet, `init_acct_hash` is the
    /// all-zero word.
    pub fn build_input_stack(
        acct_id: AccountId,
        init_acct_hash: Word,
        input_notes_hash: Word,
        block_hash: Word,
        kernel: (usize, Word),
    ) -> (r: StackInputs)
        requires
            acct_id.wf(),
            init_acct_hash.wf(),
            input_notes_hash.wf(),
            block_hash.wf(),
            kernel.1.wf(),
            kernel.0 <= 0xffff,
        ensures
            r@ == spec_build_input_stack(
                acct_id,
                init_acct_hash,
                input_notes_hash,
                block_hash,
                kernel.0 as u64,
                kernel.1,
            ),
            r@.len() == STACK_INPUT_LEN,
            r.wf(),
    {
        let mut inputs: Vec<u64> = Vec::with_capacity(STACK_INPUT_LEN);
        inputs.push(kernel.1.e0);
        inputs.push(kernel.1.e1);
        inputs.push(kernel.1.e2);
        inputs.push(kernel.1.e3);
        inputs.push(kernel.0 as u64);
        inputs.push(input_notes_hash.e0);
        inputs.push(input_notes_hash.e1);
        inputs.push(input_notes_hash.e2);
        inputs.push(input_notes_hash.e3);
        inputs.push(init_acct_hash.e0);
        inputs.push(init_acct_hash.e1);
        inputs.push(init_acct_hash.e2);
        inputs.push(init_acct_hash.e3);
        inputs.push(acct_id.value);
        inputs.push(block_hash.e0);
        inputs.push(block_hash.e1);
        inputs.push(block_hash.e2);
        inputs.push(block_hash.e3);
        proof {
            assert(inputs@ =~= spec_build_input_stack(
                acct_id,
                init_acct_hash,
                input_notes_hash,
                block_hash,
                kernel.0 as u64,
                kernel.1,
            ));
        }
        StackInputs::new(inputs)
    }

    /// Returns the output stack a clean execution would leave for the given
    /// final account hash and output-notes commitment: the two words in
    /// reversed element order, zero-padded to the stack top, with an empty
    /// overflow region. Used to construct expected values.
    pub fn build_output_stack(final_acct_hash: Word, output_notes_hash: Word) -> (r: StackOutputs)
        requires
            final_acct_hash.wf(),
            output_notes_hash.wf(),
        ensures
            r.stack_view() == spec_build_output_stack(final_acct_hash, output_notes_hash),
            r.overflow_view() == Seq::<u64>::empty(),
            r.wf(),
    {
        let mut outputs: Vec<u64> = Vec::with_capacity(8);
        outputs.push(output_notes_hash.e3);
        outputs.push(output_notes_hash.e2);
        outputs.push(output_notes_hash.e1);
        outputs.push(output_notes_hash.e0);
        outputs.push(final_acct_hash.e3);
        outputs.push(final_acct_hash.e2);
        outputs.push(final_acct_hash.e1);
        outputs.push(final_acct_hash.e0);
        let r = StackOutputs::new(outputs, Vec::new());
        proof {
            assert(r.stack_view() =~= spec_build_output_stack(final_acct_hash, output_notes_hash));
            assert(r.overflow_view() =~= Seq::<u64>::empty());
        }
        r
    }

    /// Extracts the final account hash and the output-notes commitment from
    /// the provided output stack, after checking that the stack was properly
    /// cleaned: its third and fourth words must be all-zero and its overflow
    /// region empty, since anything left there means the program did not
    /// clean up and the result must not be trusted.
    pub fn parse_output_stack(stack: &StackOutputs) -> (r: Result<
        (Word, Word),
        TransactionOutputError,
    >)
        requires
            stack.wf(),
        ensures
            r == spec_parse_output_stack(stack.stack_view(), stack.overflow_view()),
            r matches Ok(p) ==> p.0.wf() && p.1.wf(),
    {
        let output_notes_hash = stack.get_stack_word(OUTPUT_NOTES_COMMITMENT_WORD_IDX * 4)
            .unwrap();
        let final_account_hash = stack.get_stack_word(FINAL_ACCOUNT_HASH_WORD_IDX * 4).unwrap();

        let third = stack.get_stack_word(8).unwrap();
        if third != Word::zero() {
            return Err(
                TransactionOutputError::OutputStackInvalid(OutputStackViolation::ThirdWordNotZero),
            );
        }
        let fourth = stack.get_stack_word(12).unwrap();
        if fourth != Word::zero() {
            return Err(
                TransactionOutputError::OutputStackInvalid(
                    OutputStackViolation::FourthWordNotZero,
                ),
            );
        }
        if stack.has_overflow() {
            return Err(
                TransactionOutputError::OutputStackInvalid(OutputStackViolation::OverflowNotEmpty),
            );
        }

        Ok((final_account_hash, output_notes_hash))
    }

    /// Assembles validated transaction outputs from the output stack, the
    /// advice map and the caller-supplied note list: parses the stack,
    /// decodes the final account stub from the advice entry stored under the
    /// final account hash, validates the note collection, and cross-checks
    /// its commitment against the stack-asserted value. All-or-nothing: no
    /// partial result is ever returned.
    pub fn from_transaction_parts(
        stack: &StackOutputs,
        adv_map: &miden_objects::vm::AdviceMap,
        output_notes: Vec<miden_objects::transaction::OutputNote>,
    ) -> (r: Result<TransactionOutputs, TransactionOutputError>)
        requires
            stack.wf(),
        ensures
            spec_parse_output_stack(stack.stack_view(), stack.overflow_view()) matches Err(e) ==> r
                == Err::<TransactionOutputs, TransactionOutputError>(e),
            spec_parse_output_stack(stack.stack_view(), stack.overflow_view()) matches Ok(p) ==> (
            spec_resolve_account_stub(advice_view(*adv_map), p.0) matches Err(e) ==> r
                == Err::<TransactionOutputs, TransactionOutputError>(e)),
            spec_parse_output_stack(stack.stack_view(), stack.overflow_view()) matches Ok(p) ==> (
            spec_resolve_account_stub(advice_view(*adv_map), p.0) is Ok && output_notes@.len()
                > MAX_OUTPUT_NOTES_PER_TX ==> (r matches Err(e) && e
                matches TransactionOutputError::TooManyOutputNotes { max, actual } && max
                == MAX_OUTPUT_NOTES_PER_TX && actual == output_notes@.len())),
            spec_parse_output_stack(stack.stack_view(), stack.overflow_view()) matches Ok(p) ==> (
            spec_resolve_account_stub(advice_view(*adv_map), p.0) is Ok && output_notes@.len()
                <= MAX_OUTPUT_NOTES_PER_TX && !no_duplicate_ids(output_notes@) ==> r
                == Err::<TransactionOutputs, TransactionOutputError>(
                TransactionOutputError::DuplicateOutputNote,
            )),
            spec_parse_output_stack(stack.stack_view(), stack.overflow_view()) matches Ok(p) ==> (
            spec_resolve_account_stub(advice_view(*adv_map), p.0) is Ok && output_notes@.len()
                <= MAX_OUTPUT_NOTES_PER_TX && no_duplicate_ids(output_notes@) && notes_commitment(
                output_notes@,
            ) != p.1@ ==> (r matches Err(e) && e
                matches TransactionOutputError::OutputNotesCommitmentInconsistent(
                expected,
                actual,
            ) && expected == p.1 && actual@ == notes_commitment(output_notes@))),
            spec_parse_output_stack(stack.stack_view(), stack.overflow_view()) matches Ok(p) ==> (
            spec_resolve_account_stub(advice_view(*adv_map), p.0) matches Ok(stub) ==> (
            output_notes@.len() <= MAX_OUTPUT_NOTES_PER_TX && no_duplicate_ids(output_notes@)
                && notes_commitment(output_notes@) == p.1@ ==> (r matches Ok(out) && out.account
                == stub && held_notes(out.output_notes) == output_notes@))),
    {
        let parsed = Self::parse_output_stack(stack);
        let (final_acct_hash, output_notes_hash) = match parsed {
            Ok(p) => p,
            Err(e) => { return Err(e) },
        };

        // Decode the final account state from the advice side channel.
        let final_account_data = match advice_map_get(adv_map, &final_acct_hash) {
            Some(data) => data,
            None => { return Err(TransactionOutputError::FinalAccountDataNotFound) },
        };
        let words = match group_into_words(&final_account_data) {
            Ok(words) => words,
            Err(cause) => {
                return Err(TransactionOutputError::FinalAccountStubDataInvalid(cause))
            },
        };
        let account = match parse_final_account_stub(&words) {
            Ok(stub) => stub,
            Err(cause) => {
                return Err(TransactionOutputError::FinalAccountStubDataInvalid(cause))
            },
        };
        proof {
            let v = advice_view(*adv_map)[final_acct_hash@];
            if v.len() == ACCOUNT_STUB_NUM_WORDS * 4 {
                assert(words@[1] == word_from_seq(v.subrange(4, 8)));
                assert(words@[2] == word_from_seq(v.subrange(8, 12)));
                assert(words@[3] == word_from_seq(v.subrange(12, 16)));
                assert(words@[0].e0 == v.subrange(0, 4)[0]);
                assert(words@[0].e3 == v.subrange(0, 4)[3]);
                assert(spec_decode_stub(words@) == spec_stub_from_elements(v));
            }
        }

        // Validate the caller-supplied note collection and cross-check its
        // commitment against the stack-asserted value.
        let num_given = output_notes.len();
        let notes = match output_notes_new(output_notes) {
            Some(notes) => notes,
            None => {
                if num_given > MAX_OUTPUT_NOTES_PER_TX {
                    return Err(
                        TransactionOutputError::TooManyOutputNotes {
                            max: MAX_OUTPUT_NOTES_PER_TX,
                            actual: num_given,
                        },
                    );
                } else {
                    return Err(TransactionOutputError::DuplicateOutputNote);
                }
            },
        };
        let commitment = notes.commitment();
        if commitment != output_notes_hash {
            return Err(
                TransactionOutputError::OutputNotesCommitmentInconsistent(
                    output_notes_hash,
                    commitment,
                ),
            );
        }

        Ok(TransactionOutputs { account, output_notes: notes })
    }
}

/// Round-trip law: parsing the output stack built from a final account hash
/// and an output-notes commitment recovers exactly that pair.
pub proof fn lemma_output_stack_round_trip(final_acct_hash: Word, output_notes_hash: Word)
    ensures
        spec_parse_output_stack(
            spec_build_output_stack(final_acct_hash, output_notes_hash),
            Seq::<u64>::empty(),
        ) == Ok::<(Word, Word), TransactionOutputError>((final_acct_hash, output_notes_hash)),
{
}

/// Cleanliness law: a stack with a non-zero element anywhere in its third or
/// fourth word is rejected as invalid, regardless of the other contents.
pub proof fn lemma_parse_rejects_unclean_words(stack: Seq<u64>, overflow: Seq<u64>, i: int)
    requires
        stack.len() >= 16,
        8 <= i < 16,
        stack[i] != 0,
    ensures
        spec_parse_output_stack(stack, overflow) matches Err(e) && e
            matches TransactionOutputError::OutputStackInvalid(_),
{
}

/// Cleanliness law: a stack with a non-empty overflow region is rejected as
/// invalid, regardless of the other contents.
pub proof fn lemma_parse_rejects_overflow(stack: Seq<u64>, overflow: Seq<u64>)
    requires
        stack.len() >= 16,
        overflow.len() > 0,
    ensures
        spec_parse_output_stack(stack, overflow) matches Err(e) && e
            matches TransactionOutputError::OutputStackInvalid(_),
{
}

} // verus!
