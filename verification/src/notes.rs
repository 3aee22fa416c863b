//! The collection of notes a transaction created.
//!
//! Individual notes are validated and owned by the caller; this crate treats
//! them as opaque values of `miden_objects`' `OutputNote` type. Building the
//! collection (which enforces a size cap and pairwise distinct note
//! identifiers) and computing its aggregate commitment are the collaborator's
//! work, taken on trust through the wrappers below; the identifiers and the
//! commitment are modelled by the uninterpreted functions `note_id` and
//! `notes_commitment`, both functions of the notes alone.

use vstd::prelude::*;
use crate::felt::{zero_word, Word};
use miden_objects::StarkField;

verus! {

/// Largest number of notes a single transaction may create; mirrors the
/// collaborator's limit of the same name.
pub const MAX_OUTPUT_NOTES_PER_TX: usize = 4096;

#[verifier::external_type_specification]
#[verifier::external_body]
pub struct ExOutputNote(miden_objects::transaction::OutputNote);

/// The unique identifier of a note, as the four canonical elements of its
/// identifying digest.
pub uninterp spec fn note_id(note: miden_objects::transaction::OutputNote) -> Seq<u64>;

/// The notes a validated collection holds, in order.
pub uninterp spec fn held_notes(notes: OutputNotes) -> Seq<
    miden_objects::transaction::OutputNote,
>;

/// The aggregate commitment over a note sequence, as four canonical
/// elements: a sequential hash of each note's identifier and metadata.
pub uninterp spec fn notes_commitment(notes: Seq<miden_objects::transaction::OutputNote>) -> Seq<
    u64,
>;

/// No two notes of the sequence share an identifier.
pub open spec fn no_duplicate_ids(notes: Seq<miden_objects::transaction::OutputNote>) -> bool {
    forall|i: int, j: int|
        #![trigger note_id(notes[i]), note_id(notes[j])]
        0 <= i < j < notes.len() ==> note_id(notes[i]) != note_id(notes[j])
}

/// An ordered collection of output notes that passed the collaborator's
/// structural validation, together with its aggregate commitment.
#[verifier::external_body]
pub struct OutputNotes {
    inner: miden_objects::transaction::OutputNotes,
}

/// Relies on miden_objects' OutputNotes::new: it accepts a note list exactly
/// when the list holds at most `MAX_OUTPUT_NOTES_PER_TX` notes with pairwise
/// distinct identifiers, and then stores the list unchanged.
#[verifier::external_body]
pub(crate) fn output_notes_new(notes: Vec<miden_objects::transaction::OutputNote>) -> (r: Option<
    OutputNotes,
>)
    ensures
        r matches Some(n) ==> held_notes(n) == notes@ && notes@.len() <= MAX_OUTPUT_NOTES_PER_TX
            && no_duplicate_ids(notes@),
        r is None ==> notes@.len() > MAX_OUTPUT_NOTES_PER_TX || (exists|i: int, j: int|
            0 <= i < j < notes@.len() && note_id(notes@[i]) == note_id(notes@[j])),
{
    miden_objects::transaction::OutputNotes::new(notes).ok().map(|inner| OutputNotes { inner })
}

impl OutputNotes {
    /// Relies on miden_objects' OutputNotes::commitment: a digest computed
    /// from the held notes alone, and the zero digest when no note is held.
    #[verifier::external_body]
    pub fn commitment(&self) -> (r: Word)
        ensures
            r@ == notes_commitment(held_notes(*self)),
            r.wf(),
            held_notes(*self).len() == 0 ==> r == zero_word(),
    {
        let elements = self.inner.commitment();
        let elements = elements.as_elements();
        Word {
            e0: elements[0].as_int(),
            e1: elements[1].as_int(),
            e2: elements[2].as_int(),
            e3: elements[3].as_int(),
        }
    }

    /// Relies on miden_objects' OutputNotes::num_notes.
    #[verifier::external_body]
    pub fn num_notes(&self) -> (r: usize)
        ensures
            r == held_notes(*self).len(),
    {
        self.inner.num_notes()
    }
}

} // verus!
