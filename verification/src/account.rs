//! Account identity and the final account stub decoded from advice-map data.
//!
//! The kernel program commits only a hash of the post-transaction account
//! state on its output stack; the full state travels through the advice map
//! as a flat element sequence. This module groups that sequence into words
//! and decodes the words into a structured stub. The hash binding itself is
//! established by the VM proof, not re-verified here: this step purely
//! decodes.

use vstd::prelude::*;
use crate::errors::AccountStubError;
use crate::felt::{felt_valid, word_from_seq, Word};

verus! {

/// Number of words a well-formed final account stub occupies.
pub const ACCOUNT_STUB_NUM_WORDS: usize = 4;

/// Opaque numeric handle uniquely naming an account; convertible to a single
/// stack element.
#[derive(Clone, Copy, Debug, PartialEq, Eq, Structural)]
pub struct AccountId {
    pub value: u64,
}

impl AccountId {
    /// The handle is a canonical field-element representative.
    pub open spec fn wf(self) -> bool {
        felt_valid(self.value)
    }

    /// Wraps a validated handle value.
    pub fn new(value: u64) -> (r: AccountId)
        requires
            felt_valid(value),
        ensures
            r == (AccountId { value }),
    {
        AccountId { value }
    }
}

/// Structured representation of an account's post-transaction state, decoded
/// from the four words the kernel program stores in the advice map: the first
/// word carries the identifier and the nonce, the remaining three carry the
/// roots of the account's vault, storage and code.
#[derive(Clone, Copy, Debug, PartialEq, Eq, Structural)]
pub struct FinalAccountStub {
    pub id: AccountId,
    pub nonce: u64,
    pub vault_root: Word,
    pub storage_root: Word,
    pub code_root: Word,
}

impl FinalAccountStub {
    /// Every field element of the stub is canonical.
    pub open spec fn wf(self) -> bool {
        self.id.wf() && felt_valid(self.nonce) && self.vault_root.wf() && self.storage_root.wf()
            && self.code_root.wf()
    }
}

/// The stub described by four data words: identifier and nonce from the first
/// word, then the vault, storage and code roots.
pub open spec fn spec_decode_stub(words: Seq<Word>) -> FinalAccountStub
    recommends
        words.len() == ACCOUNT_STUB_NUM_WORDS,
{
    FinalAccountStub {
        id: AccountId { value: words[0].e0 },
        nonce: words[0].e3,
        vault_root: words[1],
        storage_root: words[2],
        code_root: words[3],
    }
}

/// Groups a flat element sequence into whole 4-element words, failing
/// explicitly when the length is not a multiple of the word size: advice-map
/// content originates from an external execution and is not trusted to be
/// well-shaped.
pub fn group_into_words(elements: &Vec<u64>) -> (r: Result<Vec<Word>, AccountStubError>)
    ensures
        elements@.len() % 4 != 0 ==> r == Err::<Vec<Word>, AccountStubError>(
            AccountStubError::NotWordAligned,
        ),
        elements@.len() % 4 == 0 ==> {
            &&& r matches Ok(words)
            &&& words@.len() == elements@.len() / 4
            &&& forall|i: int|
                0 <= i < words@.len() ==> #[trigger] words@[i] == word_from_seq(
                    elements@.subrange(4 * i, 4 * i + 4),
                )
        },
{
    if elements.len() % 4 != 0 {
        return Err(AccountStubError::NotWordAligned);
    }
    let mut words: Vec<Word> = Vec::new();
    let mut i: usize = 0;
    while i < elements.len()
        invariant
            elements@.len() % 4 == 0,
            i % 4 == 0,
            i <= elements@.len(),
            words@.len() == i / 4,
            forall|j: int|
                0 <= j < words@.len() ==> #[trigger] words@[j] == word_from_seq(
                    elements@.subrange(4 * j, 4 * j + 4),
                ),
        decreases elements@.len() - i,
    {
        let w = Word {
            e0: elements[i],
            e1: elements[i + 1],
            e2: elements[i + 2],
            e3: elements[i + 3],
        };
        proof {
            assert(w =~= word_from_seq(elements@.subrange(4 * (i as int / 4), 4 * (i as int / 4)
                + 4)));
        }
        words.push(w);
        i = i + 4;
    }
    Ok(words)
}

/// Decodes grouped advice data into a final account stub, failing when the
/// data does not hold exactly the expected number of words.
pub fn parse_final_account_stub(words: &Vec<Word>) -> (r: Result<
    FinalAccountStub,
    AccountStubError,
>)
    ensures
        words@.len() == ACCOUNT_STUB_NUM_WORDS ==> r == Ok::<FinalAccountStub, AccountStubError>(
            spec_decode_stub(words@),
        ),
        words@.len() != ACCOUNT_STUB_NUM_WORDS ==> r == Err::<FinalAccountStub, AccountStubError>(
            AccountStubError::UnexpectedNumberOfWords,
        ),
{
    if words.len() != ACCOUNT_STUB_NUM_WORDS {
        return Err(AccountStubError::UnexpectedNumberOfWords);
    }
    Ok(
        FinalAccountStub {
            id: AccountId { value: words[0].e0 },
            nonce: words[0].e3,
            vault_root: words[1],
            storage_root: words[2],
            code_root: words[3],
        },
    )
}

} // verus!
