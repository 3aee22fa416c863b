//! The fixed-width stack interface through which the host and the kernel
//! program exchange data at the start and end of an execution.
//!
//! Both containers carry canonical field-element representatives. The layout
//! of each is a protocol contract shared with the independently authored
//! kernel program, not an implementation detail.

use vstd::prelude::*;
use crate::felt::{felt_valid, Word};

verus! {

/// Number of elements the kernel expects on its initial stack.
pub const STACK_INPUT_LEN: usize = 18;

/// Width of the top of the VM's output stack, in elements.
pub const STACK_TOP_SIZE: usize = 16;

/// Largest number of elements an output stack may report.
pub const MAX_STACK_OUTPUTS_SIZE: usize = 0xffff;

/// Ordered sequence of field elements consumed by the kernel program in
/// last-pushed-first-popped order: the element written last sits on top of
/// the stack when execution starts.
pub struct StackInputs {
    values: Vec<u64>,
}

impl View for StackInputs {
    type V = Seq<u64>;

    closed spec fn view(&self) -> Seq<u64> {
        self.values@
    }
}

impl StackInputs {
    /// Every value is a canonical field-element representative.
    pub open spec fn wf(self) -> bool {
        forall|i: int| 0 <= i < self@.len() ==> felt_valid(#[trigger] self@[i])
    }

    /// Wraps an already validated value sequence, in the order the values are
    /// pushed onto the stack.
    pub fn new(values: Vec<u64>) -> (r: Self)
        requires
            forall|i: int| 0 <= i < values@.len() ==> felt_valid(#[trigger] values@[i]),
        ensures
            r@ == values@,
            r.wf(),
    {
        StackInputs { values }
    }

    /// Read access to the value sequence, in push order.
    pub fn values(&self) -> (r: &Vec<u64>)
        ensures
            r@ == self@,
    {
        &self.values
    }
}

/// Length of the overflow region an output stack of `stack_len` elements must
/// report: one address per element beyond the stack top, plus the previous
/// address of the deepest row, and none at all when everything fits.
pub open spec fn spec_overflow_len(stack_len: int) -> int {
    if stack_len > STACK_TOP_SIZE { stack_len + 1 - STACK_TOP_SIZE } else { 0 }
}

/// The word starting at element offset `idx` of a top-first stack: a word
/// `[a, b, c, d]` is stored on the stack as `[d, c, b, a]`, so the four
/// elements are read back in reverse.
pub open spec fn stack_word_at(stack: Seq<u64>, idx: int) -> Word
    recommends
        0 <= idx,
        idx + 4 <= stack.len(),
{
    Word { e0: stack[idx + 3], e1: stack[idx + 2], e2: stack[idx + 1], e3: stack[idx] }
}

/// State of the VM's stack at the end of an execution, top first, together
/// with the overflow-table row addresses. Produced by the VM and read-only to
/// this crate's parsing.
pub struct StackOutputs {
    stack: Vec<u64>,
    overflow_addrs: Vec<u64>,
}

impl StackOutputs {
    /// The elements on the stack at the end of execution, top first.
    pub closed spec fn stack_view(self) -> Seq<u64> {
        self.stack@
    }

    /// The overflow-table row addresses.
    pub closed spec fn overflow_view(self) -> Seq<u64> {
        self.overflow_addrs@
    }

    /// The stack holds at least the 16-element top, at most the largest
    /// reportable size, every element and address is a canonical field
    /// element, and the overflow region is exactly as long as the elements
    /// beyond the top require.
    pub open spec fn wf(self) -> bool {
        &&& STACK_TOP_SIZE <= self.stack_view().len() <= MAX_STACK_OUTPUTS_SIZE
        &&& forall|i: int|
            0 <= i < self.stack_view().len() ==> felt_valid(#[trigger] self.stack_view()[i])
        &&& forall|i: int|
            0 <= i < self.overflow_view().len() ==> felt_valid(#[trigger] self.overflow_view()[i])
        &&& self.overflow_view().len() == spec_overflow_len(self.stack_view().len() as int)
    }

    /// Wraps validated stack elements and overflow addresses, zero-padding
    /// the stack up to the 16-element top.
    pub fn new(stack: Vec<u64>, overflow_addrs: Vec<u64>) -> (r: Self)
        requires
            stack@.len() <= MAX_STACK_OUTPUTS_SIZE,
            forall|i: int| 0 <= i < stack@.len() ==> felt_valid(#[trigger] stack@[i]),
            forall|i: int|
                0 <= i < overflow_addrs@.len() ==> felt_valid(#[trigger] overflow_addrs@[i]),
            overflow_addrs@.len() == spec_overflow_len(stack@.len() as int),
        ensures
            r.wf(),
            stack@.len() >= STACK_TOP_SIZE ==> r.stack_view() == stack@,
            stack@.len() < STACK_TOP_SIZE ==> r.stack_view() == stack@ + Seq::<u64>::new(
                (STACK_TOP_SIZE - stack@.len()) as nat,
                |i: int| 0u64,
            ),
            r.overflow_view() == overflow_addrs@,
    {
        let mut stack = stack;
        let ghost given = stack@;
        while stack.len() < STACK_TOP_SIZE
            invariant
                given.len() <= stack@.len() <= STACK_TOP_SIZE || stack@ == given,
                stack@.subrange(0, given.len() as int) == given,
                forall|i: int| given.len() <= i < stack@.len() ==> #[trigger] stack@[i] == 0u64,
            decreases STACK_TOP_SIZE - stack.len(),
        {
            stack.push(0u64);
        }
        proof {
            if given.len() < STACK_TOP_SIZE {
                assert(stack@ =~= given + Seq::<u64>::new(
                    (STACK_TOP_SIZE - given.len()) as nat,
                    |i: int| 0u64,
                ));
            } else {
                assert(stack@ =~= given);
            }
        }
        StackOutputs { stack, overflow_addrs }
    }

    /// Returns the word starting at element offset `idx`, or `None` if the
    /// stack does not extend that far.
    pub fn get_stack_word(&self, idx: usize) -> (r: Option<Word>)
        ensures
            idx + 4 <= self.stack_view().len() ==> r == Some(
                stack_word_at(self.stack_view(), idx as int),
            ),
            idx + 4 > self.stack_view().len() ==> r is None,
    {
        if self.stack.len() >= 4 && idx <= self.stack.len() - 4 {
            Some(
                Word {
                    e0: self.stack[idx + 3],
                    e1: self.stack[idx + 2],
                    e2: self.stack[idx + 1],
                    e3: self.stack[idx],
                },
            )
        } else {
            None
        }
    }

    /// True when the overflow table is non-empty.
    pub fn has_overflow(&self) -> (r: bool)
        ensures
            r == (self.overflow_view().len() > 0),
    {
        self.overflow_addrs.len() > 0
    }

    /// Read access to the stack elements, top first.
    pub fn stack(&self) -> (r: &Vec<u64>)
        ensures
            r@ == self.stack_view(),
    {
        &self.stack
    }

    /// Read access to the overflow-table row addresses.
    pub fn overflow_addrs(&self) -> (r: &Vec<u64>)
        ensures
            r@ == self.overflow_view(),
    {
        &self.overflow_addrs
    }
}

} // verus!
