//! A model of what a terminal does with the operations performed on it.

use vstd::prelude::*;
use crate::command::Operation;

verus! {

/// The two axes of a terminal's mode: which screen buffer shows, and
/// which line discipline reads the keyboard.
#[derive(Clone, Copy, Debug, PartialEq, Eq, Structural)]
pub struct TerminalState {
    /// The alternate screen buffer is showing.
    pub alternate: bool,
    /// The line discipline is raw.
    pub raw: bool,
}

impl TerminalState {
    /// Main screen, cooked line discipline.
    pub open spec fn initial_spec() -> TerminalState {
        TerminalState { alternate: false, raw: false }
    }

    /// The state after one operation took effect. Each operation sets one
    /// axis and leaves the other alone.
    pub open spec fn after(self, operation: Operation) -> TerminalState {
        match operation {
            Operation::WriteEnterSequence | Operation::ActivateSecondaryBuffer => TerminalState {
                alternate: true,
                raw: self.raw,
            },
            Operation::WriteLeaveSequence | Operation::RestoreOriginalBuffer => TerminalState {
                alternate: false,
                raw: self.raw,
            },
            Operation::EnableRawMode => TerminalState { alternate: self.alternate, raw: true },
            Operation::DisableRawMode => TerminalState { alternate: self.alternate, raw: false },
        }
    }

    /// The state after a sequence of operations took effect, first to last.
    pub open spec fn after_all(self, operations: Seq<Operation>) -> TerminalState
        decreases operations.len(),
    {
        if operations.len() == 0 {
            self
        } else {
            self.after_all(operations.drop_last()).after(operations.last())
        }
    }

    #[verifier::when_used_as_spec(initial_spec)]
    pub fn initial() -> (state: TerminalState)
        ensures
            state == TerminalState::initial_spec(),
    {
        TerminalState { alternate: false, raw: false }
    }

    /// Carries one operation out on the model.
    pub fn perform(self, operation: Operation) -> (next: TerminalState)
        ensures
            next == self.after(operation),
    {
        match operation {
            Operation::WriteEnterSequence => TerminalState { alternate: true, raw: self.raw },
            Operation::ActivateSecondaryBuffer => TerminalState { alternate: true, raw: self.raw },
            Operation::WriteLeaveSequence => TerminalState { alternate: false, raw: self.raw },
            Operation::RestoreOriginalBuffer => TerminalState { alternate: false, raw: self.raw },
            Operation::EnableRawMode => TerminalState { alternate: self.alternate, raw: true },
            Operation::DisableRawMode => TerminalState { alternate: self.alternate, raw: false },
        }
    }

    /// Carries a list of operations out on the model, first to last.
    pub fn perform_all(self, operations: &Vec<Operation>) -> (next: TerminalState)
        ensures
            next == self.after_all(operations@),
    {
        let mut state: TerminalState = self;
        let mut i: usize = 0;
        while i < operations.len()
            invariant
                0 <= i <= operations.len(),
                state == self.after_all(operations@.take(i as int)),
            decreases operations.len() - i,
        {
            proof {
                let longer = operations@.take(i + 1);
                assert(longer.drop_last() =~= operations@.take(i as int));
                assert(longer.last() == operations@[i as int]);
            }
            state = state.perform(operations[i]);
            i = i + 1;
        }
        proof {
            assert(operations@.take(i as int) =~= operations@);
        }
        state
    }
}

/// Operations that took effect one after another act as their
/// concatenation.
pub proof fn lemma_after_all_concat(
    state: TerminalState,
    first: Seq<Operation>,
    second: Seq<Operation>,
)
    ensures
        state.after_all(first + second) == state.after_all(first).after_all(second),
    decreases second.len(),
{
    if second.len() == 0 {
        assert(first + second =~= first);
    } else {
        lemma_after_all_concat(state, first, second.drop_last());
        assert((first + second).drop_last() =~= first + second.drop_last());
        assert((first + second).last() == second.last());
    }
}

/// A single operation acts as itself, and two act one after the other.
pub proof fn lemma_after_all_short(state: TerminalState, first: Operation, second: Operation)
    ensures
        state.after_all(Seq::<Operation>::empty()) == state,
        state.after_all(seq![first]) == state.after(first),
        state.after_all(seq![first, second]) == state.after(first).after(second),
{
    assert(seq![first].drop_last() =~= Seq::<Operation>::empty());
    assert(seq![first, second].drop_last() =~= seq![first]);
    assert(state.after_all(seq![first]) == state.after_all(seq![first].drop_last()).after(first));
    assert(state.after_all(seq![first, second]) == state.after_all(
        seq![first, second].drop_last(),
    ).after(second));
}

/// Both raw-mode operations are idempotent: performing one twice in a row
/// leaves the terminal where performing it once does.
pub proof fn lemma_raw_mode_idempotent(state: TerminalState)
    ensures
        state.after(Operation::EnableRawMode).after(Operation::EnableRawMode) == state.after(
            Operation::EnableRawMode,
        ),
        state.after(Operation::DisableRawMode).after(Operation::DisableRawMode) == state.after(
            Operation::DisableRawMode,
        ),
{
}

} // verus!
