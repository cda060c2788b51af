//! What holds of every attempt to enter the alternate screen and of every
//! way back, stated over the model of the terminal.

use vstd::prelude::*;
use crate::alternate::{leave_operations, AlternateScreenView, Entry, EntryStepView};
use crate::command::{AlternateScreenCommand, Backend, Operation};
use crate::error::Outcome;
use crate::terminal::{lemma_after_all_concat, lemma_after_all_short, TerminalState};

verus! {

/// A whole attempt, as the host saw it.
pub struct Attempt {
    /// The operations that the host was asked to perform, in order.
    pub performed: Seq<Operation>,
    /// Those of them that took effect, in order.
    pub effective: Seq<Operation>,
    /// Where the attempt stood when the outcomes ran out or it ended.
    pub end: EntryStepView,
}

/// Runs an attempt on the outcomes that the host reports, one for each
/// operation asked for. Outcomes beyond the attempt's end are not looked at.
pub open spec fn attempt(entry: Entry, outcomes: Seq<Outcome>) -> Attempt
    decreases outcomes.len(),
{
    if outcomes.len() == 0 {
        Attempt {
            performed: Seq::<Operation>::empty(),
            effective: Seq::<Operation>::empty(),
            end: EntryStepView::Continue(entry),
        }
    } else {
        let took = if outcomes[0].is_done() {
            seq![entry.pending()]
        } else {
            Seq::<Operation>::empty()
        };
        match entry.advance_spec(outcomes[0]) {
            EntryStepView::Continue(next) => {
                let rest = attempt(next, outcomes.drop_first());
                Attempt {
                    performed: seq![entry.pending()] + rest.performed,
                    effective: took + rest.effective,
                    end: rest.end,
                }
            },
            end => Attempt { performed: seq![entry.pending()], effective: took, end },
        }
    }
}

/// The operations of an attempt in which nothing fails.
pub open spec fn entry_operations(command: AlternateScreenCommand, raw_mode: bool) -> Seq<
    Operation,
> {
    if raw_mode {
        seq![command.enable(), Operation::EnableRawMode]
    } else {
        seq![command.enable()]
    }
}

/// An operation is one of the given backend's, or one of the two raw-mode
/// operations, which belong to neither backend.
pub open spec fn within_backend(operation: Operation, backend: Backend) -> bool {
    operation.family() == None::<Backend> || operation.family() == Some(backend)
}

/// An attempt is over after three operations at most.
pub proof fn lemma_attempt_ends(
    command: AlternateScreenCommand,
    raw_mode: bool,
    outcomes: Seq<Outcome>,
)
    ensures
        attempt(Entry::begin(command, raw_mode), outcomes).performed.len() <= 3,
        attempt(Entry::begin(command, raw_mode), outcomes).performed.len() <= outcomes.len(),
        outcomes.len() >= 3 ==> !(attempt(Entry::begin(command, raw_mode), outcomes).end is Continue),
{
    reveal_with_fuel(attempt, 4);
    if outcomes.len() > 0 {
        let second = outcomes.drop_first();
        if second.len() > 0 {
            let third = second.drop_first();
            if third.len() > 0 {
                assert(third.drop_first().len() == third.len() - 1);
            }
        }
    }
}

/// An attempt ends in a handle exactly where the switch of buffers and,
/// with raw mode asked for, the switch to raw mode are both reported as
/// done. The handle is then active, keeps the attempt's command and knows
/// of raw mode; and what was performed is what a faultless attempt
/// performs, and all of it took effect.
pub proof fn lemma_entry_succeeds(
    command: AlternateScreenCommand,
    raw_mode: bool,
    outcomes: Seq<Outcome>,
)
    ensures
        ({
            let needed: int = if raw_mode { 2 } else { 1 };
            let run = attempt(Entry::begin(command, raw_mode), outcomes);
            &&& run.end is Entered <==> outcomes.len() >= needed && forall|i: int|
                0 <= i < needed ==> outcomes[i].is_done()
            &&& run.end is Entered ==> {
                &&& run.end == EntryStepView::Entered(Entry::begin(command, raw_mode).entered())
                &&& run.performed == entry_operations(command, raw_mode)
                &&& run.effective == entry_operations(command, raw_mode)
            }
        }),
{
    reveal_with_fuel(attempt, 4);
    let run = attempt(Entry::begin(command, raw_mode), outcomes);
    if outcomes.len() > 0 {
        let second = outcomes.drop_first();
        if second.len() > 0 {
            assert(second[0] == outcomes[1]);
            let third = second.drop_first();
            if third.len() > 0 {
                assert(third.drop_first().len() == third.len() - 1);
            }
        }
    }
    if run.end is Entered {
        assert(run.performed =~= entry_operations(command, raw_mode));
        assert(run.effective =~= entry_operations(command, raw_mode));
    }
}

/// An attempt that ends in an error has either performed nothing but the
/// failed switch of buffers, or has switched the buffers, failed to
/// switch to raw mode and asked for the buffers to be switched back; the
/// error is that of the failed operation.
pub proof fn lemma_entry_fails(
    command: AlternateScreenCommand,
    raw_mode: bool,
    outcomes: Seq<Outcome>,
)
    requires
        attempt(Entry::begin(command, raw_mode), outcomes).end is Rejected,
    ensures
        ({
            let run = attempt(Entry::begin(command, raw_mode), outcomes);
            if outcomes[0].is_done() {
                &&& raw_mode
                &&& outcomes.len() >= 3
                &&& run.performed == seq![
                    command.enable(),
                    Operation::EnableRawMode,
                    command.disable(),
                ]
                &&& outcomes[1].apply_error() == Some(run.end->Rejected_0)
            } else {
                &&& outcomes.len() >= 1
                &&& run.performed == seq![command.enable()]
                &&& run.effective == Seq::<Operation>::empty()
                &&& outcomes[0].apply_error() == Some(run.end->Rejected_0)
            }
        }),
{
    reveal_with_fuel(attempt, 4);
    let run = attempt(Entry::begin(command, raw_mode), outcomes);
    if outcomes.len() > 0 {
        let second = outcomes.drop_first();
        if second.len() > 0 {
            assert(second[0] == outcomes[1]);
            let third = second.drop_first();
            if third.len() > 0 {
                assert(third.drop_first().len() == third.len() - 1);
            }
        }
    }
    if outcomes[0].is_done() {
        assert(run.performed =~= seq![
            command.enable(),
            Operation::EnableRawMode,
            command.disable(),
        ]);
    } else {
        assert(run.performed =~= seq![command.enable()]);
        assert(run.effective =~= Seq::<Operation>::empty());
    }
}

/// Entering and then leaving brings the terminal back to where it was:
/// from a terminal that shows its main screen, the operations of a
/// successful attempt followed by those of the way back end in the state
/// before the attempt. Raw mode may be asked for only of a terminal that
/// is not in raw mode already, since the way back switches it off.
pub proof fn lemma_round_trip(
    state: TerminalState,
    command: AlternateScreenCommand,
    raw_mode: bool,
    outcomes: Seq<Outcome>,
)
    requires
        !state.alternate,
        !(raw_mode && state.raw),
        attempt(Entry::begin(command, raw_mode), outcomes).end is Entered,
    ensures
        ({
            let run = attempt(Entry::begin(command, raw_mode), outcomes);
            let handle = run.end->Entered_0;
            &&& state.after_all(run.effective).alternate
            &&& state.after_all(run.effective).raw == (raw_mode || state.raw)
            &&& state.after_all(run.effective + leave_operations(handle)) == state
        }),
{
    lemma_entry_succeeds(command, raw_mode, outcomes);
    let run = attempt(Entry::begin(command, raw_mode), outcomes);
    let handle = run.end->Entered_0;
    lemma_after_all_concat(state, run.effective, leave_operations(handle));
    let inside = state.after_all(run.effective);
    lemma_after_all_short(state, command.enable(), Operation::EnableRawMode);
    lemma_after_all_short(inside, Operation::DisableRawMode, command.disable());
    lemma_after_all_short(inside, command.disable(), command.disable());
}

/// A failed attempt leaves nothing behind: where the attempt ends in an
/// error and, if the buffers had to be switched back, that was reported
/// as done, the terminal is in the state it was in before.
pub proof fn lemma_failed_entry_leaves_no_trace(
    state: TerminalState,
    command: AlternateScreenCommand,
    raw_mode: bool,
    outcomes: Seq<Outcome>,
)
    requires
        !state.alternate,
        attempt(Entry::begin(command, raw_mode), outcomes).end is Rejected,
        outcomes[0].is_done() ==> outcomes[2].is_done(),
    ensures
        state.after_all(attempt(Entry::begin(command, raw_mode), outcomes).effective) == state,
{
    reveal_with_fuel(attempt, 4);
    lemma_entry_fails(command, raw_mode, outcomes);
    let run = attempt(Entry::begin(command, raw_mode), outcomes);
    if outcomes[0].is_done() {
        let second = outcomes.drop_first();
        assert(second[0] == outcomes[1]);
        let third = second.drop_first();
        assert(third[0] == outcomes[2]);
        assert(run.effective =~= seq![command.enable(), command.disable()]);
        lemma_after_all_short(state, command.enable(), command.disable());
    } else {
        lemma_after_all_short(state, command.enable(), command.disable());
    }
}

/// Leaving twice is leaving once: after the way back was taken, the
/// handle hands out no operation, so the terminal sees the same.
pub proof fn lemma_leave_is_idempotent(state: TerminalState, handle: AlternateScreenView)
    ensures
        ({
            let first = leave_operations(handle);
            let left = AlternateScreenView { active: false, ..handle };
            let second = leave_operations(left);
            &&& second == Seq::<Operation>::empty()
            &&& first + second == first
            &&& state.after_all(first + second) == state.after_all(first)
        }),
{
    let first = leave_operations(handle);
    assert(first + Seq::<Operation>::empty() =~= first);
}

/// Only one backend's operations reach a terminal: whatever the host
/// reports, each operation of an attempt, and each operation of the way
/// back through the handle that it may end in, is one of the backend of
/// the attempt's command, or a switch of raw mode.
pub proof fn lemma_backend_exclusive(entry: Entry, outcomes: Seq<Outcome>)
    ensures
        forall|i: int|
            0 <= i < attempt(entry, outcomes).performed.len() ==> within_backend(
                #[trigger] attempt(entry, outcomes).performed[i],
                entry.command.backend(),
            ),
        attempt(entry, outcomes).end matches EntryStepView::Entered(handle) ==> {
            &&& handle.command == entry.command
            &&& forall|i: int|
                0 <= i < leave_operations(handle).len() ==> within_backend(
                    #[trigger] leave_operations(handle)[i],
                    entry.command.backend(),
                )
        },
        attempt(entry, outcomes).end matches EntryStepView::Continue(next) ==> next.command
            == entry.command,
    decreases outcomes.len(),
{
    if outcomes.len() > 0 {
        match entry.advance_spec(outcomes[0]) {
            EntryStepView::Continue(next) => {
                lemma_backend_exclusive(next, outcomes.drop_first());
            },
            _ => {},
        }
    }
}

/// The way back through an active handle always ends on the main screen,
/// whatever state the terminal is in when it is taken, and in cooked mode
/// where the handle had switched raw mode on; raw mode is switched off
/// before the main screen is shown.
pub proof fn lemma_leave_restores_main_screen(state: TerminalState, handle: AlternateScreenView)
    requires
        handle.active,
    ensures
        !state.after_all(leave_operations(handle)).alternate,
        handle.screen.raw_mode ==> !state.after_all(leave_operations(handle)).raw,
        !handle.screen.raw_mode ==> state.after_all(leave_operations(handle)).raw == state.raw,
        leave_operations(handle).last() == handle.command.disable(),
        handle.screen.raw_mode ==> leave_operations(handle) == seq![
            Operation::DisableRawMode,
            handle.command.disable(),
        ],
{
    lemma_after_all_short(state, Operation::DisableRawMode, handle.command.disable());
    lemma_after_all_short(state, handle.command.disable(), handle.command.disable());
}

} // verus!
