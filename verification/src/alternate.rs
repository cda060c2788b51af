//! The screen handle, and the steps that lead into the alternate screen
//! and back out of it.
//!
//! Nix style applications often use the alternate screen buffer, so that
//! they can change the whole screen without touching what the program that
//! started them left there. The alternate buffer has exactly the size of
//! the window and no scrollback: an editor started from a shell draws on
//! it, and when the editor ends the shell's screen is back unchanged.

use vstd::prelude::*;
use crate::command::{AlternateScreenCommand, Operation};
use crate::error::{Error, Outcome};
use crate::selector::{select_alternate_screen_command, selected_command, HostCapabilities};

verus! {

/// What the library knows of the output target that a handle stands for.
#[derive(Clone, Copy, Debug, PartialEq, Eq, Structural)]
pub struct Screen {
    /// Raw mode was switched on together with the alternate screen, and
    /// has to be switched off on the way back.
    pub raw_mode: bool,
}

/// The handle to a terminal that was switched to its alternate screen. It
/// keeps the command that made the switch, so that the way back goes
/// through the same backend.
#[derive(Debug)]
pub struct AlternateScreen {
    command: AlternateScreenCommand,
    screen: Screen,
    active: bool,
}

/// What a handle holds, for use in contracts.
pub struct AlternateScreenView {
    /// The command that made, or would make, the switch.
    pub command: AlternateScreenCommand,
    pub screen: Screen,
    /// The alternate screen is on and has not been left through this
    /// handle.
    pub active: bool,
}

impl View for AlternateScreen {
    type V = AlternateScreenView;

    closed spec fn view(&self) -> AlternateScreenView {
        AlternateScreenView { command: self.command, screen: self.screen, active: self.active }
    }
}

/// How far an attempt to enter the alternate screen has come.
#[derive(Clone, Copy, Debug, PartialEq, Eq, Structural)]
pub enum EntryStage {
    /// The switch of buffers is asked for.
    Applying,
    /// The buffers are switched; raw mode is asked for.
    EnablingRaw,
    /// Raw mode failed with the error kept here; the switch of buffers is
    /// being taken back.
    RollingBack(Error),
}

/// An attempt to enter the alternate screen that has not ended yet.
#[derive(Clone, Copy, Debug, PartialEq, Eq, Structural)]
pub struct Entry {
    pub command: AlternateScreenCommand,
    pub raw_mode: bool,
    pub stage: EntryStage,
}

/// Where an attempt stands after the host reported on an operation.
#[derive(Debug)]
pub enum EntryStep {
    /// Another operation is to be performed.
    Continue(Entry),
    /// The alternate screen is on; the handle leads back.
    Entered(AlternateScreen),
    /// The attempt failed, and no handle exists.
    Rejected(Error),
}

/// An `EntryStep` with the handle replaced by what it holds.
pub enum EntryStepView {
    Continue(Entry),
    Entered(AlternateScreenView),
    Rejected(Error),
}

impl View for EntryStep {
    type V = EntryStepView;

    open spec fn view(&self) -> EntryStepView {
        match *self {
            EntryStep::Continue(entry) => EntryStepView::Continue(entry),
            EntryStep::Entered(handle) => EntryStepView::Entered(handle@),
            EntryStep::Rejected(error) => EntryStepView::Rejected(error),
        }
    }
}

/// The operations that lead a handle's terminal back: none where the
/// handle is not active; else raw mode is switched off first, where the
/// handle switched it on, and the main screen comes back last.
pub open spec fn leave_operations(handle: AlternateScreenView) -> Seq<Operation> {
    if !handle.active {
        Seq::<Operation>::empty()
    } else if handle.screen.raw_mode {
        seq![Operation::DisableRawMode, handle.command.disable()]
    } else {
        seq![handle.command.disable()]
    }
}

/// The error of the first outcome that is not `Done`, if there is one.
pub open spec fn first_revert_error(outcomes: Seq<Outcome>) -> Option<Error>
    decreases outcomes.len(),
{
    if outcomes.len() == 0 {
        None
    } else if outcomes[0].is_done() {
        first_revert_error(outcomes.drop_first())
    } else {
        outcomes[0].revert_error()
    }
}

impl Entry {
    /// An attempt of which nothing has been performed yet.
    pub open spec fn begin(command: AlternateScreenCommand, raw_mode: bool) -> Entry {
        Entry { command, raw_mode, stage: EntryStage::Applying }
    }

    /// The operation that the host has to perform now.
    pub open spec fn pending_spec(self) -> Operation {
        match self.stage {
            EntryStage::Applying => self.command.enable(),
            EntryStage::EnablingRaw => Operation::EnableRawMode,
            EntryStage::RollingBack(_) => self.command.disable(),
        }
    }

    /// The handle that a successful attempt ends in.
    pub open spec fn entered(self) -> AlternateScreenView {
        AlternateScreenView {
            command: self.command,
            screen: Screen { raw_mode: self.raw_mode },
            active: true,
        }
    }

    /// Where the attempt stands once the pending operation ended in
    /// `outcome`.
    ///
    /// A failed switch of buffers ends the attempt at once. A failure of
    /// raw mode first takes the switch of buffers back and then ends the
    /// attempt with the error of raw mode, however taking back went.
    pub open spec fn advance_spec(self, outcome: Outcome) -> EntryStepView {
        match self.stage {
            EntryStage::Applying => match outcome.apply_error() {
                Some(error) => EntryStepView::Rejected(error),
                None => if self.raw_mode {
                    EntryStepView::Continue(
                        Entry {
                            command: self.command,
                            raw_mode: self.raw_mode,
                            stage: EntryStage::EnablingRaw,
                        },
                    )
                } else {
                    EntryStepView::Entered(self.entered())
                },
            },
            EntryStage::EnablingRaw => match outcome.apply_error() {
                Some(error) => EntryStepView::Continue(
                    Entry {
                        command: self.command,
                        raw_mode: self.raw_mode,
                        stage: EntryStage::RollingBack(error),
                    },
                ),
                None => EntryStepView::Entered(self.entered()),
            },
            EntryStage::RollingBack(error) => EntryStepView::Rejected(error),
        }
    }

    #[verifier::when_used_as_spec(pending_spec)]
    pub fn pending(self) -> (operation: Operation)
        ensures
            operation == self.pending_spec(),
    {
        match self.stage {
            EntryStage::Applying => self.command.enable(),
            EntryStage::EnablingRaw => Operation::EnableRawMode,
            EntryStage::RollingBack(_) => self.command.disable(),
        }
    }

    /// Takes the host's report on the pending operation and decides how
    /// the attempt goes on.
    pub fn advance(self, outcome: Outcome) -> (step: EntryStep)
        ensures
            step@ == self.advance_spec(outcome),
    {
        match self.stage {
            EntryStage::Applying => match outcome.apply_error() {
                Some(error) => EntryStep::Rejected(error),
                None => {
                    if self.raw_mode {
                        EntryStep::Continue(
                            Entry {
                                command: self.command,
                                raw_mode: self.raw_mode,
                                stage: EntryStage::EnablingRaw,
                            },
                        )
                    } else {
                        EntryStep::Entered(self.handle())
                    }
                },
            },
            EntryStage::EnablingRaw => match outcome.apply_error() {
                Some(error) => EntryStep::Continue(
                    Entry {
                        command: self.command,
                        raw_mode: self.raw_mode,
                        stage: EntryStage::RollingBack(error),
                    },
                ),
                None => EntryStep::Entered(self.handle()),
            },
            EntryStage::RollingBack(error) => EntryStep::Rejected(error),
        }
    }

    fn handle(self) -> (handle: AlternateScreen)
        ensures
            handle@ == self.entered(),
    {
        AlternateScreen {
            command: self.command,
            screen: Screen { raw_mode: self.raw_mode },
            active: true,
        }
    }
}

impl AlternateScreen {
    /// A handle for a terminal that shows its main screen: there is
    /// nothing to lead back from until an entry has succeeded.
    pub fn new(command: AlternateScreenCommand, screen: Screen) -> (handle: Self)
        ensures
            handle@ == (AlternateScreenView { command, screen, active: false }),
    {
        AlternateScreen { command, screen, active: false }
    }

    /// Starts the switch to the alternate screen: resolves the command for
    /// this host and asks for its first operation. With `raw_mode` the
    /// terminal is put into raw mode once the buffers are switched.
    ///
    /// The host performs `pending()` and hands the outcome to `advance`,
    /// until that ends in a handle or in an error.
    pub fn to_alternate_screen(host: HostCapabilities, raw_mode: bool) -> (entry: Entry)
        ensures
            entry == Entry::begin(selected_command(host), raw_mode),
    {
        Entry {
            command: select_alternate_screen_command(host),
            raw_mode,
            stage: EntryStage::Applying,
        }
    }

    /// Switches back to the main screen: hands out the operations that the
    /// host has to perform, in this order and all of them even where one
    /// fails, and stops being active. On a handle that is not active this
    /// hands out nothing and changes nothing.
    pub fn to_main_screen(&mut self) -> (operations: Vec<Operation>)
        ensures
            operations@ == leave_operations(old(self)@),
            final(self)@ == (AlternateScreenView { active: false, ..old(self)@ }),
    {
        let mut operations: Vec<Operation> = Vec::new();
        if self.active {
            if self.screen.raw_mode {
                operations.push(Operation::DisableRawMode);
            }
            operations.push(self.command.disable());
            self.active = false;
        }
        assert(operations@ =~= leave_operations(old(self)@));
        operations
    }

    /// What the switch back came to, from the outcomes of its operations:
    /// success where each of them is `Done`, else the error of the first
    /// that is not.
    pub fn restored(outcomes: &Vec<Outcome>) -> (result: Result<(), Error>)
        ensures
            result == match first_revert_error(outcomes@) {
                Some(error) => Err::<(), Error>(error),
                None => Ok::<(), Error>(()),
            },
            result.is_ok() <==> forall|i: int| 0 <= i < outcomes@.len() ==> outcomes@[i].is_done(),
    {
        let mut i: usize = 0;
        assert(outcomes@.skip(0) =~= outcomes@);
        while i < outcomes.len()
            invariant
                0 <= i <= outcomes.len(),
                forall|j: int| 0 <= j < i ==> outcomes@[j].is_done(),
                first_revert_error(outcomes@) == first_revert_error(outcomes@.skip(i as int)),
            decreases outcomes.len() - i,
        {
            let outcome: Outcome = outcomes[i];
            proof {
                let rest = outcomes@.skip(i as int);
                assert(rest[0] == outcomes@[i as int]);
                assert(rest.drop_first() =~= outcomes@.skip(i + 1));
            }
            match outcome.revert_error() {
                Some(error) => {
                    assert(!outcomes@[i as int].is_done());
                    return Err(error);
                },
                None => {},
            }
            i = i + 1;
        }
        assert(outcomes@.skip(i as int).len() == 0);
        Ok(())
    }

    /// The alternate screen is on and has not been left through this handle.
    pub fn is_active(&self) -> (active: bool)
        ensures
            active == self@.active,
    {
        self.active
    }

    /// The command that the handle keeps.
    pub fn command(&self) -> (command: AlternateScreenCommand)
        ensures
            command == self@.command,
    {
        self.command
    }

    pub fn screen(&self) -> (screen: Screen)
        ensures
            screen == self@.screen,
    {
        self.screen
    }
}

} // verus!
