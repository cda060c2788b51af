//! The operations a host can be asked to perform on a terminal, and the
//! two backend families that switch screen buffers.

use vstd::prelude::*;

verus! {

/// One of the two interchangeable ways of switching screen buffers.
#[derive(Clone, Copy, Debug, PartialEq, Eq, Structural)]
pub enum Backend {
    /// Control sequences written to the output byte stream.
    EscapeSequence,
    /// Calls into the host's console subsystem.
    NativeConsole,
}

/// A single unit of work that the host performs on the terminal.
#[derive(Clone, Copy, Debug, PartialEq, Eq, Structural)]
pub enum Operation {
    /// Write the sequence that enters the alternate screen, then flush.
    WriteEnterSequence,
    /// Write the sequence that leaves the alternate screen, then flush.
    WriteLeaveSequence,
    /// Allocate or reuse a secondary console buffer and make it active.
    ActivateSecondaryBuffer,
    /// Make the console buffer that was active before active again.
    RestoreOriginalBuffer,
    /// Switch the line discipline to raw.
    EnableRawMode,
    /// Switch the line discipline back to cooked.
    DisableRawMode,
}

/// The bytes `ESC [ ? 1 0 4 9 h`.
pub open spec fn enter_sequence() -> Seq<u8> {
    seq![0x1bu8, 0x5bu8, 0x3fu8, 0x31u8, 0x30u8, 0x34u8, 0x39u8, 0x68u8]
}

/// The bytes `ESC [ ? 1 0 4 9 l`.
pub open spec fn leave_sequence() -> Seq<u8> {
    seq![0x1bu8, 0x5bu8, 0x3fu8, 0x31u8, 0x30u8, 0x34u8, 0x39u8, 0x6cu8]
}

/// The escape-sequence command: it knows the two control sequences.
#[derive(Clone, Copy, Debug, PartialEq, Eq, Structural)]
pub struct ToAlternateScreenBufferCommand;

impl ToAlternateScreenBufferCommand {
    pub fn new() -> (command: Self)
        ensures
            command == ToAlternateScreenBufferCommand,
    {
        ToAlternateScreenBufferCommand
    }

    /// The bytes that switch the terminal to the alternate screen.
    pub fn execute(&self) -> (bytes: Vec<u8>)
        ensures
            bytes@ == enter_sequence(),
    {
        let bytes: Vec<u8> = vec![0x1bu8, 0x5bu8, 0x3fu8, 0x31u8, 0x30u8, 0x34u8, 0x39u8, 0x68u8];
        assert(bytes@ =~= enter_sequence());
        bytes
    }

    /// The bytes that switch the terminal back to the main screen.
    pub fn undo(&self) -> (bytes: Vec<u8>)
        ensures
            bytes@ == leave_sequence(),
    {
        let bytes: Vec<u8> = vec![0x1bu8, 0x5bu8, 0x3fu8, 0x31u8, 0x30u8, 0x34u8, 0x39u8, 0x6cu8];
        assert(bytes@ =~= leave_sequence());
        bytes
    }
}

/// The command that a screen handle stores: one variant per backend family.
#[derive(Clone, Copy, Debug, PartialEq, Eq, Structural)]
pub enum AlternateScreenCommand {
    EscapeSequence(ToAlternateScreenBufferCommand),
    NativeConsole,
}

impl AlternateScreenCommand {
    /// The backend family this command belongs to.
    pub open spec fn backend_spec(self) -> Backend {
        match self {
            AlternateScreenCommand::EscapeSequence(_) => Backend::EscapeSequence,
            AlternateScreenCommand::NativeConsole => Backend::NativeConsole,
        }
    }

    /// The operation that switches to the alternate screen.
    pub open spec fn enable_spec(self) -> Operation {
        match self {
            AlternateScreenCommand::EscapeSequence(_) => Operation::WriteEnterSequence,
            AlternateScreenCommand::NativeConsole => Operation::ActivateSecondaryBuffer,
        }
    }

    /// The operation that switches back to the main screen.
    pub open spec fn disable_spec(self) -> Operation {
        match self {
            AlternateScreenCommand::EscapeSequence(_) => Operation::WriteLeaveSequence,
            AlternateScreenCommand::NativeConsole => Operation::RestoreOriginalBuffer,
        }
    }

    #[verifier::when_used_as_spec(backend_spec)]
    pub fn backend(self) -> (backend: Backend)
        ensures
            backend == self.backend_spec(),
    {
        match self {
            AlternateScreenCommand::EscapeSequence(_) => Backend::EscapeSequence,
            AlternateScreenCommand::NativeConsole => Backend::NativeConsole,
        }
    }

    #[verifier::when_used_as_spec(enable_spec)]
    pub fn enable(self) -> (operation: Operation)
        ensures
            operation == self.enable_spec(),
    {
        match self {
            AlternateScreenCommand::EscapeSequence(_) => Operation::WriteEnterSequence,
            AlternateScreenCommand::NativeConsole => Operation::ActivateSecondaryBuffer,
        }
    }

    #[verifier::when_used_as_spec(disable_spec)]
    pub fn disable(self) -> (operation: Operation)
        ensures
            operation == self.disable_spec(),
    {
        match self {
            AlternateScreenCommand::EscapeSequence(_) => Operation::WriteLeaveSequence,
            AlternateScreenCommand::NativeConsole => Operation::RestoreOriginalBuffer,
        }
    }
}

impl Operation {
    /// The backend family an operation belongs to; the two raw-mode
    /// operations belong to neither.
    pub open spec fn family_spec(self) -> Option<Backend> {
        match self {
            Operation::WriteEnterSequence | Operation::WriteLeaveSequence => Some(
                Backend::EscapeSequence,
            ),
            Operation::ActivateSecondaryBuffer | Operation::RestoreOriginalBuffer => Some(
                Backend::NativeConsole,
            ),
            Operation::EnableRawMode | Operation::DisableRawMode => None,
        }
    }

    /// The bytes that performing the operation puts on the output stream:
    /// one of the two control sequences, or nothing for an operation that
    /// is a call rather than a write.
    pub open spec fn payload(self) -> Seq<u8> {
        match self {
            Operation::WriteEnterSequence => enter_sequence(),
            Operation::WriteLeaveSequence => leave_sequence(),
            _ => Seq::<u8>::empty(),
        }
    }

    #[verifier::when_used_as_spec(family_spec)]
    pub fn family(self) -> (family: Option<Backend>)
        ensures
            family == self.family_spec(),
    {
        match self {
            Operation::WriteEnterSequence => Some(Backend::EscapeSequence),
            Operation::WriteLeaveSequence => Some(Backend::EscapeSequence),
            Operation::ActivateSecondaryBuffer => Some(Backend::NativeConsole),
            Operation::RestoreOriginalBuffer => Some(Backend::NativeConsole),
            Operation::EnableRawMode => None,
            Operation::DisableRawMode => None,
        }
    }

    /// The bytes to write and flush for this operation.
    pub fn bytes(self) -> (bytes: Vec<u8>)
        ensures
            bytes@ == self.payload(),
    {
        match self {
            Operation::WriteEnterSequence => ToAlternateScreenBufferCommand::new().execute(),
            Operation::WriteLeaveSequence => ToAlternateScreenBufferCommand::new().undo(),
            _ => {
                let bytes: Vec<u8> = Vec::new();
                assert(bytes@ =~= Seq::<u8>::empty());
                bytes
            },
        }
    }
}

} // verus!
