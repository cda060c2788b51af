//! Choosing the backend that fits the host.

use vstd::prelude::*;
use crate::command::{AlternateScreenCommand, Backend, ToAlternateScreenBufferCommand};

verus! {

/// What a probe of the host found.
#[derive(Clone, Copy, Debug, PartialEq, Eq, Structural)]
pub struct HostCapabilities {
    /// The host has a console subsystem of its own.
    pub native_console: bool,
    /// The terminal interprets control sequences. On a host with a native
    /// console this says that its escape processing is switched on.
    pub escape_processing: bool,
}

/// The native console is chosen only where it exists and does not interpret
/// control sequences; everywhere else the escape sequences are.
pub open spec fn selected_backend(host: HostCapabilities) -> Backend {
    if host.native_console && !host.escape_processing {
        Backend::NativeConsole
    } else {
        Backend::EscapeSequence
    }
}

/// The command of the selected backend.
pub open spec fn selected_command(host: HostCapabilities) -> AlternateScreenCommand {
    match selected_backend(host) {
        Backend::NativeConsole => AlternateScreenCommand::NativeConsole,
        Backend::EscapeSequence => AlternateScreenCommand::EscapeSequence(
            ToAlternateScreenBufferCommand,
        ),
    }
}

/// Resolves the command for one mode switch from a fresh probe of the host.
pub fn select_alternate_screen_command(host: HostCapabilities) -> (command: AlternateScreenCommand)
    ensures
        command == selected_command(host),
        command.backend() == selected_backend(host),
{
    if host.native_console && !host.escape_processing {
        AlternateScreenCommand::NativeConsole
    } else {
        AlternateScreenCommand::EscapeSequence(ToAlternateScreenBufferCommand::new())
    }
}

} // verus!
