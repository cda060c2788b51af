use alternate_screen::alternate::{AlternateScreen, Entry, EntryStage, EntryStep, Screen};
use alternate_screen::command::{
    AlternateScreenCommand, Backend, Operation, ToAlternateScreenBufferCommand,
};
use alternate_screen::error::{Error, IoFault, Outcome};
use alternate_screen::selector::{select_alternate_screen_command, HostCapabilities};
use alternate_screen::terminal::TerminalState;

const ENTER: &[u8] = b"\x1b[?1049h";
const LEAVE: &[u8] = b"\x1b[?1049l";

/// A terminal that answers each operation from a script and records what
/// reached it.
struct ScriptedTerminal {
    script: Vec<Outcome>,
    asked: Vec<Operation>,
    received: Vec<u8>,
    state: TerminalState,
}

impl ScriptedTerminal {
    fn new(script: Vec<Outcome>) -> Self {
        ScriptedTerminal {
            script,
            asked: Vec::new(),
            received: Vec::new(),
            state: TerminalState::initial(),
        }
    }

    fn perform(&mut self, operation: Operation) -> Outcome {
        let outcome = if self.asked.len() < self.script.len() {
            self.script[self.asked.len()]
        } else {
            Outcome::Done
        };
        self.asked.push(operation);
        if outcome == Outcome::Done {
            self.received.extend(operation.bytes());
            self.state = self.state.perform(operation);
        }
        outcome
    }

    fn enter(&mut self, host: HostCapabilities, raw_mode: bool) -> Result<AlternateScreen, Error> {
        let mut entry = AlternateScreen::to_alternate_screen(host, raw_mode);
        loop {
            let outcome = self.perform(entry.pending());
            match entry.advance(outcome) {
                EntryStep::Continue(next) => entry = next,
                EntryStep::Entered(handle) => return Ok(handle),
                EntryStep::Rejected(error) => return Err(error),
            }
        }
    }

    fn leave(&mut self, handle: &mut AlternateScreen) -> Result<(), Error> {
        let mut outcomes = Vec::new();
        for operation in handle.to_main_screen() {
            outcomes.push(self.perform(operation));
        }
        AlternateScreen::restored(&outcomes)
    }
}

fn ansi_host() -> HostCapabilities {
    HostCapabilities { native_console: false, escape_processing: true }
}

fn legacy_console() -> HostCapabilities {
    HostCapabilities { native_console: true, escape_processing: false }
}

fn ansi_command() -> AlternateScreenCommand {
    AlternateScreenCommand::EscapeSequence(ToAlternateScreenBufferCommand::new())
}

#[test]
fn enter_writes_the_enter_sequence_and_leave_the_leave_sequence() {
    let mut terminal = ScriptedTerminal::new(vec![]);
    let mut handle = terminal.enter(ansi_host(), false).unwrap();
    assert_eq!(terminal.received, ENTER);
    assert!(handle.is_active());
    assert_eq!(handle.screen(), Screen { raw_mode: false });

    terminal.received.clear();
    assert_eq!(terminal.leave(&mut handle), Ok(()));
    assert_eq!(terminal.received, LEAVE);
    assert!(!handle.is_active());
}

#[test]
fn teardown_of_a_raw_handle_disables_raw_mode_before_the_main_screen() {
    let mut terminal = ScriptedTerminal::new(vec![]);
    let mut handle = terminal.enter(ansi_host(), true).unwrap();
    assert_eq!(terminal.asked, vec![Operation::WriteEnterSequence, Operation::EnableRawMode]);
    assert_eq!(terminal.state, TerminalState { alternate: true, raw: true });

    let operations = handle.to_main_screen();
    assert_eq!(operations, vec![Operation::DisableRawMode, Operation::WriteLeaveSequence]);
    let mut state = terminal.state;
    state = state.perform(operations[0]);
    assert_eq!(state, TerminalState { alternate: true, raw: false });
    state = state.perform(operations[1]);
    assert_eq!(state, TerminalState::initial());
}

#[test]
fn leave_without_enter_succeeds_and_emits_nothing() {
    let mut terminal = ScriptedTerminal::new(vec![]);
    let mut handle = AlternateScreen::new(ansi_command(), Screen { raw_mode: true });
    assert!(!handle.is_active());
    assert_eq!(terminal.leave(&mut handle), Ok(()));
    assert!(terminal.received.is_empty());
    assert!(terminal.asked.is_empty());
    assert_eq!(handle.command(), ansi_command());
    assert_eq!(handle.screen(), Screen { raw_mode: true });
}

#[test]
fn write_failure_during_apply_gives_apply_failed_and_no_handle() {
    let fault = IoFault { code: 32 };
    let mut terminal = ScriptedTerminal::new(vec![Outcome::Failed(fault)]);
    let result = terminal.enter(ansi_host(), true);
    assert!(matches!(result, Err(Error::ApplyFailed(f)) if f == fault));
    assert_eq!(terminal.asked, vec![Operation::WriteEnterSequence]);
    assert!(terminal.received.is_empty());
    assert_eq!(terminal.state, TerminalState::initial());
}

#[test]
fn raw_mode_failure_takes_the_alternate_screen_back() {
    let fault = IoFault { code: 25 };
    let mut terminal = ScriptedTerminal::new(vec![Outcome::Done, Outcome::Failed(fault)]);
    let result = terminal.enter(ansi_host(), true);
    assert!(matches!(result, Err(Error::ApplyFailed(f)) if f == fault));
    assert_eq!(
        terminal.asked,
        vec![
            Operation::WriteEnterSequence,
            Operation::EnableRawMode,
            Operation::WriteLeaveSequence
        ]
    );
    assert_eq!(terminal.received, [ENTER, LEAVE].concat());
    assert_eq!(terminal.state, TerminalState::initial());
}

#[test]
fn raw_mode_failure_is_reported_even_when_taking_back_fails() {
    let raw_fault = IoFault { code: 25 };
    let mut terminal = ScriptedTerminal::new(vec![
        Outcome::Done,
        Outcome::Failed(raw_fault),
        Outcome::Failed(IoFault { code: 5 }),
    ]);
    let result = terminal.enter(ansi_host(), true);
    assert!(matches!(result, Err(Error::ApplyFailed(f)) if f == raw_fault));
    assert_eq!(terminal.asked.len(), 3);
}

#[test]
fn unavailable_backend_is_reported_on_the_way_in() {
    let mut terminal = ScriptedTerminal::new(vec![Outcome::Unavailable]);
    let result = terminal.enter(legacy_console(), false);
    assert!(matches!(result, Err(Error::BackendUnavailable)));
    assert_eq!(terminal.asked, vec![Operation::ActivateSecondaryBuffer]);

    let mut terminal = ScriptedTerminal::new(vec![Outcome::Done, Outcome::Unavailable]);
    let result = terminal.enter(ansi_host(), true);
    assert!(matches!(result, Err(Error::BackendUnavailable)));
    assert_eq!(terminal.state, TerminalState::initial());
}

#[test]
fn failure_on_the_way_back_gives_revert_failed() {
    let fault = IoFault { code: 9 };
    let mut terminal = ScriptedTerminal::new(vec![Outcome::Done, Outcome::Failed(fault)]);
    let mut handle = terminal.enter(ansi_host(), false).unwrap();
    assert_eq!(terminal.leave(&mut handle), Err(Error::RevertFailed(fault)));
    assert!(!handle.is_active());
}

#[test]
fn every_step_back_is_asked_for_and_the_first_failure_reported() {
    let first = IoFault { code: 1 };
    let second = IoFault { code: 2 };
    let mut terminal = ScriptedTerminal::new(vec![
        Outcome::Done,
        Outcome::Done,
        Outcome::Failed(first),
        Outcome::Failed(second),
    ]);
    let mut handle = terminal.enter(ansi_host(), true).unwrap();
    assert_eq!(terminal.leave(&mut handle), Err(Error::RevertFailed(first)));
    assert_eq!(terminal.asked.len(), 4);
    assert_eq!(terminal.asked[2], Operation::DisableRawMode);
    assert_eq!(terminal.asked[3], Operation::WriteLeaveSequence);
}

#[test]
fn restored_reads_the_outcomes_in_order() {
    assert_eq!(AlternateScreen::restored(&vec![]), Ok(()));
    assert_eq!(AlternateScreen::restored(&vec![Outcome::Done, Outcome::Done]), Ok(()));
    assert_eq!(
        AlternateScreen::restored(&vec![Outcome::Done, Outcome::Unavailable]),
        Err(Error::BackendUnavailable)
    );
    assert_eq!(
        AlternateScreen::restored(&vec![
            Outcome::Failed(IoFault { code: 7 }),
            Outcome::Unavailable
        ]),
        Err(Error::RevertFailed(IoFault { code: 7 }))
    );
}

#[test]
fn outcomes_map_to_the_error_of_their_direction() {
    let fault = IoFault { code: -3 };
    assert_eq!(Outcome::Done.apply_error(), None);
    assert_eq!(Outcome::Done.revert_error(), None);
    assert_eq!(Outcome::Unavailable.apply_error(), Some(Error::BackendUnavailable));
    assert_eq!(Outcome::Unavailable.revert_error(), Some(Error::BackendUnavailable));
    assert_eq!(Outcome::Failed(fault).apply_error(), Some(Error::ApplyFailed(fault)));
    assert_eq!(Outcome::Failed(fault).revert_error(), Some(Error::RevertFailed(fault)));
}

#[test]
fn selector_prefers_escape_sequences_unless_only_the_console_works() {
    for native_console in [false, true] {
        for escape_processing in [false, true] {
            let host = HostCapabilities { native_console, escape_processing };
            let expected = if native_console && !escape_processing {
                AlternateScreenCommand::NativeConsole
            } else {
                ansi_command()
            };
            assert_eq!(select_alternate_screen_command(host), expected);
        }
    }
    assert_eq!(select_alternate_screen_command(legacy_console()).backend(), Backend::NativeConsole);
    assert_eq!(select_alternate_screen_command(ansi_host()).backend(), Backend::EscapeSequence);
}

#[test]
fn command_bytes_are_exact() {
    let command = ToAlternateScreenBufferCommand::new();
    assert_eq!(command.execute(), vec![0x1b, b'[', b'?', b'1', b'0', b'4', b'9', b'h']);
    assert_eq!(command.undo(), vec![0x1b, b'[', b'?', b'1', b'0', b'4', b'9', b'l']);
    assert_eq!(Operation::WriteEnterSequence.bytes(), ENTER);
    assert_eq!(Operation::WriteLeaveSequence.bytes(), LEAVE);
    assert!(Operation::ActivateSecondaryBuffer.bytes().is_empty());
    assert!(Operation::RestoreOriginalBuffer.bytes().is_empty());
    assert!(Operation::EnableRawMode.bytes().is_empty());
    assert!(Operation::DisableRawMode.bytes().is_empty());
}

#[test]
fn commands_name_the_operations_of_their_backend() {
    assert_eq!(ansi_command().enable(), Operation::WriteEnterSequence);
    assert_eq!(ansi_command().disable(), Operation::WriteLeaveSequence);
    assert_eq!(AlternateScreenCommand::NativeConsole.enable(), Operation::ActivateSecondaryBuffer);
    assert_eq!(AlternateScreenCommand::NativeConsole.disable(), Operation::RestoreOriginalBuffer);
    assert_eq!(Operation::WriteEnterSequence.family(), Some(Backend::EscapeSequence));
    assert_eq!(Operation::WriteLeaveSequence.family(), Some(Backend::EscapeSequence));
    assert_eq!(Operation::ActivateSecondaryBuffer.family(), Some(Backend::NativeConsole));
    assert_eq!(Operation::RestoreOriginalBuffer.family(), Some(Backend::NativeConsole));
    assert_eq!(Operation::EnableRawMode.family(), None);
    assert_eq!(Operation::DisableRawMode.family(), None);
}

#[test]
fn entry_walks_through_its_stages() {
    let entry = AlternateScreen::to_alternate_screen(legacy_console(), true);
    assert_eq!(
        entry,
        Entry {
            command: AlternateScreenCommand::NativeConsole,
            raw_mode: true,
            stage: EntryStage::Applying
        }
    );
    assert_eq!(entry.pending(), Operation::ActivateSecondaryBuffer);
    let entry = match entry.advance(Outcome::Done) {
        EntryStep::Continue(next) => next,
        other => panic!("unexpected step {:?}", other),
    };
    assert_eq!(entry.stage, EntryStage::EnablingRaw);
    assert_eq!(entry.pending(), Operation::EnableRawMode);
    let entry = match entry.advance(Outcome::Unavailable) {
        EntryStep::Continue(next) => next,
        other => panic!("unexpected step {:?}", other),
    };
    assert_eq!(entry.stage, EntryStage::RollingBack(Error::BackendUnavailable));
    assert_eq!(entry.pending(), Operation::RestoreOriginalBuffer);
    assert!(matches!(
        entry.advance(Outcome::Done),
        EntryStep::Rejected(Error::BackendUnavailable)
    ));
}

#[test]
fn round_trip_ends_where_it_began() {
    for host in [ansi_host(), legacy_console()] {
        for raw_mode in [false, true] {
            for raw_before in [false, true] {
                if raw_mode && raw_before {
                    continue;
                }
                let before = TerminalState { alternate: false, raw: raw_before };
                let mut terminal = ScriptedTerminal::new(vec![]);
                terminal.state = before;
                let mut handle = terminal.enter(host, raw_mode).unwrap();
                assert!(terminal.state.alternate);
                assert_eq!(terminal.state.raw, raw_mode || raw_before);
                assert_eq!(terminal.leave(&mut handle), Ok(()));
                assert_eq!(terminal.state, before);
            }
        }
    }
}

#[test]
fn leaving_twice_is_leaving_once() {
    let mut terminal = ScriptedTerminal::new(vec![]);
    let mut handle = terminal.enter(ansi_host(), true).unwrap();
    assert_eq!(terminal.leave(&mut handle), Ok(()));
    let received = terminal.received.clone();
    let asked = terminal.asked.clone();
    let state = terminal.state;
    assert_eq!(terminal.leave(&mut handle), Ok(()));
    assert_eq!(terminal.received, received);
    assert_eq!(terminal.asked, asked);
    assert_eq!(terminal.state, state);
    assert!(handle.to_main_screen().is_empty());
}

#[test]
fn one_backend_serves_a_whole_switch() {
    for host in [ansi_host(), legacy_console()] {
        let backend = select_alternate_screen_command(host).backend();
        let scripts = vec![
            vec![],
            vec![Outcome::Done, Outcome::Unavailable],
            vec![Outcome::Failed(IoFault { code: 1 })],
        ];
        for script in scripts {
            let mut terminal = ScriptedTerminal::new(script);
            if let Ok(mut handle) = terminal.enter(host, true) {
                assert_eq!(handle.command().backend(), backend);
                let _ = terminal.leave(&mut handle);
            }
            for operation in &terminal.asked {
                assert!(operation.family().is_none() || operation.family() == Some(backend));
            }
        }
    }
}

#[test]
fn the_way_back_restores_the_main_screen_from_any_state() {
    for alternate in [false, true] {
        for raw in [false, true] {
            let mut terminal = ScriptedTerminal::new(vec![]);
            let mut handle = terminal.enter(legacy_console(), true).unwrap();
            let disturbed = TerminalState { alternate, raw };
            let after = disturbed.perform_all(&handle.to_main_screen());
            assert_eq!(after, TerminalState::initial());
        }
    }
}

#[test]
fn model_sets_one_axis_per_operation() {
    let start = TerminalState::initial();
    assert_eq!(start, TerminalState { alternate: false, raw: false });
    assert_eq!(
        start.perform(Operation::WriteEnterSequence),
        TerminalState { alternate: true, raw: false }
    );
    assert_eq!(
        start.perform(Operation::ActivateSecondaryBuffer),
        TerminalState { alternate: true, raw: false }
    );
    assert_eq!(start.perform(Operation::EnableRawMode), TerminalState { alternate: false, raw: true });
    let both = TerminalState { alternate: true, raw: true };
    assert_eq!(
        both.perform(Operation::WriteLeaveSequence),
        TerminalState { alternate: false, raw: true }
    );
    assert_eq!(
        both.perform(Operation::RestoreOriginalBuffer),
        TerminalState { alternate: false, raw: true }
    );
    assert_eq!(both.perform(Operation::DisableRawMode), TerminalState { alternate: true, raw: false });
    assert_eq!(
        both.perform(Operation::EnableRawMode).perform(Operation::EnableRawMode),
        both.perform(Operation::EnableRawMode)
    );
    assert_eq!(
        start.perform_all(&vec![
            Operation::WriteEnterSequence,
            Operation::EnableRawMode,
            Operation::DisableRawMode,
            Operation::WriteLeaveSequence
        ]),
        start
    );
    assert_eq!(start.perform_all(&vec![]), start);
}
