//! The single-key command alphabet and the decoding of key presses.
use vstd::prelude::*;

verus! {

/// What the user asks for at a prompt.
#[derive(Clone, Copy, Debug, PartialEq, Eq, Structural)]
pub enum Command {
    /// Run the current candidate.
    Run,
    /// End the session.
    Quit,
    /// Ask for a fresh candidate.
    Regenerate,
    /// Open the current candidate in the editor.
    Edit,
}

/// The prompt a key is read at.
#[derive(Clone, Copy, Debug, PartialEq, Eq, Structural)]
pub enum Mode {
    /// A candidate has just been shown; it may be run.
    Review,
    /// A run has just failed; the candidate may be replaced or the session ended.
    Recovery,
}

/// What a single key press means at a prompt.
#[derive(Clone, Copy, Debug, PartialEq, Eq, Structural)]
pub enum KeyOutcome {
    /// An accepted command.
    Accept(Command),
    /// An interrupt combination with the key it was made with: the process
    /// ends at once.
    Interrupt(char),
    /// Anything else: keep waiting for a key.
    Ignore,
}

/// The command a character names, case-sensitively.
pub open spec fn command_named(c: char) -> Option<Command> {
    if c == 'y' {
        Some(Command::Run)
    } else if c == 'q' {
        Some(Command::Quit)
    } else if c == 'r' {
        Some(Command::Regenerate)
    } else if c == 'e' {
        Some(Command::Edit)
    } else {
        None
    }
}

/// Whether a prompt in `mode` accepts `cmd`: the review prompt takes every
/// command, the recovery prompt every command but `Run`.
pub open spec fn accepts(mode: Mode, cmd: Command) -> bool {
    match mode {
        Mode::Review => true,
        Mode::Recovery => cmd != Command::Run,
    }
}

/// The meaning of a key press at a prompt in `mode`. `key` is the character the
/// key carries (`None` for keys without one) and `control` whether the control
/// modifier was held.
pub open spec fn key_meaning(mode: Mode, key: Option<char>, control: bool) -> KeyOutcome {
    match key {
        None => KeyOutcome::Ignore,
        Some(c) => match command_named(c) {
            Some(cmd) => if accepts(mode, cmd) {
                KeyOutcome::Accept(cmd)
            } else {
                KeyOutcome::Ignore
            },
            None => if control && (c == 'c' || c == '\\') {
                KeyOutcome::Interrupt(c)
            } else {
                KeyOutcome::Ignore
            },
        },
    }
}

/// The command character `c` names, if any.
pub fn command_for_char(c: char) -> (r: Option<Command>)
    ensures
        r == command_named(c),
{
    if c == 'y' {
        Some(Command::Run)
    } else if c == 'q' {
        Some(Command::Quit)
    } else if c == 'r' {
        Some(Command::Regenerate)
    } else if c == 'e' {
        Some(Command::Edit)
    } else {
        None
    }
}

/// Whether a prompt in `mode` accepts `cmd`.
pub fn mode_accepts(mode: Mode, cmd: Command) -> (r: bool)
    ensures
        r == accepts(mode, cmd),
{
    match mode {
        Mode::Review => true,
        Mode::Recovery => !matches!(cmd, Command::Run),
    }
}

/// Decodes one key press read at a prompt in `mode`.
pub fn decode_key(mode: Mode, key: Option<char>, control: bool) -> (r: KeyOutcome)
    ensures
        r == key_meaning(mode, key, control),
{
    match key {
        None => KeyOutcome::Ignore,
        Some(c) => match command_for_char(c) {
            Some(cmd) => if mode_accepts(mode, cmd) {
                KeyOutcome::Accept(cmd)
            } else {
                KeyOutcome::Ignore
            },
            None => if control && (c == 'c' || c == '\\') {
                KeyOutcome::Interrupt(c)
            } else {
                KeyOutcome::Ignore
            },
        },
    }
}

/// The character that names `cmd` at a prompt.
pub open spec fn command_char_spec(cmd: Command) -> char {
    match cmd {
        Command::Run => 'y',
        Command::Quit => 'q',
        Command::Regenerate => 'r',
        Command::Edit => 'e',
    }
}

/// The character that names `cmd` at a prompt, echoed once the key is taken.
pub fn command_char(cmd: Command) -> (c: char)
    ensures
        c == command_char_spec(cmd),
        command_named(c) == Some(cmd),
{
    match cmd {
        Command::Run => 'y',
        Command::Quit => 'q',
        Command::Regenerate => 'r',
        Command::Edit => 'e',
    }
}

} // verus!
