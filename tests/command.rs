use gptxt::command::{command_char, command_for_char, decode_key, Command, KeyOutcome, Mode};

#[test]
fn review_prompt_accepts_all_four_commands() {
    assert_eq!(decode_key(Mode::Review, Some('y'), false), KeyOutcome::Accept(Command::Run));
    assert_eq!(decode_key(Mode::Review, Some('q'), false), KeyOutcome::Accept(Command::Quit));
    assert_eq!(decode_key(Mode::Review, Some('r'), false), KeyOutcome::Accept(Command::Regenerate));
    assert_eq!(decode_key(Mode::Review, Some('e'), false), KeyOutcome::Accept(Command::Edit));
}

#[test]
fn recovery_prompt_ignores_run() {
    assert_eq!(decode_key(Mode::Recovery, Some('y'), false), KeyOutcome::Ignore);
    assert_eq!(decode_key(Mode::Recovery, Some('r'), false), KeyOutcome::Accept(Command::Regenerate));
    assert_eq!(decode_key(Mode::Recovery, Some('e'), false), KeyOutcome::Accept(Command::Edit));
    assert_eq!(decode_key(Mode::Recovery, Some('q'), false), KeyOutcome::Accept(Command::Quit));
}

#[test]
fn commands_are_case_sensitive() {
    assert_eq!(decode_key(Mode::Review, Some('Y'), false), KeyOutcome::Ignore);
    assert_eq!(command_for_char('Q'), None);
}

#[test]
fn interrupt_combinations() {
    assert_eq!(decode_key(Mode::Review, Some('c'), true), KeyOutcome::Interrupt('c'));
    assert_eq!(decode_key(Mode::Recovery, Some('\\'), true), KeyOutcome::Interrupt('\\'));
    assert_eq!(decode_key(Mode::Review, Some('c'), false), KeyOutcome::Ignore);
}

#[test]
fn keys_without_a_character_are_ignored() {
    assert_eq!(decode_key(Mode::Review, None, true), KeyOutcome::Ignore);
}

#[test]
fn command_characters_round_trip() {
    for c in [Command::Run, Command::Quit, Command::Regenerate, Command::Edit] {
        assert_eq!(command_for_char(command_char(c)), Some(c));
    }
}
