use gptxt::command::Command;
use gptxt::execute::ExecuteError;
use gptxt::input::{json_flags_valid, read_input, InputSource};
use gptxt::session::{Action, Event, Phase, Session};

fn started(first: &str) -> Session {
    let mut s = Session::new();
    let a = s.step(Event::Synthesized(String::from(first)));
    assert!(matches!(a, Action::Review { notice: None }));
    s
}

#[test]
fn first_candidate_seeds_history() {
    let s = started("result = data");
    assert_eq!(s.phase(), Phase::Reviewing);
    assert_eq!(s.history_len(), 1);
    assert_eq!(s.current(), "result = data");
    assert!(!s.is_edited());
}

#[test]
fn successful_run_outputs_result() {
    let mut s = started("result = data.upper()");
    match s.step(Event::Chose(Command::Run)) {
        Action::Execute { program } => assert_eq!(program, "result = data.upper()"),
        other => panic!("unexpected action {:?}", other),
    }
    match s.step(Event::Ran(Ok(String::from("HELLO")))) {
        Action::Output { result } => assert_eq!(result, "HELLO"),
        other => panic!("unexpected action {:?}", other),
    }
    assert_eq!(s.phase(), Phase::Finished);
}

#[test]
fn duplicate_regeneration_asks_to_rephrase() {
    let mut s = started("p1");
    assert!(matches!(s.step(Event::Chose(Command::Regenerate)), Action::Synthesize));
    assert!(matches!(s.step(Event::Synthesized(String::from("p2"))), Action::Review { notice: None }));
    assert_eq!(s.history_len(), 2);
    assert!(matches!(s.step(Event::Chose(Command::Regenerate)), Action::Synthesize));
    assert!(matches!(s.step(Event::Synthesized(String::from("p1"))), Action::Rephrase));
    assert_eq!(s.phase(), Phase::Finished);
    assert_eq!(s.history_len(), 2);
    assert_eq!(s.current(), "p2");
}

#[test]
fn edit_keeps_history_and_frames_once() {
    let mut s = started("p1");
    let (shown, edited) = s.display();
    assert_eq!(shown, "p1");
    assert!(!edited);
    match s.step(Event::Chose(Command::Edit)) {
        Action::Edit { program } => assert_eq!(program, "p1"),
        other => panic!("unexpected action {:?}", other),
    }
    assert!(matches!(s.step(Event::Edited(Ok(String::from("p1 edited")))), Action::Review { notice: None }));
    assert_eq!(s.history_len(), 1);
    assert!(s.is_edited());
    let (shown, edited) = s.display();
    assert_eq!(shown, "p1 edited");
    assert!(edited);
    let (_, edited) = s.display();
    assert!(!edited);
    assert!(!s.is_edited());
}

#[test]
fn failed_edit_leaves_candidate() {
    let mut s = started("p1");
    s.step(Event::Chose(Command::Edit));
    match s.step(Event::Edited(Err(String::from("exit status: 1")))) {
        Action::Review { notice: Some(n) } => assert_eq!(n, "Error editing program with 'vi': exit status: 1"),
        other => panic!("unexpected action {:?}", other),
    }
    assert_eq!(s.current(), "p1");
    assert_eq!(s.phase(), Phase::Reviewing);
}

#[test]
fn failed_run_enters_recovery() {
    let mut s = started("p1");
    s.step(Event::Chose(Command::Run));
    match s.step(Event::Ran(Err(ExecuteError::ResultNotFound))) {
        Action::Recover { notice: Some(n) } => assert_eq!(n, "Error: 'result' variable not found"),
        other => panic!("unexpected action {:?}", other),
    }
    assert_eq!(s.phase(), Phase::Recovering);
    assert!(matches!(s.step(Event::Chose(Command::Run)), Action::Recover { notice: None }));
    assert_eq!(s.phase(), Phase::Recovering);
}

#[test]
fn recovery_edit_failure_returns_to_recovery() {
    let mut s = started("p1");
    s.step(Event::Chose(Command::Run));
    s.step(Event::Ran(Err(ExecuteError::ResultNotFound)));
    assert!(matches!(s.step(Event::Chose(Command::Edit)), Action::Edit { .. }));
    assert!(matches!(s.step(Event::Edited(Err(String::from("x")))), Action::Recover { notice: Some(_) }));
    assert_eq!(s.phase(), Phase::Recovering);
}

#[test]
fn recovery_regenerate_and_quit() {
    let mut s = started("p1");
    s.step(Event::Chose(Command::Run));
    s.step(Event::Ran(Err(ExecuteError::ResultNotFound)));
    assert!(matches!(s.step(Event::Chose(Command::Regenerate)), Action::Synthesize));
    assert!(matches!(s.step(Event::Synthesized(String::from("p2"))), Action::Review { notice: None }));
    assert_eq!(s.current(), "p2");
    s.step(Event::Chose(Command::Run));
    s.step(Event::Ran(Err(ExecuteError::ResultNotFound)));
    assert!(matches!(s.step(Event::Chose(Command::Quit)), Action::Quit));
    assert_eq!(s.phase(), Phase::Finished);
}

#[test]
fn quit_from_review() {
    let mut s = started("p1");
    assert!(matches!(s.step(Event::Chose(Command::Quit)), Action::Quit));
    assert_eq!(s.phase(), Phase::Finished);
}

#[test]
fn unexpected_event_repeats_pending_action() {
    let mut s = Session::new();
    assert!(matches!(s.step(Event::Chose(Command::Run)), Action::Synthesize));
    assert_eq!(s.phase(), Phase::Starting);
}

#[test]
fn input_source_selection() {
    match read_input(Some("data.txt")) {
        InputSource::File(p) => assert_eq!(p, "data.txt"),
        other => panic!("unexpected source {:?}", other),
    }
    assert!(matches!(read_input(None), InputSource::Stdin));
}

#[test]
fn json_flag_combinations() {
    assert!(json_flags_valid(false, false));
    assert!(json_flags_valid(true, false));
    assert!(json_flags_valid(true, true));
    assert!(!json_flags_valid(false, true));
}
