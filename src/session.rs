//! The session controller: a state machine from the current state and the
//! outcome of the last action to the next state and the next action.
//!
//! The caller performs each action (a synthesis, a key read, a run, an edit)
//! and hands its outcome back as an event. A session starts in
//! `Phase::Starting`, whose action is `Action::Synthesize`.
use vstd::prelude::*;
use vstd::string::StringExecFns;
use crate::command::{accepts, command_char_spec, key_meaning, Command, KeyOutcome, Mode};
use crate::execute::ExecuteError;
use crate::text::texts;

verus! {

/// Where a session stands.
#[derive(Clone, Copy, Debug, PartialEq, Eq, Structural)]
pub enum Phase {
    /// Waiting for the first candidate.
    Starting,
    /// Waiting for a command at the review prompt.
    Reviewing,
    /// Waiting for the outcome of a run.
    Running,
    /// Waiting for a fresh candidate.
    Regenerating,
    /// Waiting for the editor; the prompt the edit was asked from.
    Editing(Mode),
    /// Waiting for a command at the recovery prompt, after a failed run.
    Recovering,
    /// The session has ended.
    Finished,
}

/// The outcome of the last action, handed to the session.
#[derive(Debug)]
pub enum Event {
    /// The synthesizer returned this candidate.
    Synthesized(String),
    /// The user chose this command.
    Chose(Command),
    /// The run of the current candidate ended so.
    Ran(Result<String, ExecuteError>),
    /// The editor returned this text, or failed with this description.
    Edited(Result<String, String>),
}

/// What the caller is to do next.
#[derive(Clone, Debug)]
pub enum Action {
    /// Ask the synthesizer for a candidate; answer with `Event::Synthesized`.
    Synthesize,
    /// Report `notice` if any, show the candidate (`Session::display`), and
    /// read a key at the review prompt; answer with `Event::Chose`.
    Review { notice: Option<String> },
    /// Report `notice` if any and read a key at the recovery prompt; answer
    /// with `Event::Chose`.
    Recover { notice: Option<String> },
    /// Run `program` against the input; answer with `Event::Ran`.
    Execute { program: String },
    /// Open `program` in the editor; answer with `Event::Edited`.
    Edit { program: String },
    /// Write `result` to the primary output and end successfully.
    Output { result: String },
    /// End: regeneration gave a candidate seen before; the task is to be rephrased.
    Rephrase,
    /// End without a result.
    Quit,
}

/// The mathematical state of a session.
pub ghost struct SessionModel {
    /// The candidate texts produced by the synthesizer, in order.
    pub history: Seq<Seq<char>>,
    /// The current candidate.
    pub current: Seq<char>,
    /// Whether the current candidate came from the editor and has not been shown since.
    pub edited: bool,
    pub phase: Phase,
}

/// A session: the candidates seen, the current one, and where it stands.
pub struct Session {
    history: Vec<String>,
    current: String,
    edited: bool,
    phase: Phase,
}

/// The message reported when the editor failed.
pub open spec fn edit_failure_message(e: Seq<char>) -> Seq<char> {
    "Error editing program with 'vi': "@ + e
}

/// Whether `a` is a review action without a notice.
pub open spec fn plain_review(a: Action) -> bool {
    a matches Action::Review { notice } && notice is None
}

/// Whether `a` is a recovery action without a notice.
pub open spec fn plain_recover(a: Action) -> bool {
    a matches Action::Recover { notice } && notice is None
}

/// Whether `a` is a review action that reports exactly `msg`.
pub open spec fn reviews_with(a: Action, msg: Seq<char>) -> bool {
    a matches Action::Review { notice } && notice matches Some(n) && n@ == msg
}

/// Whether `a` is a recovery action that reports exactly `msg`.
pub open spec fn recovers_with(a: Action, msg: Seq<char>) -> bool {
    a matches Action::Recover { notice } && notice matches Some(n) && n@ == msg
}

/// Whether `a` writes exactly `r` as the result.
pub open spec fn outputs(a: Action, r: Seq<char>) -> bool {
    a matches Action::Output { result } && result@ == r
}

/// Whether `a` asks to run exactly `p`.
pub open spec fn executes(a: Action, p: Seq<char>) -> bool {
    a matches Action::Execute { program } && program@ == p
}

/// Whether `a` asks to edit exactly `p`.
pub open spec fn edits(a: Action, p: Seq<char>) -> bool {
    a matches Action::Edit { program } && program@ == p
}

impl SessionModel {
    /// The same state in another phase.
    pub open spec fn in_phase(self, phase: Phase) -> SessionModel {
        SessionModel { phase, ..self }
    }

    /// The same state once its candidate has been shown: shown candidates are
    /// framed as generated until the next edit.
    pub open spec fn displayed(self) -> SessionModel {
        SessionModel { edited: false, ..self }
    }

    /// The invariant of a session: there is no history before the first
    /// candidate and at least one entry after it, and no text is in the
    /// history twice.
    pub open spec fn wf(self) -> bool {
        &&& self.phase == Phase::Starting ==> self.history.len() == 0 && !self.edited
        &&& self.phase != Phase::Starting ==> self.history.len() >= 1
        &&& self.history.no_duplicates()
    }
}

/// The transition on a command `c` read at a prompt in `m`.
pub open spec fn chose_spec(s: SessionModel, m: Mode, c: Command, t: SessionModel, a: Action) -> bool {
    match c {
        Command::Run => if m == Mode::Review {
            t == s.in_phase(Phase::Running) && executes(a, s.current)
        } else {
            t == s && plain_recover(a)
        },
        Command::Quit => t == s.in_phase(Phase::Finished) && a is Quit,
        Command::Regenerate => t == s.in_phase(Phase::Regenerating) && a is Synthesize,
        Command::Edit => t == s.in_phase(Phase::Editing(m)) && edits(a, s.current),
    }
}

/// The transition of a session in state `s` on event `ev` to state `t` with
/// next action `a`. An event that does not answer the pending action leaves
/// the state alone and asks for that action again.
pub open spec fn step_spec(s: SessionModel, ev: Event, t: SessionModel, a: Action) -> bool {
    match s.phase {
        Phase::Starting => match ev {
            Event::Synthesized(p) => t == (SessionModel {
                history: seq![p@],
                current: p@,
                edited: false,
                phase: Phase::Reviewing,
            }) && plain_review(a),
            _ => t == s && a is Synthesize,
        },
        Phase::Reviewing => match ev {
            Event::Chose(c) => chose_spec(s, Mode::Review, c, t, a),
            _ => t == s && plain_review(a),
        },
        Phase::Recovering => match ev {
            Event::Chose(c) => chose_spec(s, Mode::Recovery, c, t, a),
            _ => t == s && plain_recover(a),
        },
        Phase::Running => match ev {
            Event::Ran(Ok(r)) => t == s.in_phase(Phase::Finished) && outputs(a, r@),
            Event::Ran(Err(e)) => t == s.in_phase(Phase::Recovering) && recovers_with(
                a,
                e.message_spec(),
            ),
            _ => t == s && executes(a, s.current),
        },
        Phase::Regenerating => match ev {
            Event::Synthesized(p) => if s.history.contains(p@) {
                t == s.in_phase(Phase::Finished) && a is Rephrase
            } else {
                t == (SessionModel {
                    history: s.history.push(p@),
                    current: p@,
                    edited: false,
                    phase: Phase::Reviewing,
                }) && plain_review(a)
            },
            _ => t == s && a is Synthesize,
        },
        Phase::Editing(m) => match ev {
            Event::Edited(Ok(p)) => t == (SessionModel {
                current: p@,
                edited: true,
                phase: Phase::Reviewing,
                ..s
            }) && plain_review(a),
            Event::Edited(Err(e)) => match m {
                Mode::Review => t == s.in_phase(Phase::Reviewing) && reviews_with(
                    a,
                    edit_failure_message(e@),
                ),
                Mode::Recovery => t == s.in_phase(Phase::Recovering) && recovers_with(
                    a,
                    edit_failure_message(e@),
                ),
            },
            _ => t == s && edits(a, s.current),
        },
        Phase::Finished => t == s && a is Quit,
    }
}

impl View for Session {
    type V = SessionModel;

    closed spec fn view(&self) -> SessionModel {
        SessionModel {
            history: texts(self.history@),
            current: self.current@,
            edited: self.edited,
            phase: self.phase,
        }
    }
}

/// Whether `p` equals an entry of `history`.
fn seen_before(history: &Vec<String>, p: &String) -> (r: bool)
    ensures
        r == texts(history@).contains(p@),
{
    let mut i: usize = 0;
    while i < history.len()
        invariant
            i <= history.len(),
            forall|j: int| 0 <= j < i ==> history@[j]@ != p@,
        decreases history.len() - i,
    {
        if history[i] == *p {
            assert(texts(history@)[i as int] == p@);
            return true;
        }
        i = i + 1;
    }
    proof {
        if texts(history@).contains(p@) {
            let k = choose|k: int| 0 <= k < texts(history@).len() && texts(history@)[k] == p@;
            assert(history@[k]@ == p@);
        }
    }
    false
}

/// The message reported when the editor failed with `e`.
fn edit_failure(e: &String) -> (r: String)
    ensures
        r@ == edit_failure_message(e@),
{
    let mut r = String::from_str("Error editing program with 'vi': ");
    r.append(e.as_str());
    r
}

impl Session {
    /// A session waiting for its first candidate.
    pub fn new() -> (s: Session)
        ensures
            s@.phase == Phase::Starting,
            s@.history.len() == 0,
            s@.current.len() == 0,
            !s@.edited,
            s@.wf(),
    {
        let s = Session { history: Vec::new(), current: String::new(), edited: false, phase: Phase::Starting };
        assert(texts(s.history@) =~= Seq::<Seq<char>>::empty());
        s
    }

    /// Where the session stands.
    pub fn phase(&self) -> (p: Phase)
        ensures
            p == self@.phase,
    {
        self.phase
    }

    /// How many candidates the synthesizer has produced so far.
    pub fn history_len(&self) -> (n: usize)
        ensures
            n == self@.history.len(),
    {
        self.history.len()
    }

    /// The current candidate.
    pub fn current(&self) -> (c: &String)
        ensures
            c@ == self@.current,
    {
        &self.current
    }

    /// Whether the current candidate came from the editor and has not been shown since.
    pub fn is_edited(&self) -> (b: bool)
        ensures
            b == self@.edited,
    {
        self.edited
    }

    /// The candidate to show and whether to frame it as edited; showing it
    /// resets the framing to that of a generated candidate.
    pub fn display(&mut self) -> (r: (String, bool))
        ensures
            r.0@ == old(self)@.current,
            r.1 == old(self)@.edited,
            final(self)@ == old(self)@.displayed(),
    {
        let was_edited = self.edited;
        self.edited = false;
        (self.current.clone(), was_edited)
    }

    /// Advances the session on the outcome `ev` of the last action and
    /// returns the next action.
    pub fn step(&mut self, ev: Event) -> (a: Action)
        requires
            old(self)@.wf(),
        ensures
            step_spec(old(self)@, ev, final(self)@, a),
            final(self)@.wf(),
    {
        let ghost s = self@;
        match self.phase {
            Phase::Starting => match ev {
                Event::Synthesized(p) => {
                    self.history.push(p.clone());
                    self.current = p;
                    self.edited = false;
                    self.phase = Phase::Reviewing;
                    proof {
                        assert(texts(self.history@) =~= seq![self.current@]);
                    }
                    Action::Review { notice: None }
                },
                _ => Action::Synthesize,
            },
            Phase::Reviewing => match ev {
                Event::Chose(c) => self.chose(Mode::Review, c),
                _ => Action::Review { notice: None },
            },
            Phase::Recovering => match ev {
                Event::Chose(c) => self.chose(Mode::Recovery, c),
                _ => Action::Recover { notice: None },
            },
            Phase::Running => match ev {
                Event::Ran(Ok(r)) => {
                    self.phase = Phase::Finished;
                    Action::Output { result: r }
                },
                Event::Ran(Err(e)) => {
                    self.phase = Phase::Recovering;
                    Action::Recover { notice: Some(e.message()) }
                },
                _ => Action::Execute { program: self.current.clone() },
            },
            Phase::Regenerating => match ev {
                Event::Synthesized(p) => {
                    if seen_before(&self.history, &p) {
                        self.phase = Phase::Finished;
                        Action::Rephrase
                    } else {
                        self.history.push(p.clone());
                        self.current = p;
                        self.edited = false;
                        self.phase = Phase::Reviewing;
                        proof {
                            assert(texts(self.history@) =~= s.history.push(self.current@));
                        }
                        Action::Review { notice: None }
                    }
                },
                _ => Action::Synthesize,
            },
            Phase::Editing(m) => match ev {
                Event::Edited(Ok(p)) => {
                    self.current = p;
                    self.edited = true;
                    self.phase = Phase::Reviewing;
                    Action::Review { notice: None }
                },
                Event::Edited(Err(e)) => {
                    let notice = Some(edit_failure(&e));
                    match m {
                        Mode::Review => {
                            self.phase = Phase::Reviewing;
                            Action::Review { notice }
                        },
                        Mode::Recovery => {
                            self.phase = Phase::Recovering;
                            Action::Recover { notice }
                        },
                    }
                },
                _ => Action::Edit { program: self.current.clone() },
            },
            Phase::Finished => Action::Quit,
        }
    }

    /// The transition on command `c` read at a prompt in `m`.
    fn chose(&mut self, m: Mode, c: Command) -> (a: Action)
        requires
            old(self)@.wf(),
            old(self)@.phase != Phase::Starting,
        ensures
            chose_spec(old(self)@, m, c, final(self)@, a),
            final(self)@.wf(),
    {
        match c {
            Command::Run => match m {
                Mode::Review => {
                    self.phase = Phase::Running;
                    Action::Execute { program: self.current.clone() }
                },
                Mode::Recovery => Action::Recover { notice: None },
            },
            Command::Quit => {
                self.phase = Phase::Finished;
                Action::Quit
            },
            Command::Regenerate => {
                self.phase = Phase::Regenerating;
                Action::Synthesize
            },
            Command::Edit => {
                self.phase = Phase::Editing(m);
                Action::Edit { program: self.current.clone() }
            },
        }
    }
}

/// Regeneration never repeats silently: a fresh candidate equal to any text
/// already in the history ends the session with the request to rephrase the
/// task, and the history is left as it was.
pub proof fn lemma_regeneration_never_repeats(s: SessionModel, p: String, t: SessionModel, a: Action)
    requires
        s.wf(),
        s.phase == Phase::Regenerating,
        s.history.contains(p@),
        step_spec(s, Event::Synthesized(p), t, a),
    ensures
        a is Rephrase,
        t.phase == Phase::Finished,
        t.history == s.history,
{
}

/// A regenerated candidate that is new is added to the history, becomes the
/// current candidate, and is shown as generated.
pub proof fn lemma_regeneration_extends_history(s: SessionModel, p: String, t: SessionModel, a: Action)
    requires
        s.wf(),
        s.phase == Phase::Regenerating,
        !s.history.contains(p@),
        step_spec(s, Event::Synthesized(p), t, a),
    ensures
        t.history == s.history.push(p@),
        t.current == p@,
        !t.edited,
        t.phase == Phase::Reviewing,
        plain_review(a),
{
}

/// Editing never changes the history: choosing to edit at either prompt and
/// getting text back leaves the history as it was, makes that text the current
/// candidate framed as edited, and once it has been shown the framing is that
/// of a generated candidate again.
pub proof fn lemma_edit_keeps_history(
    s: SessionModel,
    p: String,
    t1: SessionModel,
    a1: Action,
    t2: SessionModel,
    a2: Action,
)
    requires
        s.wf(),
        s.phase == Phase::Reviewing || s.phase == Phase::Recovering,
        step_spec(s, Event::Chose(Command::Edit), t1, a1),
        step_spec(t1, Event::Edited(Ok(p)), t2, a2),
    ensures
        edits(a1, s.current),
        t2.history == s.history,
        t2.history.len() == s.history.len(),
        t2.current == p@,
        t2.edited,
        t2.phase == Phase::Reviewing,
        plain_review(a2),
        !t2.displayed().edited,
        t2.displayed().history == s.history,
{
}

/// A failed edit changes nothing but the phase: the candidate and the history
/// stay, and the prompt the edit was asked from comes back with the failure.
pub proof fn lemma_failed_edit_keeps_candidate(
    s: SessionModel,
    m: Mode,
    e: String,
    t: SessionModel,
    a: Action,
)
    requires
        s.wf(),
        s.phase == Phase::Editing(m),
        step_spec(s, Event::Edited(Err(e)), t, a),
    ensures
        t.history == s.history,
        t.current == s.current,
        m == Mode::Review ==> t.phase == Phase::Reviewing && reviews_with(a, edit_failure_message(e@)),
        m == Mode::Recovery ==> t.phase == Phase::Recovering && recovers_with(
            a,
            edit_failure_message(e@),
        ),
{
}

/// A failed run never ends the session: it leads to the recovery prompt,
/// which reports the failure.
pub proof fn lemma_failed_run_recovers(s: SessionModel, e: ExecuteError, t: SessionModel, a: Action)
    requires
        s.wf(),
        s.phase == Phase::Running,
        step_spec(s, Event::Ran(Err(e)), t, a),
    ensures
        t.phase == Phase::Recovering,
        t.phase != Phase::Finished,
        recovers_with(a, e.message_spec()),
        t.history == s.history,
        t.current == s.current,
{
}

/// The recovery prompt accepts exactly regeneration, editing and quitting: a
/// key for any of them is taken and a key for running is not; a command to
/// run, should one arrive, leaves the session where it is; and no command
/// leads from recovery straight to a run.
pub proof fn lemma_recovery_accepts_regenerate_edit_quit(
    s: SessionModel,
    c: Command,
    t: SessionModel,
    a: Action,
)
    requires
        s.wf(),
        s.phase == Phase::Recovering,
        step_spec(s, Event::Chose(c), t, a),
    ensures
        accepts(Mode::Recovery, c) <==> (c == Command::Regenerate || c == Command::Edit || c
            == Command::Quit),
        key_meaning(Mode::Recovery, Some(command_char_spec(c)), false) == (if c == Command::Run {
            KeyOutcome::Ignore
        } else {
            KeyOutcome::Accept(c)
        }),
        c == Command::Run ==> t == s && plain_recover(a),
        c == Command::Regenerate ==> t.phase == Phase::Regenerating && a is Synthesize,
        c == Command::Edit ==> t.phase == Phase::Editing(Mode::Recovery) && edits(a, s.current),
        c == Command::Quit ==> t.phase == Phase::Finished && a is Quit,
        t.phase != Phase::Running,
{
}

} // verus!
