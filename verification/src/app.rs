//! The application state, its event dispatch, and the main loop's decisions.

use vstd::prelude::*;

use crate::event::{is_key_press, InputEvent, KeyCode, KeyEvent, KeyKind};

verus! {

/// The key that asks the application to quit.
pub const QUIT_KEY: char = 'q';

/// The application state: one flag that records whether the user asked to
/// quit. It starts cleared and only the key dispatcher ever sets it.
#[derive(Clone, Copy, PartialEq, Eq, Structural, Debug)]
pub struct App {
    pub exit: bool,
}

impl Default for App {
    /// A fresh application: the exit flag starts cleared.
    fn default() -> (a: App)
        ensures
            a == (App { exit: false }),
    {
        App { exit: false }
    }
}

/// The quit key event: the character 'q'.
pub open spec fn is_quit_key(k: KeyEvent) -> bool {
    k.code == KeyCode::Char(QUIT_KEY)
}

/// What dispatching one key event does to the state: the quit key sets the
/// exit flag; every other key leaves the state unchanged.
pub open spec fn key_dispatch_spec(s: App, k: KeyEvent) -> App {
    if is_quit_key(k) {
        App { exit: true }
    } else {
        s
    }
}

/// What dispatching one input event does to the state: only a key press is
/// handled; a release, a repeat, and every other event kind are discarded.
pub open spec fn dispatch_spec(s: App, e: InputEvent) -> App {
    if is_key_press(e) {
        match e {
            InputEvent::Key(k) => key_dispatch_spec(s, k),
            _ => s,
        }
    } else {
        s
    }
}

impl App {
    /// Records the request to leave the main loop.
    pub fn exit(&mut self)
        ensures
            *final(self) == (App { exit: true }),
    {
        self.exit = true;
    }

    /// Handles one key event: the quit key asks the application to exit;
    /// every other key is a no-op.
    pub fn handle_key_event(&mut self, key_event: KeyEvent)
        ensures
            *final(self) == key_dispatch_spec(*old(self), key_event),
    {
        match key_event.code {
            KeyCode::Char(c) => {
                if c == QUIT_KEY {
                    self.exit();
                }
            }
            KeyCode::Other => {}
        }
    }

    /// Dispatches one input event: a key press goes to the key handler;
    /// anything else is discarded with no state change.
    pub fn handle_event(&mut self, event: InputEvent)
        ensures
            *final(self) == dispatch_spec(*old(self), event),
    {
        match event {
            InputEvent::Key(k) => {
                if matches!(k.kind, KeyKind::Press) {
                    self.handle_key_event(k);
                }
            }
            _ => {}
        }
    }
}

/// Why the main loop aborted.
#[derive(Clone, Copy, PartialEq, Eq, Structural, Debug)]
pub enum AppError {
    /// A terminal control call failed while drawing the frame.
    Io,
    /// Reading the next input event from the terminal failed.
    EventRead,
    /// The key handler itself failed. No handler of this application can, so
    /// no loop ever produces this error; it completes the taxonomy.
    Dispatch,
}

impl AppError {
    /// The human-readable description of the phase that failed, attached to
    /// the error before it propagates out of the loop.
    pub fn message(&self) -> (m: &'static str)
        ensures
            *self == AppError::Io ==> m@ == "failed to draw frame"@,
            *self == AppError::EventRead ==> m@ == "failed to handle event"@,
            *self == AppError::Dispatch ==> m@ == "failed to handle key event"@,
    {
        match self {
            AppError::Io => "failed to draw frame",
            AppError::EventRead => "failed to handle event",
            AppError::Dispatch => "failed to handle key event",
        }
    }
}

/// What the outside world handed one loop iteration: the draw failed, the
/// blocking event read failed, or an input event arrived.
#[derive(Clone, Copy, PartialEq, Eq, Structural, Debug)]
pub enum IterationInput {
    DrawFailed,
    ReadFailed,
    Event(InputEvent),
}

/// Where the main loop stands.
#[derive(Clone, Copy, PartialEq, Eq, Structural, Debug)]
pub enum LoopStatus {
    /// The loop wants another iteration.
    Running,
    /// The exit flag is set: the loop is over and the run succeeded.
    Finished,
    /// The loop aborted with this error; it is not retried.
    Failed(AppError),
}

/// What one loop iteration decides: a failed draw aborts with an io error, a
/// failed event read aborts with an event-read error, and an event that
/// arrived is dispatched, after which the loop finishes exactly when the
/// exit flag is set.
pub open spec fn step_spec(s: App, input: IterationInput) -> (App, LoopStatus) {
    match input {
        IterationInput::DrawFailed => (s, LoopStatus::Failed(AppError::Io)),
        IterationInput::ReadFailed => (s, LoopStatus::Failed(AppError::EventRead)),
        IterationInput::Event(e) => {
            let s2 = dispatch_spec(s, e);
            (s2, if s2.exit { LoopStatus::Finished } else { LoopStatus::Running })
        },
    }
}

/// What the whole loop does to a state on a sequence of iteration inputs:
/// it finishes at once if the exit flag is already set, reports that it is
/// still running if the inputs ran out first, and otherwise takes one step
/// on the first input and goes on with the rest while that step keeps it
/// running.
pub open spec fn run_spec(s: App, inputs: Seq<IterationInput>) -> (App, LoopStatus)
    decreases inputs.len(),
{
    if s.exit {
        (s, LoopStatus::Finished)
    } else if inputs.len() == 0 {
        (s, LoopStatus::Running)
    } else {
        let (s2, st) = step_spec(s, inputs[0]);
        if st == LoopStatus::Running {
            run_spec(s2, inputs.skip(1))
        } else {
            (s2, st)
        }
    }
}

impl App {
    /// Runs one iteration of the main loop on what the world handed it,
    /// exactly as `step_spec` says.
    pub fn loop_step(&mut self, input: IterationInput) -> (st: LoopStatus)
        ensures
            (*final(self), st) == step_spec(*old(self), input),
    {
        match input {
            IterationInput::DrawFailed => LoopStatus::Failed(AppError::Io),
            IterationInput::ReadFailed => LoopStatus::Failed(AppError::EventRead),
            IterationInput::Event(e) => {
                self.handle_event(e);
                if self.exit {
                    LoopStatus::Finished
                } else {
                    LoopStatus::Running
                }
            },
        }
    }

    /// Drives the main loop over a given sequence of iteration inputs,
    /// exactly as `run_spec` says: it stops early on the quit key or on the
    /// first failure, and reports `Running` if the inputs ran out while the
    /// loop still wanted more.
    pub fn run(&mut self, inputs: &Vec<IterationInput>) -> (st: LoopStatus)
        ensures
            (*final(self), st) == run_spec(*old(self), inputs@),
    {
        let mut i: usize = 0;
        proof {
            assert(inputs@.skip(0) =~= inputs@);
        }
        while i < inputs.len()
            invariant
                i <= inputs@.len(),
                run_spec(*old(self), inputs@) == run_spec(*self, inputs@.skip(i as int)),
            decreases inputs@.len() - i,
        {
            if self.exit {
                return LoopStatus::Finished;
            }
            let ghost prev = *self;
            let st = self.loop_step(inputs[i]);
            proof {
                assert(inputs@.skip(i as int)[0] == inputs@[i as int]);
                assert(inputs@.skip(i as int).skip(1) =~= inputs@.skip(i as int + 1));
            }
            i = i + 1;
            if !matches!(st, LoopStatus::Running) {
                return st;
            }
        }
        if self.exit {
            LoopStatus::Finished
        } else {
            LoopStatus::Running
        }
    }
}

/// A key event for any key but the quit key leaves the state untouched, so
/// the exit flag stays false if it was false before the dispatch.
pub proof fn lemma_non_quit_key_is_noop(s: App, k: KeyEvent)
    requires
        k.code != KeyCode::Char(QUIT_KEY),
    ensures
        dispatch_spec(s, InputEvent::Key(k)) == s,
{
}

/// Pressing the quit key sets the exit flag, and the loop then terminates
/// within that very iteration: whatever inputs would have followed, the run
/// finishes as soon as the quit press is dispatched.
pub proof fn lemma_quit_press_exits(s: App, inputs: Seq<IterationInput>)
    requires
        inputs.len() > 0,
        inputs[0] == IterationInput::Event(
            InputEvent::Key(KeyEvent { code: KeyCode::Char(QUIT_KEY), kind: KeyKind::Press }),
        ),
    ensures
        dispatch_spec(s, inputs[0]->Event_0).exit,
        run_spec(s, inputs).0.exit,
        run_spec(s, inputs).1 == LoopStatus::Finished,
{
}

/// Any event that is not a key press — a key release or repeat, a resize, a
/// mouse event, a paste — is discarded: dispatch is a no-op and the exit
/// flag is unchanged.
pub proof fn lemma_non_press_is_noop(s: App, e: InputEvent)
    requires
        !is_key_press(e),
    ensures
        dispatch_spec(s, e) == s,
{
}

} // verus!
