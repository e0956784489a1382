//! Tests for the application state, event dispatch, and the main loop.

use tui_core::app::{App, AppError, IterationInput, LoopStatus, QUIT_KEY};
use tui_core::event::{InputEvent, KeyCode, KeyEvent, KeyKind};

fn press(c: char) -> InputEvent {
    InputEvent::Key(KeyEvent { code: KeyCode::Char(c), kind: KeyKind::Press })
}

#[test]
fn fresh_app_does_not_exit() {
    let app = App::default();
    assert_eq!(app, App { exit: false });
}

#[test]
fn exit_sets_the_flag() {
    let mut app = App::default();
    app.exit();
    assert!(app.exit);
}

#[test]
fn non_quit_press_keeps_exit_false() {
    let mut app = App::default();
    app.handle_event(press('a'));
    app.handle_event(press('Q'));
    app.handle_event(press(' '));
    app.handle_event(InputEvent::Key(KeyEvent { code: KeyCode::Other, kind: KeyKind::Press }));
    assert!(!app.exit);
}

#[test]
fn quit_press_sets_exit() {
    let mut app = App::default();
    app.handle_event(press(QUIT_KEY));
    assert!(app.exit);
}

#[test]
fn quit_key_event_goes_through_key_handler() {
    let mut app = App::default();
    app.handle_key_event(KeyEvent { code: KeyCode::Char('q'), kind: KeyKind::Press });
    assert!(app.exit);
}

#[test]
fn non_press_kinds_are_ignored() {
    let mut app = App::default();
    app.handle_event(InputEvent::Key(KeyEvent {
        code: KeyCode::Char('q'),
        kind: KeyKind::Release,
    }));
    assert!(!app.exit);
    app.handle_event(InputEvent::Key(KeyEvent {
        code: KeyCode::Char('q'),
        kind: KeyKind::Repeat,
    }));
    assert!(!app.exit);
}

#[test]
fn non_key_events_are_ignored() {
    let mut app = App::default();
    app.handle_event(InputEvent::Resize(80, 24));
    app.handle_event(InputEvent::Mouse);
    app.handle_event(InputEvent::Paste);
    app.handle_event(InputEvent::Other);
    assert!(!app.exit);
}

#[test]
fn non_key_events_do_not_clear_exit() {
    let mut app = App { exit: true };
    app.handle_event(InputEvent::Resize(1, 1));
    app.handle_event(press('a'));
    assert!(app.exit);
}

#[test]
fn loop_step_dispatches_an_event() {
    let mut app = App::default();
    let st = app.loop_step(IterationInput::Event(press('x')));
    assert_eq!(st, LoopStatus::Running);
    assert!(!app.exit);
    let st = app.loop_step(IterationInput::Event(press('q')));
    assert_eq!(st, LoopStatus::Finished);
    assert!(app.exit);
}

#[test]
fn loop_step_aborts_on_draw_failure() {
    let mut app = App::default();
    let st = app.loop_step(IterationInput::DrawFailed);
    assert_eq!(st, LoopStatus::Failed(AppError::Io));
    assert!(!app.exit);
}

#[test]
fn loop_step_aborts_on_read_failure() {
    let mut app = App::default();
    let st = app.loop_step(IterationInput::ReadFailed);
    assert_eq!(st, LoopStatus::Failed(AppError::EventRead));
    assert!(!app.exit);
}

#[test]
fn run_injected_keys_end_to_end() {
    let mut app = App::default();
    let st = app.run(&vec![IterationInput::Event(press('a'))]);
    assert_eq!(st, LoopStatus::Running);
    assert!(!app.exit);
    let st = app.run(&vec![IterationInput::Event(press('q'))]);
    assert_eq!(st, LoopStatus::Finished);
    assert!(app.exit);
}

#[test]
fn run_finishes_within_one_iteration_of_the_quit_press() {
    let mut app = App::default();
    let inputs = vec![
        IterationInput::Event(press('q')),
        IterationInput::DrawFailed,
        IterationInput::ReadFailed,
    ];
    let st = app.run(&inputs);
    assert_eq!(st, LoopStatus::Finished);
    assert!(app.exit);
}

#[test]
fn run_reports_a_read_failure() {
    let mut app = App::default();
    let st = app.run(&vec![
        IterationInput::Event(press('a')),
        IterationInput::ReadFailed,
    ]);
    assert_eq!(st, LoopStatus::Failed(AppError::EventRead));
    match st {
        LoopStatus::Failed(e) => assert_eq!(e.message(), "failed to handle event"),
        _ => unreachable!(),
    }
}

#[test]
fn run_reports_a_draw_failure() {
    let mut app = App::default();
    let st = app.run(&vec![IterationInput::DrawFailed]);
    assert_eq!(st, LoopStatus::Failed(AppError::Io));
    match st {
        LoopStatus::Failed(e) => assert_eq!(e.message(), "failed to draw frame"),
        _ => unreachable!(),
    }
}

#[test]
fn run_with_no_inputs_still_wants_more() {
    let mut app = App::default();
    let st = app.run(&vec![]);
    assert_eq!(st, LoopStatus::Running);
    assert!(!app.exit);
}

#[test]
fn run_on_an_exited_app_finishes_at_once() {
    let mut app = App { exit: true };
    let st = app.run(&vec![IterationInput::DrawFailed]);
    assert_eq!(st, LoopStatus::Finished);
}

#[test]
fn error_messages_name_the_phase() {
    assert_eq!(AppError::Io.message(), "failed to draw frame");
    assert_eq!(AppError::EventRead.message(), "failed to handle event");
    assert_eq!(AppError::Dispatch.message(), "failed to handle key event");
}
