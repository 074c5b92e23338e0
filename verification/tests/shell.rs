use std::cell::Cell;

use gltut::app::GlAppBuilder;
use gltut::{GlApp, GlAppDelegate, PostAction, WindowEvent};

/// A delegate that records every dispatch it receives.
struct RecordingDelegate {
    displays: u32,
    reshapes: Vec<(u32, u32)>,
}

impl GlAppDelegate for RecordingDelegate {
    fn display(&mut self) {
        self.displays += 1;
    }

    fn reshape(&mut self, width: u32, height: u32) {
        self.reshapes.push((width, height));
    }
}

fn recording_app() -> GlApp<RecordingDelegate> {
    GlApp::new(RecordingDelegate { displays: 0, reshapes: Vec::new() })
}

#[test]
fn redraw_displays_once_and_presents_once() {
    let mut app = recording_app();
    let action = app.window_event(&WindowEvent::RedrawRequested);
    assert_eq!(action, PostAction::Present);
    assert!(!app.exited());
    let d = app.into_delegate();
    assert_eq!(d.displays, 1);
    assert_eq!(d.reshapes, Vec::new());
}

#[test]
fn resize_reshapes_once_with_the_new_size_and_does_not_display() {
    let mut app = recording_app();
    assert_eq!(app.surface_action(&WindowEvent::Resized(800, 600)), Some((800, 600)));
    let action = app.window_event(&WindowEvent::Resized(800, 600));
    assert_eq!(action, PostAction::Idle);
    let d = app.into_delegate();
    assert_eq!(d.reshapes, vec![(800, 600)]);
    assert_eq!(d.displays, 0);
}

#[test]
fn close_exits_without_any_callback_and_silences_later_events() {
    let mut app = recording_app();
    let action = app.window_event(&WindowEvent::CloseRequested);
    assert_eq!(action, PostAction::Exit);
    assert!(app.exited());
    // events delivered after the close dispatch nothing and ask for nothing
    assert_eq!(app.window_event(&WindowEvent::RedrawRequested), PostAction::Idle);
    assert_eq!(app.window_event(&WindowEvent::Resized(1, 1)), PostAction::Idle);
    assert_eq!(app.surface_action(&WindowEvent::Resized(1, 1)), None);
    let d = app.into_delegate();
    assert_eq!(d.displays, 0);
    assert_eq!(d.reshapes, Vec::new());
}

#[test]
fn other_events_are_ignored() {
    let mut app = recording_app();
    assert_eq!(app.window_event(&WindowEvent::Other), PostAction::Idle);
    assert_eq!(app.surface_action(&WindowEvent::Other), None);
    assert!(!app.exited());
    let d = app.into_delegate();
    assert_eq!(d.displays, 0);
    assert_eq!(d.reshapes, Vec::new());
}

#[test]
fn surface_action_is_none_for_non_resize_events() {
    let app = recording_app();
    assert_eq!(app.surface_action(&WindowEvent::RedrawRequested), None);
    assert_eq!(app.surface_action(&WindowEvent::CloseRequested), None);
}

#[test]
fn builder_dispatches_to_the_given_callbacks() {
    let displays = Cell::new(0u32);
    let reshaped = Cell::new((0u32, 0u32));
    let builder = GlAppBuilder::new()
        .with_display(|| displays.set(displays.get() + 1))
        .with_reshape(|w, h| reshaped.set((w, h)));
    let mut app = builder.build();

    assert_eq!(app.window_event(&WindowEvent::RedrawRequested), PostAction::Present);
    assert_eq!(displays.get(), 1);
    assert_eq!(reshaped.get(), (0, 0));

    assert_eq!(app.window_event(&WindowEvent::Resized(320, 240)), PostAction::Idle);
    assert_eq!(reshaped.get(), (320, 240));
    assert_eq!(displays.get(), 1);

    assert_eq!(app.window_event(&WindowEvent::CloseRequested), PostAction::Exit);
    assert_eq!(app.window_event(&WindowEvent::RedrawRequested), PostAction::Idle);
    assert_eq!(displays.get(), 1);
}

#[test]
fn builder_default_callbacks_do_nothing() {
    let mut app = GlAppBuilder::new().build();
    assert_eq!(app.window_event(&WindowEvent::RedrawRequested), PostAction::Present);
    assert_eq!(app.window_event(&WindowEvent::Resized(10, 10)), PostAction::Idle);
    assert!(!app.exited());
}

#[test]
fn default_delegate_methods_do_nothing() {
    struct Quiet;
    impl GlAppDelegate for Quiet {}
    let mut app = GlApp::new(Quiet);
    assert_eq!(app.window_event(&WindowEvent::RedrawRequested), PostAction::Present);
    assert_eq!(app.window_event(&WindowEvent::Resized(2, 3)), PostAction::Idle);
    assert_eq!(app.window_event(&WindowEvent::CloseRequested), PostAction::Exit);
    assert!(app.exited());
}

#[test]
fn every_redraw_displays_and_presents_again() {
    let mut app = recording_app();
    for _ in 0..3 {
        assert_eq!(app.window_event(&WindowEvent::RedrawRequested), PostAction::Present);
    }
    assert_eq!(app.into_delegate().displays, 3);
}
