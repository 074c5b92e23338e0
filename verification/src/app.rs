//! The windowed-application shell: the standard structure for feeding a
//! platform event loop.
//!
//! The platform host owns the window, the rendering context, the
//! presentation surface and the event loop; the shell owns the decisions.
//! For each delivered event the host first performs the shell's surface
//! action (`surface_action`), then lets the shell dispatch the event to the
//! delegate (`window_event`), and finally performs the returned
//! `PostAction`: exit the loop, or present the frame by flushing the
//! pipeline, announcing the presentation and swapping the buffers, once.
//!
//! The whole behaviour of the shell is the transition function
//! `shell_step`, stated over an abstract `ShellState` that records whether
//! the loop has been told to stop and every callback dispatch so far.

use vstd::prelude::*;

verus! {

/// A window event, as the platform delivers it: the three kinds the shell
/// responds to, and everything else.
#[derive(Copy, Clone, Debug, PartialEq, Eq, Structural)]
pub enum WindowEvent {
    /// The user asked to close the window.
    CloseRequested,
    /// The platform asks for the window contents to be redrawn.
    RedrawRequested,
    /// The window was resized to this physical size, in pixels
    /// (width, height).
    Resized(u32, u32),
    /// Any other event kind; the shell ignores it.
    Other,
}

/// What the platform host must do after the shell has handled one event.
#[derive(Copy, Clone, Debug, PartialEq, Eq, Structural)]
pub enum PostAction {
    /// Stop dispatching events: the application is over.
    Exit,
    /// Present the frame: flush the graphics pipeline, announce the
    /// presentation, and swap the presentation buffers — exactly once.
    Present,
    /// Nothing to do.
    Idle,
}

/// The abstract state of the shell: whether the loop has been told to stop,
/// how many times the display callback ran, and each size the reshape
/// callback ran with, in order.
pub struct ShellState {
    pub exited: bool,
    pub displays: nat,
    pub reshapes: Seq<(u32, u32)>,
}

/// The state of a freshly built shell: running, with no dispatch yet.
pub open spec fn initial_shell() -> ShellState {
    ShellState { exited: false, displays: 0, reshapes: Seq::empty() }
}

/// One step of the shell: from a state and an event to the state after the
/// event and the action the host must then perform.
///
/// An exited shell does nothing for any event: no callback runs and no
/// action is asked for. A running shell exits on a close request (without
/// any callback), displays and presents on a redraw request, and reshapes
/// on a resize; every other event is ignored.
pub open spec fn shell_step(s: ShellState, event: WindowEvent) -> (ShellState, PostAction) {
    if s.exited {
        (s, PostAction::Idle)
    } else {
        match event {
            WindowEvent::CloseRequested => (
                ShellState { exited: true, displays: s.displays, reshapes: s.reshapes },
                PostAction::Exit,
            ),
            WindowEvent::RedrawRequested => (
                ShellState { exited: false, displays: s.displays + 1, reshapes: s.reshapes },
                PostAction::Present,
            ),
            WindowEvent::Resized(w, h) => (
                ShellState {
                    exited: false,
                    displays: s.displays,
                    reshapes: s.reshapes.push((w, h)),
                },
                PostAction::Idle,
            ),
            WindowEvent::Other => (s, PostAction::Idle),
        }
    }
}

/// What the host must do to the presentation surface before the shell
/// dispatches one event: resize it to the new physical size when the event
/// is a resize of a running shell, nothing otherwise.
pub open spec fn spec_surface_action(s: ShellState, event: WindowEvent) -> Option<(u32, u32)> {
    if s.exited {
        None
    } else {
        match event {
            WindowEvent::Resized(w, h) => Some((w, h)),
            _ => None,
        }
    }
}

/// A trait specifying methods required by [`GlApp`] for running a window
/// application.
///
/// Default implementations are provided for all methods, which do nothing
/// and result in a static window.
pub trait GlAppDelegate: Sized {
    /// What this delegate asks of its own state before a dispatch;
    /// [`GlApp`] maintains it between events. The default asks nothing.
    open spec fn wf(&self) -> bool {
        true
    }

    /// Called when a window redraw is requested, for doing any
    /// rendering/updates needed.
    fn display(&mut self)
        requires
            old(self).wf(),
        ensures
            final(self).wf(),
    {
    }

    /// Called when the window has been resized, with the new physical size
    /// in pixels, for adjusting the viewport and the like. The presentation
    /// surface has already been resized to match when this runs.
    #[allow(unused_variables)]
    fn reshape(&mut self, width: u32, height: u32)
        requires
            old(self).wf(),
        ensures
            final(self).wf(),
    {
    }
}

/// A basic application shell around a [`GlAppDelegate`].
///
/// It responds to the limited set of events a minimal renderer needs:
/// redraw, resize and close. Its behaviour is exactly [`shell_step`].
pub struct GlApp<T> {
    delegate: T,
    exited: bool,
    displays: Ghost<nat>,
    reshapes: Ghost<Seq<(u32, u32)>>,
}

impl<T: GlAppDelegate> GlApp<T> {
    /// The abstract state of this shell.
    pub closed spec fn shell(self) -> ShellState {
        ShellState { exited: self.exited, displays: self.displays@, reshapes: self.reshapes@ }
    }

    /// The delegate as the dispatches so far have left it.
    pub closed spec fn spec_delegate(self) -> T {
        self.delegate
    }

    /// The shell is ready to dispatch: its delegate's own demands hold.
    pub open spec fn wf(self) -> bool {
        self.spec_delegate().wf()
    }

    /// Wrap a delegate into a shell that has seen no event yet.
    pub fn new(delegate: T) -> (app: GlApp<T>)
        requires
            delegate.wf(),
        ensures
            app.shell() == initial_shell(),
            app.spec_delegate() == delegate,
            app.wf(),
    {
        GlApp { delegate, exited: false, displays: Ghost(0nat), reshapes: Ghost(Seq::empty()) }
    }

    /// Whether a close request has ended the loop.
    pub fn exited(&self) -> (e: bool)
        ensures
            e == self.shell().exited,
    {
        self.exited
    }

    /// Borrow the delegate, to read what the dispatches did to it.
    pub fn delegate(&self) -> (d: &T)
        ensures
            d == self.spec_delegate(),
    {
        &self.delegate
    }

    /// Take the delegate out of the shell.
    pub fn into_delegate(self) -> (d: T)
        ensures
            d == self.spec_delegate(),
    {
        self.delegate
    }

    /// What the host must do to the presentation surface before letting the
    /// shell dispatch this event.
    pub fn surface_action(&self, event: &WindowEvent) -> (a: Option<(u32, u32)>)
        ensures
            a == spec_surface_action(self.shell(), *event),
    {
        if self.exited {
            None
        } else {
            match *event {
                WindowEvent::Resized(w, h) => Some((w, h)),
                _ => None,
            }
        }
    }

    /// Dispatch one event: run the delegate callback the event calls for,
    /// record the dispatch, and return what the host must do next — exactly
    /// the step that [`shell_step`] prescribes.
    pub fn window_event(&mut self, event: &WindowEvent) -> (a: PostAction)
        requires
            old(self).wf(),
        ensures
            final(self).wf(),
            (final(self).shell(), a) == shell_step(old(self).shell(), *event),
    {
        if self.exited {
            return PostAction::Idle;
        }
        match *event {
            // stop the application once the user closes the window
            WindowEvent::CloseRequested => {
                self.exited = true;
                PostAction::Exit
            },
            WindowEvent::RedrawRequested => {
                // run the user-specified display callback, then have the
                // host present the results
                self.delegate.display();
                self.displays = Ghost(self.displays@ + 1);
                PostAction::Present
            },
            WindowEvent::Resized(w, h) => {
                // the host has already resized the surface to match
                self.delegate.reshape(w, h);
                self.reshapes = Ghost(self.reshapes@.push((w, h)));
                PostAction::Idle
            },
            WindowEvent::Other => PostAction::Idle,
        }
    }
}

/// A helper struct for building a basic [`GlApp`].
///
/// Can be used to pass simple callbacks for each of the methods in
/// [`GlAppDelegate`]. If the callbacks need more control, prefer to
/// directly implement [`GlAppDelegate`].
pub struct GlAppBuilder<T1, T2> {
    display_fn: T1,
    reshape_fn: T2,
}

impl<T1, T2> GlAppBuilder<T1, T2> {
    /// The stored display callback.
    pub closed spec fn spec_display_fn(self) -> T1 {
        self.display_fn
    }

    /// The stored reshape callback.
    pub closed spec fn spec_reshape_fn(self) -> T2 {
        self.reshape_fn
    }

    /// Set a custom `display` callback. See [`GlAppDelegate`] for details.
    pub fn with_display<F: Fn()>(self, display: F) -> (b: GlAppBuilder<F, T2>)
        ensures
            b.spec_display_fn() == display,
            b.spec_reshape_fn() == self.spec_reshape_fn(),
    {
        GlAppBuilder { display_fn: display, reshape_fn: self.reshape_fn }
    }

    /// Set a custom `reshape` callback. See [`GlAppDelegate`] for details.
    pub fn with_reshape<F: Fn(u32, u32)>(self, reshape: F) -> (b: GlAppBuilder<T1, F>)
        ensures
            b.spec_display_fn() == self.spec_display_fn(),
            b.spec_reshape_fn() == reshape,
    {
        GlAppBuilder { display_fn: self.display_fn, reshape_fn: reshape }
    }
}

impl GlAppBuilder<(), ()> {
    /// Initialize a builder with default callbacks, which do nothing — the
    /// same behaviour as the default implementations in [`GlAppDelegate`].
    pub fn new() -> (b: GlAppBuilder<impl Fn(), impl Fn(u32, u32)>)
        ensures
            b.wf(),
    {
        GlAppBuilder { display_fn: || {}, reshape_fn: (|_width: u32, _height: u32| {}) }
    }
}

impl<T1: Fn(), T2: Fn(u32, u32)> GlAppBuilder<T1, T2> {
    /// Build the [`GlApp`].
    pub fn build(self) -> (app: GlApp<GlAppBuilder<T1, T2>>)
        requires
            self.wf(),
        ensures
            app.shell() == initial_shell(),
            app.spec_delegate() == self,
            app.wf(),
    {
        GlApp::new(self)
    }
}

impl<T1: Fn(), T2: Fn(u32, u32)> GlAppDelegate for GlAppBuilder<T1, T2> {
    /// The stored callbacks can be called: the display one with no
    /// arguments, the reshape one with any size.
    open spec fn wf(&self) -> bool {
        &&& call_requires(self.spec_display_fn(), ())
        &&& forall|w: u32, h: u32| call_requires(self.spec_reshape_fn(), (w, h))
    }

    fn display(&mut self) {
        (self.display_fn)()
    }

    fn reshape(&mut self, width: u32, height: u32) {
        proof {
            // instantiate the callability of the stored callback at this size
            assert(call_requires(self.spec_reshape_fn(), (width, height)));
        }
        (self.reshape_fn)(width, height)
    }
}

/// A close request delivered to a running shell ends the loop at once: no
/// callback runs on that event, and from then on no event — `later` stands
/// for any of them — dispatches a callback or asks the host for anything.
pub proof fn lemma_close_terminates(s: ShellState, later: WindowEvent)
    requires
        !s.exited,
    ensures
        ({
            let (s2, a) = shell_step(s, WindowEvent::CloseRequested);
            &&& s2.exited
            &&& a == PostAction::Exit
            &&& s2.displays == s.displays
            &&& s2.reshapes == s.reshapes
            &&& shell_step(s2, later) == (s2, PostAction::Idle)
        }),
{
}

/// A resize delivered to a running shell runs the reshape callback exactly
/// once, with exactly the new physical size; the display callback does not
/// run, nothing is presented, and the surface is resized to that size
/// before the dispatch.
pub proof fn lemma_resize_dispatch(s: ShellState, w: u32, h: u32)
    requires
        !s.exited,
    ensures
        ({
            let (s2, a) = shell_step(s, WindowEvent::Resized(w, h));
            &&& s2.reshapes == s.reshapes.push((w, h))
            &&& s2.displays == s.displays
            &&& !s2.exited
            &&& a == PostAction::Idle
        }),
        spec_surface_action(s, WindowEvent::Resized(w, h)) == Some((w, h)),
{
}

/// A redraw request delivered to a running shell runs the display callback
/// exactly once and has the host present — and so swap the buffers —
/// exactly once; the reshape callback does not run.
pub proof fn lemma_redraw_dispatch(s: ShellState)
    requires
        !s.exited,
    ensures
        ({
            let (s2, a) = shell_step(s, WindowEvent::RedrawRequested);
            &&& s2.displays == s.displays + 1
            &&& s2.reshapes == s.reshapes
            &&& !s2.exited
            &&& a == PostAction::Present
        }),
{
}

} // verus!
