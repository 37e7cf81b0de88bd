//! Per-event decisions of the dispatch layer: which command a keyboard
//! chord stands for, and what a pointer-button event does to the grab
//! machine. The adapter around the crate translates the host's raw event
//! data (keysym, modifier mask, button state) into the plain values these
//! functions take, and performs the host calls their outcomes ask for.

use vstd::prelude::*;
use crate::geometry::{Point, Geometry, Edges};
use crate::grab::{Compositor, ViewId, start_transition, resolved_edges};

verus! {

/// Button code of the left pointer button.
pub const BTN_LEFT: u32 = 0x110;

/// Button code of the right pointer button.
pub const BTN_RIGHT: u32 = 0x111;

/// The keys the chord table knows. The adapter maps the host's keysym to
/// one of these; every other key is `Other`.
#[derive(Clone, Copy, PartialEq, Eq, Structural, Debug)]
pub enum ChordKey {
    Q,
    Down,
    Escape,
    Return,
    P,
    Other,
}

/// What the window manager does in response to a keyboard chord.
#[derive(Clone, Copy, PartialEq, Eq, Structural, Debug)]
pub enum KeyCommand {
    /// Close the view the event was delivered to.
    CloseView,
    /// Send the view to the back of its output's stack, then focus the
    /// stack's new topmost view.
    SendToBack,
    /// Terminate the compositor session.
    Terminate,
    /// Spawn the configured terminal program.
    LaunchTerminal,
    /// Spawn the configured application-launcher program.
    LaunchFinder,
    /// Nothing to do.
    NoCommand,
}

/// The chord table. Chords are recognized only on a key press with exactly
/// the command modifier held; everything else is not consumed. Q closes
/// only a real window (never the desktop background) but consumes the
/// chord either way.
pub open spec fn keyboard_decision(
    key: ChordKey,
    pressed: bool,
    command_mod: bool,
    is_window: bool,
) -> (KeyCommand, bool) {
    if pressed && command_mod {
        match key {
            ChordKey::Q => (
                if is_window {
                    KeyCommand::CloseView
                } else {
                    KeyCommand::NoCommand
                },
                true,
            ),
            ChordKey::Down => (KeyCommand::SendToBack, true),
            ChordKey::Escape => (KeyCommand::Terminate, true),
            ChordKey::Return => (KeyCommand::LaunchTerminal, true),
            ChordKey::P => (KeyCommand::LaunchFinder, true),
            ChordKey::Other => (KeyCommand::NoCommand, false),
        }
    } else {
        (KeyCommand::NoCommand, false)
    }
}

/// Decide a keyboard event: `pressed` is whether this is a key press,
/// `command_mod` whether exactly the command modifier is held, `is_window`
/// whether the view under focus is a real window. Returns the command to
/// perform and whether the event was consumed.
pub fn keyboard_command(
    key: ChordKey,
    pressed: bool,
    command_mod: bool,
    is_window: bool,
) -> (r: (KeyCommand, bool))
    ensures
        r == keyboard_decision(key, pressed, command_mod, is_window),
{
    if pressed && command_mod {
        match key {
            ChordKey::Q => (
                if is_window {
                    KeyCommand::CloseView
                } else {
                    KeyCommand::NoCommand
                },
                true,
            ),
            ChordKey::Down => (KeyCommand::SendToBack, true),
            ChordKey::Escape => (KeyCommand::Terminate, true),
            ChordKey::Return => (KeyCommand::LaunchTerminal, true),
            ChordKey::P => (KeyCommand::LaunchFinder, true),
            ChordKey::Other => (KeyCommand::NoCommand, false),
        }
    } else {
        (KeyCommand::NoCommand, false)
    }
}

/// The host effects a pointer-button decision asks for.
#[derive(Clone, Copy, PartialEq, Eq, Debug)]
pub struct ButtonOutcome {
    /// Focus the view the button went down on.
    pub focus: bool,
    /// Raise that view to the front of its output's stack (a grab started).
    pub raise: bool,
    /// Mark that view as being resized (a resize grab started).
    pub set_resizing: bool,
    /// Clear this view's resizing mark (a button release ended a session).
    pub clear_resizing: Option<ViewId>,
    /// Whether a session is active after the event; the event is reported
    /// consumed exactly then.
    pub active: bool,
}

impl Compositor {
    /// Decide a pointer-button event. On a press with the command modifier
    /// held on a real window, the view is focused and the left button
    /// attempts a drag-move, the right button a drag-resize with no
    /// requested edges (`geometry` is what the host reports for the view);
    /// a start that loses to an already-active session changes nothing. Any
    /// release ends whatever session is in progress.
    pub fn pointer_button(
        &mut self,
        view: ViewId,
        is_window: bool,
        command_mod: bool,
        pressed: bool,
        button: u32,
        point: Point,
        geometry: Option<Geometry>,
    ) -> (out: ButtonOutcome)
        ensures
            old(self).wf() ==> final(self).wf(),
            out.active == final(self).is_active(),
            out.focus == (pressed && is_window && command_mod),
            // a release ends the session and asks for its target's resizing
            // mark to be cleared
            !pressed ==> final(self).is_idle()
                && final(self).edges.spec_is_empty()
                && final(self).grab == old(self).grab
                && out.clear_resizing == old(self).view
                && !out.raise && !out.set_resizing,
            pressed ==> out.clear_resizing is None,
            // a press outside a command-modifier chord on a window changes
            // nothing
            pressed && !(is_window && command_mod) ==> *final(self) == *old(self)
                && !out.raise && !out.set_resizing,
            // left button: the start-move transition
            pressed && is_window && command_mod && button == BTN_LEFT ==> (
                (*final(self), out.raise) == start_transition(*old(self), view, point)
                && !out.set_resizing
            ),
            // right button: the start-resize transition with no requested
            // edges
            pressed && is_window && command_mod && button == BTN_RIGHT ==> (
                out.raise == (old(self).is_idle() && geometry is Some)
                && out.set_resizing == out.raise
                && (!out.raise ==> *final(self) == *old(self))
                && (out.raise ==> final(self).view == Some(view)
                    && final(self).grab == point
                    && final(self).edges == resolved_edges(Edges::spec_none(), point, geometry->0))
            ),
            // any other button: focus at most, no transition
            pressed && is_window && command_mod && button != BTN_LEFT && button != BTN_RIGHT ==> (
                *final(self) == *old(self) && !out.raise && !out.set_resizing
            ),
    {
        let mut out = ButtonOutcome {
            focus: false,
            raise: false,
            set_resizing: false,
            clear_resizing: None,
            active: false,
        };
        if pressed {
            if is_window && command_mod {
                out.focus = true;
                if button == BTN_LEFT {
                    out.raise = self.start_interactive_move(view, point);
                } else if button == BTN_RIGHT {
                    let ok = self.start_interactive_resize(view, Edges::none(), point, geometry);
                    out.raise = ok;
                    out.set_resizing = ok;
                }
            }
        } else {
            out.clear_resizing = self.stop_interactive_action();
        }
        out.active = self.view.is_some();
        out
    }
}

} // verus!
