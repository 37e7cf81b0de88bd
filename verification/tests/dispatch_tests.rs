use rowm::dispatch::{keyboard_command, ChordKey, KeyCommand, BTN_LEFT, BTN_RIGHT};
use rowm::geometry::{Point, Size, Geometry, Edges, HorizontalEdge, VerticalEdge};
use rowm::grab::Compositor;
use rowm::stack::topmost_index;

fn point(x: i32, y: i32) -> Point {
    Point { x, y }
}

fn geometry(x: i32, y: i32, w: u32, h: u32) -> Geometry {
    Geometry {
        origin: Point { x, y },
        size: Size { w, h },
    }
}

#[test]
fn chords_need_press_and_command_modifier() {
    // a release, or a press without the modifier, is never consumed
    assert_eq!(keyboard_command(ChordKey::Q, false, true, true), (KeyCommand::NoCommand, false));
    assert_eq!(keyboard_command(ChordKey::Q, true, false, true), (KeyCommand::NoCommand, false));
    // an unrecognized key is not consumed even with the modifier
    assert_eq!(keyboard_command(ChordKey::Other, true, true, true), (KeyCommand::NoCommand, false));
}

#[test]
fn close_chord_spares_the_desktop_background() {
    assert_eq!(keyboard_command(ChordKey::Q, true, true, true), (KeyCommand::CloseView, true));
    // on the background the chord is still consumed but closes nothing
    assert_eq!(keyboard_command(ChordKey::Q, true, true, false), (KeyCommand::NoCommand, true));
}

#[test]
fn the_other_chords_decide_their_commands() {
    assert_eq!(keyboard_command(ChordKey::Down, true, true, true), (KeyCommand::SendToBack, true));
    assert_eq!(keyboard_command(ChordKey::Escape, true, true, true), (KeyCommand::Terminate, true));
    assert_eq!(keyboard_command(ChordKey::Return, true, true, true), (KeyCommand::LaunchTerminal, true));
    assert_eq!(keyboard_command(ChordKey::P, true, true, true), (KeyCommand::LaunchFinder, true));
}

#[test]
fn left_button_press_starts_a_move() {
    let mut c = Compositor::new();
    let out = c.pointer_button(1, true, true, true, BTN_LEFT, point(40, 40), Some(geometry(0, 0, 100, 100)));
    assert!(out.focus);
    assert!(out.raise);
    assert!(!out.set_resizing);
    assert!(out.active);
    assert_eq!(c.view, Some(1));
    assert_eq!(c.grab, point(40, 40));
    assert!(c.edges.is_empty());
}

#[test]
fn right_button_press_starts_a_resize_with_derived_edges() {
    let mut c = Compositor::new();
    let out = c.pointer_button(1, true, true, true, BTN_RIGHT, point(90, 10), Some(geometry(0, 0, 100, 100)));
    assert!(out.focus);
    assert!(out.raise);
    assert!(out.set_resizing);
    assert!(out.active);
    assert_eq!(c.view, Some(1));
    assert_eq!(c.edges.horizontal, Some(HorizontalEdge::Right));
    assert_eq!(c.edges.vertical, Some(VerticalEdge::Top));
}

#[test]
fn press_without_modifier_or_on_background_does_nothing() {
    let mut c = Compositor::new();
    let out = c.pointer_button(1, true, false, true, BTN_LEFT, point(40, 40), None);
    assert!(!out.focus && !out.raise && !out.active);
    assert_eq!(c.view, None);

    let out = c.pointer_button(1, false, true, true, BTN_LEFT, point(40, 40), None);
    assert!(!out.focus && !out.raise && !out.active);
    assert_eq!(c.view, None);
}

#[test]
fn other_button_press_only_focuses() {
    let mut c = Compositor::new();
    let out = c.pointer_button(1, true, true, true, 0x112, point(40, 40), None);
    assert!(out.focus);
    assert!(!out.raise && !out.set_resizing && !out.active);
    assert_eq!(c.view, None);
}

#[test]
fn release_stops_the_session_and_clears_the_resizing_mark() {
    let mut c = Compositor::new();
    let pressed = c.pointer_button(1, true, true, true, BTN_RIGHT, point(90, 90), Some(geometry(0, 0, 100, 100)));
    assert!(pressed.active);
    let released = c.pointer_button(5, true, true, false, BTN_RIGHT, point(95, 95), None);
    assert!(!released.active);
    assert_eq!(released.clear_resizing, Some(1));
    assert_eq!(c.view, None);
    assert!(c.edges.is_empty());
}

#[test]
fn serialized_starts_exclude_each_other() {
    // two start attempts on different views, in whichever order the lock
    // admits them: exactly one succeeds and the loser leaves the winner's
    // session untouched
    let mut c = Compositor::new();
    let first = c.pointer_button(1, true, true, true, BTN_LEFT, point(10, 10), None);
    let second = c.pointer_button(2, true, true, true, BTN_LEFT, point(20, 20), None);
    assert!(first.raise);
    assert!(!second.raise);
    assert_eq!(c.view, Some(1));
    assert_eq!(c.grab, point(10, 10));
}

#[test]
fn destroy_then_topmost_picks_the_remaining_top() {
    // output stack [A, B, C]; destroying B leaves [A, C]; the navigator
    // picks index 1, which is C
    let mut views = vec!["A", "B", "C"];
    views.remove(1);
    let top = topmost_index(views.len(), 0).unwrap();
    assert_eq!(views[top], "C");
}

#[test]
fn send_to_back_then_topmost_picks_the_new_top() {
    // stack [A, B, C] with C topmost; sending C to the back gives [C, A, B]
    // and the navigator then picks B
    let mut views = vec!["A", "B", "C"];
    let moved = views.pop().unwrap();
    views.insert(0, moved);
    assert_eq!(views, vec!["C", "A", "B"]);
    let top = topmost_index(views.len(), 0).unwrap();
    assert_eq!(views[top], "B");
}

#[test]
fn topmost_of_an_empty_stack_is_none() {
    assert_eq!(topmost_index(0, 0), None);
    assert_eq!(topmost_index(0, 3), None);
}

#[test]
fn topmost_offset_cycles_through_the_stack() {
    assert_eq!(topmost_index(3, 0), Some(2));
    assert_eq!(topmost_index(3, 1), Some(0));
    assert_eq!(topmost_index(3, 2), Some(1));
    assert_eq!(topmost_index(3, 3), Some(2));
}
