//! What a window's events and keys ask for.
//!
//! The functions here take an event, or the state of the movement keys, and
//! say what is to be done. They do none of it: the caller owns the window,
//! the graphics context and the camera.
use crate::camera::CameraMovement;
use vstd::prelude::*;

verus! {

/// The events of a window, as far as anything here acts on them.
#[derive(Debug, Clone, Copy, PartialEq, Eq, Structural)]
pub enum WindowEvent {
    /// The framebuffer has a new size.
    FramebufferSize { width: i32, height: i32 },
    /// The cursor has moved.
    CursorPos,
    /// The scroll wheel has turned.
    Scroll,
    /// The escape key was pressed.
    EscapePressed,
    /// The left control key was pressed.
    LeftControlPressed,
    /// Any other event.
    Other,
}

/// How polygons are rasterized, front and back.
#[derive(Debug, Clone, Copy, PartialEq, Eq, Structural)]
pub enum PolygonMode {
    Fill,
    Line,
}

/// What is to be done about an event.
#[derive(Debug, Clone, Copy, PartialEq, Eq, Structural)]
pub enum WindowAction {
    /// Set the viewport to the whole framebuffer, from its origin.
    Viewport { width: i32, height: i32 },
    /// Turn the camera by the cursor's offset from where it last was, with
    /// the pitch kept in bounds. Where `restart` holds, the cursor counts as
    /// having last been where it is now.
    Look { restart: bool },
    /// Zoom the camera by the vertical scroll offset.
    Zoom,
    /// Ask the window to close.
    Close,
    /// Rasterize polygons in the given mode.
    Polygon { mode: PolygonMode },
    /// Nothing.
    Nothing,
}

/// The mode to switch to from wireframe mode on or off.
pub open spec fn toggled_mode(wireframe_mode: bool) -> PolygonMode {
    if wireframe_mode {
        PolygonMode::Fill
    } else {
        PolygonMode::Line
    }
}

/// What a window without a camera does about `event`.
pub open spec fn action_without_camera(event: WindowEvent, wireframe_mode: bool) -> WindowAction {
    match event {
        WindowEvent::FramebufferSize { width, height } => WindowAction::Viewport { width, height },
        WindowEvent::EscapePressed => WindowAction::Close,
        WindowEvent::LeftControlPressed => WindowAction::Polygon {
            mode: toggled_mode(wireframe_mode),
        },
        _ => WindowAction::Nothing,
    }
}

/// What a window with a camera does about `event`.
pub open spec fn action_with_camera(
    event: WindowEvent,
    first_mouse: bool,
    wireframe_mode: bool,
) -> WindowAction {
    match event {
        WindowEvent::CursorPos => WindowAction::Look { restart: first_mouse },
        WindowEvent::Scroll => WindowAction::Zoom,
        _ => action_without_camera(event, wireframe_mode),
    }
}

/// Decides what to do about an event of a window that has no camera.
///
/// A new framebuffer size sets the viewport, escape closes the window, and
/// left control switches between filled and wireframe polygons, which
/// `wireframe_mode` keeps track of. Everything else is ignored.
pub fn handle_window_event_original(event: WindowEvent, wireframe_mode: &mut bool) -> (action:
    WindowAction)
    ensures
        action == action_without_camera(event, *old(wireframe_mode)),
        *final(wireframe_mode) == (*old(wireframe_mode) != (event is LeftControlPressed)),
{
    match event {
        WindowEvent::FramebufferSize { width, height } => WindowAction::Viewport { width, height },
        WindowEvent::EscapePressed => WindowAction::Close,
        WindowEvent::LeftControlPressed => {
            let mode = if *wireframe_mode {
                PolygonMode::Fill
            } else {
                PolygonMode::Line
            };
            *wireframe_mode = !*wireframe_mode;
            WindowAction::Polygon { mode }
        },
        _ => WindowAction::Nothing,
    }
}

/// Decides what to do about an event of a window that has a camera.
///
/// As without a camera, and besides: a cursor movement turns the camera and
/// a scroll zooms it. The first cursor movement restarts the tracking of
/// the cursor, so that it turns the camera by nothing; `first_mouse` says
/// whether that movement is still to come.
pub fn handle_window_event(
    event: WindowEvent,
    first_mouse: &mut bool,
    wireframe_mode: &mut bool,
) -> (action: WindowAction)
    ensures
        action == action_with_camera(event, *old(first_mouse), *old(wireframe_mode)),
        *final(first_mouse) == (*old(first_mouse) && !(event is CursorPos)),
        *final(wireframe_mode) == (*old(wireframe_mode) != (event is LeftControlPressed)),
{
    match event {
        WindowEvent::CursorPos => {
            let restart = *first_mouse;
            *first_mouse = false;
            WindowAction::Look { restart }
        },
        WindowEvent::Scroll => WindowAction::Zoom,
        _ => handle_window_event_original(event, wireframe_mode),
    }
}

/// The moves that the pressed keys ask for: forward, backward, right, left,
/// in that order, each if and only if its key is pressed.
pub open spec fn moves_for_keys(forward: bool, backward: bool, right: bool, left: bool) -> Seq<
    CameraMovement,
> {
    let first = if forward {
        seq![CameraMovement::FORWARD]
    } else {
        Seq::empty()
    };
    let second = if backward {
        seq![CameraMovement::BACKWARD]
    } else {
        Seq::empty()
    };
    let third = if right {
        seq![CameraMovement::RIGHT]
    } else {
        Seq::empty()
    };
    let fourth = if left {
        seq![CameraMovement::LEFT]
    } else {
        Seq::empty()
    };
    first + second + third + fourth
}

/// Decides how to move the camera from the state of the four movement keys.
/// Opposite keys do not cancel: both moves are made, one after the other.
pub fn process_input(forward: bool, backward: bool, right: bool, left: bool) -> (moves: Vec<
    CameraMovement,
>)
    ensures
        moves@ == moves_for_keys(forward, backward, right, left),
{
    let mut moves: Vec<CameraMovement> = Vec::new();
    if forward {
        moves.push(CameraMovement::FORWARD);
    }
    if backward {
        moves.push(CameraMovement::BACKWARD);
    }
    if right {
        moves.push(CameraMovement::RIGHT);
    }
    if left {
        moves.push(CameraMovement::LEFT);
    }
    assert(moves@ =~= moves_for_keys(forward, backward, right, left));
    moves
}

} // verus!
