//! Cursor capture: whether the window holds the pointer.
//!
//! A press of the primary button captures the cursor: the window confines and
//! hides it. A press of the cancel key frees it again. Only the edges count,
//! never a button or key that is merely held, and an edge that asks for the
//! state already reached changes nothing.

use crate::input::{
    button_just_pressed, key_just_pressed, pressed_buttons, pressed_keys, ControlKey,
    PointerButton,
};
use bevy::input::keyboard::KeyCode;
use bevy::input::mouse::MouseButton;
use bevy::input::Input;
use vstd::prelude::*;

verus! {

/// Whether the window holds the pointer.
#[derive(Clone, Copy, Debug, PartialEq, Eq)]
pub enum CursorState {
    /// The cursor is visible and may leave the window.
    Free,
    /// The cursor is hidden and confined to the window.
    Captured,
}

/// What the host is to do with the window's cursor.
#[derive(Clone, Copy, Debug, PartialEq, Eq)]
pub enum CursorCommand {
    /// Confine the cursor to the window and hide it.
    ConfineAndHide,
    /// Let the cursor leave the window and show it.
    ReleaseAndShow,
}

/// A change of the primary button or of the cancel key.
#[derive(Clone, Copy, Debug, PartialEq, Eq)]
pub enum InputEdge {
    PrimaryPressed,
    PrimaryReleased,
    CancelPressed,
    CancelReleased,
}

/// Why cursor handling cannot go on.
#[derive(Clone, Copy, Debug, PartialEq, Eq)]
pub enum CursorError {
    /// The host has no primary window. Nothing can be done about it: the
    /// host is expected to stop.
    NoPrimaryWindow,
}

/// The state and the commands that a frame of cursor handling ends with.
#[derive(Debug, PartialEq, Eq)]
pub struct CursorUpdate {
    /// The state after the frame.
    pub state: CursorState,
    /// The commands for the window, in order.
    pub commands: Vec<CursorCommand>,
}

/// The state after one edge: a press of the primary button captures, a press
/// of the cancel key frees, a release changes nothing.
pub open spec fn after_edge(state: CursorState, edge: InputEdge) -> CursorState {
    match edge {
        InputEdge::PrimaryPressed => CursorState::Captured,
        InputEdge::CancelPressed => CursorState::Free,
        InputEdge::PrimaryReleased => state,
        InputEdge::CancelReleased => state,
    }
}

/// The command that one edge gives rise to: the one that brings the window
/// to the new state, if the state changes.
pub open spec fn command_of_edge(state: CursorState, edge: InputEdge) -> Option<CursorCommand> {
    if after_edge(state, edge) == state {
        None
    } else {
        Some(command_for(after_edge(state, edge)))
    }
}

/// The command that brings the window's cursor to `state`.
pub open spec fn command_for(state: CursorState) -> CursorCommand {
    match state {
        CursorState::Captured => CursorCommand::ConfineAndHide,
        CursorState::Free => CursorCommand::ReleaseAndShow,
    }
}

/// The state after a sequence of edges, oldest first.
pub open spec fn after_edges(state: CursorState, edges: Seq<InputEdge>) -> CursorState
    decreases edges.len(),
{
    if edges.len() == 0 {
        state
    } else {
        after_edge(after_edges(state, edges.drop_last()), edges.last())
    }
}

/// The commands that a sequence of edges gives rise to, in order.
pub open spec fn commands_of_edges(state: CursorState, edges: Seq<InputEdge>) -> Seq<CursorCommand>
    decreases edges.len(),
{
    if edges.len() == 0 {
        Seq::empty()
    } else {
        let before = after_edges(state, edges.drop_last());
        let earlier = commands_of_edges(state, edges.drop_last());
        match command_of_edge(before, edges.last()) {
            Some(command) => earlier.push(command),
            None => earlier,
        }
    }
}

/// The edges that count in one frame: the press of the primary button comes
/// before the press of the cancel key, so the cancel key wins a frame that
/// has both.
pub open spec fn frame_edges(primary_just_pressed: bool, cancel_just_pressed: bool) -> Seq<
    InputEdge,
> {
    let primary = if primary_just_pressed {
        seq![InputEdge::PrimaryPressed]
    } else {
        Seq::empty()
    };
    let cancel = if cancel_just_pressed {
        seq![InputEdge::CancelPressed]
    } else {
        Seq::empty()
    };
    primary + cancel
}

/// The state after a frame: free where the cancel key was pressed, captured
/// where only the primary button was, unchanged otherwise.
pub open spec fn state_after_frame(
    state: CursorState,
    primary_just_pressed: bool,
    cancel_just_pressed: bool,
) -> CursorState {
    if cancel_just_pressed {
        CursorState::Free
    } else if primary_just_pressed {
        CursorState::Captured
    } else {
        state
    }
}

/// The commands of a frame: to confine and hide, where the primary button
/// was pressed on a free cursor; then to release and show, where the cancel
/// key was pressed on a cursor that was captured before or in this frame.
pub open spec fn commands_of_frame(
    state: CursorState,
    primary_just_pressed: bool,
    cancel_just_pressed: bool,
) -> Seq<CursorCommand> {
    let capture = if primary_just_pressed && state == CursorState::Free {
        seq![CursorCommand::ConfineAndHide]
    } else {
        Seq::empty()
    };
    let release = if cancel_just_pressed && (primary_just_pressed || state
        == CursorState::Captured) {
        seq![CursorCommand::ReleaseAndShow]
    } else {
        Seq::empty()
    };
    capture + release
}

/// The press at `i` is the latest edge that counts: no press of the cancel
/// key follows it.
pub open spec fn press_stands_at(edges: Seq<InputEdge>, i: int) -> bool {
    &&& 0 <= i < edges.len()
    &&& edges[i] == InputEdge::PrimaryPressed
    &&& forall|j: int| i < j < edges.len() ==> edges[j] != InputEdge::CancelPressed
}

/// No edge is a press of the cancel key.
pub open spec fn never_cancelled(edges: Seq<InputEdge>) -> bool {
    forall|j: int| 0 <= j < edges.len() ==> edges[j] != InputEdge::CancelPressed
}

/// After any sequence of presses and releases the cursor is captured exactly
/// if the latest edge that counts is a press of the primary button, with no
/// press of the cancel key after it. Where no edge counts at all, the state is
/// the one before the sequence.
pub proof fn lemma_captured_iff_latest_press_stands(initial: CursorState, edges: Seq<InputEdge>)
    ensures
        after_edges(initial, edges) == CursorState::Captured <==> {
            ||| exists|i: int| press_stands_at(edges, i)
            ||| initial == CursorState::Captured && never_cancelled(edges)
        },
        initial == CursorState::Free ==> (after_edges(initial, edges) == CursorState::Captured
            <==> exists|i: int| press_stands_at(edges, i)),
    decreases edges.len(),
{
    if edges.len() > 0 {
        let earlier = edges.drop_last();
        let last = edges.len() - 1;
        lemma_captured_iff_latest_press_stands(initial, earlier);
        match edges.last() {
            InputEdge::PrimaryPressed => {
                assert(press_stands_at(edges, last));
            },
            InputEdge::CancelPressed => {
                assert(!never_cancelled(edges));
                assert forall|i: int| !press_stands_at(edges, i) by {
                    if 0 <= i < last {
                        assert(edges[last] == InputEdge::CancelPressed);
                    }
                }
            },
            _ => {
                assert forall|i: int| press_stands_at(earlier, i) implies press_stands_at(
                    edges,
                    i,
                ) by {
                    assert forall|j: int| i < j < edges.len() implies edges[j]
                        != InputEdge::CancelPressed by {
                        if j < last {
                            assert(earlier[j] == edges[j]);
                        }
                    }
                }
                assert forall|i: int| press_stands_at(edges, i) implies press_stands_at(
                    earlier,
                    i,
                ) by {
                    assert forall|j: int| i < j < earlier.len() implies earlier[j]
                        != InputEdge::CancelPressed by {
                        assert(earlier[j] == edges[j]);
                    }
                }
                if never_cancelled(earlier) {
                    assert forall|j: int| 0 <= j < edges.len() implies edges[j]
                        != InputEdge::CancelPressed by {
                        if j < last {
                            assert(earlier[j] == edges[j]);
                        }
                    }
                }
                if never_cancelled(edges) {
                    assert forall|j: int| 0 <= j < earlier.len() implies earlier[j]
                        != InputEdge::CancelPressed by {
                        assert(earlier[j] == edges[j]);
                    }
                }
            },
        }
    }
}

/// Edges taken in two runs, one after the other, lead where the two runs lead
/// in turn: so the edges of several frames act as one sequence.
pub proof fn lemma_edges_in_two_runs(
    initial: CursorState,
    first: Seq<InputEdge>,
    second: Seq<InputEdge>,
)
    ensures
        after_edges(initial, first + second) == after_edges(after_edges(initial, first), second),
        commands_of_edges(initial, first + second) == commands_of_edges(initial, first)
            + commands_of_edges(after_edges(initial, first), second),
    decreases second.len(),
{
    if second.len() == 0 {
        assert(first + second == first);
    } else {
        assert((first + second).drop_last() == first + second.drop_last());
        lemma_edges_in_two_runs(initial, first, second.drop_last());
    }
}

/// A window that obeys the commands follows the state: after the commands of
/// any sequence of edges, the last command given, if there is one, is the one
/// for the state reached, and where none was given the state has not changed.
pub proof fn lemma_commands_follow_the_state(initial: CursorState, edges: Seq<InputEdge>)
    ensures
        commands_of_edges(initial, edges).len() == 0 ==> after_edges(initial, edges) == initial,
        commands_of_edges(initial, edges).len() > 0 ==> commands_of_edges(initial, edges).last()
            == command_for(after_edges(initial, edges)),
    decreases edges.len(),
{
    if edges.len() > 0 {
        lemma_commands_follow_the_state(initial, edges.drop_last());
    }
}

impl CursorState {
    /// The state that the viewer starts in: the cursor is free.
    pub fn new() -> (state: CursorState)
        ensures
            state == CursorState::Free,
    {
        CursorState::Free
    }
}

/// Takes one edge: the state after it, and the command for the window if the
/// state has changed.
pub fn apply_edge(state: CursorState, edge: InputEdge) -> (next: (
    CursorState,
    Option<CursorCommand>,
))
    ensures
        next.0 == after_edge(state, edge),
        next.1 == command_of_edge(state, edge),
{
    match (edge, state) {
        (InputEdge::PrimaryPressed, CursorState::Free) => (
            CursorState::Captured,
            Some(CursorCommand::ConfineAndHide),
        ),
        (InputEdge::CancelPressed, CursorState::Captured) => (
            CursorState::Free,
            Some(CursorCommand::ReleaseAndShow),
        ),
        _ => (state, None),
    }
}

/// One frame of cursor handling on the two edges that count.
///
/// The press of the primary button is taken first and the press of the cancel
/// key second. The cursor ends free where the cancel key was pressed,
/// captured where only the primary button was, and unchanged otherwise.
pub fn cursor_frame(
    state: CursorState,
    primary_just_pressed: bool,
    cancel_just_pressed: bool,
) -> (update: CursorUpdate)
    ensures
        update.state == state_after_frame(state, primary_just_pressed, cancel_just_pressed),
        update.commands@ == commands_of_frame(state, primary_just_pressed, cancel_just_pressed),
        update.state == after_edges(state, frame_edges(primary_just_pressed, cancel_just_pressed)),
        update.commands@ == commands_of_edges(
            state,
            frame_edges(primary_just_pressed, cancel_just_pressed),
        ),
{
    let ghost edges = frame_edges(primary_just_pressed, cancel_just_pressed);
    let mut current = state;
    let mut commands: Vec<CursorCommand> = Vec::new();
    if primary_just_pressed {
        let (next, command) = apply_edge(current, InputEdge::PrimaryPressed);
        current = next;
        if let Some(c) = command {
            commands.push(c);
        }
    }
    proof {
        let first: Seq<InputEdge> = if primary_just_pressed {
            seq![InputEdge::PrimaryPressed]
        } else {
            Seq::empty()
        };
        reveal_with_fuel(after_edges, 2);
        reveal_with_fuel(commands_of_edges, 2);
        assert(first.len() > 0 ==> first.drop_last() == Seq::<InputEdge>::empty());
        assert(current == after_edges(state, first));
        assert(commands@ == commands_of_edges(state, first));
        if cancel_just_pressed {
            assert(edges.drop_last() == first);
        } else {
            assert(edges == first);
        }
    }
    if cancel_just_pressed {
        let (next, command) = apply_edge(current, InputEdge::CancelPressed);
        current = next;
        if let Some(c) = command {
            commands.push(c);
        }
    }
    CursorUpdate { state: current, commands }
}

/// The edges that count in the frame that the host's input state describes.
pub open spec fn input_edges(buttons: Input<MouseButton>, keys: Input<KeyCode>) -> Seq<InputEdge> {
    frame_edges(
        pressed_buttons(buttons).contains(PointerButton::Primary),
        pressed_keys(keys).contains(ControlKey::Cancel),
    )
}

/// One frame of cursor handling on the host's input state.
///
/// Fails, whatever the input, exactly if the host has no primary window.
pub fn cursor_grab(
    state: CursorState,
    primary_window_present: bool,
    buttons: &Input<MouseButton>,
    keys: &Input<KeyCode>,
) -> (result: Result<CursorUpdate, CursorError>)
    ensures
        !primary_window_present ==> result == Err::<CursorUpdate, CursorError>(
            CursorError::NoPrimaryWindow,
        ),
        primary_window_present ==> result is Ok,
        primary_window_present ==> result->Ok_0.state == state_after_frame(
            state,
            pressed_buttons(*buttons).contains(PointerButton::Primary),
            pressed_keys(*keys).contains(ControlKey::Cancel),
        ),
        primary_window_present ==> result->Ok_0.commands@ == commands_of_frame(
            state,
            pressed_buttons(*buttons).contains(PointerButton::Primary),
            pressed_keys(*keys).contains(ControlKey::Cancel),
        ),
        primary_window_present ==> result->Ok_0.state == after_edges(
            state,
            input_edges(*buttons, *keys),
        ),
        primary_window_present ==> result->Ok_0.commands@ == commands_of_edges(
            state,
            input_edges(*buttons, *keys),
        ),
{
    if !primary_window_present {
        return Err(CursorError::NoPrimaryWindow);
    }
    let primary = button_just_pressed(buttons, PointerButton::Primary);
    let cancel = key_just_pressed(keys, ControlKey::Cancel);
    Ok(cursor_frame(state, primary, cancel))
}

} // verus!
