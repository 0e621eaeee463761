use vstd::prelude::*;

use crate::geometry::{div_toward_zero, Point, Rect};

verus! {

/// A mouse button that can start an Alt+drag.
#[derive(Debug, Clone, Copy, PartialEq, Eq, Structural)]
pub enum MouseButton {
    Left,
    Right,
}

/// The axis along which a container lays out its tiling children.
#[derive(Debug, Clone, Copy, PartialEq, Eq, Structural)]
pub enum TilingDirection {
    Horizontal,
    Vertical,
}

/// The kind of an active Alt+drag.
#[derive(Debug, Clone, Copy, PartialEq, Eq, Structural)]
pub enum ActiveDragOperation {
    /// Alt+left-drag moves the window.
    Move,
    /// Alt+right-drag resizes the window against its neighbor.
    Resize,
}

/// Which edge of the window the resize drag is anchored to.
#[derive(Debug, Clone, Copy, PartialEq, Eq, Structural)]
pub enum ResizeEdge {
    /// Dragging resizes the left/top boundary.
    Start,
    /// Dragging resizes the right/bottom boundary.
    End,
}

/// A mouse event seen by the Alt+drag handler.
#[derive(Debug, Clone, Copy, PartialEq, Eq, Structural)]
pub enum MouseEvent {
    ButtonDown { position: Point, button: MouseButton },
    Move { position: Point },
    ButtonUp { position: Point, button: MouseButton },
}

/// State tracked during an active Alt+drag operation.
#[derive(Debug, Clone, Copy, PartialEq, Eq, Structural)]
pub struct AltDragState {
    /// The window being dragged, by its id.
    pub window_id: u128,
    /// The operation type (move or resize).
    pub operation: ActiveDragOperation,
    /// Whether the window was floating before the drag started.
    pub is_from_floating: bool,
    /// Cursor position when the drag started.
    pub start_cursor: Point,
    /// Last cursor position (for delta calculation).
    pub last_cursor: Point,
    /// Which edge is being resized (for resize operations).
    pub resize_edge: ResizeEdge,
    /// Tiling direction of the parent (for resize operations).
    pub resize_direction: TilingDirection,
}

/// What the Alt+drag handler does with one mouse event.
#[derive(Debug, Clone, Copy, PartialEq, Eq, Structural)]
pub enum AltDragAction {
    /// The event is not consumed and nothing changes.
    Ignore,
    /// A drag of kind `operation`, started with `button`, begins on the
    /// window under `position`, if there is a managed window there.
    Start { position: Point, button: MouseButton, operation: ActiveDragOperation },
    /// The active drag follows the cursor to `position`.
    Continue { position: Point },
    /// The active drag ends.
    End,
}

/// The drag a button starts: Alt+left-drag moves, Alt+right-drag resizes.
pub open spec fn operation_for(button: MouseButton) -> ActiveDragOperation {
    match button {
        MouseButton::Left => ActiveDragOperation::Move,
        MouseButton::Right => ActiveDragOperation::Resize,
    }
}

/// Whether releasing `button` ends a drag of kind `operation`: the button
/// that started it.
pub open spec fn ends_drag(operation: ActiveDragOperation, button: MouseButton) -> bool {
    (operation == ActiveDragOperation::Move && button == MouseButton::Left) || (operation
        == ActiveDragOperation::Resize && button == MouseButton::Right)
}

/// The action owed to `event` while Alt is held (`alt_down`) or not and the
/// active drag is `drag`.
pub open spec fn spec_alt_drag_action(
    event: MouseEvent,
    alt_down: bool,
    drag: Option<AltDragState>,
) -> AltDragAction {
    match event {
        MouseEvent::ButtonDown { position, button } => {
            if drag is Some || !alt_down {
                AltDragAction::Ignore
            } else {
                AltDragAction::Start { position, button, operation: operation_for(button) }
            }
        },
        MouseEvent::Move { position } => {
            match drag {
                None => AltDragAction::Ignore,
                Some(_) => if !alt_down {
                    AltDragAction::End
                } else {
                    AltDragAction::Continue { position }
                },
            }
        },
        MouseEvent::ButtonUp { position, button } => {
            match drag {
                None => AltDragAction::Ignore,
                Some(d) => if ends_drag(d.operation, button) {
                    AltDragAction::End
                } else {
                    AltDragAction::Ignore
                },
            }
        },
    }
}

/// Decides how a mouse event is handled during Alt+drag: a button press
/// with Alt held starts a drag unless one is active; a move continues the
/// active drag, or ends it when Alt was released; releasing the button that
/// started the drag ends it.
pub fn handle_alt_drag(event: &MouseEvent, alt_down: bool, drag: &Option<AltDragState>) -> (a:
    AltDragAction)
    ensures
        a == spec_alt_drag_action(*event, alt_down, *drag),
{
    match event {
        MouseEvent::ButtonDown { position, button } => {
            if drag.is_some() || !alt_down {
                return AltDragAction::Ignore;
            }
            let operation = match button {
                MouseButton::Left => ActiveDragOperation::Move,
                MouseButton::Right => ActiveDragOperation::Resize,
            };
            AltDragAction::Start { position: *position, button: *button, operation }
        },
        MouseEvent::Move { position } => {
            match drag {
                None => AltDragAction::Ignore,
                Some(_) => {
                    if !alt_down {
                        AltDragAction::End
                    } else {
                        AltDragAction::Continue { position: *position }
                    }
                },
            }
        },
        MouseEvent::ButtonUp { button, .. } => {
            match drag {
                None => AltDragAction::Ignore,
                Some(d) => {
                    let matches = match (d.operation, button) {
                        (ActiveDragOperation::Move, MouseButton::Left) => true,
                        (ActiveDragOperation::Resize, MouseButton::Right) => true,
                        _ => false,
                    };
                    if matches {
                        AltDragAction::End
                    } else {
                        AltDragAction::Ignore
                    }
                },
            }
        },
    }
}

/// Keeps the active drag only while its window still exists: a drag whose
/// window has vanished is dropped, and the event that found it so is not
/// consumed. Returns whether the drag goes on.
pub fn keep_drag_if_window_exists(alt_drag: &mut Option<AltDragState>, window_exists: bool) -> (keep:
    bool)
    ensures
        keep == window_exists,
        *final(alt_drag) == (if window_exists {
            *old(alt_drag)
        } else {
            None
        }),
{
    if !window_exists {
        *alt_drag = None;
    }
    window_exists
}

/// Records the cursor position after the drag followed it, for the next
/// delta.
pub fn record_cursor(drag: &mut AltDragState, position: &Point)
    ensures
        *final(drag) == (AltDragState { last_cursor: *position, ..*old(drag) }),
{
    drag.last_cursor = *position;
}

/// The state of a move drag of `window_id` grabbed at `position`.
pub open spec fn spec_move_drag(window_id: u128, position: Point, is_tiling: bool) -> AltDragState {
    AltDragState {
        window_id,
        operation: ActiveDragOperation::Move,
        is_from_floating: !is_tiling,
        start_cursor: position,
        last_cursor: position,
        resize_edge: ResizeEdge::End,
        resize_direction: TilingDirection::Horizontal,
    }
}

/// The state of a resize drag of `window_id` grabbed at `position`.
pub open spec fn spec_resize_drag(
    window_id: u128,
    position: Point,
    direction: TilingDirection,
    rect: Rect,
) -> AltDragState {
    AltDragState {
        window_id,
        operation: ActiveDragOperation::Resize,
        is_from_floating: false,
        start_cursor: position,
        last_cursor: position,
        resize_edge: spec_resize_edge(position, rect, direction),
        resize_direction: direction,
    }
}

/// Starts a move drag of window `window_id` grabbed at `position`; the
/// window is floating during the drag, and `is_tiling` tells whether it was
/// tiling before.
pub fn start_move_drag(window_id: u128, position: &Point, is_tiling: bool) -> (d: AltDragState)
    ensures
        d == spec_move_drag(window_id, *position, is_tiling),
{
    AltDragState {
        window_id,
        operation: ActiveDragOperation::Move,
        is_from_floating: !is_tiling,
        start_cursor: *position,
        last_cursor: *position,
        resize_edge: ResizeEdge::End,
        resize_direction: TilingDirection::Horizontal,
    }
}

/// The edge a resize drag grabbed at `position` works on: along the
/// parent's tiling axis, the start edge when the cursor is before the
/// window's center, the end edge otherwise.
pub open spec fn spec_resize_edge(position: Point, rect: Rect, direction: TilingDirection) -> ResizeEdge {
    let before_center = match direction {
        TilingDirection::Horizontal => position.x < rect.spec_center().x,
        TilingDirection::Vertical => position.y < rect.spec_center().y,
    };
    if before_center {
        ResizeEdge::Start
    } else {
        ResizeEdge::End
    }
}

/// Starts a resize drag of tiling window `window_id` with rectangle `rect`
/// in a parent laid out along `direction`, grabbed at `position`. The
/// caller starts one only for a tiling window that has tiling siblings.
pub fn start_resize_drag(
    window_id: u128,
    position: &Point,
    direction: TilingDirection,
    rect: &Rect,
) -> (d: AltDragState)
    requires
        rect.has_i32_size(),
    ensures
        d == spec_resize_drag(window_id, *position, direction, *rect),
{
    let center = rect.center_point();
    let before_center = match direction {
        TilingDirection::Horizontal => position.x < center.x,
        TilingDirection::Vertical => position.y < center.y,
    };
    let resize_edge = if before_center {
        ResizeEdge::Start
    } else {
        ResizeEdge::End
    };
    AltDragState {
        window_id,
        operation: ActiveDragOperation::Resize,
        is_from_floating: false,
        start_cursor: *position,
        last_cursor: *position,
        resize_edge,
        resize_direction: direction,
    }
}

/// What a resize drag needs to know of a tiling window: its parent's tiling
/// direction and its own rectangle.
#[derive(Debug, Clone, Copy, PartialEq, Eq, Structural)]
pub struct TilingLayout {
    pub direction: TilingDirection,
    pub rect: Rect,
}

/// The resize drag, if any, that starts on window `window_id` grabbed at
/// `position`: none for a window that is not tiling (`tiling` is `None`)
/// or has no tiling siblings.
pub open spec fn spec_try_resize_drag(
    window_id: u128,
    position: Point,
    tiling: Option<TilingLayout>,
    tiling_sibling_count: usize,
) -> Option<AltDragState> {
    match tiling {
        None => None,
        Some(l) => if tiling_sibling_count == 0 {
            None
        } else {
            Some(spec_resize_drag(window_id, position, l.direction, l.rect))
        },
    }
}

/// Starts a resize drag of window `window_id` grabbed at `position`, given
/// its tiling layout (`None` when it is not tiling) and its number of tiling
/// siblings. A window that is not tiling, or has no tiling siblings, is not
/// resized: `None` is returned and no drag starts.
pub fn try_start_resize_drag(
    window_id: u128,
    position: &Point,
    tiling: &Option<TilingLayout>,
    tiling_sibling_count: usize,
) -> (d: Option<AltDragState>)
    requires
        tiling matches Some(l) ==> l.rect.has_i32_size(),
    ensures
        d == spec_try_resize_drag(window_id, *position, *tiling, tiling_sibling_count),
{
    match tiling {
        None => None,
        Some(l) => {
            if tiling_sibling_count == 0 {
                None
            } else {
                Some(start_resize_drag(window_id, position, l.direction, &l.rect))
            }
        },
    }
}

/// The top-left corner that centers a window with frame `frame` on the
/// cursor at `position`.
pub open spec fn spec_move_target(position: Point, frame: Rect) -> Point {
    Point {
        x: (position.x - div_toward_zero(frame.spec_width(), 2)) as i32,
        y: (position.y - div_toward_zero(frame.spec_height(), 2)) as i32,
    }
}

/// Computes where a window with frame `frame` that is moved by Alt+drag is
/// placed when the cursor is at `position`: centered on the cursor.
pub fn handle_move_drag(position: &Point, frame: &Rect) -> (p: Point)
    requires
        frame.has_i32_size(),
        i32::MIN <= position.x - div_toward_zero(frame.spec_width(), 2) <= i32::MAX,
        i32::MIN <= position.y - div_toward_zero(frame.spec_height(), 2) <= i32::MAX,
    ensures
        p == spec_move_target(*position, *frame),
{
    Point { x: position.x - frame.width() / 2, y: position.y - frame.height() / 2 }
}

/// How one cursor movement of a resize drag is applied: size moves between
/// the dragged window and one neighboring sibling only.
#[derive(Debug, Clone, Copy, PartialEq, Eq, Structural)]
pub struct ResizeDragPlan {
    /// Index, among the parent's children, of the sibling that gives or
    /// takes the size.
    pub neighbor_index: usize,
    /// Pixels by which the dragged window grows (negative: shrinks) and the
    /// neighbor shrinks, along the parent's axis.
    pub delta_px: i64,
    /// Extent of the parent along its axis, against which the pixels are
    /// turned into a share of the tiling size.
    pub parent_size: i32,
}

/// The coordinate of `p` along `direction`.
pub open spec fn coordinate(p: Point, direction: TilingDirection) -> int {
    match direction {
        TilingDirection::Horizontal => p.x as int,
        TilingDirection::Vertical => p.y as int,
    }
}

/// The extent of `rect` along `direction`.
pub open spec fn extent(rect: Rect, direction: TilingDirection) -> int {
    match direction {
        TilingDirection::Horizontal => rect.spec_width(),
        TilingDirection::Vertical => rect.spec_height(),
    }
}

/// The sibling a resize at `edge` of the window at `window_index` works
/// against: the next one for the end edge, the previous one for the start
/// edge (none before the first window).
pub open spec fn spec_neighbor_index(window_index: usize, edge: ResizeEdge) -> Option<usize> {
    match edge {
        ResizeEdge::End => Some((window_index + 1) as usize),
        ResizeEdge::Start => if window_index > 0 {
            Some((window_index - 1) as usize)
        } else {
            None
        },
    }
}

/// The resize plan owed to a cursor move to `position` during `drag`, when
/// the parent's tiling children sit at `tiling_indices` among its children.
pub open spec fn spec_resize_plan(
    position: Point,
    drag: AltDragState,
    window_index: usize,
    parent_rect: Rect,
    tiling_indices: Seq<usize>,
) -> Option<ResizeDragPlan> {
    let parent_size = extent(parent_rect, drag.resize_direction);
    let moved = coordinate(position, drag.resize_direction) - coordinate(
        drag.last_cursor,
        drag.resize_direction,
    );
    if parent_size == 0 {
        None
    } else {
        match spec_neighbor_index(window_index, drag.resize_edge) {
            None => None,
            Some(n) => if !tiling_indices.contains(n) {
                None
            } else {
                Some(
                ResizeDragPlan {
                    neighbor_index: n,
                    delta_px: (if drag.resize_edge == ResizeEdge::Start {
                        -moved
                    } else {
                        moved
                    }) as i64,
                    parent_size: parent_size as i32,
                },
            )
            },
        }
    }
}

/// Whether `index` occurs in `indices`.
pub fn contains_index(indices: &Vec<usize>, index: usize) -> (b: bool)
    ensures
        b == indices@.contains(index),
{
    let mut i: usize = 0;
    while i < indices.len()
        invariant
            0 <= i <= indices@.len(),
            forall|j: int| 0 <= j < i ==> indices@[j] != index,
        decreases indices@.len() - i,
    {
        if indices[i] == index {
            return true;
        }
        i = i + 1;
    }
    false
}

/// Decides how a resize drag follows the cursor to `position`: the
/// dragged window at `window_index` among the children of a parent with
/// rectangle `parent_rect`, whose tiling children sit at `tiling_indices`,
/// grows by the cursor movement since the last event along the parent's
/// axis (inverted for the start edge), and the tiling sibling adjacent on
/// the dragged edge shrinks by as much. Returns `None` when nothing is
/// resized: the parent has no extent along its axis, or no tiling sibling
/// sits right next to the window on the dragged edge.
pub fn handle_resize_drag(
    position: &Point,
    drag: &AltDragState,
    window_index: usize,
    parent_rect: &Rect,
    tiling_indices: &Vec<usize>,
) -> (plan: Option<ResizeDragPlan>)
    requires
        i32::MIN <= extent(*parent_rect, drag.resize_direction) <= i32::MAX,
        window_index < usize::MAX,
    ensures
        plan == spec_resize_plan(
            *position,
            *drag,
            window_index,
            *parent_rect,
            tiling_indices@,
        ),
{
    let parent_size = match drag.resize_direction {
        TilingDirection::Horizontal => parent_rect.width(),
        TilingDirection::Vertical => parent_rect.height(),
    };
    if parent_size == 0 {
        return None;
    }
    let neighbor_index = match drag.resize_edge {
        ResizeEdge::End => window_index + 1,
        ResizeEdge::Start => {
            if window_index > 0 {
                window_index - 1
            } else {
                return None;
            }
        },
    };
    if !contains_index(tiling_indices, neighbor_index) {
        return None;
    }
    let moved: i64 = match drag.resize_direction {
        TilingDirection::Horizontal => position.x as i64 - drag.last_cursor.x as i64,
        TilingDirection::Vertical => position.y as i64 - drag.last_cursor.y as i64,
    };
    let delta_px = match drag.resize_edge {
        ResizeEdge::Start => -moved,
        ResizeEdge::End => moved,
    };
    Some(ResizeDragPlan { neighbor_index, delta_px, parent_size })
}

/// What is done with the dragged window when a drag ends.
#[derive(Debug, Clone, Copy, PartialEq, Eq, Structural)]
pub enum DragEndAction {
    /// A window that was floating before the move stays floating where it
    /// was dropped; it is only redrawn.
    RedrawWindow,
    /// A window that was tiling before the move is put back into the tiling
    /// tree at the cursor position.
    DropAtCursor,
    /// A resize was applied while dragging; the parent is redrawn.
    RedrawParent,
}

/// The action owed to the end of `drag`.
pub open spec fn spec_drag_end_action(drag: AltDragState) -> DragEndAction {
    match drag.operation {
        ActiveDragOperation::Move => if drag.is_from_floating {
            DragEndAction::RedrawWindow
        } else {
            DragEndAction::DropAtCursor
        },
        ActiveDragOperation::Resize => DragEndAction::RedrawParent,
    }
}

/// Ends the active drag: takes it out of `alt_drag` and returns it with what
/// is to be done with the dragged window. Returns `None`, and changes
/// nothing, when no drag is active.
pub fn handle_drag_end(alt_drag: &mut Option<AltDragState>) -> (r: Option<
    (AltDragState, DragEndAction),
>)
    ensures
        *final(alt_drag) == None::<AltDragState>,
        r == (match *old(alt_drag) {
            None => None,
            Some(d) => Some((d, spec_drag_end_action(d))),
        }),
{
    match alt_drag.take() {
        None => None,
        Some(d) => {
            let action = match d.operation {
                ActiveDragOperation::Move => {
                    if d.is_from_floating {
                        DragEndAction::RedrawWindow
                    } else {
                        DragEndAction::DropAtCursor
                    }
                },
                ActiveDragOperation::Resize => DragEndAction::RedrawParent,
            };
            Some((d, action))
        },
    }
}

/// Without Alt held and without an active drag, no mouse event is
/// consumed.
pub proof fn law_idle_without_alt(event: MouseEvent)
    ensures
        spec_alt_drag_action(event, false, None) == AltDragAction::Ignore,
{
}

/// At most one drag is active: a button press during a drag never starts
/// another one.
pub proof fn law_single_drag(position: Point, button: MouseButton, alt_down: bool, drag: AltDragState)
    ensures
        spec_alt_drag_action(MouseEvent::ButtonDown { position, button }, alt_down, Some(drag))
            == AltDragAction::Ignore,
{
}

/// A drag ends when the button that started it is released, and only then
/// (or when Alt is released while the cursor moves): releasing the other
/// button is ignored.
pub proof fn law_drag_ends_with_its_button(
    window_id: u128,
    position: Point,
    release_at: Point,
    rect: Rect,
    direction: TilingDirection,
    is_tiling: bool,
    alt_down: bool,
)
    ensures
        spec_alt_drag_action(
            MouseEvent::ButtonUp { position: release_at, button: MouseButton::Left },
            alt_down,
            Some(spec_move_drag(window_id, position, is_tiling)),
        ) == AltDragAction::End,
        spec_alt_drag_action(
            MouseEvent::ButtonUp { position: release_at, button: MouseButton::Right },
            alt_down,
            Some(spec_move_drag(window_id, position, is_tiling)),
        ) == AltDragAction::Ignore,
        spec_alt_drag_action(
            MouseEvent::ButtonUp { position: release_at, button: MouseButton::Right },
            alt_down,
            Some(spec_resize_drag(window_id, position, direction, rect)),
        ) == AltDragAction::End,
        spec_alt_drag_action(
            MouseEvent::ButtonUp { position: release_at, button: MouseButton::Left },
            alt_down,
            Some(spec_resize_drag(window_id, position, direction, rect)),
        ) == AltDragAction::Ignore,
{
}

/// Releasing Alt while the cursor moves ends any active drag.
pub proof fn law_alt_release_ends_drag(position: Point, drag: AltDragState)
    ensures
        spec_alt_drag_action(MouseEvent::Move { position }, false, Some(drag))
            == AltDragAction::End,
{
}

/// A window moved by Alt+drag is centered on the cursor: its left edge plus
/// half its width (rounded toward zero) is the cursor's x-coordinate, and
/// likewise vertically.
pub proof fn law_move_centers_window(position: Point, frame: Rect)
    requires
        frame.has_i32_size(),
        i32::MIN <= position.x - div_toward_zero(frame.spec_width(), 2) <= i32::MAX,
        i32::MIN <= position.y - div_toward_zero(frame.spec_height(), 2) <= i32::MAX,
    ensures
        spec_move_target(position, frame).x + div_toward_zero(frame.spec_width(), 2)
            == position.x,
        spec_move_target(position, frame).y + div_toward_zero(frame.spec_height(), 2)
            == position.y,
{
}

/// When a resize applies, the dragged window grows by the cursor movement
/// along the parent's axis when its end edge is dragged, and by the
/// opposite of it when its start edge is dragged; its neighbor shrinks by as
/// much.
pub proof fn law_resize_direction(
    position: Point,
    drag: AltDragState,
    window_index: usize,
    parent_rect: Rect,
    tiling_indices: Seq<usize>,
)
    requires
        extent(parent_rect, drag.resize_direction) != 0,
        spec_neighbor_index(window_index, drag.resize_edge) matches Some(n)
            && tiling_indices.contains(n),
    ensures
        ({
            let plan = spec_resize_plan(
                position,
                drag,
                window_index,
                parent_rect,
                tiling_indices,
            )->Some_0;
            let moved = coordinate(position, drag.resize_direction) - coordinate(
                drag.last_cursor,
                drag.resize_direction,
            );
            &&& spec_resize_plan(position, drag, window_index, parent_rect, tiling_indices) is Some
            &&& drag.resize_edge == ResizeEdge::End ==> plan.delta_px == moved
            &&& drag.resize_edge == ResizeEdge::Start ==> plan.delta_px == -moved
        }),
{
}

/// A move that was started on a tiling window puts the window back into
/// the tiling tree when it ends; one started on a floating window leaves it
/// floating; a resize only redraws.
pub proof fn law_drag_end_outcome(window_id: u128, position: Point, is_tiling: bool, rect: Rect, direction: TilingDirection)
    ensures
        spec_drag_end_action(spec_move_drag(window_id, position, is_tiling)) == (if is_tiling {
            DragEndAction::DropAtCursor
        } else {
            DragEndAction::RedrawWindow
        }),
        spec_drag_end_action(spec_resize_drag(window_id, position, direction, rect))
            == DragEndAction::RedrawParent,
{
}

/// A resize touches only the dragged window and a tiling sibling right next
/// to it on the dragged edge: the next one for the end edge, the previous
/// one for the start edge. Without such a sibling nothing is resized.
pub proof fn law_resize_touches_adjacent_sibling(
    position: Point,
    drag: AltDragState,
    window_index: usize,
    parent_rect: Rect,
    tiling_indices: Seq<usize>,
)
    requires
        window_index < usize::MAX,
    ensures
        spec_resize_plan(position, drag, window_index, parent_rect, tiling_indices) matches Some(
            plan,
        ) ==> {
            &&& tiling_indices.contains(plan.neighbor_index)
            &&& drag.resize_edge == ResizeEdge::End ==> plan.neighbor_index == window_index + 1
            &&& drag.resize_edge == ResizeEdge::Start ==> plan.neighbor_index + 1 == window_index
        },
        drag.resize_edge == ResizeEdge::End && !tiling_indices.contains(
            (window_index + 1) as usize,
        ) ==> spec_resize_plan(position, drag, window_index, parent_rect, tiling_indices) is None,
{
}

/// Alt+left-drag starts a move and Alt+right-drag a resize.
pub proof fn law_button_chooses_operation(position: Point)
    ensures
        spec_alt_drag_action(
            MouseEvent::ButtonDown { position, button: MouseButton::Left },
            true,
            None,
        ) == (AltDragAction::Start {
            position,
            button: MouseButton::Left,
            operation: ActiveDragOperation::Move,
        }),
        spec_alt_drag_action(
            MouseEvent::ButtonDown { position, button: MouseButton::Right },
            true,
            None,
        ) == (AltDragAction::Start {
            position,
            button: MouseButton::Right,
            operation: ActiveDragOperation::Resize,
        }),
{
}

/// A drag started by a button is ended by releasing that same button.
pub proof fn law_start_and_end_buttons_agree(button: MouseButton)
    ensures
        ends_drag(operation_for(button), button),
{
}

/// A resize starts only on a tiling window with tiling siblings, and is then
/// anchored to the edge on the grabbed side of the window's center.
pub proof fn law_resize_starts_on_tiling_with_siblings(
    window_id: u128,
    position: Point,
    tiling: Option<TilingLayout>,
    tiling_sibling_count: usize,
)
    ensures
        spec_try_resize_drag(window_id, position, tiling, tiling_sibling_count) is Some <==> (
        tiling is Some && tiling_sibling_count > 0),
        spec_try_resize_drag(window_id, position, tiling, tiling_sibling_count) matches Some(d)
            ==> d.operation == ActiveDragOperation::Resize && !d.is_from_floating
            && d.resize_edge == spec_resize_edge(position, tiling->Some_0.rect, tiling->Some_0.direction),
{
}

/// Every active drag, a move as well as a resize, follows the cursor while
/// Alt is held: a cursor move is consumed and continues the drag at the
/// event's position.
pub proof fn law_every_drag_follows_cursor(position: Point, drag: AltDragState)
    ensures
        spec_alt_drag_action(MouseEvent::Move { position }, true, Some(drag))
            == (AltDragAction::Continue { position }),
{
}

/// The share a resize moves is measured against the parent's extent along
/// its axis: its width (`right - left`) for a horizontal parent, its height
/// (`bottom - top`) for a vertical one. A parent with no extent resizes
/// nothing.
pub proof fn law_resize_measured_against_parent_extent(
    position: Point,
    drag: AltDragState,
    window_index: usize,
    parent_rect: Rect,
    tiling_indices: Seq<usize>,
)
    requires
        i32::MIN <= extent(parent_rect, drag.resize_direction) <= i32::MAX,
    ensures
        ({
            let size = if drag.resize_direction == TilingDirection::Horizontal {
                parent_rect.right - parent_rect.left
            } else {
                parent_rect.bottom - parent_rect.top
            };
            &&& spec_resize_plan(position, drag, window_index, parent_rect, tiling_indices) matches Some(p)
                ==> p.parent_size == size
            &&& size == 0 ==> spec_resize_plan(
                position,
                drag,
                window_index,
                parent_rect,
                tiling_indices,
            ) is None
        }),
{
}

/// Where the parent sits on the screen does not matter to a resize: moving
/// the parent rectangle leaves the plan as it was.
pub proof fn law_resize_plan_ignores_parent_position(
    position: Point,
    drag: AltDragState,
    window_index: usize,
    parent_rect: Rect,
    tiling_indices: Seq<usize>,
    moved: Rect,
)
    requires
        moved.right - moved.left == parent_rect.right - parent_rect.left,
        moved.bottom - moved.top == parent_rect.bottom - parent_rect.top,
    ensures
        spec_resize_plan(position, drag, window_index, moved, tiling_indices) == spec_resize_plan(
            position,
            drag,
            window_index,
            parent_rect,
            tiling_indices,
        ),
{
}

/// A resize grabs the edge on the cursor's side of the window's center:
/// for a window of non-negative extent along the axis, the start edge
/// exactly when the cursor is less than half that extent (rounded down)
/// past the window's start, that is when `2 * (offset + 1) <= extent`.
pub proof fn law_resize_edge_is_cursor_side(
    window_id: u128,
    position: Point,
    direction: TilingDirection,
    rect: Rect,
)
    requires
        rect.has_i32_size(),
        rect.right >= rect.left,
        rect.bottom >= rect.top,
    ensures
        ({
            let d = spec_resize_drag(window_id, position, direction, rect);
            &&& direction == TilingDirection::Horizontal ==> (d.resize_edge == ResizeEdge::Start
                <==> 2 * (position.x - rect.left + 1) <= rect.right - rect.left)
            &&& direction == TilingDirection::Vertical ==> (d.resize_edge == ResizeEdge::Start
                <==> 2 * (position.y - rect.top + 1) <= rect.bottom - rect.top)
        }),
{
}

/// Moving the cursor and the window together leaves the grabbed edge as it
/// was.
pub proof fn law_resize_edge_ignores_translation(
    position: Point,
    rect: Rect,
    direction: TilingDirection,
    moved_position: Point,
    moved_rect: Rect,
    dx: int,
    dy: int,
)
    requires
        rect.has_i32_size(),
        moved_position.x == position.x + dx,
        moved_position.y == position.y + dy,
        moved_rect.left == rect.left + dx,
        moved_rect.right == rect.right + dx,
        moved_rect.top == rect.top + dy,
        moved_rect.bottom == rect.bottom + dy,
    ensures
        spec_resize_edge(moved_position, moved_rect, direction) == spec_resize_edge(
            position,
            rect,
            direction,
        ),
{
}

} // verus!
