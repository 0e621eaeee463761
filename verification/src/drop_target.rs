use vstd::prelude::*;

use crate::alt_drag::TilingDirection;
use crate::geometry::{Point, Rect};

verus! {

/// Where a window dropped at the cursor goes, relative to the tiling child
/// of the drop parent nearest to the cursor.
#[derive(Debug, Clone, Copy, PartialEq, Eq, Structural)]
pub enum DropAction {
    /// Insert the window into the drop parent at position `index` among its
    /// tiling children.
    Insert { index: usize },
    /// Wrap the child `target_id` in a new split container laid out along
    /// `split_direction` and insert the window into it at `index` (0: before
    /// the child, 1: after it).
    Split { target_id: u128, split_direction: TilingDirection, index: usize },
    /// The drop parent has no tiling children: the window becomes its first.
    Empty,
}

/// The tiling child of the drop parent nearest to the cursor.
#[derive(Debug, Clone, Copy, PartialEq, Eq, Structural)]
pub struct NearestChild {
    /// The child's id.
    pub id: u128,
    /// The child's position among its parent's tiling children.
    pub index: usize,
    /// The child's rectangle.
    pub rect: Rect,
}

/// Where the window is finally attached.
#[derive(Debug, Clone, Copy, PartialEq, Eq, Structural)]
pub enum AttachPlan {
    /// Attach the window to the drop parent at position `index` among its
    /// tiling children.
    AtParent { index: usize },
    /// Wrap child `target_id` of the drop parent in a new split container
    /// along `split_direction` and attach the window to it at `index`.
    InNewSplit { target_id: u128, split_direction: TilingDirection, index: usize },
}

/// The candidate at `k` is the deepest: deeper than the workspace and every
/// candidate before it, and at least as deep as every candidate after it.
pub open spec fn is_deepest(depths: Seq<usize>, workspace_depth: usize, k: int) -> bool {
    &&& 0 <= k < depths.len()
    &&& depths[k] > workspace_depth
    &&& forall|i: int| 0 <= i < k ==> #[trigger] depths[i] < depths[k]
    &&& forall|i: int| k < i < depths.len() ==> #[trigger] depths[i] <= depths[k]
}

/// Chooses the container the dropped window goes into among the direction
/// containers under the cursor, given their depths in the tree (numbers of
/// ancestors): the deepest one, the first of equally deep ones. Returns
/// `None` when none is deeper than the workspace, which is then the drop
/// parent.
pub fn deepest_drop_parent(workspace_depth: usize, candidate_depths: &Vec<usize>) -> (r: Option<
    usize,
>)
    ensures
        r matches Some(k) ==> is_deepest(candidate_depths@, workspace_depth, k as int),
        r is None ==> forall|i: int|
            0 <= i < candidate_depths@.len() ==> #[trigger] candidate_depths@[i]
                <= workspace_depth,
{
    let mut best: Option<usize> = None;
    let mut best_depth: usize = workspace_depth;
    let mut i: usize = 0;
    while i < candidate_depths.len()
        invariant
            0 <= i <= candidate_depths@.len(),
            best is None ==> best_depth == workspace_depth && forall|j: int|
                0 <= j < i ==> #[trigger] candidate_depths@[j] <= workspace_depth,
            best matches Some(k) ==> {
                &&& k < i
                &&& best_depth == candidate_depths@[k as int]
                &&& candidate_depths@[k as int] > workspace_depth
                &&& forall|j: int| 0 <= j < k ==> #[trigger] candidate_depths@[j] < best_depth
                &&& forall|j: int| k < j < i ==> #[trigger] candidate_depths@[j] <= best_depth
            },
        decreases candidate_depths@.len() - i,
    {
        if candidate_depths[i] > best_depth {
            best = Some(i);
            best_depth = candidate_depths[i];
        }
        i = i + 1;
    }
    best
}

/// Chooses the tiling child nearest to the cursor, given each child's
/// distance to it: the first of the children at the smallest distance.
/// Returns `None` when there are no children.
pub fn nearest_child(distances: &Vec<i32>) -> (r: Option<usize>)
    ensures
        r is None <==> distances@.len() == 0,
        r matches Some(k) ==> {
            &&& k < distances@.len()
            &&& forall|i: int| 0 <= i < k ==> #[trigger] distances@[i] > distances@[k as int]
            &&& forall|i: int|
                k < i < distances@.len() ==> #[trigger] distances@[i] >= distances@[k as int]
        },
{
    if distances.len() == 0 {
        return None;
    }
    let mut best: usize = 0;
    let mut i: usize = 1;
    while i < distances.len()
        invariant
            1 <= i <= distances@.len(),
            best < i,
            forall|j: int| 0 <= j < best ==> #[trigger] distances@[j] > distances@[best as int],
            forall|j: int| best < j < i ==> #[trigger] distances@[j] >= distances@[best as int],
        decreases distances@.len() - i,
    {
        if distances[i] < distances[best] {
            best = i;
        }
        i = i + 1;
    }
    Some(best)
}

/// The drop action owed to a drop at `mouse` into a parent laid out along
/// `direction`, given its tiling child nearest to the cursor.
pub open spec fn spec_drop_action(
    mouse: Point,
    direction: TilingDirection,
    nearest: Option<NearestChild>,
) -> DropAction {
    match nearest {
        None => DropAction::Empty,
        Some(n) => {
            let center = n.rect.spec_center();
            let dx = mouse.x - center.x;
            let dy = mouse.y - center.y;
            let abs_dx = if dx < 0 {
                -dx
            } else {
                dx
            };
            let abs_dy = if dy < 0 {
                -dy
            } else {
                dy
            };
            if abs_dx > abs_dy {
                if direction == TilingDirection::Horizontal {
                    DropAction::Insert {
                        index: if dx < 0 {
                            n.index
                        } else {
                            (n.index + 1) as usize
                        },
                    }
                } else {
                    DropAction::Split {
                        target_id: n.id,
                        split_direction: TilingDirection::Horizontal,
                        index: if dx < 0 {
                            0
                        } else {
                            1
                        },
                    }
                }
            } else {
                if direction == TilingDirection::Vertical {
                    DropAction::Insert {
                        index: if dy < 0 {
                            n.index
                        } else {
                            (n.index + 1) as usize
                        },
                    }
                } else {
                    DropAction::Split {
                        target_id: n.id,
                        split_direction: TilingDirection::Vertical,
                        index: if dy < 0 {
                            0
                        } else {
                            1
                        },
                    }
                }
            }
        },
    }
}

/// Decides where a window dropped at `mouse` goes in a drop parent laid out
/// along `direction`, given the parent's tiling child nearest to the cursor
/// (`None` if it has no tiling children). The cursor's offset from that
/// child's center picks a side: horizontally when the offset is wider than
/// it is tall, vertically otherwise. On the parent's own axis the window is
/// inserted before or after the child; across it the child is split.
pub fn drop_action(mouse: &Point, direction: TilingDirection, nearest: &Option<NearestChild>) -> (a:
    DropAction)
    requires
        nearest matches Some(n) ==> n.rect.has_i32_size() && n.index < usize::MAX,
    ensures
        a == spec_drop_action(*mouse, direction, *nearest),
{
    match nearest {
        None => DropAction::Empty,
        Some(n) => {
            let center = n.rect.center_point();
            let dx: i64 = mouse.x as i64 - center.x as i64;
            let dy: i64 = mouse.y as i64 - center.y as i64;
            let abs_dx: i64 = if dx < 0 {
                -dx
            } else {
                dx
            };
            let abs_dy: i64 = if dy < 0 {
                -dy
            } else {
                dy
            };
            if abs_dx > abs_dy {
                let is_left = dx < 0;
                if direction == TilingDirection::Horizontal {
                    DropAction::Insert {
                        index: if is_left {
                            n.index
                        } else {
                            n.index + 1
                        },
                    }
                } else {
                    DropAction::Split {
                        target_id: n.id,
                        split_direction: TilingDirection::Horizontal,
                        index: if is_left {
                            0
                        } else {
                            1
                        },
                    }
                }
            } else {
                let is_top = dy < 0;
                if direction == TilingDirection::Vertical {
                    DropAction::Insert {
                        index: if is_top {
                            n.index
                        } else {
                            n.index + 1
                        },
                    }
                } else {
                    DropAction::Split {
                        target_id: n.id,
                        split_direction: TilingDirection::Vertical,
                        index: if is_top {
                            0
                        } else {
                            1
                        },
                    }
                }
            }
        },
    }
}

/// The attach plan owed to `action` when the drop parent has `child_count`
/// tiling children after the window was detached and the split target is
/// still among them (`split_target_present`) or not.
pub open spec fn spec_attach_plan(
    action: DropAction,
    child_count: usize,
    split_target_present: bool,
) -> AttachPlan {
    match action {
        DropAction::Empty => AttachPlan::AtParent { index: 0 },
        DropAction::Insert { index } => AttachPlan::AtParent {
            index: if index < child_count {
                index
            } else {
                child_count
            },
        },
        DropAction::Split { target_id, split_direction, index } => if split_target_present {
            AttachPlan::InNewSplit { target_id, split_direction, index }
        } else {
            AttachPlan::AtParent { index: child_count }
        },
    }
}

/// Decides where the window is attached once it has been detached and
/// turned into a tiling window: an insertion index is clamped to the
/// parent's tiling children; a split whose target is gone falls back to
/// appending to the parent.
pub fn attach_plan(action: &DropAction, child_count: usize, split_target_present: bool) -> (p:
    AttachPlan)
    ensures
        p == spec_attach_plan(*action, child_count, split_target_present),
{
    match action {
        DropAction::Empty => AttachPlan::AtParent { index: 0 },
        DropAction::Insert { index } => AttachPlan::AtParent {
            index: if *index < child_count {
                *index
            } else {
                child_count
            },
        },
        DropAction::Split { target_id, split_direction, index } => {
            if split_target_present {
                AttachPlan::InNewSplit {
                    target_id: *target_id,
                    split_direction: *split_direction,
                    index: *index,
                }
            } else {
                AttachPlan::AtParent { index: child_count }
            }
        },
    }
}

/// A window dropped next to a child lands beside it: on the parent's own
/// axis it is inserted directly before or after the child; across that axis
/// the child is split along the other axis, with the window first or
/// second.
pub proof fn law_drop_lands_beside_nearest(
    mouse: Point,
    direction: TilingDirection,
    nearest: NearestChild,
)
    requires
        nearest.rect.has_i32_size(),
        nearest.index < usize::MAX,
    ensures
        match spec_drop_action(mouse, direction, Some(nearest)) {
            DropAction::Insert { index } => index == nearest.index || index == nearest.index + 1,
            DropAction::Split { target_id, split_direction, index } => {
                &&& target_id == nearest.id
                &&& split_direction != direction
                &&& (index == 0 || index == 1)
            },
            DropAction::Empty => false,
        },
{
}

/// A drop into a parent without tiling children makes the window its only
/// child.
pub proof fn law_drop_into_empty(mouse: Point, direction: TilingDirection, child_count: usize, present: bool)
    ensures
        spec_drop_action(mouse, direction, None) == DropAction::Empty,
        spec_attach_plan(DropAction::Empty, child_count, present) == (AttachPlan::AtParent {
            index: 0,
        }),
{
}

/// The window is never attached past the end of the drop parent's tiling
/// children.
pub proof fn law_attach_within_children(action: DropAction, child_count: usize, present: bool)
    ensures
        spec_attach_plan(action, child_count, present) matches AttachPlan::AtParent { index }
            ==> index <= child_count,
{
}

/// The side of the nearest child a window is dropped on is the side of the
/// child's center the cursor is on. When the cursor's offset from that
/// center is wider than tall, its horizontal side decides: left of the
/// center the window goes before the child (insert at the child's position
/// in a horizontal parent, first half of a horizontal split otherwise),
/// right of it after. When the offset is at least as tall as wide, its
/// vertical side decides in the same way: above the center before, below
/// it after, with a vertical split in a horizontal parent. The other
/// offset plays no part.
pub proof fn law_drop_side_follows_cursor(
    mouse: Point,
    direction: TilingDirection,
    nearest: NearestChild,
)
    requires
        nearest.rect.has_i32_size(),
        nearest.index < usize::MAX,
    ensures
        ({
            let c = nearest.rect.spec_center();
            let dx = mouse.x - c.x;
            let dy = mouse.y - c.y;
            let wide = dx * dx > dy * dy;
            let a = spec_drop_action(mouse, direction, Some(nearest));
            &&& wide && direction == TilingDirection::Horizontal ==> a == DropAction::Insert {
                index: if mouse.x < c.x {
                    nearest.index
                } else {
                    (nearest.index + 1) as usize
                },
            }
            &&& wide && direction == TilingDirection::Vertical ==> a == DropAction::Split {
                target_id: nearest.id,
                split_direction: TilingDirection::Horizontal,
                index: if mouse.x < c.x {
                    0
                } else {
                    1
                },
            }
            &&& !wide && direction == TilingDirection::Vertical ==> a == DropAction::Insert {
                index: if mouse.y < c.y {
                    nearest.index
                } else {
                    (nearest.index + 1) as usize
                },
            }
            &&& !wide && direction == TilingDirection::Horizontal ==> a == DropAction::Split {
                target_id: nearest.id,
                split_direction: TilingDirection::Vertical,
                index: if mouse.y < c.y {
                    0
                } else {
                    1
                },
            }
        }),
{
    let c = nearest.rect.spec_center();
    let dx: int = mouse.x - c.x;
    let dy: int = mouse.y - c.y;
    let ax: int = if dx < 0 {
        -dx
    } else {
        dx
    };
    let ay: int = if dy < 0 {
        -dy
    } else {
        dy
    };
    assert(ax * ax == dx * dx) by (nonlinear_arith)
        requires
            ax == dx || ax == -dx,
    ;
    assert(ay * ay == dy * dy) by (nonlinear_arith)
        requires
            ay == dy || ay == -dy,
    ;
    assert((ax > ay) == (dx * dx > dy * dy)) by (nonlinear_arith)
        requires
            ax >= 0,
            ay >= 0,
            ax * ax == dx * dx,
            ay * ay == dy * dy,
    {
        if ax > ay {
            assert(ax * ax > ay * ay);
        } else {
            assert(ax * ax <= ay * ay);
        }
    }
}

} // verus!
