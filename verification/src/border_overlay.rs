use std::collections::HashMap;
use vstd::prelude::*;
use vstd::std_specs::hash::spec_keys_iter;
use vstd::std_specs::iter::IteratorSpec;

use crate::geometry::Rect;

verus! {

/// What is known of the overlay window drawn around one target window.
#[derive(Debug, Clone, Copy, PartialEq, Eq, Structural)]
pub struct OverlayState {
    /// Raw handle of the overlay window.
    pub handle: isize,
    /// Width the overlay was last rendered at.
    pub width: i32,
    /// Height the overlay was last rendered at.
    pub height: i32,
}

/// Position and size of an overlay window in screen coordinates.
#[derive(Debug, Clone, Copy, PartialEq, Eq, Structural)]
pub struct OverlayGeometry {
    pub x: i32,
    pub y: i32,
    pub width: i32,
    pub height: i32,
}

/// What has to be done to bring the overlay of a target window up to date.
#[derive(Debug, Clone, Copy, PartialEq, Eq, Structural)]
pub enum OverlayUpdate {
    /// The overlay would have no area: nothing is done.
    Skip,
    /// No overlay exists yet: create one with this geometry, record it with
    /// `record_created`, then render and position it.
    Create(OverlayGeometry),
    /// The overlay's size changed: render it again and position it, then
    /// record the new size with `record_rendered`.
    Render { handle: isize, geometry: OverlayGeometry },
    /// Only the position changed: move the overlay without re-rendering.
    Reposition { handle: isize, geometry: OverlayGeometry },
}

/// The border width as the signed pixel count used in geometry.
pub open spec fn signed_border(border_width: u32) -> int {
    (border_width as i32) as int
}

/// The overlay extends the target's frame by the border width on every side.
pub open spec fn overlay_x(frame: Rect, border_width: u32) -> int {
    frame.left - signed_border(border_width)
}

pub open spec fn overlay_y(frame: Rect, border_width: u32) -> int {
    frame.top - signed_border(border_width)
}

pub open spec fn overlay_width(frame: Rect, border_width: u32) -> int {
    frame.spec_width() + 2 * signed_border(border_width)
}

pub open spec fn overlay_height(frame: Rect, border_width: u32) -> int {
    frame.spec_height() + 2 * signed_border(border_width)
}

pub open spec fn fits_i32(v: int) -> bool {
    i32::MIN <= v <= i32::MAX
}

/// Every quantity computed for the overlay of `frame` is an `i32`.
pub open spec fn overlay_fits(frame: Rect, border_width: u32) -> bool {
    &&& frame.has_i32_size()
    &&& fits_i32(2 * signed_border(border_width))
    &&& fits_i32(overlay_x(frame, border_width))
    &&& fits_i32(overlay_y(frame, border_width))
    &&& fits_i32(overlay_width(frame, border_width))
    &&& fits_i32(overlay_height(frame, border_width))
}

/// The overlay geometry for `frame` with a border of `border_width`.
pub open spec fn spec_overlay_geometry(frame: Rect, border_width: u32) -> OverlayGeometry {
    OverlayGeometry {
        x: overlay_x(frame, border_width) as i32,
        y: overlay_y(frame, border_width) as i32,
        width: overlay_width(frame, border_width) as i32,
        height: overlay_height(frame, border_width) as i32,
    }
}

/// The update owed to the overlay of `target` when the overlays known are
/// `overlays`.
pub open spec fn spec_plan_update(
    overlays: Map<isize, OverlayState>,
    target: isize,
    frame: Rect,
    border_width: u32,
) -> OverlayUpdate {
    let g = spec_overlay_geometry(frame, border_width);
    if g.width <= 0 || g.height <= 0 {
        OverlayUpdate::Skip
    } else if !overlays.contains_key(target) {
        OverlayUpdate::Create(g)
    } else if overlays[target].width != g.width || overlays[target].height != g.height {
        OverlayUpdate::Render { handle: overlays[target].handle, geometry: g }
    } else {
        OverlayUpdate::Reposition { handle: overlays[target].handle, geometry: g }
    }
}

/// A change that a `BorderOverlayManager` method makes to the overlays it
/// knows, with the arguments that decide it.
#[derive(Debug, Clone, Copy, PartialEq, Eq, Structural)]
pub enum OverlayOp {
    /// `record_created`: an overlay window was created for `target`.
    Created { target: isize, handle: isize, geometry: OverlayGeometry },
    /// `record_rendered`: the overlay of `target` was rendered again.
    Rendered { target: isize, geometry: OverlayGeometry },
    /// `destroy`: the overlay of `target` is destroyed.
    Destroyed { target: isize },
    /// `destroy_all`: every overlay is destroyed.
    DestroyedAll,
    /// `plan_update`, `hide_overlay`, `show`, `has_overlay`: nothing changes.
    Unchanged,
}

/// The overlays known after `op`, starting from `overlays`.
pub open spec fn apply_overlay_op(overlays: Map<isize, OverlayState>, op: OverlayOp) -> Map<
    isize,
    OverlayState,
> {
    match op {
        OverlayOp::Created { target, handle, geometry } => overlays.insert(
            target,
            OverlayState { handle, width: geometry.width, height: geometry.height },
        ),
        OverlayOp::Rendered { target, geometry } => if overlays.contains_key(target) {
            overlays.insert(
                target,
                OverlayState {
                    handle: overlays[target].handle,
                    width: geometry.width,
                    height: geometry.height,
                },
            )
        } else {
            overlays
        },
        OverlayOp::Destroyed { target } => overlays.remove(target),
        OverlayOp::DestroyedAll => Map::empty(),
        OverlayOp::Unchanged => overlays,
    }
}

/// The overlays known after the operations `ops`, in order, starting from
/// `overlays`.
pub open spec fn apply_overlay_ops(overlays: Map<isize, OverlayState>, ops: Seq<OverlayOp>) -> Map<
    isize,
    OverlayState,
>
    decreases ops.len(),
{
    if ops.len() == 0 {
        overlays
    } else {
        apply_overlay_op(apply_overlay_ops(overlays, ops.drop_last()), ops.last())
    }
}

/// Whether `op` destroys the overlay of `target`.
pub open spec fn destroys_overlay(op: OverlayOp, target: isize) -> bool {
    match op {
        OverlayOp::Destroyed { target: t } => t == target,
        OverlayOp::DestroyedAll => true,
        _ => false,
    }
}

/// Whether `op` creates an overlay for `target`.
pub open spec fn creates_overlay(op: OverlayOp, target: isize) -> bool {
    match op {
        OverlayOp::Created { target: t, .. } => t == target,
        _ => false,
    }
}

/// Some operation of `ops` created an overlay for `target`, and none after
/// it destroyed that overlay.
pub open spec fn created_and_not_destroyed(ops: Seq<OverlayOp>, target: isize) -> bool {
    exists|i: int|
        0 <= i < ops.len() && #[trigger] creates_overlay(ops[i], target) && forall|j: int|
            i < j < ops.len() ==> !#[trigger] destroys_overlay(ops[j], target)
}

/// Computes the geometry of the overlay drawn around `frame` with a border
/// of `border_width` pixels.
pub fn overlay_geometry(frame: &Rect, border_width: u32) -> (g: OverlayGeometry)
    requires
        overlay_fits(*frame, border_width),
    ensures
        g == spec_overlay_geometry(*frame, border_width),
{
    let bw = border_width as i32;
    OverlayGeometry {
        x: frame.x() - bw,
        y: frame.y() - bw,
        width: frame.width() + 2 * bw,
        height: frame.height() + 2 * bw,
    }
}

/// Manages gradient border overlay windows for all bordered windows, keyed
/// by the target window's raw handle.
pub struct BorderOverlayManager {
    overlays: HashMap<isize, OverlayState>,
}

/// Every overlay in `overlays` was rendered at a size with area.
pub open spec fn sizes_positive(overlays: Map<isize, OverlayState>) -> bool {
    forall|t: isize|
        #[trigger] overlays.contains_key(t) ==> overlays[t].width > 0 && overlays[t].height > 0
}

impl View for BorderOverlayManager {
    type V = Map<isize, OverlayState>;

    closed spec fn view(&self) -> Map<isize, OverlayState> {
        self.overlays@
    }
}

impl BorderOverlayManager {
    /// The cached overlay sizes are always positive: only sizes of overlays
    /// with area are ever recorded.
    #[verifier::type_invariant]
    spec fn cached_sizes_positive(self) -> bool {
        sizes_positive(self.overlays@)
    }

    /// Creates a new `BorderOverlayManager` that knows no overlay.
    pub fn new() -> (m: Self)
        ensures
            m@ == Map::<isize, OverlayState>::empty(),
            sizes_positive(m@),
    {
        BorderOverlayManager { overlays: HashMap::new() }
    }

    /// Decides how the overlay of `target_handle` has to be brought up to
    /// date for a target window now at `frame` with a border of
    /// `border_width` pixels. Nothing changes here; the caller carries out
    /// the returned update.
    pub fn plan_update(&self, target_handle: isize, frame: &Rect, border_width: u32) -> (u:
        OverlayUpdate)
        requires
            overlay_fits(*frame, border_width),
        ensures
            u == spec_plan_update(self@, target_handle, *frame, border_width),
            sizes_positive(self@),
    {
        proof {
            use_type_invariant(self);
        }
        let g = overlay_geometry(frame, border_width);
        if g.width <= 0 || g.height <= 0 {
            return OverlayUpdate::Skip;
        }
        match self.overlays.get(&target_handle) {
            None => OverlayUpdate::Create(g),
            Some(state) => {
                if state.width != g.width || state.height != g.height {
                    OverlayUpdate::Render { handle: state.handle, geometry: g }
                } else {
                    OverlayUpdate::Reposition { handle: state.handle, geometry: g }
                }
            },
        }
    }

    /// Records the overlay window `overlay_handle` just created for
    /// `target_handle` with `geometry`.
    pub fn record_created(
        &mut self,
        target_handle: isize,
        overlay_handle: isize,
        geometry: OverlayGeometry,
    )
        requires
            geometry.width > 0,
            geometry.height > 0,
        ensures
            sizes_positive(final(self)@),
            final(self)@ == apply_overlay_op(
                old(self)@,
                OverlayOp::Created { target: target_handle, handle: overlay_handle, geometry },
            ),
            final(self)@ == old(self)@.insert(
                target_handle,
                OverlayState {
                    handle: overlay_handle,
                    width: geometry.width,
                    height: geometry.height,
                },
            ),
    {
        proof {
            use_type_invariant(&*self);
        }
        let mut overlays: HashMap<isize, OverlayState> = HashMap::new();
        std::mem::swap(&mut overlays, &mut self.overlays);
        overlays.insert(
            target_handle,
            OverlayState { handle: overlay_handle, width: geometry.width, height: geometry.height },
        );
        self.overlays = overlays;
    }

    /// Records that the overlay of `target_handle` was rendered at the size
    /// of `geometry`. Nothing changes if the target has no overlay.
    pub fn record_rendered(&mut self, target_handle: isize, geometry: OverlayGeometry)
        requires
            geometry.width > 0,
            geometry.height > 0,
        ensures
            sizes_positive(final(self)@),
            final(self)@ == apply_overlay_op(
                old(self)@,
                OverlayOp::Rendered { target: target_handle, geometry },
            ),
            old(self)@.contains_key(target_handle) ==> final(self)@ == old(self)@.insert(
                target_handle,
                OverlayState {
                    handle: old(self)@[target_handle].handle,
                    width: geometry.width,
                    height: geometry.height,
                },
            ),
            !old(self)@.contains_key(target_handle) ==> final(self)@ == old(self)@,
    {
        proof {
            use_type_invariant(&*self);
        }
        let found = match self.overlays.get(&target_handle) {
            Some(state) => Some(state.handle),
            None => None,
        };
        if let Some(handle) = found {
            let mut overlays: HashMap<isize, OverlayState> = HashMap::new();
            std::mem::swap(&mut overlays, &mut self.overlays);
            overlays.insert(
                target_handle,
                OverlayState { handle, width: geometry.width, height: geometry.height },
            );
            self.overlays = overlays;
        }
    }

    /// Forgets the overlay of `target_handle` and returns the overlay
    /// window handle to destroy, if there was one.
    pub fn destroy(&mut self, target_handle: isize) -> (h: Option<isize>)
        ensures
            sizes_positive(final(self)@),
            final(self)@ == apply_overlay_op(old(self)@, OverlayOp::Destroyed { target: target_handle }),
            final(self)@ == old(self)@.remove(target_handle),
            h == (if old(self)@.contains_key(target_handle) {
                Some(old(self)@[target_handle].handle)
            } else {
                None
            }),
    {
        proof {
            use_type_invariant(&*self);
        }
        let mut overlays: HashMap<isize, OverlayState> = HashMap::new();
        std::mem::swap(&mut overlays, &mut self.overlays);
        let removed = overlays.remove(&target_handle);
        self.overlays = overlays;
        match removed {
            Some(state) => Some(state.handle),
            None => None,
        }
    }

    /// Returns the overlay window handle to hide for `target_handle`, if
    /// it has an overlay.
    pub fn hide_overlay(&mut self, target_handle: isize) -> (h: Option<isize>)
        ensures
            sizes_positive(final(self)@),
            final(self)@ == old(self)@,
            h == (if old(self)@.contains_key(target_handle) {
                Some(old(self)@[target_handle].handle)
            } else {
                None
            }),
    {
        proof {
            use_type_invariant(&*self);
        }
        self.overlay_handle(target_handle)
    }

    /// Returns the overlay window handle to show for `target_handle`, if
    /// it has an overlay.
    pub fn show(&mut self, target_handle: isize) -> (h: Option<isize>)
        ensures
            sizes_positive(final(self)@),
            final(self)@ == old(self)@,
            h == (if old(self)@.contains_key(target_handle) {
                Some(old(self)@[target_handle].handle)
            } else {
                None
            }),
    {
        proof {
            use_type_invariant(&*self);
        }
        self.overlay_handle(target_handle)
    }

    fn overlay_handle(&self, target_handle: isize) -> (h: Option<isize>)
        ensures
            h == (if self@.contains_key(target_handle) {
                Some(self@[target_handle].handle)
            } else {
                None
            }),
    {
        match self.overlays.get(&target_handle) {
            Some(state) => Some(state.handle),
            None => None,
        }
    }

    /// Forgets every overlay and returns the overlay window handles to
    /// destroy, one for each target window that had an overlay, in the
    /// order in which the map hands out its keys.
    pub fn destroy_all(&mut self) -> (handles: Vec<isize>)
        ensures
            sizes_positive(final(self)@),
            final(self)@ == apply_overlay_op(old(self)@, OverlayOp::DestroyedAll),
            final(self)@ == Map::<isize, OverlayState>::empty(),
            exists|targets: Seq<isize>|
                {
                    &&& targets.no_duplicates()
                    &&& targets.to_set() == old(self)@.dom()
                    &&& handles@ == targets.map_values(|t: isize| old(self)@[t].handle)
                },
    {
        proof {
            use_type_invariant(&*self);
        }
        let ghost old_map = self@;
        let mut overlays: HashMap<isize, OverlayState> = HashMap::new();
        std::mem::swap(&mut overlays, &mut self.overlays);
        let mut targets: Vec<isize> = Vec::new();
        for t in it: overlays.keys()
            invariant
                targets@.len() == it.index(),
                forall|i: int| 0 <= i < it.index() ==> targets@[i] == *it.seq()[i],
        {
            targets.push(*t);
        }
        assert(targets@ == spec_keys_iter(&overlays).remaining().unref());
        let mut handles: Vec<isize> = Vec::new();
        let mut i: usize = 0;
        while i < targets.len()
            invariant
                0 <= i <= targets@.len(),
                targets@.no_duplicates(),
                targets@.to_set() == old_map.dom(),
                self@ == Map::<isize, OverlayState>::empty(),
                overlays@ == old_map.remove_keys(targets@.take(i as int).to_set()),
                handles@ == targets@.take(i as int).map_values(|t: isize| old_map[t].handle),
            decreases targets@.len() - i,
        {
            let target = targets[i];
            proof {
                assert(targets@.take(i + 1) == targets@.take(i as int).push(target));
                targets@.take(i as int).lemma_push_to_set_commute(target);
                assert(!targets@.take(i as int).contains(target));
                assert(targets@.to_set().contains(target)) by {
                    assert(targets@.contains(target));
                }
            }
            let removed = overlays.remove(&target);
            handles.push(removed.unwrap().handle);
            proof {
                assert(overlays@ =~= old_map.remove_keys(targets@.take(i + 1).to_set()));
            }
            i = i + 1;
        }
        proof {
            assert(targets@.take(targets@.len() as int) == targets@);
            assert(self@ =~= Map::<isize, OverlayState>::empty());
        }
        handles
    }

    /// Returns true if an overlay exists for the given target.
    pub fn has_overlay(&self, target_handle: isize) -> (b: bool)
        ensures
            sizes_positive(self@),
            b == self@.contains_key(target_handle),
    {
        proof {
            use_type_invariant(self);
        }
        self.overlays.contains_key(&target_handle)
    }
}

/// The target's frame sits inside its overlay with exactly `border_width`
/// pixels of border on every side.
pub proof fn law_overlay_surrounds_frame(frame: Rect, border_width: u32)
    requires
        overlay_fits(frame, border_width),
        border_width <= i32::MAX,
    ensures
        ({
            let g = spec_overlay_geometry(frame, border_width);
            &&& g.x + border_width == frame.left
            &&& g.y + border_width == frame.top
            &&& g.x + g.width - border_width == frame.right
            &&& g.y + g.height - border_width == frame.bottom
        }),
{
}

/// Once an overlay has been created and rendered for a frame, a later
/// update with a frame of the same size only repositions it: the cached
/// size spares the re-rendering, wherever the frame has moved.
pub proof fn law_same_size_only_repositions(
    overlays: Map<isize, OverlayState>,
    target: isize,
    handle: isize,
    rendered: Rect,
    moved: Rect,
    border_width: u32,
)
    requires
        overlay_fits(rendered, border_width),
        overlay_fits(moved, border_width),
        rendered.spec_width() == moved.spec_width(),
        rendered.spec_height() == moved.spec_height(),
        spec_overlay_geometry(rendered, border_width).width > 0,
        spec_overlay_geometry(rendered, border_width).height > 0,
    ensures
        ({
            let g = spec_overlay_geometry(rendered, border_width);
            let after = overlays.insert(
                target,
                OverlayState { handle, width: g.width, height: g.height },
            );
            spec_plan_update(after, target, moved, border_width) == OverlayUpdate::Reposition {
                handle,
                geometry: spec_overlay_geometry(moved, border_width),
            }
        }),
{
}

/// An update for a frame of another size renders the overlay again.
pub proof fn law_new_size_renders(
    overlays: Map<isize, OverlayState>,
    target: isize,
    frame: Rect,
    border_width: u32,
)
    requires
        overlay_fits(frame, border_width),
        overlays.contains_key(target),
        spec_overlay_geometry(frame, border_width).width > 0,
        spec_overlay_geometry(frame, border_width).height > 0,
        overlays[target].width != spec_overlay_geometry(frame, border_width).width
            || overlays[target].height != spec_overlay_geometry(frame, border_width).height,
    ensures
        spec_plan_update(overlays, target, frame, border_width) == (OverlayUpdate::Render {
            handle: overlays[target].handle,
            geometry: spec_overlay_geometry(frame, border_width),
        }),
{
}

/// After an overlay is destroyed, the next update of its target creates a
/// new one, and the target no longer has an overlay.
pub proof fn law_destroyed_overlay_is_recreated(
    overlays: Map<isize, OverlayState>,
    target: isize,
    frame: Rect,
    border_width: u32,
)
    requires
        overlay_fits(frame, border_width),
        spec_overlay_geometry(frame, border_width).width > 0,
        spec_overlay_geometry(frame, border_width).height > 0,
    ensures
        !overlays.remove(target).contains_key(target),
        spec_plan_update(overlays.remove(target), target, frame, border_width)
            == OverlayUpdate::Create(spec_overlay_geometry(frame, border_width)),
{
}

/// An overlay without area is never created, rendered or moved.
pub proof fn law_empty_overlay_skipped(
    overlays: Map<isize, OverlayState>,
    target: isize,
    frame: Rect,
    border_width: u32,
)
    requires
        overlay_fits(frame, border_width),
        overlay_width(frame, border_width) <= 0 || overlay_height(frame, border_width) <= 0,
    ensures
        spec_plan_update(overlays, target, frame, border_width) == OverlayUpdate::Skip,
{
}

/// Starting from a new manager, a target has an overlay exactly when some
/// operation created one for it and no `destroy` of it or `destroy_all`
/// came after.
pub proof fn law_overlay_exists_until_destroyed(ops: Seq<OverlayOp>, target: isize)
    ensures
        apply_overlay_ops(Map::empty(), ops).contains_key(target) == created_and_not_destroyed(
            ops,
            target,
        ),
    decreases ops.len(),
{
    if ops.len() == 0 {
        return;
    }
    let prefix = ops.drop_last();
    let last = ops.last();
    let n = ops.len() - 1;
    law_overlay_exists_until_destroyed(prefix, target);
    assert(ops[n] == last);
    if creates_overlay(last, target) {
        assert(creates_overlay(ops[n], target));
        assert(created_and_not_destroyed(ops, target));
    } else if destroys_overlay(last, target) {
        assert forall|i: int|
            0 <= i < ops.len() && #[trigger] creates_overlay(ops[i], target) implies !(forall|
                j: int,
            | i < j < ops.len() ==> !#[trigger] destroys_overlay(ops[j], target)) by {
            assert(i != n);
            assert(destroys_overlay(ops[n], target));
        }
    } else {
        if created_and_not_destroyed(prefix, target) {
            let i = choose|i: int|
                0 <= i < prefix.len() && #[trigger] creates_overlay(prefix[i], target) && forall|
                    j: int,
                | i < j < prefix.len() ==> !#[trigger] destroys_overlay(prefix[j], target);
            assert(creates_overlay(ops[i], target));
            assert forall|j: int| i < j < ops.len() implies !#[trigger] destroys_overlay(
                ops[j],
                target,
            ) by {
                if j < n {
                    assert(ops[j] == prefix[j]);
                }
            }
        }
        if created_and_not_destroyed(ops, target) {
            let i = choose|i: int|
                0 <= i < ops.len() && #[trigger] creates_overlay(ops[i], target) && forall|j: int|
                    i < j < ops.len() ==> !#[trigger] destroys_overlay(ops[j], target);
            assert(i != n);
            assert(creates_overlay(prefix[i], target));
            assert forall|j: int| i < j < prefix.len() implies !#[trigger] destroys_overlay(
                prefix[j],
                target,
            ) by {
                assert(ops[j] == prefix[j]);
            }
        }
    }
}

/// The overlays known after an update of `target` to `frame` has been
/// carried out as `plan_update` decides: `record_created` after a creation
/// (the new overlay window being `created_handle`), `record_rendered` after
/// a re-rendering, nothing otherwise.
pub open spec fn spec_after_update(
    overlays: Map<isize, OverlayState>,
    target: isize,
    frame: Rect,
    border_width: u32,
    created_handle: isize,
) -> Map<isize, OverlayState> {
    match spec_plan_update(overlays, target, frame, border_width) {
        OverlayUpdate::Skip => overlays,
        OverlayUpdate::Create(g) => apply_overlay_op(
            overlays,
            OverlayOp::Created { target, handle: created_handle, geometry: g },
        ),
        OverlayUpdate::Render { handle, geometry } => apply_overlay_op(
            overlays,
            OverlayOp::Rendered { target, geometry },
        ),
        OverlayUpdate::Reposition { .. } => overlays,
    }
}

/// An update of one target never touches the overlay of another: whether
/// it has one, its handle and its cached size all stay.
pub proof fn law_update_leaves_other_targets(
    overlays: Map<isize, OverlayState>,
    target: isize,
    frame: Rect,
    border_width: u32,
    created_handle: isize,
    other: isize,
)
    requires
        other != target,
    ensures
        ({
            let after = spec_after_update(overlays, target, frame, border_width, created_handle);
            &&& after.contains_key(other) == overlays.contains_key(other)
            &&& overlays.contains_key(other) ==> after[other] == overlays[other]
        }),
{
}

/// Repeating an update with the same frame and border only repositions the
/// overlay: it is neither created nor rendered again, and the overlays known
/// stay as the first update left them.
pub proof fn law_repeated_update_repositions(
    overlays: Map<isize, OverlayState>,
    target: isize,
    frame: Rect,
    border_width: u32,
    created_handle: isize,
    second_created_handle: isize,
)
    requires
        overlay_fits(frame, border_width),
    ensures
        ({
            let g = spec_overlay_geometry(frame, border_width);
            let after = spec_after_update(overlays, target, frame, border_width, created_handle);
            &&& spec_after_update(after, target, frame, border_width, second_created_handle)
                == after
            &&& g.width > 0 && g.height > 0 ==> after.contains_key(target) && spec_plan_update(
                after,
                target,
                frame,
                border_width,
            ) == (OverlayUpdate::Reposition { handle: after[target].handle, geometry: g })
            &&& !(g.width > 0 && g.height > 0) ==> spec_plan_update(
                after,
                target,
                frame,
                border_width,
            ) == OverlayUpdate::Skip
        }),
{
}

} // verus!
