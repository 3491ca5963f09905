//! Boundary policy: wrap-around for the ship, removal for bullets and
//! asteroids. Both use a two-radius margin, so an entity acts only once it
//! has fully left the viewport.

use vstd::prelude::*;
use crate::components::{Spatial, Viewport};
use crate::fixed::Vec2;
use crate::world::{kill, Entity, World};

verus! {

/// Fully outside the viewport on the horizontal axis, with the two-radius
/// margin.
pub open spec fn out_x(s: Spatial, vp: Viewport) -> bool {
    s.pos.x + 2 * s.radius < -vp.half_w || s.pos.x - 2 * s.radius > vp.half_w
}

/// Fully outside the viewport on the vertical axis, with the two-radius
/// margin.
pub open spec fn out_y(s: Spatial, vp: Viewport) -> bool {
    s.pos.y + 2 * s.radius < -vp.half_h || s.pos.y - 2 * s.radius > vp.half_h
}

/// The wrap rule: an axis on which the entity has fully left the viewport is
/// teleported to just outside the opposite edge; the other axis is untouched.
pub open spec fn spec_wrap_spatial(s: Spatial, vp: Viewport) -> Spatial {
    let x = if s.pos.x + 2 * s.radius < -vp.half_w {
        vp.half_w + 2 * s.radius
    } else if s.pos.x - 2 * s.radius > vp.half_w {
        -vp.half_w - 2 * s.radius
    } else {
        s.pos.x as int
    };
    let y = if s.pos.y + 2 * s.radius < -vp.half_h {
        vp.half_h + 2 * s.radius
    } else if s.pos.y - 2 * s.radius > vp.half_h {
        -vp.half_h - 2 * s.radius
    } else {
        s.pos.y as int
    };
    Spatial { pos: Vec2 { x: x as i64, y: y as i64 }, rot: s.rot, radius: s.radius }
}

/// Boundary wrap is idempotent: a wrapped placement does not trigger the
/// wrap again on an immediate re-check.
pub proof fn lemma_wrap_idempotent(s: Spatial, vp: Viewport)
    requires
        s.wf(),
        vp.wf(),
    ensures
        spec_wrap_spatial(spec_wrap_spatial(s, vp), vp) == spec_wrap_spatial(s, vp),
{
}

/// Wrap one placement; exact per `spec_wrap_spatial`.
pub fn wrap_spatial(s: Spatial, vp: Viewport) -> (r: Spatial)
    requires
        s.wf(),
        vp.wf(),
    ensures
        r == spec_wrap_spatial(s, vp),
        r.wf(),
        !out_x(r, vp) || !out_x(s, vp),
        !out_y(r, vp) || !out_y(s, vp),
{
    let mut x = s.pos.x;
    let mut y = s.pos.y;
    if s.pos.x + 2 * s.radius < -vp.half_w {
        x = vp.half_w + 2 * s.radius;
    } else if s.pos.x - 2 * s.radius > vp.half_w {
        x = -vp.half_w - 2 * s.radius;
    }
    if s.pos.y + 2 * s.radius < -vp.half_h {
        y = vp.half_h + 2 * s.radius;
    } else if s.pos.y - 2 * s.radius > vp.half_h {
        y = -vp.half_h - 2 * s.radius;
    }
    Spatial { pos: Vec2 { x, y }, rot: s.rot, radius: s.radius }
}

/// The effect of the wrap system on one entity.
pub open spec fn spec_wrap_entity(e: Entity, vp: Viewport) -> Entity {
    if e.alive && e.boundary_wrap && e.spatial is Some {
        Entity { spatial: Some(spec_wrap_spatial(e.spatial->Some_0, vp)), ..e }
    } else {
        e
    }
}

/// Teleport every living wrap-tagged entity that has fully left the viewport
/// to just outside the opposite edge.
pub fn boundary_wrap_system(w: &mut World, vp: Viewport)
    requires
        old(w).wf(),
        vp.wf(),
    ensures
        final(w).wf(),
        final(w).entities@.len() == old(w).entities@.len(),
        forall|i: int|
            0 <= i < old(w).entities@.len() ==> #[trigger] final(w).entities@[i]
                == spec_wrap_entity(old(w).entities@[i], vp),
{
    let n = w.entities.len();
    let mut i: usize = 0;
    while i < n
        invariant
            old(w).wf(),
            vp.wf(),
            n == old(w).entities@.len(),
            0 <= i <= n,
            w.entities@.len() == n,
            forall|j: int|
                0 <= j < i ==> #[trigger] w.entities@[j] == spec_wrap_entity(
                    old(w).entities@[j],
                    vp,
                ),
            forall|j: int| 0 <= j < i ==> #[trigger] w.entities@[j].wf(),
            forall|j: int| i <= j < n ==> #[trigger] w.entities@[j] == old(w).entities@[j],
        decreases n - i,
    {
        let alive = w.entities[i].alive;
        let wrap = w.entities[i].boundary_wrap;
        let spatial_opt = w.entities[i].spatial;
        if alive && wrap {
            if let Some(s) = spatial_opt {
                proof {
                    assert(old(w).entities@[i as int].wf());
                }
                let ns = wrap_spatial(s, vp);
                w.entities[i].spatial = Some(ns);
            }
        }
        proof {
            assert(w.entities@[i as int] == spec_wrap_entity(old(w).entities@[i as int], vp));
            assert(w.entities@[i as int].wf());
        }
        i = i + 1;
    }
}

/// The effect of the removal system on one entity: despawned once fully
/// outside the viewport on either axis.
pub open spec fn spec_remove_entity(e: Entity, vp: Viewport) -> Entity {
    if e.alive && e.boundary_removal && e.spatial is Some && (out_x(e.spatial->Some_0, vp)
        || out_y(e.spatial->Some_0, vp)) {
        kill(e)
    } else {
        e
    }
}

/// Despawn every living removal-tagged entity whose bounding box has fully
/// left the viewport on any axis.
pub fn boundary_remove_system(w: &mut World, vp: Viewport)
    requires
        old(w).wf(),
        vp.wf(),
    ensures
        final(w).wf(),
        final(w).entities@.len() == old(w).entities@.len(),
        forall|i: int|
            0 <= i < old(w).entities@.len() ==> #[trigger] final(w).entities@[i]
                == spec_remove_entity(old(w).entities@[i], vp),
{
    let n = w.entities.len();
    let mut i: usize = 0;
    while i < n
        invariant
            old(w).wf(),
            vp.wf(),
            n == old(w).entities@.len(),
            0 <= i <= n,
            w.entities@.len() == n,
            forall|j: int|
                0 <= j < i ==> #[trigger] w.entities@[j] == spec_remove_entity(
                    old(w).entities@[j],
                    vp,
                ),
            forall|j: int| 0 <= j < i ==> #[trigger] w.entities@[j].wf(),
            forall|j: int| i <= j < n ==> #[trigger] w.entities@[j] == old(w).entities@[j],
        decreases n - i,
    {
        let alive = w.entities[i].alive;
        let removal = w.entities[i].boundary_removal;
        let spatial_opt = w.entities[i].spatial;
        if alive && removal {
            if let Some(s) = spatial_opt {
                proof {
                    assert(old(w).entities@[i as int].wf());
                }
                let gone_x = s.pos.x + 2 * s.radius < -vp.half_w || s.pos.x - 2 * s.radius
                    > vp.half_w;
                let gone_y = s.pos.y + 2 * s.radius < -vp.half_h || s.pos.y - 2 * s.radius
                    > vp.half_h;
                if gone_x || gone_y {
                    w.entities[i].alive = false;
                }
            }
        }
        proof {
            assert(w.entities@[i as int] == spec_remove_entity(old(w).entities@[i as int], vp));
            assert(w.entities@[i as int].wf());
        }
        i = i + 1;
    }
}

} // verus!
