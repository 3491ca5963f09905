//! Render sync: the one output crossing to the presentation layer is the
//! (position, rotation) of every living placed entity, in entity order.

use vstd::prelude::*;
use crate::world::{Entity, World};

verus! {

/// What the presentation layer may see of one entity.
#[derive(Clone, Copy, PartialEq, Eq, Structural, Debug)]
pub struct RenderState {
    pub x: i64,
    pub y: i64,
    pub rot: i64,
}

/// Whether an entity is drawn.
pub open spec fn visible(e: Entity) -> bool {
    e.alive && e.spatial is Some
}

/// The render state of one visible entity.
pub open spec fn state_of(e: Entity) -> RenderState {
    RenderState {
        x: e.spatial->Some_0.pos.x,
        y: e.spatial->Some_0.pos.y,
        rot: e.spatial->Some_0.rot,
    }
}

/// The render states of all visible entities, in entity order.
pub open spec fn render_of(s: Seq<Entity>) -> Seq<RenderState>
    decreases s.len(),
{
    if s.len() == 0 {
        Seq::empty()
    } else {
        render_of(s.drop_last()) + (if visible(s.last()) {
            seq![state_of(s.last())]
        } else {
            Seq::empty()
        })
    }
}

/// Copy the simulation state of every living placed entity out for drawing.
pub fn render_states(w: &World) -> (out: Vec<RenderState>)
    ensures
        out@ == render_of(w.entities@),
{
    let n = w.entities.len();
    let mut out: Vec<RenderState> = Vec::new();
    let mut i: usize = 0;
    proof {
        assert(w.entities@.take(0int) =~= Seq::<Entity>::empty());
        assert(out@ =~= render_of(w.entities@.take(0int)));
    }
    while i < n
        invariant
            n == w.entities@.len(),
            0 <= i <= n,
            out@ == render_of(w.entities@.take(i as int)),
        decreases n - i,
    {
        let alive = w.entities[i].alive;
        let spatial_opt = w.entities[i].spatial;
        let ghost pre = out@;
        if alive {
            if let Some(s) = spatial_opt {
                out.push(RenderState { x: s.pos.x, y: s.pos.y, rot: s.rot });
            }
        }
        proof {
            let t1 = w.entities@.take(i + 1);
            assert(t1.drop_last() =~= w.entities@.take(i as int));
            assert(t1.last() == w.entities@[i as int]);
            if visible(w.entities@[i as int]) {
                assert(out@ =~= render_of(t1.drop_last()) + seq![
                    state_of(w.entities@[i as int]),
                ]);
            } else {
                assert(out@ =~= render_of(t1.drop_last()));
            }
        }
        i = i + 1;
    }
    proof {
        assert(w.entities@.take(n as int) =~= w.entities@);
    }
    out
}

} // verus!
