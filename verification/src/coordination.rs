//! Interleaving of the render loop and the fetch coordinator.
//!
//! Both activities serialise through one lock, so a run of the system is a
//! sequence of whole steps: render-loop iterations and coordinator
//! write-backs.  Over that model this module proves the two guarantees the
//! lock discipline is for: idle iterations only advance the frame counter,
//! and the result list seen after any step is one of the lists that was
//! written whole — never a mixture.

use vstd::prelude::*;
use crate::app::AppModel;
use crate::networking::{spec_apply_routes, spec_clamp_cursor};
use crate::render_loop::spec_tick;
use crate::routes::Connection;

verus! {

/// One serialised turn of the lock: a render-loop iteration that polled no
/// event, or the write-back of a finished fetch.
#[derive(Clone, Copy, Debug, PartialEq, Eq, Structural)]
pub enum CoordStep {
    IdleTick,
    WriteBack,
}

/// Effect of one serialised step on the shared state and the selection
/// cursor; every write-back of the run delivers the list `fetched`.
pub open spec fn spec_coord_step(
    m: AppModel,
    sel: Option<usize>,
    s: CoordStep,
    fetched: Seq<Connection>,
) -> (AppModel, Option<usize>) {
    match s {
        CoordStep::IdleTick => {
            let (m2, s2, _a) = spec_tick(m, sel, None);
            (m2, s2)
        },
        CoordStep::WriteBack => (spec_apply_routes(m, fetched), spec_clamp_cursor(sel, fetched.len())),
    }
}

/// The state after a sequence of serialised steps.
pub open spec fn spec_run_steps(
    m: AppModel,
    sel: Option<usize>,
    steps: Seq<CoordStep>,
    fetched: Seq<Connection>,
) -> (AppModel, Option<usize>)
    decreases steps.len(),
{
    if steps.len() == 0 {
        (m, sel)
    } else {
        let (m2, s2) = spec_coord_step(m, sel, steps[0], fetched);
        spec_run_steps(m2, s2, steps.drop_first(), fetched)
    }
}

/// A run of idle render-loop iterations advances the frame counter once
/// per iteration and changes nothing else: after `k` of them the counter
/// stands `k` higher, the result list and every other field as before.
pub proof fn lemma_idle_ticks_advance_frames(
    m: AppModel,
    sel: Option<usize>,
    steps: Seq<CoordStep>,
    fetched: Seq<Connection>,
)
    requires
        forall|j: int| 0 <= j < steps.len() ==> steps[j] == CoordStep::IdleTick,
        m.frames + steps.len() <= i64::MAX,
    ensures
        spec_run_steps(m, sel, steps, fetched).0 == (AppModel {
            frames: (m.frames + steps.len()) as i64,
            ..m
        }),
        spec_run_steps(m, sel, steps, fetched).1 == sel,
    decreases steps.len(),
{
    if steps.len() == 0 {
        assert(spec_run_steps(m, sel, steps, fetched).0 =~= (AppModel {
            frames: (m.frames + steps.len()) as i64,
            ..m
        }));
    } else {
        let (m1, s1) = spec_coord_step(m, sel, steps[0], fetched);
        assert(m1 =~= (AppModel { frames: (m.frames + 1) as i64, ..m }));
        lemma_idle_ticks_advance_frames(m1, s1, steps.drop_first(), fetched);
        assert(spec_run_steps(m, sel, steps, fetched).0 =~= (AppModel {
            frames: (m.frames + steps.len()) as i64,
            ..m
        }));
    }
}

/// No step of a run ever shows a partially written result list: after any
/// prefix of the steps the list is either the one the run started with or
/// the one the write-back delivered, whole.
pub proof fn lemma_no_partial_results(
    m: AppModel,
    sel: Option<usize>,
    steps: Seq<CoordStep>,
    fetched: Seq<Connection>,
    k: int,
)
    requires
        0 <= k <= steps.len(),
    ensures
        spec_run_steps(m, sel, steps.take(k), fetched).0.routes == m.routes || spec_run_steps(
            m,
            sel,
            steps.take(k),
            fetched,
        ).0.routes == fetched,
    decreases k,
{
    if k == 0 {
        assert(steps.take(0).len() == 0);
    } else {
        let pre = steps.take(k);
        assert(pre[0] == steps[0]);
        let (m1, s1) = spec_coord_step(m, sel, steps[0], fetched);
        assert(m1.routes == m.routes || m1.routes == fetched);
        lemma_no_partial_results(m1, s1, steps.drop_first(), fetched, k - 1);
        assert(pre.drop_first() =~= steps.drop_first().take(k - 1));
        assert(spec_run_steps(m, sel, pre, fetched) == spec_run_steps(
            m1,
            s1,
            steps.drop_first().take(k - 1),
            fetched,
        ));
    }
}

} // verus!
