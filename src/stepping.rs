use vstd::prelude::*;

verus! {

/// Most steps a trajectory preview simulates.
pub const PREVIEW_STEP_CAP: u32 = 10000;

/// A preview records a point every this many steps.
pub const PREVIEW_SAMPLE_EVERY: u32 = 3;

/// Pair `(i, j)` comes before pair `(k, l)` in row-major order.
pub open spec fn pair_before(a: (usize, usize), b: (usize, usize)) -> bool {
    a.0 < b.0 || (a.0 == b.0 && a.1 < b.1)
}

/// Every unordered pair of `n` stones, once each, as `(i, j)` with `i < j`,
/// in row-major order: the order in which collisions are resolved in a tick.
pub fn collision_pairs(n: usize) -> (r: Vec<(usize, usize)>)
    ensures
        forall|k: int| 0 <= k < r@.len() ==> (#[trigger] r@[k]).0 < r@[k].1 && r@[k].1 < n,
        forall|k: int, l: int| 0 <= k < l < r@.len() ==> pair_before(r@[k], r@[l]),
        forall|i: usize, j: usize| i < j < n ==> #[trigger] r@.contains((i, j)),
{
    let mut r: Vec<(usize, usize)> = Vec::new();
    let mut i: usize = 0;
    while i < n
        invariant
            i <= n,
            forall|k: int| 0 <= k < r@.len() ==> (#[trigger] r@[k]).0 < r@[k].1 && r@[k].1 < n && r@[k].0 < i,
            forall|k: int, l: int| 0 <= k < l < r@.len() ==> pair_before(r@[k], r@[l]),
            forall|a: usize, b: usize| a < b < n && a < i ==> #[trigger] r@.contains((a, b)),
        decreases n - i,
    {
        let ghost start = r@.len();
        let mut j: usize = i + 1;
        while j < n
            invariant
                i < n,
                i + 1 <= j <= n,
                start <= r@.len(),
                forall|k: int|
                    0 <= k < r@.len() ==> (#[trigger] r@[k]).0 < r@[k].1 && r@[k].1 < n && r@[k].0 <= i,
                forall|k: int| 0 <= k < start ==> (#[trigger] r@[k]).0 < i,
                forall|k: int| start <= k < r@.len() ==> (#[trigger] r@[k]).0 == i && r@[k].1 < j,
                forall|k: int, l: int| 0 <= k < l < r@.len() ==> pair_before(r@[k], r@[l]),
                forall|a: usize, b: usize|
                    a < b < n && (a < i || (a == i && b < j)) ==> #[trigger] r@.contains((a, b)),
            decreases n - j,
        {
            let ghost old_r = r@;
            r.push((i, j));
            proof {
                assert forall|a: usize, b: usize|
                    a < b < n && (a < i || (a == i && b < j + 1)) implies #[trigger] r@.contains(
                    (a, b),
                ) by {
                    if a == i && b == j {
                        assert(r@[r@.len() - 1] == (a, b));
                    } else {
                        assert(old_r.contains((a, b)));
                        let k = choose|k: int| 0 <= k < old_r.len() && old_r[k] == (a, b);
                        assert(r@[k] == old_r[k]);
                    }
                }
            }
            j = j + 1;
        }
        i = i + 1;
    }
    r
}

/// What a trajectory preview does at a step.
#[derive(Clone, Copy, Debug, PartialEq, Eq, Structural)]
pub enum PreviewAction {
    /// Stop simulating: the step cap is reached or every stone is at rest.
    Stop,
    /// Run one tick; when `record` holds, append each stone's position to
    /// its polyline after the move phase.
    Step { record: bool },
}

/// The action of a preview at step `step` (counted from 0). `all_at_rest`
/// says whether every stone is slower than the rest threshold.
pub open spec fn preview_action_of(step: nat, step_cap: nat, sample_every: nat, all_at_rest: bool) -> PreviewAction
    recommends
        sample_every > 0,
{
    if step >= step_cap || all_at_rest {
        PreviewAction::Stop
    } else {
        PreviewAction::Step { record: step % sample_every == 0 }
    }
}

/// What a trajectory preview does at step `step`.
pub fn preview_action(step: u32, step_cap: u32, sample_every: u32, all_at_rest: bool) -> (r:
    PreviewAction)
    requires
        sample_every > 0,
    ensures
        r == preview_action_of(step as nat, step_cap as nat, sample_every as nat, all_at_rest),
{
    if step >= step_cap || all_at_rest {
        PreviewAction::Stop
    } else {
        PreviewAction::Step { record: step % sample_every == 0 }
    }
}

} // verus!
