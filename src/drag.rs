use vstd::prelude::*;

use crate::tile::TileType;

verus! {

/// Sum of all amounts.
pub open spec fn sum_of(s: Seq<(TileType, u64)>) -> nat
    decreases s.len(),
{
    if s.len() == 0 {
        0
    } else {
        sum_of(s.drop_last()) + s.last().1 as nat
    }
}

/// Sum of the amounts held by kinds other than `target`.
pub open spec fn others_sum(s: Seq<(TileType, u64)>, target: TileType) -> nat
    decreases s.len(),
{
    if s.len() == 0 {
        0
    } else {
        others_sum(s.drop_last(), target) + if s.last().0 == target {
            0nat
        } else {
            s.last().1 as nat
        }
    }
}

/// Amount held by `kind` (zero when it has no entry).
pub open spec fn amount_in(s: Seq<(TileType, u64)>, kind: TileType) -> nat
    decreases s.len(),
{
    if s.len() == 0 {
        0
    } else {
        amount_in(s.drop_last(), kind) + if s.last().0 == kind {
            s.last().1 as nat
        } else {
            0nat
        }
    }
}

/// No kind has two entries.
pub open spec fn keys_unique(s: Seq<(TileType, u64)>) -> bool {
    forall|i: int, j: int| 0 <= i < j < s.len() ==> s[i].0 != s[j].0
}

/// `kind` has an entry.
pub open spec fn has_kind(s: Seq<(TileType, u64)>, kind: TileType) -> bool {
    exists|i: int| 0 <= i < s.len() && s[i].0 == kind
}

pub open spec fn min_nat(a: nat, b: nat) -> nat {
    if a <= b {
        a
    } else {
        b
    }
}

/// How much a sweep towards `target` asking for `amount` moves: all that was
/// asked, or all the other kinds hold, whichever is less.
pub open spec fn moved_amount(s: Seq<(TileType, u64)>, target: TileType, amount: nat) -> nat {
    min_nat(amount, others_sum(s, target))
}

/// Entry `i` after `moved` units have been moved to `target`. The units are
/// taken from the other kinds in entry order: each gives up what it holds
/// until the amount is met.
pub open spec fn swept_entry(s: Seq<(TileType, u64)>, target: TileType, moved: nat, i: int) -> (
    TileType,
    u64,
) {
    if s[i].0 == target {
        (s[i].0, (s[i].1 + moved) as u64)
    } else {
        (
            s[i].0,
            (s[i].1 - (min_nat(moved, others_sum(s.take(i + 1), target)) - min_nat(
                moved,
                others_sum(s.take(i), target),
            ))) as u64,
        )
    }
}

/// Entries after a sweep towards `target` asking for `amount` units. A kind
/// that had no entry gets one, appended, when something moves.
pub open spec fn swept(s: Seq<(TileType, u64)>, target: TileType, amount: nat) -> Seq<
    (TileType, u64),
> {
    let moved = moved_amount(s, target, amount);
    let drained = Seq::new(s.len(), |i: int| swept_entry(s, target, moved, i));
    if has_kind(s, target) || moved == 0 {
        drained
    } else {
        drained.push((target, moved as u64))
    }
}

/// Entries after a sequence of sweeps, each a `(target, amount)` pair,
/// applied in order.
pub open spec fn sweep_all(s: Seq<(TileType, u64)>, ops: Seq<(TileType, u64)>) -> Seq<
    (TileType, u64),
>
    decreases ops.len(),
{
    if ops.len() == 0 {
        s
    } else {
        swept(sweep_all(s, ops.drop_last()), ops.last().0, ops.last().1 as nat)
    }
}

/// Entries whose share of the budget is at least one thousandth, in order.
pub open spec fn significant(s: Seq<(TileType, u64)>, budget: nat) -> Seq<(TileType, u64)>
    decreases s.len(),
{
    if s.len() == 0 {
        s
    } else {
        let p = significant(s.drop_last(), budget);
        if s.last().1 as nat * 1000 >= budget {
            p.push(s.last())
        } else {
            p
        }
    }
}

proof fn lemma_take_step(s: Seq<(TileType, u64)>, i: int)
    requires
        0 <= i < s.len(),
    ensures
        s.take(i + 1).drop_last() == s.take(i),
        s.take(i + 1).last() == s[i],
        s.take(s.len() as int) == s,
{
    assert(s.take(i + 1).drop_last() =~= s.take(i));
    assert(s.take(s.len() as int) =~= s);
}

/// Each amount, the amount of any one kind, and the other kinds' share are
/// bounded by the sum; with unique keys one kind and the others make up the
/// sum exactly.
proof fn lemma_parts(s: Seq<(TileType, u64)>, kind: TileType)
    ensures
        others_sum(s, kind) <= sum_of(s),
        keys_unique(s) ==> amount_in(s, kind) + others_sum(s, kind) == sum_of(s),
        forall|i: int| 0 <= i < s.len() && s[i].0 == kind ==> s[i].1 <= amount_in(s, kind),
        !has_kind(s, kind) ==> amount_in(s, kind) == 0,
    decreases s.len(),
{
    if s.len() > 0 {
        let p = s.drop_last();
        lemma_parts(p, kind);
        assert forall|i: int| 0 <= i < s.len() && s[i].0 == kind implies s[i].1 <= amount_in(
            s,
            kind,
        ) by {
            if i < s.len() - 1 {
                assert(p[i] == s[i]);
            }
        }
        if !has_kind(s, kind) {
            assert forall|i: int| 0 <= i < p.len() implies p[i].0 != kind by {
                assert(s[i] == p[i]);
            }
            assert(s[s.len() - 1].0 != kind);
        }
    }
}

/// A prefix sums to no more than the whole.
proof fn lemma_prefix_sum(s: Seq<(TileType, u64)>, i: int, target: TileType)
    requires
        0 <= i <= s.len(),
    ensures
        sum_of(s.take(i)) <= sum_of(s),
        others_sum(s.take(i), target) <= others_sum(s, target),
    decreases s.len() - i,
{
    if i < s.len() {
        lemma_prefix_sum(s, i + 1, target);
        lemma_take_step(s, i);
    } else {
        assert(s.take(i) =~= s);
    }
}

/// Over each prefix, the drained entries plus what was taken so far equal the
/// original entries plus what the target gained so far.
proof fn lemma_drained_prefix(s: Seq<(TileType, u64)>, target: TileType, moved: nat, i: int)
    requires
        keys_unique(s),
        0 <= i <= s.len(),
        moved <= others_sum(s, target),
        sum_of(s) <= u64::MAX,
    ensures
        sum_of(Seq::new(i as nat, |j: int| swept_entry(s, target, moved, j))) + min_nat(
            moved,
            others_sum(s.take(i), target),
        ) == sum_of(s.take(i)) + if has_kind(s.take(i), target) {
            moved
        } else {
            0nat
        },
        keys_unique(Seq::new(i as nat, |j: int| swept_entry(s, target, moved, j))),
    decreases i,
{
    let d = Seq::new(i as nat, |j: int| swept_entry(s, target, moved, j));
    if i == 0 {
        assert(s.take(0) =~= Seq::<(TileType, u64)>::empty());
        assert(!has_kind(s.take(0), target));
    } else {
        let k = i - 1;
        lemma_drained_prefix(s, target, moved, k);
        let dp = Seq::new(k as nat, |j: int| swept_entry(s, target, moved, j));
        assert(d.drop_last() =~= dp);
        lemma_take_step(s, k);
        let pre = s.take(k);
        let cur = s.take(i);
        assert(cur.drop_last() == pre);
        lemma_prefix_sum(s, i, target);
        lemma_parts(s, target);
        lemma_parts(cur, target);
        if s[k].0 == target {
            assert(has_kind(cur, target)) by {
                assert(cur[k] == s[k]);
            }
            assert(!has_kind(pre, target)) by {
                if has_kind(pre, target) {
                    let w = choose|w: int| 0 <= w < pre.len() && pre[w].0 == target;
                    assert(pre[w] == s[w]);
                }
            }
            assert(s[k].1 <= amount_in(s, target));
        } else {
            assert(has_kind(cur, target) == has_kind(pre, target)) by {
                if has_kind(cur, target) {
                    let w = choose|w: int| 0 <= w < cur.len() && cur[w].0 == target;
                    assert(cur[w] == s[w]);
                    assert(w < k);
                    assert(pre[w] == s[w]);
                }
                if has_kind(pre, target) {
                    let w = choose|w: int| 0 <= w < pre.len() && pre[w].0 == target;
                    assert(pre[w] == s[w]);
                    assert(cur[w] == s[w]);
                }
            }
        }
        assert forall|a: int, b: int| 0 <= a < b < d.len() implies d[a].0 != d[b].0 by {
            assert(d[a].0 == s[a].0);
            assert(d[b].0 == s[b].0);
        }
    }
}

/// A sweep keeps keys unique and the total unchanged.
pub proof fn lemma_swept_conserves(s: Seq<(TileType, u64)>, target: TileType, amount: nat)
    requires
        keys_unique(s),
        sum_of(s) <= u64::MAX,
    ensures
        keys_unique(swept(s, target, amount)),
        sum_of(swept(s, target, amount)) == sum_of(s),
{
    let moved = moved_amount(s, target, amount);
    let n = s.len() as int;
    lemma_drained_prefix(s, target, moved, n);
    lemma_take_step_all(s);
    let d = Seq::new(s.len(), |i: int| swept_entry(s, target, moved, i));
    assert(d =~= Seq::new(n as nat, |j: int| swept_entry(s, target, moved, j)));
    if !(has_kind(s, target) || moved == 0) {
        let r = d.push((target, moved as u64));
        assert(r.drop_last() =~= d);
        lemma_parts(s, target);
        assert forall|a: int, b: int| 0 <= a < b < r.len() implies r[a].0 != r[b].0 by {
            if b == r.len() - 1 {
                assert(r[a] == d[a]);
                assert(d[a].0 == s[a].0);
            } else {
                assert(r[a] == d[a] && r[b] == d[b]);
            }
        }
    }
}

proof fn lemma_take_step_all(s: Seq<(TileType, u64)>)
    ensures
        s.take(s.len() as int) == s,
{
    assert(s.take(s.len() as int) =~= s);
}

/// The blend state of a tile that is being swept from one behaviour into
/// others: how much of the tile's fixed sweep budget each kind holds. The
/// amounts always add up to the budget.
#[derive(Clone, Debug)]
pub struct TileDragState {
    entries: Vec<(TileType, u64)>,
    budget: u64,
}

impl View for TileDragState {
    type V = Seq<(TileType, u64)>;

    closed spec fn view(&self) -> Seq<(TileType, u64)> {
        self.entries@
    }
}

impl TileDragState {
    /// The fixed total the amounts add up to.
    pub closed spec fn total(&self) -> nat {
        self.budget as nat
    }

    /// Keys are unique and the amounts add up to the budget.
    pub open spec fn wf(&self) -> bool {
        keys_unique(self@) && sum_of(self@) == self.total()
    }

    /// A tile at rest: the whole budget on `resting`.
    pub fn new(resting: TileType, budget: u64) -> (r: TileDragState)
        ensures
            r.wf(),
            r@ == seq![(resting, budget)],
            r.total() == budget,
    {
        let r = TileDragState { entries: vec![(resting, budget)], budget };
        proof {
            assert(r@.drop_last() =~= Seq::<(TileType, u64)>::empty());
            assert(sum_of(r@.drop_last()) == 0);
            assert(sum_of(r@) == budget);
        }
        r
    }

    /// The fixed sweep budget.
    pub fn budget(&self) -> (r: u64)
        ensures
            r == self.total(),
    {
        self.budget
    }

    /// All entries, in order.
    pub fn entries(&self) -> (r: &Vec<(TileType, u64)>)
        ensures
            r@ == self@,
    {
        &self.entries
    }

    /// How much of the budget `kind` holds.
    pub fn amount_of(&self, kind: TileType) -> (r: u64)
        requires
            self.wf(),
        ensures
            r == amount_in(self@, kind),
    {
        let mut acc: u64 = 0;
        let mut i: usize = 0;
        let n = self.entries.len();
        while i < n
            invariant
                self.wf(),
                n == self@.len(),
                i <= n,
                acc == amount_in(self@.take(i as int), kind),
            decreases n - i,
        {
            proof {
                lemma_take_step(self@, i as int);
                lemma_parts(self@.take(i as int + 1), kind);
                lemma_prefix_sum(self@, i as int + 1, kind);
                lemma_parts(self@, kind);
            }
            let e = self.entries[i];
            if e.0 == kind {
                acc = acc + e.1;
            }
            i = i + 1;
        }
        proof {
            lemma_take_step_all(self@);
        }
        acc
    }

    /// Sweeps towards `target`: moves up to `amount` units to it from the
    /// other kinds, never more than they hold, and returns how much moved.
    /// The total is unchanged.
    pub fn sweep(&mut self, target: TileType, amount: u64) -> (moved: u64)
        requires
            old(self).wf(),
        ensures
            final(self).wf(),
            final(self).total() == old(self).total(),
            final(self)@ == swept(old(self)@, target, amount as nat),
            moved == moved_amount(old(self)@, target, amount as nat),
    {
        let ghost s = self@;
        let n = self.entries.len();
        proof {
            lemma_parts(s, target);
        }
        // What the other kinds hold.
        let mut others: u64 = 0;
        let mut i: usize = 0;
        while i < n
            invariant
                self@ == s,
                n == s.len(),
                i <= n,
                sum_of(s) <= u64::MAX,
                others == others_sum(s.take(i as int), target),
            decreases n - i,
        {
            proof {
                lemma_take_step(s, i as int);
                lemma_prefix_sum(s, i as int + 1, target);
                lemma_parts(s.take(i as int + 1), target);
            }
            let e = self.entries[i];
            if e.0 != target {
                others = others + e.1;
            }
            i = i + 1;
        }
        proof {
            lemma_take_step_all(s);
        }
        let moved: u64 = if amount <= others {
            amount
        } else {
            others
        };
        let ghost mv = moved as nat;
        // Drain the other kinds in entry order and credit the target.
        let mut remaining: u64 = moved;
        let mut found = false;
        let mut i: usize = 0;
        while i < n
            invariant
                n == s.len(),
                self@.len() == n,
                i <= n,
                keys_unique(s),
                sum_of(s) <= u64::MAX,
                self.budget == old(self).budget,
                mv <= others_sum(s, target),
                mv == moved,
                remaining == mv - min_nat(mv, others_sum(s.take(i as int), target)),
                found == has_kind(s.take(i as int), target),
                forall|j: int| 0 <= j < i ==> self@[j] == swept_entry(s, target, mv, j),
                forall|j: int| i <= j < n ==> self@[j] == s[j],
            decreases n - i,
        {
            proof {
                lemma_take_step(s, i as int);
                lemma_parts(s, target);
                lemma_drained_prefix(s, target, mv, i as int + 1);
            }
            let e = self.entries[i];
            let ghost pre = s.take(i as int);
            let ghost cur = s.take(i as int + 1);
            if e.0 == target {
                proof {
                    assert(e.1 <= amount_in(s, target));
                    assert(has_kind(cur, target)) by {
                        assert(cur[i as int] == s[i as int]);
                    }
                }
                self.entries.set(i, (e.0, e.1 + moved));
                found = true;
            } else {
                let take: u64 = if remaining <= e.1 {
                    remaining
                } else {
                    e.1
                };
                self.entries.set(i, (e.0, e.1 - take));
                remaining = remaining - take;
                proof {
                    assert(has_kind(cur, target) == has_kind(pre, target)) by {
                        if has_kind(cur, target) {
                            let w = choose|w: int| 0 <= w < cur.len() && cur[w].0 == target;
                            assert(cur[w] == s[w]);
                            assert(pre[w] == s[w]);
                        }
                        if has_kind(pre, target) {
                            let w = choose|w: int| 0 <= w < pre.len() && pre[w].0 == target;
                            assert(pre[w] == s[w]);
                            assert(cur[w] == s[w]);
                        }
                    }
                }
            }
            i = i + 1;
        }
        proof {
            lemma_take_step_all(s);
            assert(self@ =~= Seq::new(s.len(), |j: int| swept_entry(s, target, mv, j)));
        }
        if !found && moved > 0 {
            self.entries.push((target, moved));
        }
        proof {
            lemma_swept_conserves(s, target, amount as nat);
        }
        moved
    }

    /// Entries whose share of the budget is at least one thousandth, in
    /// order; the others are too small to blend in.
    pub fn blend(&self) -> (r: Vec<(TileType, u64)>)
        ensures
            r@ == significant(self@, self.total()),
    {
        let mut r: Vec<(TileType, u64)> = Vec::new();
        let n = self.entries.len();
        let mut i: usize = 0;
        while i < n
            invariant
                n == self@.len(),
                i <= n,
                r@ == significant(self@.take(i as int), self.total()),
            decreases n - i,
        {
            proof {
                lemma_take_step(self@, i as int);
            }
            let e = self.entries[i];
            if (e.1 as u128) * 1000 >= self.budget as u128 {
                r.push(e);
            }
            i = i + 1;
        }
        proof {
            lemma_take_step_all(self@);
        }
        r
    }
}

/// Whether every tile holds at least `threshold` units of `kind`: how a
/// level that asks for its tiles to be swept checks that they are.
pub fn all_swept_to(states: &Vec<TileDragState>, kind: TileType, threshold: u64) -> (r: bool)
    requires
        forall|i: int| 0 <= i < states@.len() ==> (#[trigger] states@[i]).wf(),
    ensures
        r == forall|i: int|
            0 <= i < states@.len() ==> amount_in(#[trigger] states@[i]@, kind) >= threshold,
{
    let n = states.len();
    let mut i: usize = 0;
    while i < n
        invariant
            n == states@.len(),
            i <= n,
            forall|j: int| 0 <= j < states@.len() ==> (#[trigger] states@[j]).wf(),
            forall|j: int| 0 <= j < i ==> amount_in(#[trigger] states@[j]@, kind) >= threshold,
        decreases n - i,
    {
        if states[i].amount_of(kind) < threshold {
            return false;
        }
        i = i + 1;
    }
    true
}

/// However a tile is swept, its amounts always add up to the budget it
/// started with, and no kind ever has two entries.
pub proof fn lemma_budget_conserved(state: TileDragState, ops: Seq<(TileType, u64)>)
    requires
        state.wf(),
    ensures
        keys_unique(sweep_all(state@, ops)),
        sum_of(sweep_all(state@, ops)) == state.total(),
    decreases ops.len(),
{
    if ops.len() > 0 {
        lemma_budget_conserved(state, ops.drop_last());
        lemma_swept_conserves(sweep_all(state@, ops.drop_last()), ops.last().0, ops.last().1 as nat);
    }
}

} // verus!
