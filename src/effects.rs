use vstd::prelude::*;

use crate::drag::{significant, TileDragState};
use crate::tile::{effect_of, tile_effect, TileEffect, TileType};

verus! {

/// How a stone meets one tile this tick, as measured by the integrator.
#[derive(Clone, Copy, Debug, PartialEq, Eq, Structural)]
pub struct TileContact {
    /// The stone covers enough of the tile (an overlap ratio of at least one
    /// hundredth) for the tile to act.
    pub overlapping: bool,
    /// The stone is within a quarter of the hex radius of the tile centre.
    pub near_centre: bool,
}

/// One effect to apply: tile `tile` acts as `kind` with `amount` of its
/// sweep budget.
#[derive(Clone, Copy, Debug, PartialEq, Eq, Structural)]
pub struct EffectStep {
    pub tile: usize,
    pub kind: TileType,
    pub amount: u64,
    pub effect: TileEffect,
}

/// The steps of one tile: one per significant blend entry, in order.
pub open spec fn tile_steps(tile: usize, entries: Seq<(TileType, u64)>, near_centre: bool) -> Seq<
    EffectStep,
> {
    Seq::new(
        entries.len(),
        |k: int|
            EffectStep {
                tile,
                kind: entries[k].0,
                amount: entries[k].1,
                effect: effect_of(entries[k].0, near_centre),
            },
    )
}

/// The steps of every overlapping tile, tile by tile in the given order.
pub open spec fn plan_of(states: Seq<TileDragState>, contacts: Seq<TileContact>) -> Seq<EffectStep>
    decreases contacts.len(),
{
    if contacts.len() == 0 {
        Seq::empty()
    } else {
        let i = contacts.len() - 1;
        let before = plan_of(states, contacts.drop_last());
        if contacts[i].overlapping {
            before + tile_steps(
                i as usize,
                significant(states[i]@, states[i].total()),
                contacts[i].near_centre,
            )
        } else {
            before
        }
    }
}

/// The effects a stone receives this tick from the tiles `states`, which it
/// meets as `contacts` says: for each overlapping tile, in order, one step
/// per blend entry holding at least a thousandth of the tile's budget.
pub fn plan_tile_effects(states: &Vec<TileDragState>, contacts: &Vec<TileContact>) -> (r: Vec<
    EffectStep,
>)
    requires
        states@.len() == contacts@.len(),
    ensures
        r@ == plan_of(states@, contacts@),
{
    let mut r: Vec<EffectStep> = Vec::new();
    let n = contacts.len();
    let mut i: usize = 0;
    while i < n
        invariant
            n == contacts@.len(),
            n == states@.len(),
            i <= n,
            r@ == plan_of(states@, contacts@.take(i as int)),
        decreases n - i,
    {
        proof {
            assert(contacts@.take(i as int + 1).drop_last() =~= contacts@.take(i as int));
        }
        let contact = contacts[i];
        if contact.overlapping {
            let entries = states[i].blend();
            let ghost before = r@;
            let ghost steps = tile_steps(i, entries@, contact.near_centre);
            let m = entries.len();
            let mut k: usize = 0;
            while k < m
                invariant
                    m == entries@.len(),
                    k <= m,
                    steps == tile_steps(i, entries@, contact.near_centre),
                    r@ == before + steps.take(k as int),
                decreases m - k,
            {
                let e = entries[k];
                r.push(
                    EffectStep {
                        tile: i,
                        kind: e.0,
                        amount: e.1,
                        effect: tile_effect(e.0, contact.near_centre),
                    },
                );
                proof {
                    assert(r@ =~= before + steps.take(k as int + 1));
                }
                k = k + 1;
            }
            proof {
                assert(steps.take(m as int) =~= steps);
            }
        }
        i = i + 1;
    }
    proof {
        assert(contacts@.take(n as int) =~= contacts@);
    }
    r
}

/// A stone that overlaps no tile receives no effect at all.
pub proof fn lemma_no_overlap_no_effect(states: Seq<TileDragState>, contacts: Seq<TileContact>)
    requires
        forall|i: int| 0 <= i < contacts.len() ==> !(#[trigger] contacts[i]).overlapping,
    ensures
        plan_of(states, contacts) == Seq::<EffectStep>::empty(),
    decreases contacts.len(),
{
    if contacts.len() > 0 {
        let p = contacts.drop_last();
        assert forall|i: int| 0 <= i < p.len() implies !(#[trigger] p[i]).overlapping by {
            assert(p[i] == contacts[i]);
        }
        lemma_no_overlap_no_effect(states, p);
    }
}

} // verus!
