use vstd::prelude::*;

use crate::facing::Facing;

verus! {

/// The behaviour of a hexagonal cell.
#[derive(Clone, Copy, Debug, PartialEq, Eq, Structural)]
pub enum TileType {
    Wall,
    MaintainSpeed,
    SlowDown,
    TurnCounterclockwise,
    TurnClockwise,
    Goal,
    /// Launches a stone that reaches its centre in the given direction.
    SpeedUp(Facing),
}

/// Which multiple of the drag coefficient a tile adds to the accumulated drag.
#[derive(Clone, Copy, Debug, PartialEq, Eq, Structural)]
pub enum DragScale {
    /// No drag.
    Free,
    /// `drag_coefficient * weighted_ratio`.
    Base,
    /// `drag_coefficient * weighted_ratio * slow_down_factor`.
    SlowedDown,
}

/// What one tile does to an overlapping stone in one tick. The numeric part
/// (scaling by overlap and blend weight) is applied by the integrator.
#[derive(Clone, Copy, Debug, PartialEq, Eq, Structural)]
pub struct TileEffect {
    /// Reflect the velocity off the nearest hexagon edge (applied at once).
    pub reflect: bool,
    /// Contribution to the accumulated drag.
    pub drag: DragScale,
    /// Contribution to the accumulated rotation: `+1` counter-clockwise,
    /// `-1` clockwise, `0` none.
    pub turn: i8,
    /// Pull the velocity towards the tile centre.
    pub attract: bool,
    /// Replace the velocity by this direction times the speed-up factor.
    pub launch: Option<Facing>,
}

/// An effect that only adds drag and turning.
pub open spec fn plain_effect(drag: DragScale, turn: i8) -> TileEffect {
    TileEffect { reflect: false, drag, turn, attract: false, launch: None }
}

/// The effect of a tile kind. `near_centre` says whether the stone is within
/// a quarter of the hex radius of the tile centre; only `SpeedUp` reads it.
pub open spec fn effect_of(kind: TileType, near_centre: bool) -> TileEffect {
    match kind {
        TileType::Wall => TileEffect {
            reflect: true,
            drag: DragScale::Free,
            turn: 0,
            attract: false,
            launch: None,
        },
        TileType::MaintainSpeed => plain_effect(DragScale::Base, 0i8),
        TileType::SlowDown => plain_effect(DragScale::SlowedDown, 0i8),
        TileType::TurnCounterclockwise => plain_effect(DragScale::Base, 1i8),
        TileType::TurnClockwise => plain_effect(DragScale::Base, -1i8),
        TileType::Goal => TileEffect {
            reflect: false,
            drag: DragScale::SlowedDown,
            turn: 0,
            attract: true,
            launch: None,
        },
        TileType::SpeedUp(d) => if near_centre {
            TileEffect {
                reflect: false,
                drag: DragScale::Free,
                turn: 0,
                attract: false,
                launch: Some(d),
            }
        } else {
            TileEffect {
                reflect: false,
                drag: DragScale::Free,
                turn: 0,
                attract: true,
                launch: None,
            }
        },
    }
}

/// The effect a tile of kind `kind` has on a stone this tick.
pub fn tile_effect(kind: TileType, near_centre: bool) -> (r: TileEffect)
    ensures
        r == effect_of(kind, near_centre),
{
    match kind {
        TileType::Wall => TileEffect {
            reflect: true,
            drag: DragScale::Free,
            turn: 0,
            attract: false,
            launch: None,
        },
        TileType::MaintainSpeed => TileEffect {
            reflect: false,
            drag: DragScale::Base,
            turn: 0,
            attract: false,
            launch: None,
        },
        TileType::SlowDown => TileEffect {
            reflect: false,
            drag: DragScale::SlowedDown,
            turn: 0,
            attract: false,
            launch: None,
        },
        TileType::TurnCounterclockwise => TileEffect {
            reflect: false,
            drag: DragScale::Base,
            turn: 1,
            attract: false,
            launch: None,
        },
        TileType::TurnClockwise => TileEffect {
            reflect: false,
            drag: DragScale::Base,
            turn: -1,
            attract: false,
            launch: None,
        },
        TileType::Goal => TileEffect {
            reflect: false,
            drag: DragScale::SlowedDown,
            turn: 0,
            attract: true,
            launch: None,
        },
        TileType::SpeedUp(d) => {
            if near_centre {
                TileEffect {
                    reflect: false,
                    drag: DragScale::Free,
                    turn: 0,
                    attract: false,
                    launch: Some(d),
                }
            } else {
                TileEffect {
                    reflect: false,
                    drag: DragScale::Free,
                    turn: 0,
                    attract: true,
                    launch: None,
                }
            }
        },
    }
}

/// Whether a broom can sweep a tile of this kind (goals and walls are fixed).
pub open spec fn sweepable(kind: TileType) -> bool {
    kind != TileType::Goal && kind != TileType::Wall
}

/// Whether a broom can sweep a tile of this kind.
pub fn is_sweepable(kind: TileType) -> (r: bool)
    ensures
        r == sweepable(kind),
{
    match kind {
        TileType::Goal | TileType::Wall => false,
        _ => true,
    }
}

/// Outward edge normal, in whole degrees counter-clockwise from +x, of the
/// hexagon edge facing the 60-degree sector `sector`; sectors past the last
/// one (angle rounding at a full turn) count as the last.
pub open spec fn edge_normal_degrees(sector: int) -> int {
    if sector >= 5 {
        330
    } else {
        30 + 60 * sector
    }
}

/// Normal of the hexagon edge nearest a stone whose angle around the tile
/// centre falls in the 60-degree sector `sector`, counted from +x.
pub fn wall_normal_degrees(sector: usize) -> (r: i32)
    ensures
        r == edge_normal_degrees(sector as int),
{
    if sector >= 5 {
        330
    } else {
        30 + 60 * (sector as i32)
    }
}

/// Label of the broom that sweeps tiles into `kind`.
pub open spec fn broom_name(kind: TileType) -> &'static str {
    match kind {
        TileType::MaintainSpeed => "Straight",
        TileType::TurnCounterclockwise => "Counterclockwise",
        TileType::TurnClockwise => "Clockwise",
        TileType::SlowDown => "SlowDown",
        TileType::Goal => "Goal",
        TileType::Wall => "Wall",
        TileType::SpeedUp(_) => "SpeedUp",
    }
}

/// Label of the broom that sweeps tiles into `kind`.
pub fn broom_label(kind: TileType) -> (r: &'static str)
    ensures
        r@ == broom_name(kind)@,
{
    match kind {
        TileType::MaintainSpeed => "Straight",
        TileType::TurnCounterclockwise => "Counterclockwise",
        TileType::TurnClockwise => "Clockwise",
        TileType::SlowDown => "SlowDown",
        TileType::Goal => "Goal",
        TileType::Wall => "Wall",
        TileType::SpeedUp(_) => "SpeedUp",
    }
}

} // verus!
