use vstd::prelude::*;

verus! {

/// One of the six directions a stone can face on a flat-top hex grid,
/// listed in clockwise order starting from straight up.
#[derive(Clone, Copy, Debug, PartialEq, Eq, Structural)]
pub enum Facing {
    Up,
    UpRight,
    DownRight,
    Down,
    DownLeft,
    UpLeft,
}

/// Position of a facing in clockwise order, starting from `Up`.
pub open spec fn facing_index(f: Facing) -> int {
    match f {
        Facing::Up => 0,
        Facing::UpRight => 1,
        Facing::DownRight => 2,
        Facing::Down => 3,
        Facing::DownLeft => 4,
        Facing::UpLeft => 5,
    }
}

/// The facing at a clockwise position; positions wrap modulo six.
pub open spec fn facing_at(i: int) -> Facing {
    let k = i % 6;
    if k == 0 {
        Facing::Up
    } else if k == 1 {
        Facing::UpRight
    } else if k == 2 {
        Facing::DownRight
    } else if k == 3 {
        Facing::Down
    } else if k == 4 {
        Facing::DownLeft
    } else {
        Facing::UpLeft
    }
}

/// Heading of a facing in whole degrees, counter-clockwise from the +x axis.
pub open spec fn angle_degrees(f: Facing) -> int {
    match f {
        Facing::Up => 90,
        Facing::UpRight => 30,
        Facing::DownRight => -30,
        Facing::Down => -90,
        Facing::DownLeft => -120,
        Facing::UpLeft => 120,
    }
}

/// Step `(dq, dr)` to the neighbouring cell in direction `f`, for odd-q
/// offset coordinates; raised (odd) columns use a different table.
pub open spec fn offset_of(f: Facing, in_odd_column: bool) -> (int, int) {
    if in_odd_column {
        match f {
            Facing::Up => (0, -1),
            Facing::Down => (0, 1),
            Facing::UpRight => (1, -1),
            Facing::DownRight => (1, 0),
            Facing::DownLeft => (-1, 0),
            Facing::UpLeft => (-1, -1),
        }
    } else {
        match f {
            Facing::Up => (0, -1),
            Facing::Down => (0, 1),
            Facing::UpRight => (1, 0),
            Facing::DownRight => (1, 1),
            Facing::DownLeft => (-1, 1),
            Facing::UpLeft => (-1, 0),
        }
    }
}

impl Facing {
    /// All six facings, in clockwise order starting from `Up`.
    pub fn iterator() -> (r: Vec<Facing>)
        ensures
            r@.len() == 6,
            forall|i: int| 0 <= i < 6 ==> #[trigger] r@[i] == facing_at(i),
    {
        vec![
            Facing::Up,
            Facing::UpRight,
            Facing::DownRight,
            Facing::Down,
            Facing::DownLeft,
            Facing::UpLeft,
        ]
    }

    /// Heading in whole degrees; the renderer converts it to radians.
    pub fn to_angle_degrees(&self) -> (r: i32)
        ensures
            r == angle_degrees(*self),
    {
        match self {
            Facing::Up => 90,
            Facing::UpRight => 30,
            Facing::DownRight => -30,
            Facing::Down => -90,
            Facing::DownLeft => -120,
            Facing::UpLeft => 120,
        }
    }

    /// The next facing clockwise.
    pub fn rotate_clockwise(self) -> (r: Facing)
        ensures
            r == facing_at(facing_index(self) + 1),
    {
        match self {
            Facing::Up => Facing::UpRight,
            Facing::UpRight => Facing::DownRight,
            Facing::DownRight => Facing::Down,
            Facing::Down => Facing::DownLeft,
            Facing::DownLeft => Facing::UpLeft,
            Facing::UpLeft => Facing::Up,
        }
    }

    /// The next facing counter-clockwise.
    pub fn rotate_counterclockwise(self) -> (r: Facing)
        ensures
            r == facing_at(facing_index(self) + 5),
    {
        match self {
            Facing::Up => Facing::UpLeft,
            Facing::UpLeft => Facing::DownLeft,
            Facing::DownLeft => Facing::Down,
            Facing::Down => Facing::DownRight,
            Facing::DownRight => Facing::UpRight,
            Facing::UpRight => Facing::Up,
        }
    }

    /// Step to the neighbouring cell in this direction (odd-q offset layout).
    pub fn to_offset(self, in_odd_column: bool) -> (r: (i32, i32))
        ensures
            (r.0 as int, r.1 as int) == offset_of(self, in_odd_column),
    {
        if in_odd_column {
            match self {
                Facing::Up => (0, -1),
                Facing::Down => (0, 1),
                Facing::UpRight => (1, -1),
                Facing::DownRight => (1, 0),
                Facing::DownLeft => (-1, 0),
                Facing::UpLeft => (-1, -1),
            }
        } else {
            match self {
                Facing::Up => (0, -1),
                Facing::Down => (0, 1),
                Facing::UpRight => (1, 0),
                Facing::DownRight => (1, 1),
                Facing::DownLeft => (-1, 1),
                Facing::UpLeft => (-1, 0),
            }
        }
    }

    /// Name of the facing, as shown in the interface.
    pub fn name(&self) -> (r: &'static str)
        ensures
            r@ == facing_name(*self)@,
    {
        match self {
            Facing::Up => "Up",
            Facing::UpRight => "UpRight",
            Facing::DownRight => "DownRight",
            Facing::Down => "Down",
            Facing::DownLeft => "DownLeft",
            Facing::UpLeft => "UpLeft",
        }
    }
}

/// Name of a facing.
pub open spec fn facing_name(f: Facing) -> &'static str {
    match f {
        Facing::Up => "Up",
        Facing::UpRight => "UpRight",
        Facing::DownRight => "DownRight",
        Facing::Down => "Down",
        Facing::DownLeft => "DownLeft",
        Facing::UpLeft => "UpLeft",
    }
}

} // verus!
