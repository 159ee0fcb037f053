use vstd::prelude::*;

use crate::facing::Facing;
use crate::tile::TileType;

verus! {

/// Address of a cell in odd-q offset coordinates: column `q`, row `r`
/// (row 0 at the top).
#[derive(Clone, Copy, Debug, PartialEq, Eq, Hash, Structural)]
pub struct HexCoordinate {
    pub q: i32,
    pub r: i32,
}

/// The cell at column `q`, row `r`.
pub fn hex(q: i32, r: i32) -> (c: HexCoordinate)
    ensures
        c == (HexCoordinate { q, r }),
{
    HexCoordinate { q, r }
}

/// Kind of the cell `c` in a list of placements: the last placement at `c`
/// counts, as when the placements are inserted into a map in order.
pub open spec fn kind_at(s: Seq<(HexCoordinate, TileType)>, c: HexCoordinate) -> Option<TileType>
    decreases s.len(),
{
    if s.len() == 0 {
        None
    } else if s.last().0 == c {
        Some(s.last().1)
    } else {
        kind_at(s.drop_last(), c)
    }
}

/// No cell is listed twice.
pub open spec fn cells_unique(s: Seq<(HexCoordinate, TileType)>) -> bool {
    forall|i: int, j: int| 0 <= i < j < s.len() ==> s[i].0 != s[j].0
}

proof fn lemma_kind_at_entry(s: Seq<(HexCoordinate, TileType)>, c: HexCoordinate)
    requires
        cells_unique(s),
    ensures
        forall|i: int| 0 <= i < s.len() && s[i].0 == c ==> kind_at(s, c) == Some(s[i].1),
        (forall|i: int| 0 <= i < s.len() ==> s[i].0 != c) ==> kind_at(s, c) is None,
    decreases s.len(),
{
    if s.len() > 0 {
        let p = s.drop_last();
        assert(cells_unique(p)) by {
            assert forall|i: int, j: int| 0 <= i < j < p.len() implies p[i].0 != p[j].0 by {
                assert(p[i] == s[i] && p[j] == s[j]);
            }
        }
        lemma_kind_at_entry(p, c);
        assert forall|i: int| 0 <= i < s.len() && s[i].0 == c implies kind_at(s, c) == Some(
            s[i].1,
        ) by {
            if i < s.len() - 1 {
                assert(p[i] == s[i]);
            }
        }
        if forall|i: int| 0 <= i < s.len() ==> s[i].0 != c {
            assert forall|i: int| 0 <= i < p.len() implies p[i].0 != c by {
                assert(p[i] == s[i]);
            }
            assert(s[s.len() - 1].0 != c);
        }
    }
}

/// Kind of cell `c` in `grid`, or `None` when it has no tile.
pub fn lookup(grid: &Vec<(HexCoordinate, TileType)>, c: HexCoordinate) -> (r: Option<TileType>)
    ensures
        r == kind_at(grid@, c),
{
    let mut i = grid.len();
    proof {
        assert(grid@.take(i as int) =~= grid@);
    }
    while i > 0
        invariant
            i <= grid@.len(),
            kind_at(grid@, c) == kind_at(grid@.take(i as int), c),
        decreases i,
    {
        let e = grid[i - 1];
        proof {
            assert(grid@.take(i as int).drop_last() =~= grid@.take(i - 1));
        }
        if e.0 == c {
            return Some(e.1);
        }
        i = i - 1;
    }
    proof {
        assert(grid@.take(0) =~= Seq::<(HexCoordinate, TileType)>::empty());
    }
    None
}

/// Puts a tile of kind `kind` at `c`, replacing the tile already there.
pub fn place(grid: &mut Vec<(HexCoordinate, TileType)>, c: HexCoordinate, kind: TileType)
    requires
        cells_unique(old(grid)@),
    ensures
        cells_unique(final(grid)@),
        forall|d: HexCoordinate|
            #[trigger] kind_at(final(grid)@, d) == if d == c {
                Some(kind)
            } else {
                kind_at(old(grid)@, d)
            },
{
    let ghost s = grid@;
    let n = grid.len();
    let mut i: usize = 0;
    while i < n
        invariant
            grid@ == s,
            s == old(grid)@,
            n == s.len(),
            i <= n,
            cells_unique(s),
            forall|j: int| 0 <= j < i ==> s[j].0 != c,
        decreases n - i,
    {
        if grid[i].0 == c {
            grid.set(i, (c, kind));
            proof {
                let t = grid@;
                assert(cells_unique(t)) by {
                    assert forall|a: int, b: int| 0 <= a < b < t.len() implies t[a].0 != t[b].0 by {
                        assert(t[a].0 == s[a].0 && t[b].0 == s[b].0);
                    }
                }
                assert forall|d: HexCoordinate| #[trigger]
                    kind_at(t, d) == if d == c {
                        Some(kind)
                    } else {
                        kind_at(s, d)
                    } by {
                    lemma_kind_at_entry(t, d);
                    lemma_kind_at_entry(s, d);
                    assert(t[i as int] == (c, kind));
                    if d != c {
                        if exists|j: int| 0 <= j < s.len() && s[j].0 == d {
                            let j = choose|j: int| 0 <= j < s.len() && s[j].0 == d;
                            assert(t[j] == s[j]);
                        } else {
                            assert forall|j: int| 0 <= j < t.len() implies t[j].0 != d by {
                                assert(t[j].0 == s[j].0);
                            }
                        }
                    }
                }
            }
            return;
        }
        i = i + 1;
    }
    grid.push((c, kind));
    proof {
        let t = grid@;
        assert(t.drop_last() =~= s);
        assert(cells_unique(t)) by {
            assert forall|a: int, b: int| 0 <= a < b < t.len() implies t[a].0 != t[b].0 by {
                assert(t[a] == s[a]);
                if b < n {
                    assert(t[b] == s[b]);
                }
            }
        }
    }
}

/// The grid that inserting `placements` in order produces: each cell once,
/// holding the last kind placed at it.
pub fn grid_from_placements(placements: &Vec<(HexCoordinate, TileType)>) -> (r: Vec<
    (HexCoordinate, TileType),
>)
    ensures
        cells_unique(r@),
        forall|c: HexCoordinate| #[trigger] kind_at(r@, c) == kind_at(placements@, c),
{
    let mut grid: Vec<(HexCoordinate, TileType)> = Vec::new();
    let n = placements.len();
    let mut i: usize = 0;
    while i < n
        invariant
            n == placements@.len(),
            i <= n,
            cells_unique(grid@),
            forall|c: HexCoordinate| #[trigger]
                kind_at(grid@, c) == kind_at(placements@.take(i as int), c),
        decreases n - i,
    {
        let e = placements[i];
        place(&mut grid, e.0, e.1);
        proof {
            let t = placements@.take(i as int + 1);
            assert(t.drop_last() =~= placements@.take(i as int));
            assert forall|c: HexCoordinate| #[trigger]
                kind_at(grid@, c) == kind_at(t, c) by {}
        }
        i = i + 1;
    }
    proof {
        assert(placements@.take(n as int) =~= placements@);
    }
    grid
}

/// A placement of a tile of kind `kind` at column `q`, row `r`.
fn cell(q: i32, r: i32, kind: TileType) -> (e: (HexCoordinate, TileType))
    ensures
        e == (HexCoordinate { q, r }, kind),
{
    (HexCoordinate { q, r }, kind)
}

/// The levels, in the order they are played.
#[derive(Clone, Copy, Debug, PartialEq, Eq, Structural)]
pub enum CurrentLevel {
    Level0,
    Level1,
    Level2,
    Level3,
    Level4,
    Level5,
    Level6,
}

/// Position of a level in play order.
pub open spec fn level_index(l: CurrentLevel) -> int {
    match l {
        CurrentLevel::Level0 => 0,
        CurrentLevel::Level1 => 1,
        CurrentLevel::Level2 => 2,
        CurrentLevel::Level3 => 3,
        CurrentLevel::Level4 => 4,
        CurrentLevel::Level5 => 5,
        CurrentLevel::Level6 => 6,
    }
}

/// The level at a position in play order (positions past the end give the
/// last level).
pub open spec fn level_at(i: int) -> CurrentLevel {
    if i <= 0 {
        CurrentLevel::Level0
    } else if i == 1 {
        CurrentLevel::Level1
    } else if i == 2 {
        CurrentLevel::Level2
    } else if i == 3 {
        CurrentLevel::Level3
    } else if i == 4 {
        CurrentLevel::Level4
    } else if i == 5 {
        CurrentLevel::Level5
    } else {
        CurrentLevel::Level6
    }
}

/// Title of a level.
pub open spec fn level_title(l: CurrentLevel) -> &'static str {
    match l {
        CurrentLevel::Level0 => "Level 0",
        CurrentLevel::Level1 => "Level 1",
        CurrentLevel::Level2 => "Level 2",
        CurrentLevel::Level3 => "Level 3",
        CurrentLevel::Level4 => "Level 4",
        CurrentLevel::Level5 => "Level 5",
        CurrentLevel::Level6 => "Level 6",
    }
}

impl CurrentLevel {
    /// All levels, in play order.
    pub fn iterator() -> (r: Vec<CurrentLevel>)
        ensures
            r@.len() == 7,
            forall|i: int| 0 <= i < 7 ==> #[trigger] r@[i] == level_at(i),
    {
        vec![
            CurrentLevel::Level0,
            CurrentLevel::Level1,
            CurrentLevel::Level2,
            CurrentLevel::Level3,
            CurrentLevel::Level4,
            CurrentLevel::Level5,
            CurrentLevel::Level6,
        ]
    }

    /// The level played after this one, or `None` after the last.
    pub fn next(&self) -> (r: Option<CurrentLevel>)
        ensures
            r == if level_index(*self) < 6 {
                Some(level_at(level_index(*self) + 1))
            } else {
                None::<CurrentLevel>
            },
    {
        match self {
            CurrentLevel::Level0 => Some(CurrentLevel::Level1),
            CurrentLevel::Level1 => Some(CurrentLevel::Level2),
            CurrentLevel::Level2 => Some(CurrentLevel::Level3),
            CurrentLevel::Level3 => Some(CurrentLevel::Level4),
            CurrentLevel::Level4 => Some(CurrentLevel::Level5),
            CurrentLevel::Level5 => Some(CurrentLevel::Level6),
            CurrentLevel::Level6 => None,
        }
    }

    /// Title shown for the level.
    pub fn title(&self) -> (r: &'static str)
        ensures
            r@ == level_title(*self)@,
    {
        match self {
            CurrentLevel::Level0 => "Level 0",
            CurrentLevel::Level1 => "Level 1",
            CurrentLevel::Level2 => "Level 2",
            CurrentLevel::Level3 => "Level 3",
            CurrentLevel::Level4 => "Level 4",
            CurrentLevel::Level5 => "Level 5",
            CurrentLevel::Level6 => "Level 6",
        }
    }
}

impl Default for CurrentLevel {
    /// The first level.
    fn default() -> (r: CurrentLevel)
        ensures
            r == CurrentLevel::Level0,
    {
        CurrentLevel::Level0
    }
}

/// Where a stone starts and how it is launched. The speed is in world units
/// per second.
#[derive(Clone, Copy, Debug, PartialEq, Eq, Structural)]
pub struct StoneConfig {
    pub velocity_magnitude: u32,
    pub start_coordinate: HexCoordinate,
    pub facing: Facing,
}

/// A level's layout: the tiles, the goal, the stones and the hex radius in
/// world units.
#[derive(Clone, Debug)]
pub struct Level {
    pub current_level: CurrentLevel,
    pub grid: Vec<(HexCoordinate, TileType)>,
    pub goal_coordinate: HexCoordinate,
    pub stone_configs: Vec<StoneConfig>,
    /// Seconds counted down before the stones are released.
    pub countdown: Option<u32>,
    pub hex_radius: u32,
}

/// A single stone launched down and to the right.
pub open spec fn one_stone(q: i32, r: i32, v: u32) -> Seq<StoneConfig> {
    seq![
        StoneConfig {
            velocity_magnitude: v,
            start_coordinate: HexCoordinate { q, r },
            facing: Facing::DownRight,
        },
    ]
}

/// The stones a level starts with.
pub open spec fn level_stones(l: CurrentLevel) -> Seq<StoneConfig> {
    match l {
        CurrentLevel::Level0 => Seq::empty(),
        CurrentLevel::Level1 => one_stone(1, 1, 200),
        CurrentLevel::Level2 => one_stone(1, 1, 190),
        CurrentLevel::Level3 => one_stone(1, 1, 200),
        CurrentLevel::Level4 => one_stone(1, 1, 100),
        CurrentLevel::Level5 => one_stone(1, 1, 200),
        CurrentLevel::Level6 => one_stone(1, 2, 250),
    }
}

/// The goal cell of a level.
pub open spec fn level_goal(l: CurrentLevel) -> HexCoordinate {
    match l {
        CurrentLevel::Level0 => HexCoordinate { q: 0, r: 0 },
        CurrentLevel::Level1 => HexCoordinate { q: 7, r: 4 },
        CurrentLevel::Level2 => HexCoordinate { q: 7, r: 0 },
        CurrentLevel::Level3 => HexCoordinate { q: 6, r: 1 },
        CurrentLevel::Level4 => HexCoordinate { q: 7, r: 0 },
        CurrentLevel::Level5 => HexCoordinate { q: 6, r: 4 },
        CurrentLevel::Level6 => HexCoordinate { q: 3, r: 1 },
    }
}

/// What holds of every level's layout: each cell listed once, the goal cell
/// holds the goal tile (the introductory level has a plain tile there and no
/// stones), and the fixed numbers of the level.
pub open spec fn level_ok(r: Level, l: CurrentLevel) -> bool {
    &&& r.current_level == l
    &&& cells_unique(r.grid@)
    &&& r.goal_coordinate == level_goal(l)
    &&& kind_at(r.grid@, r.goal_coordinate) == if l == CurrentLevel::Level0 {
        Some(TileType::SlowDown)
    } else {
        Some(TileType::Goal)
    }
    &&& r.stone_configs@ == level_stones(l)
    &&& r.countdown == if l == CurrentLevel::Level0 {
        None::<u32>
    } else {
        Some(3u32)
    }
    &&& r.hex_radius == if l == CurrentLevel::Level0 {
        100u32
    } else {
        60u32
    }
}

/// The layout of level `level`.
pub fn get_level(level: CurrentLevel) -> (r: Level)
    ensures
        level_ok(r, level),
{
    match level {
        CurrentLevel::Level0 => get_level0(),
        CurrentLevel::Level1 => get_level1(),
        CurrentLevel::Level2 => get_level2(),
        CurrentLevel::Level3 => get_level3(),
        CurrentLevel::Level4 => get_level4(),
        CurrentLevel::Level5 => get_level5(),
        CurrentLevel::Level6 => get_level6(),
    }
}

fn get_level0() -> (r: Level)
    ensures
        level_ok(r, CurrentLevel::Level0),
{
    let placements = vec![
        cell(0, 0, TileType::SlowDown),
    ];
    let grid = grid_from_placements(&placements);
    let stone_configs = Vec::new();
    proof {
        assert(stone_configs@ =~= level_stones(CurrentLevel::Level0));
    }
    Level {
        current_level: CurrentLevel::Level0,
        grid,
        goal_coordinate: hex(0, 0),
        stone_configs,
        countdown: None,
        hex_radius: 100,
    }
}

fn get_level1() -> (r: Level)
    ensures
        level_ok(r, CurrentLevel::Level1),
{
    let placements = vec![
        cell(0, 0, TileType::Wall),
        cell(0, 1, TileType::Wall),
        cell(1, 2, TileType::Wall),
        cell(2, 2, TileType::Wall),
        cell(3, 3, TileType::Wall),
        cell(4, 3, TileType::Wall),
        cell(5, 3, TileType::Wall),
        cell(5, 2, TileType::Wall),
        cell(4, 1, TileType::Wall),
        cell(3, 1, TileType::Wall),
        cell(2, 0, TileType::Wall),
        cell(1, 0, TileType::Wall),
        cell(5, 2, TileType::Wall),
        cell(6, 2, TileType::Wall),
        cell(7, 3, TileType::Wall),
        cell(5, 4, TileType::Wall),
        cell(6, 4, TileType::Wall),
        cell(7, 5, TileType::Wall),
        cell(8, 3, TileType::Wall),
        cell(8, 4, TileType::Wall),
        cell(1, 1, TileType::MaintainSpeed),
        cell(2, 1, TileType::SlowDown),
        cell(3, 2, TileType::SlowDown),
        cell(4, 2, TileType::SlowDown),
        cell(5, 3, TileType::SlowDown),
        cell(6, 3, TileType::SlowDown),
        cell(7, 4, TileType::Goal),
    ];
    let grid = grid_from_placements(&placements);
    let stone_configs = vec![
        StoneConfig {
            velocity_magnitude: 200,
            start_coordinate: hex(1, 1),
            facing: Facing::DownRight,
        },
    ];
    proof {
        assert(stone_configs@ =~= level_stones(CurrentLevel::Level1));
    }
    Level {
        current_level: CurrentLevel::Level1,
        grid,
        goal_coordinate: hex(7, 4),
        stone_configs,
        countdown: Some(3),
        hex_radius: 60,
    }
}

fn get_level2() -> (r: Level)
    ensures
        level_ok(r, CurrentLevel::Level2),
{
    let placements = vec![
        cell(0, 0, TileType::Wall),
        cell(0, 1, TileType::Wall),
        cell(1, 2, TileType::Wall),
        cell(2, 2, TileType::Wall),
        cell(3, 3, TileType::Wall),
        cell(4, 2, TileType::Wall),
        cell(5, 2, TileType::Wall),
        cell(5, 2, TileType::Wall),
        cell(6, 1, TileType::Wall),
        cell(7, 1, TileType::Wall),
        cell(8, 0, TileType::Wall),
        cell(8, -1, TileType::Wall),
        cell(7, -1, TileType::Wall),
        cell(6, -1, TileType::Wall),
        cell(5, 0, TileType::Wall),
        cell(4, 0, TileType::Wall),
        cell(3, 1, TileType::Wall),
        cell(2, 0, TileType::Wall),
        cell(1, 0, TileType::Wall),
        cell(8, 0, TileType::Wall),
        cell(1, 1, TileType::MaintainSpeed),
        cell(2, 1, TileType::SlowDown),
        cell(3, 2, TileType::SlowDown),
        cell(4, 1, TileType::SlowDown),
        cell(5, 1, TileType::SlowDown),
        cell(6, 0, TileType::SlowDown),
        cell(7, 0, TileType::Goal),
    ];
    let grid = grid_from_placements(&placements);
    let stone_configs = vec![
        StoneConfig {
            velocity_magnitude: 190,
            start_coordinate: hex(1, 1),
            facing: Facing::DownRight,
        },
    ];
    proof {
        assert(stone_configs@ =~= level_stones(CurrentLevel::Level2));
    }
    Level {
        current_level: CurrentLevel::Level2,
        grid,
        goal_coordinate: hex(7, 0),
        stone_configs,
        countdown: Some(3),
        hex_radius: 60,
    }
}

fn get_level3() -> (r: Level)
    ensures
        level_ok(r, CurrentLevel::Level3),
{
    let placements = vec![
        cell(0, 0, TileType::Wall),
        cell(0, 1, TileType::Wall),
        cell(1, 2, TileType::Wall),
        cell(2, 2, TileType::Wall),
        cell(3, 3, TileType::Wall),
        cell(4, 2, TileType::Wall),
        cell(5, 2, TileType::Wall),
        cell(6, 2, TileType::Wall),
        cell(7, 2, TileType::Wall),
        cell(7, 1, TileType::Wall),
        cell(6, 0, TileType::Wall),
        cell(5, 0, TileType::Wall),
        cell(4, 0, TileType::Wall),
        cell(3, 1, TileType::Wall),
        cell(2, 0, TileType::Wall),
        cell(1, 0, TileType::Wall),
        cell(1, 1, TileType::MaintainSpeed),
        cell(2, 1, TileType::SlowDown),
        cell(3, 2, TileType::SlowDown),
        cell(4, 1, TileType::SlowDown),
        cell(5, 1, TileType::SlowDown),
        cell(6, 1, TileType::Goal),
    ];
    let grid = grid_from_placements(&placements);
    let stone_configs = vec![
        StoneConfig {
            velocity_magnitude: 200,
            start_coordinate: hex(1, 1),
            facing: Facing::DownRight,
        },
    ];
    proof {
        assert(stone_configs@ =~= level_stones(CurrentLevel::Level3));
    }
    Level {
        current_level: CurrentLevel::Level3,
        grid,
        goal_coordinate: hex(6, 1),
        stone_configs,
        countdown: Some(3),
        hex_radius: 60,
    }
}

fn get_level4() -> (r: Level)
    ensures
        level_ok(r, CurrentLevel::Level4),
{
    let placements = vec![
        cell(0, 0, TileType::Wall),
        cell(0, 1, TileType::Wall),
        cell(1, 2, TileType::Wall),
        cell(2, 2, TileType::Wall),
        cell(3, 3, TileType::Wall),
        cell(4, 2, TileType::Wall),
        cell(5, 2, TileType::Wall),
        cell(5, 2, TileType::Wall),
        cell(6, 1, TileType::Wall),
        cell(7, 1, TileType::Wall),
        cell(8, 0, TileType::Wall),
        cell(8, -1, TileType::Wall),
        cell(7, -1, TileType::Wall),
        cell(6, -1, TileType::Wall),
        cell(5, 0, TileType::Wall),
        cell(4, 0, TileType::Wall),
        cell(3, 1, TileType::Wall),
        cell(2, 0, TileType::Wall),
        cell(1, 0, TileType::Wall),
        cell(8, 0, TileType::Wall),
        cell(1, 1, TileType::MaintainSpeed),
        cell(2, 1, TileType::SlowDown),
        cell(3, 2, TileType::SpeedUp(Facing::UpRight)),
        cell(4, 1, TileType::MaintainSpeed),
        cell(5, 1, TileType::MaintainSpeed),
        cell(6, 0, TileType::MaintainSpeed),
        cell(7, 0, TileType::Goal),
    ];
    let grid = grid_from_placements(&placements);
    let stone_configs = vec![
        StoneConfig {
            velocity_magnitude: 100,
            start_coordinate: hex(1, 1),
            facing: Facing::DownRight,
        },
    ];
    proof {
        assert(stone_configs@ =~= level_stones(CurrentLevel::Level4));
    }
    Level {
        current_level: CurrentLevel::Level4,
        grid,
        goal_coordinate: hex(7, 0),
        stone_configs,
        countdown: Some(3),
        hex_radius: 60,
    }
}

fn get_level5() -> (r: Level)
    ensures
        level_ok(r, CurrentLevel::Level5),
{
    let placements = vec![
        cell(0, 0, TileType::Wall),
        cell(0, 1, TileType::Wall),
        cell(0, 2, TileType::Wall),
        cell(0, 3, TileType::Wall),
        cell(0, 4, TileType::Wall),
        cell(0, 5, TileType::Wall),
        cell(1, 5, TileType::Wall),
        cell(2, 5, TileType::Wall),
        cell(3, 5, TileType::Wall),
        cell(4, 5, TileType::Wall),
        cell(5, 5, TileType::Wall),
        cell(6, 5, TileType::Wall),
        cell(7, 5, TileType::Wall),
        cell(7, 4, TileType::Wall),
        cell(7, 3, TileType::Wall),
        cell(7, 2, TileType::Wall),
        cell(7, 1, TileType::Wall),
        cell(7, 0, TileType::Wall),
        cell(6, 0, TileType::Wall),
        cell(5, 0, TileType::Wall),
        cell(4, 0, TileType::Wall),
        cell(3, 0, TileType::Wall),
        cell(2, 0, TileType::Wall),
        cell(1, 0, TileType::Wall),
        cell(1, 1, TileType::MaintainSpeed),
        cell(1, 2, TileType::SlowDown),
        cell(1, 3, TileType::SlowDown),
        cell(1, 4, TileType::SlowDown),
        cell(2, 1, TileType::SlowDown),
        cell(2, 2, TileType::SlowDown),
        cell(2, 3, TileType::SlowDown),
        cell(2, 4, TileType::SlowDown),
        cell(3, 1, TileType::Wall),
        cell(3, 2, TileType::SlowDown),
        cell(3, 3, TileType::SlowDown),
        cell(3, 4, TileType::SpeedUp(Facing::UpRight)),
        cell(4, 1, TileType::Wall),
        cell(4, 2, TileType::Wall),
        cell(4, 3, TileType::SlowDown),
        cell(4, 4, TileType::SlowDown),
        cell(5, 1, TileType::SlowDown),
        cell(5, 2, TileType::SlowDown),
        cell(5, 3, TileType::SlowDown),
        cell(5, 4, TileType::Wall),
        cell(6, 1, TileType::SpeedUp(Facing::Down)),
        cell(6, 2, TileType::SlowDown),
        cell(6, 3, TileType::SlowDown),
        cell(6, 4, TileType::Goal),
    ];
    let grid = grid_from_placements(&placements);
    let stone_configs = vec![
        StoneConfig {
            velocity_magnitude: 200,
            start_coordinate: hex(1, 1),
            facing: Facing::DownRight,
        },
    ];
    proof {
        assert(stone_configs@ =~= level_stones(CurrentLevel::Level5));
    }
    Level {
        current_level: CurrentLevel::Level5,
        grid,
        goal_coordinate: hex(6, 4),
        stone_configs,
        countdown: Some(3),
        hex_radius: 60,
    }
}

fn get_level6() -> (r: Level)
    ensures
        level_ok(r, CurrentLevel::Level6),
{
    let placements = vec![
        cell(0, 1, TileType::Wall),
        cell(0, 2, TileType::Wall),
        cell(0, 3, TileType::Wall),
        cell(7, 4, TileType::Wall),
        cell(7, 3, TileType::Wall),
        cell(7, 2, TileType::Wall),
        cell(7, 1, TileType::Wall),
        cell(7, 0, TileType::Wall),
        cell(6, 0, TileType::Wall),
        cell(5, 0, TileType::Wall),
        cell(4, 0, TileType::Wall),
        cell(3, 0, TileType::Wall),
        cell(2, 0, TileType::Wall),
        cell(1, 1, TileType::Wall),
        cell(1, 2, TileType::SlowDown),
        cell(1, 3, TileType::SlowDown),
        cell(1, 4, TileType::Wall),
        cell(2, 1, TileType::SlowDown),
        cell(2, 2, TileType::SlowDown),
        cell(2, 3, TileType::SlowDown),
        cell(2, 4, TileType::Wall),
        cell(3, 2, TileType::SpeedUp(Facing::DownRight)),
        cell(3, 3, TileType::Wall),
        cell(3, 4, TileType::Wall),
        cell(4, 1, TileType::SlowDown),
        cell(4, 2, TileType::SlowDown),
        cell(4, 3, TileType::SlowDown),
        cell(4, 4, TileType::Wall),
        cell(5, 1, TileType::SlowDown),
        cell(5, 2, TileType::SlowDown),
        cell(5, 3, TileType::SlowDown),
        cell(5, 4, TileType::Wall),
        cell(6, 1, TileType::SlowDown),
        cell(6, 2, TileType::SlowDown),
        cell(6, 3, TileType::SpeedUp(Facing::UpLeft)),
        cell(6, 4, TileType::Wall),
        cell(3, 1, TileType::Goal),
    ];
    let grid = grid_from_placements(&placements);
    let stone_configs = vec![
        StoneConfig {
            velocity_magnitude: 250,
            start_coordinate: hex(1, 2),
            facing: Facing::DownRight,
        },
    ];
    proof {
        assert(stone_configs@ =~= level_stones(CurrentLevel::Level6));
    }
    Level {
        current_level: CurrentLevel::Level6,
        grid,
        goal_coordinate: hex(3, 1),
        stone_configs,
        countdown: Some(3),
        hex_radius: 60,
    }
}

} // verus!
