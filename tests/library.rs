use hex_curling::effects::{plan_tile_effects, EffectStep, TileContact};
use hex_curling::drag::{all_swept_to, TileDragState};
use hex_curling::facing::Facing;
use hex_curling::grid::{column_is_raised, CellPlacement, HexGrid};
use hex_curling::level::{get_level, grid_from_placements, hex, lookup, place, CurrentLevel};
use hex_curling::stepping::{
    collision_pairs, preview_action, PreviewAction, PREVIEW_SAMPLE_EVERY, PREVIEW_STEP_CAP,
};
use hex_curling::tile::{
    broom_label, is_sweepable, tile_effect, wall_normal_degrees, DragScale, TileEffect, TileType,
};

fn total(s: &TileDragState) -> u64 {
    s.entries().iter().map(|e| e.1).sum()
}

#[test]
fn facing_rotations_cycle() {
    let all = Facing::iterator();
    assert_eq!(all.len(), 6);
    for (i, f) in all.iter().enumerate() {
        assert_eq!(f.rotate_clockwise(), all[(i + 1) % 6]);
        assert_eq!(f.rotate_counterclockwise(), all[(i + 5) % 6]);
        assert_eq!(f.rotate_clockwise().rotate_counterclockwise(), *f);
    }
    assert_eq!(Facing::Up.rotate_clockwise(), Facing::UpRight);
    assert_eq!(Facing::Up.rotate_counterclockwise(), Facing::UpLeft);
}

#[test]
fn facing_angles_and_names() {
    assert_eq!(Facing::Up.to_angle_degrees(), 90);
    assert_eq!(Facing::UpRight.to_angle_degrees(), 30);
    assert_eq!(Facing::DownRight.to_angle_degrees(), -30);
    assert_eq!(Facing::Down.to_angle_degrees(), -90);
    assert_eq!(Facing::DownLeft.to_angle_degrees(), -120);
    assert_eq!(Facing::UpLeft.to_angle_degrees(), 120);
    assert_eq!(Facing::DownLeft.name(), "DownLeft");
}

#[test]
fn facing_offsets_depend_on_column_parity() {
    assert_eq!(Facing::DownRight.to_offset(false), (1, 1));
    assert_eq!(Facing::DownRight.to_offset(true), (1, 0));
    assert_eq!(Facing::UpLeft.to_offset(true), (-1, -1));
    assert_eq!(Facing::UpLeft.to_offset(false), (-1, 0));
    assert_eq!(Facing::Up.to_offset(true), (0, -1));
    assert_eq!(Facing::Down.to_offset(false), (0, 1));
}

#[test]
fn tile_effects_by_kind() {
    let plain = |drag, turn| TileEffect { reflect: false, drag, turn, attract: false, launch: None };
    assert_eq!(
        tile_effect(TileType::Wall, false),
        TileEffect { reflect: true, drag: DragScale::Free, turn: 0, attract: false, launch: None }
    );
    assert_eq!(tile_effect(TileType::MaintainSpeed, false), plain(DragScale::Base, 0));
    assert_eq!(tile_effect(TileType::SlowDown, true), plain(DragScale::SlowedDown, 0));
    assert_eq!(tile_effect(TileType::TurnCounterclockwise, false), plain(DragScale::Base, 1));
    assert_eq!(tile_effect(TileType::TurnClockwise, false), plain(DragScale::Base, -1));
    let goal = tile_effect(TileType::Goal, false);
    assert!(goal.attract && goal.drag == DragScale::SlowedDown && goal.launch.is_none());
}

#[test]
fn speed_up_launches_only_near_centre() {
    let near = tile_effect(TileType::SpeedUp(Facing::UpRight), true);
    assert_eq!(near.launch, Some(Facing::UpRight));
    assert!(!near.attract);
    let far = tile_effect(TileType::SpeedUp(Facing::UpRight), false);
    assert_eq!(far.launch, None);
    assert!(far.attract);
    assert_eq!(far.drag, DragScale::Free);
}

#[test]
fn wall_normals_per_sector() {
    let expected = [30, 90, 150, 210, 270, 330];
    for (s, e) in expected.iter().enumerate() {
        assert_eq!(wall_normal_degrees(s), *e);
    }
    assert_eq!(wall_normal_degrees(6), 330);
}

#[test]
fn sweepable_kinds_and_broom_labels() {
    assert!(!is_sweepable(TileType::Goal));
    assert!(!is_sweepable(TileType::Wall));
    assert!(is_sweepable(TileType::SlowDown));
    assert!(is_sweepable(TileType::SpeedUp(Facing::Down)));
    assert_eq!(broom_label(TileType::MaintainSpeed), "Straight");
    assert_eq!(broom_label(TileType::TurnCounterclockwise), "Counterclockwise");
    assert_eq!(broom_label(TileType::TurnClockwise), "Clockwise");
}

#[test]
fn drag_state_starts_at_rest() {
    let s = TileDragState::new(TileType::SlowDown, 250);
    assert_eq!(s.budget(), 250);
    assert_eq!(s.amount_of(TileType::SlowDown), 250);
    assert_eq!(s.amount_of(TileType::MaintainSpeed), 0);
    assert_eq!(s.entries(), &vec![(TileType::SlowDown, 250)]);
}

#[test]
fn drag_sweep_moves_from_other_kinds() {
    let mut s = TileDragState::new(TileType::SlowDown, 250);
    assert_eq!(s.sweep(TileType::MaintainSpeed, 100), 100);
    assert_eq!(s.entries(), &vec![(TileType::SlowDown, 150), (TileType::MaintainSpeed, 100)]);
    assert_eq!(s.sweep(TileType::TurnClockwise, 200), 200);
    assert_eq!(
        s.entries(),
        &vec![
            (TileType::SlowDown, 0),
            (TileType::MaintainSpeed, 50),
            (TileType::TurnClockwise, 200)
        ]
    );
    assert_eq!(total(&s), 250);
}

#[test]
fn drag_sweep_clamps_to_what_is_available() {
    let mut s = TileDragState::new(TileType::SlowDown, 250);
    assert_eq!(s.sweep(TileType::MaintainSpeed, 1000), 250);
    assert_eq!(s.amount_of(TileType::MaintainSpeed), 250);
    assert_eq!(s.amount_of(TileType::SlowDown), 0);
    assert_eq!(s.sweep(TileType::MaintainSpeed, 10), 0);
    assert_eq!(total(&s), 250);
}

#[test]
fn drag_sweep_of_nothing_changes_nothing() {
    let mut s = TileDragState::new(TileType::SlowDown, 250);
    assert_eq!(s.sweep(TileType::TurnClockwise, 0), 0);
    assert_eq!(s.entries(), &vec![(TileType::SlowDown, 250)]);
}

#[test]
fn drag_budget_survives_a_long_sweep_sequence() {
    let kinds = [
        TileType::MaintainSpeed,
        TileType::TurnClockwise,
        TileType::TurnCounterclockwise,
        TileType::SlowDown,
    ];
    let mut s = TileDragState::new(TileType::SlowDown, 1000);
    let mut seed: u32 = 12345;
    for _ in 0..500 {
        seed ^= seed << 13;
        seed ^= seed >> 17;
        seed ^= seed << 5;
        let kind = kinds[(seed % 4) as usize];
        let amount = (seed >> 8) as u64 % 400;
        s.sweep(kind, amount);
        assert_eq!(total(&s), 1000);
        let mut seen = Vec::new();
        for e in s.entries() {
            assert!(!seen.contains(&e.0));
            seen.push(e.0);
        }
    }
}

#[test]
fn drag_blend_skips_negligible_shares() {
    let mut s = TileDragState::new(TileType::SlowDown, 10000);
    s.sweep(TileType::MaintainSpeed, 9);
    s.sweep(TileType::TurnClockwise, 10);
    assert_eq!(
        s.blend(),
        vec![(TileType::SlowDown, 9981), (TileType::TurnClockwise, 10)]
    );
}

#[test]
fn levels_in_order() {
    let all = CurrentLevel::iterator();
    assert_eq!(all.len(), 7);
    assert_eq!(all[0], CurrentLevel::Level0);
    assert_eq!(CurrentLevel::Level0.next(), Some(CurrentLevel::Level1));
    assert_eq!(CurrentLevel::Level5.next(), Some(CurrentLevel::Level6));
    assert_eq!(CurrentLevel::Level6.next(), None);
    assert_eq!(CurrentLevel::Level3.title(), "Level 3");
    assert_eq!(CurrentLevel::default(), CurrentLevel::Level0);
}

#[test]
fn every_level_has_its_goal_tile() {
    for l in CurrentLevel::iterator() {
        let level = get_level(l);
        assert_eq!(level.current_level, l);
        let kind = lookup(&level.grid, level.goal_coordinate);
        if l == CurrentLevel::Level0 {
            assert_eq!(kind, Some(TileType::SlowDown));
            assert!(level.stone_configs.is_empty());
            assert_eq!(level.countdown, None);
            assert_eq!(level.hex_radius, 100);
        } else {
            assert_eq!(kind, Some(TileType::Goal));
            assert_eq!(level.stone_configs.len(), 1);
            assert_eq!(level.countdown, Some(3));
            assert_eq!(level.hex_radius, 60);
        }
    }
}

#[test]
fn level_one_layout() {
    let level = get_level(CurrentLevel::Level1);
    assert_eq!(level.goal_coordinate, hex(7, 4));
    // (5, 3) is placed as a wall first and then as slow ice; the later wins.
    assert_eq!(lookup(&level.grid, hex(5, 3)), Some(TileType::SlowDown));
    assert_eq!(lookup(&level.grid, hex(1, 1)), Some(TileType::MaintainSpeed));
    assert_eq!(lookup(&level.grid, hex(0, 2)), None);
    assert_eq!(level.grid.len(), 25);
    let stone = level.stone_configs[0];
    assert_eq!(stone.velocity_magnitude, 200);
    assert_eq!(stone.start_coordinate, hex(1, 1));
    assert_eq!(stone.facing, Facing::DownRight);
}

#[test]
fn speed_up_tiles_in_later_levels() {
    let level = get_level(CurrentLevel::Level4);
    assert_eq!(lookup(&level.grid, hex(3, 2)), Some(TileType::SpeedUp(Facing::UpRight)));
    let level = get_level(CurrentLevel::Level6);
    assert_eq!(lookup(&level.grid, hex(6, 3)), Some(TileType::SpeedUp(Facing::UpLeft)));
    assert_eq!(level.stone_configs[0].start_coordinate, hex(1, 2));
    assert_eq!(level.stone_configs[0].velocity_magnitude, 250);
}

#[test]
fn placing_replaces_and_appends() {
    let mut g = Vec::new();
    place(&mut g, hex(1, 1), TileType::Wall);
    place(&mut g, hex(2, 1), TileType::Goal);
    place(&mut g, hex(1, 1), TileType::SlowDown);
    assert_eq!(g, vec![(hex(1, 1), TileType::SlowDown), (hex(2, 1), TileType::Goal)]);
    let built = grid_from_placements(&vec![
        (hex(0, 0), TileType::Wall),
        (hex(0, 0), TileType::Goal),
        (hex(3, 0), TileType::Wall),
    ]);
    assert_eq!(built, vec![(hex(0, 0), TileType::Goal), (hex(3, 0), TileType::Wall)]);
}

#[test]
fn grid_extent_follows_the_level() {
    let level = get_level(CurrentLevel::Level1);
    let grid = HexGrid::new(60, &level);
    assert_eq!(grid.cols, 9);
    assert_eq!(grid.rows, 6);
    assert_eq!(grid.hex_radius, 60);
    let level = get_level(CurrentLevel::Level0);
    let grid = HexGrid::new(100, &level);
    assert_eq!((grid.cols, grid.rows), (1, 1));
}

#[test]
fn grid_extent_of_an_empty_level() {
    let mut level = get_level(CurrentLevel::Level0);
    level.grid.clear();
    let grid = HexGrid::new(100, &level);
    assert_eq!((grid.cols, grid.rows), (1, 1));
}

#[test]
fn raised_columns() {
    assert!(column_is_raised(1));
    assert!(column_is_raised(7));
    assert!(!column_is_raised(0));
    assert!(!column_is_raised(4));
    assert!(!column_is_raised(-1));
}

#[test]
fn cell_placement_and_location_agree() {
    let level = get_level(CurrentLevel::Level1);
    let grid = HexGrid::new(60, &level);
    assert_eq!(
        grid.placement(hex(3, 2)),
        CellPlacement { column: 3, visual_row: 3, raised: true }
    );
    assert_eq!(
        grid.placement(hex(0, 5)),
        CellPlacement { column: 0, visual_row: 0, raised: false }
    );
    assert_eq!(grid.locate(3, 3), Some(hex(3, 2)));
    assert_eq!(grid.locate(9, 3), None);
    assert_eq!(grid.locate(-1, 3), None);
    assert_eq!(grid.locate(2, 6), None);
    assert_eq!(grid.locate(2, -1), None);
}

#[test]
fn tiles_in_column_order() {
    let level = get_level(CurrentLevel::Level1);
    let grid = HexGrid::new(60, &level);
    let tiles = grid.tiles_in_order();
    assert_eq!(tiles.len(), 25);
    for w in tiles.windows(2) {
        let (a, b) = (w[0].0, w[1].0);
        assert!(a.q < b.q || (a.q == b.q && a.r < b.r));
    }
    assert_eq!(tiles[0], (hex(0, 0), TileType::Wall));
    assert_eq!(tiles[24], (hex(8, 4), TileType::Wall));
    assert_eq!(grid.kind_at(hex(7, 4)), Some(TileType::Goal));
}

#[test]
fn collision_pairs_cover_each_pair_once() {
    assert_eq!(collision_pairs(0), vec![]);
    assert_eq!(collision_pairs(1), vec![]);
    assert_eq!(collision_pairs(3), vec![(0, 1), (0, 2), (1, 2)]);
    assert_eq!(collision_pairs(5).len(), 10);
}

#[test]
fn preview_records_every_third_step_and_stops() {
    assert_eq!(PREVIEW_STEP_CAP, 10000);
    assert_eq!(PREVIEW_SAMPLE_EVERY, 3);
    assert_eq!(preview_action(0, 10000, 3, false), PreviewAction::Step { record: true });
    assert_eq!(preview_action(1, 10000, 3, false), PreviewAction::Step { record: false });
    assert_eq!(preview_action(3, 10000, 3, false), PreviewAction::Step { record: true });
    assert_eq!(preview_action(5, 10000, 3, true), PreviewAction::Stop);
    assert_eq!(preview_action(10000, 10000, 3, false), PreviewAction::Stop);
}

#[test]
fn effect_plan_follows_overlapping_tiles_in_order() {
    let mut swept = TileDragState::new(TileType::SlowDown, 1000);
    swept.sweep(TileType::TurnClockwise, 400);
    let states = vec![
        TileDragState::new(TileType::Wall, 1000),
        swept,
        TileDragState::new(TileType::SpeedUp(Facing::Down), 1000),
    ];
    let contacts = vec![
        TileContact { overlapping: false, near_centre: false },
        TileContact { overlapping: true, near_centre: false },
        TileContact { overlapping: true, near_centre: true },
    ];
    let plan = plan_tile_effects(&states, &contacts);
    assert_eq!(
        plan,
        vec![
            EffectStep {
                tile: 1,
                kind: TileType::SlowDown,
                amount: 600,
                effect: tile_effect(TileType::SlowDown, false),
            },
            EffectStep {
                tile: 1,
                kind: TileType::TurnClockwise,
                amount: 400,
                effect: tile_effect(TileType::TurnClockwise, false),
            },
            EffectStep {
                tile: 2,
                kind: TileType::SpeedUp(Facing::Down),
                amount: 1000,
                effect: tile_effect(TileType::SpeedUp(Facing::Down), true),
            },
        ]
    );
    assert_eq!(plan[2].effect.launch, Some(Facing::Down));
}

#[test]
fn no_overlap_means_no_effect() {
    let states = vec![
        TileDragState::new(TileType::Wall, 1000),
        TileDragState::new(TileType::Goal, 1000),
    ];
    let contacts = vec![TileContact { overlapping: false, near_centre: true }; 2];
    assert!(plan_tile_effects(&states, &contacts).is_empty());
}

#[test]
fn all_swept_to_checks_every_tile() {
    let mut a = TileDragState::new(TileType::SlowDown, 250);
    let mut b = TileDragState::new(TileType::SlowDown, 250);
    a.sweep(TileType::MaintainSpeed, 250);
    b.sweep(TileType::MaintainSpeed, 240);
    let states = vec![a.clone(), b.clone()];
    assert!(!all_swept_to(&states, TileType::MaintainSpeed, 250));
    assert!(all_swept_to(&states, TileType::MaintainSpeed, 240));
    b.sweep(TileType::MaintainSpeed, 10);
    assert!(all_swept_to(&vec![a, b], TileType::MaintainSpeed, 250));
    assert!(all_swept_to(&Vec::new(), TileType::MaintainSpeed, 250));
}
