use majestic_boundary::config::CoreInitConfig;
use majestic_boundary::coord::{MwTerrainChunkCoord, TerrainChunkCoord};
use majestic_boundary::diff::{normalize_chunks, TerrainChanges, TerrainDiff};
use majestic_boundary::majestik::MajestikCore;

fn new_core() -> MajestikCore {
    match MajestikCore::new(CoreInitConfig::default(), true) {
        Ok(core) => core,
        Err(err) => panic!("core initialises: {:?}", err),
    }
}

#[test]
fn terrain_diff_sorting_is_stable() {
    let mut changes = TerrainChanges::default();
    changes.new_chunks.push(TerrainChunkCoord::new(2, -5));
    changes.new_chunks.push(TerrainChunkCoord::new(-3, 4));
    changes.new_chunks.push(TerrainChunkCoord::new(-3, 2));

    let diff = TerrainDiff::from_terrain_changes(&changes);
    assert_eq!(diff.new_chunks, vec![
        TerrainChunkCoord::new(-3, 2),
        TerrainChunkCoord::new(-3, 4),
        TerrainChunkCoord::new(2, -5),
    ]);
}

#[test]
fn snapshot_and_take_terrain_diff() {
    let mut core = new_core();
    let mut terrain_changes = TerrainChanges::default();
    terrain_changes.modified_chunks.push(TerrainChunkCoord::new(7, -1));

    core.snapshot_last_terrain_diff(&terrain_changes);
    let diff = core.take_last_terrain_diff();
    assert_eq!(diff.modified_chunks, vec![TerrainChunkCoord::new(7, -1)]);
    assert!(core.take_last_terrain_diff().is_empty());
}

#[test]
fn duplicates_are_removed_and_order_is_by_x_then_y() {
    let mut changes = TerrainChanges::default();
    for _ in 0..2 {
        changes.new_chunks.push(TerrainChunkCoord::new(2, -5));
        changes.new_chunks.push(TerrainChunkCoord::new(-3, 4));
        changes.new_chunks.push(TerrainChunkCoord::new(-3, 2));
    }
    let diff = TerrainDiff::from_terrain_changes(&changes);
    assert_eq!(diff.new_chunks, vec![
        TerrainChunkCoord::new(-3, 2),
        TerrainChunkCoord::new(-3, 4),
        TerrainChunkCoord::new(2, -5),
    ]);
    assert!(diff.modified_chunks.is_empty());
    assert!(diff.removed_chunks.is_empty());
}

#[test]
fn empty_change_set_gives_empty_diff() {
    let diff = TerrainDiff::from_terrain_changes(&TerrainChanges::default());
    assert!(diff.is_empty());
    assert!(diff.new_chunks.is_empty());
    assert!(diff.modified_chunks.is_empty());
    assert!(diff.removed_chunks.is_empty());
    assert!(TerrainDiff::default().is_empty());
}

#[test]
fn a_diff_with_one_list_filled_is_not_empty() {
    let only_new = TerrainDiff {
        new_chunks: vec![TerrainChunkCoord::new(0, 0)],
        modified_chunks: vec![],
        removed_chunks: vec![],
    };
    assert!(!only_new.is_empty());
    let only_modified = TerrainDiff {
        new_chunks: vec![],
        modified_chunks: vec![TerrainChunkCoord::new(0, 0)],
        removed_chunks: vec![],
    };
    assert!(!only_modified.is_empty());
    let only_removed = TerrainDiff {
        new_chunks: vec![],
        modified_chunks: vec![],
        removed_chunks: vec![TerrainChunkCoord::new(0, 0)],
    };
    assert!(!only_removed.is_empty());
}

#[test]
fn the_three_lists_are_normalised_independently() {
    let changes = TerrainChanges {
        new_chunks: vec![TerrainChunkCoord::new(1, 1), TerrainChunkCoord::new(0, 0)],
        modified_chunks: vec![TerrainChunkCoord::new(1, 1), TerrainChunkCoord::new(1, 1)],
        removed_chunks: vec![
            TerrainChunkCoord::new(5, 0),
            TerrainChunkCoord::new(0, 5),
            TerrainChunkCoord::new(0, 0),
        ],
    };
    let diff = TerrainDiff::from_terrain_changes(&changes);
    assert_eq!(diff.new_chunks, vec![TerrainChunkCoord::new(0, 0), TerrainChunkCoord::new(1, 1)]);
    assert_eq!(diff.modified_chunks, vec![TerrainChunkCoord::new(1, 1)]);
    assert_eq!(diff.removed_chunks, vec![
        TerrainChunkCoord::new(0, 0),
        TerrainChunkCoord::new(0, 5),
        TerrainChunkCoord::new(5, 0),
    ]);
}

#[test]
fn extreme_coordinates_sort_without_overflow() {
    let input = vec![
        TerrainChunkCoord::new(i32::MAX, i32::MIN),
        TerrainChunkCoord::new(i32::MIN, i32::MAX),
        TerrainChunkCoord::new(0, 0),
        TerrainChunkCoord::new(i32::MIN, i32::MIN),
        TerrainChunkCoord::new(i32::MAX, i32::MAX),
        TerrainChunkCoord::new(i32::MIN, i32::MAX),
    ];
    assert_eq!(normalize_chunks(&input), vec![
        TerrainChunkCoord::new(i32::MIN, i32::MIN),
        TerrainChunkCoord::new(i32::MIN, i32::MAX),
        TerrainChunkCoord::new(0, 0),
        TerrainChunkCoord::new(i32::MAX, i32::MIN),
        TerrainChunkCoord::new(i32::MAX, i32::MAX),
    ]);
}

#[test]
fn normal_form_agrees_with_sort_and_dedup() {
    let mut input: Vec<TerrainChunkCoord> = Vec::new();
    let mut seed: u32 = 12345;
    for _ in 0..2000 {
        seed = seed.wrapping_mul(1_103_515_245).wrapping_add(12_345);
        let x = ((seed >> 16) % 41) as i32 - 20;
        seed = seed.wrapping_mul(1_103_515_245).wrapping_add(12_345);
        let y = ((seed >> 16) % 41) as i32 - 20;
        input.push(TerrainChunkCoord::new(x, y));
    }
    let mut expected = input.clone();
    expected.sort();
    expected.dedup();
    assert_eq!(normalize_chunks(&input), expected);
}

#[test]
fn normal_form_of_a_normal_form_is_itself() {
    let input = vec![
        TerrainChunkCoord::new(3, 3),
        TerrainChunkCoord::new(1, 2),
        TerrainChunkCoord::new(3, 3),
        TerrainChunkCoord::new(1, 1),
    ];
    let once = normalize_chunks(&input);
    let twice = normalize_chunks(&once);
    assert_eq!(once, twice);
    assert_eq!(once.len(), 3);
}

#[test]
fn single_and_empty_lists_are_their_own_normal_form() {
    assert_eq!(normalize_chunks(&vec![]), vec![]);
    assert_eq!(normalize_chunks(&vec![TerrainChunkCoord::new(4, 2)]), vec![TerrainChunkCoord::new(
        4, 2
    )]);
}

#[test]
fn precedes_orders_by_x_then_y() {
    let a = TerrainChunkCoord::new(-3, 4);
    let b = TerrainChunkCoord::new(2, -5);
    let c = TerrainChunkCoord::new(-3, 2);
    assert!(a.precedes(&b));
    assert!(!b.precedes(&a));
    assert!(c.precedes(&a));
    assert!(!a.precedes(&a));
    assert!(a < b && c < a);
}

#[test]
fn coordinates_default_to_the_origin() {
    assert_eq!(TerrainChunkCoord::default(), TerrainChunkCoord::new(0, 0));
    assert_eq!(MwTerrainChunkCoord::default(), MwTerrainChunkCoord { x: 0, y: 0 });
    assert_eq!(
        MwTerrainChunkCoord::from(TerrainChunkCoord::new(-4, 3)),
        MwTerrainChunkCoord { x: -4, y: 3 }
    );
}

#[test]
fn pending_diff_can_be_read_repeatedly_and_taken_once() {
    let mut core = new_core();
    let changes = TerrainChanges {
        new_chunks: vec![TerrainChunkCoord::new(1, 0), TerrainChunkCoord::new(1, 0)],
        modified_chunks: vec![],
        removed_chunks: vec![TerrainChunkCoord::new(9, 9)],
    };
    core.snapshot_last_terrain_diff(&changes);
    assert_eq!(core.last_terrain_diff().new_chunks, vec![TerrainChunkCoord::new(1, 0)]);
    assert_eq!(core.last_terrain_diff().new_chunks, vec![TerrainChunkCoord::new(1, 0)]);
    let taken = core.take_last_terrain_diff();
    assert_eq!(taken.removed_chunks, vec![TerrainChunkCoord::new(9, 9)]);
    assert!(core.last_terrain_diff().is_empty());
}

#[test]
fn a_new_snapshot_replaces_the_pending_diff() {
    let mut core = new_core();
    let mut first = TerrainChanges::default();
    first.new_chunks.push(TerrainChunkCoord::new(1, 1));
    core.snapshot_last_terrain_diff(&first);
    core.snapshot_last_terrain_diff(&TerrainChanges::default());
    assert!(core.last_terrain_diff().is_empty());
}

#[test]
fn injected_diff_is_kept_as_it_is() {
    let mut core = new_core();
    let unsorted = TerrainDiff {
        new_chunks: vec![TerrainChunkCoord::new(2, 2), TerrainChunkCoord::new(1, 1)],
        modified_chunks: vec![],
        removed_chunks: vec![],
    };
    core.inject_last_terrain_diff_for_test(unsorted.clone());
    assert_eq!(core.last_terrain_diff(), &unsorted);
}

#[test]
fn large_lists_are_normalised_quickly() {
    let mut input: Vec<TerrainChunkCoord> = Vec::new();
    for i in 0..200_000i32 {
        input.push(TerrainChunkCoord::new((i * 7919) % 1000, (i * 104_729) % 1000));
    }
    let out = normalize_chunks(&input);
    let mut expected = input.clone();
    expected.sort();
    expected.dedup();
    assert_eq!(out, expected);
    for pair in out.windows(2) {
        assert!(pair[0] < pair[1]);
    }
}
