use world_column::geometry::{chunk_pos, downhill_offset, IVec2, CHUNK_SIZE};
use world_column::structure::{
    dungeon_specs, gen_close_structures, local_structure, nearest_candidate, SiteClimate,
    StructureData, StructureMeta, DUNGEON_COUNT, PYRAMID_HEIGHT,
};

fn v(x: i32, y: i32) -> IVec2 {
    IVec2::new(x, y)
}

const UNITS: (IVec2, IVec2) = (IVec2 { x: 0, y: 1 }, IVec2 { x: -1, y: 0 });

fn both() -> Option<SiteClimate> {
    Some(SiteClimate { suits_pyramid: true, suits_dungeon: true })
}

#[test]
fn chunk_pos_of_positive_positions() {
    assert_eq!(chunk_pos(v(0, 0)), v(0, 0));
    assert_eq!(chunk_pos(v(31, 32)), v(0, 1));
    assert_eq!(chunk_pos(v(100, 1000)), v(3, 31));
}

#[test]
fn chunk_pos_rounds_towards_zero() {
    assert_eq!(chunk_pos(v(-1, -31)), v(0, 0));
    assert_eq!(chunk_pos(v(-32, -33)), v(-1, -1));
    assert_eq!(chunk_pos(v(-100, 65)), v(-3, 2));
    assert_eq!(chunk_pos(v(i32::MIN, i32::MAX)), v(i32::MIN / 32, i32::MAX / 32));
}

#[test]
fn chunk_contains_nonnegative_positions() {
    for x in [0, 1, 31, 32, 33, 63, 64, 1000, 12345] {
        let c = chunk_pos(v(x, x));
        assert!(CHUNK_SIZE * c.x <= x && x < CHUNK_SIZE * c.x + CHUNK_SIZE);
        assert!(CHUNK_SIZE * c.y <= x && x < CHUNK_SIZE * c.y + CHUNK_SIZE);
    }
}

#[test]
fn chunk_origin_stays_near_for_negative_positions() {
    for x in [-1, -31, -32, -33, -64, -1000] {
        let c = chunk_pos(v(x, 0));
        let origin = CHUNK_SIZE * c.x;
        assert!(x <= origin && origin <= 0);
        assert!(x - origin > -CHUNK_SIZE);
    }
}

#[test]
fn downhill_offset_without_downhill_is_zero() {
    assert_eq!(downhill_offset(v(17, -4), None), v(0, 0));
}

#[test]
fn downhill_offset_with_downhill() {
    assert_eq!(downhill_offset(v(17, -4), Some(v(20, -10))), v(-3, 6));
}

fn cands(points: [(i32, i32); 9]) -> [(IVec2, u32); 9] {
    let mut r = [(v(0, 0), 0u32); 9];
    for i in 0..9 {
        r[i] = (v(points[i].0, points[i].1), 100 + i as u32);
    }
    r
}

#[test]
fn nearest_candidate_picks_least_distance() {
    let c = cands([(10, 0), (5, 5), (-2, 1), (7, 7), (0, -9), (3, 3), (8, 8), (9, 9), (-6, 6)]);
    assert_eq!(nearest_candidate(&c, v(0, 0)), (v(-2, 1), 102));
    assert_eq!(nearest_candidate(&c, v(9, 8)), (v(8, 8), 106));
}

#[test]
fn nearest_candidate_prefers_first_of_ties() {
    let c = cands([(10, 0), (0, 3), (3, 0), (-3, 0), (5, 5), (5, 5), (5, 5), (5, 5), (0, -3)]);
    assert_eq!(nearest_candidate(&c, v(0, 0)), (v(0, 3), 101));
}

#[test]
fn nearest_candidate_at_the_position_itself() {
    let c = cands([(1, 1), (2, 2), (3, 3), (4, 4), (40, 50), (6, 6), (7, 7), (8, 8), (9, 9)]);
    assert_eq!(nearest_candidate(&c, v(40, 50)), (v(40, 50), 104));
}

#[test]
fn nearest_candidate_with_far_coordinates() {
    let c = cands([
        (-100_000, 20_000),
        (-99_000, 21_000),
        (-100_100, 20_050),
        (-98_000, 20_000),
        (-101_000, 19_000),
        (-100_030, 20_040),
        (-100_000, 21_000),
        (-99_500, 20_500),
        (-100_500, 19_500),
    ]);
    assert_eq!(nearest_candidate(&c, v(-100_020, 20_030)), (v(-100_030, 20_040), 105));
}

#[test]
fn local_structure_pyramid() {
    let r = local_structure(v(3, 4), 7, both(), UNITS, 11);
    assert_eq!(
        r,
        Some(StructureData { pos: v(3, 4), seed: 7, meta: Some(StructureMeta::Pyramid { height: 140 }) })
    );
    assert_eq!(PYRAMID_HEIGHT, 140);
}

#[test]
fn local_structure_pyramid_takes_precedence() {
    // 87 % 5 == 2 and 87 % 17 == 2
    let r = local_structure(v(3, 4), 87, both(), UNITS, 11);
    assert_eq!(r.unwrap().meta, Some(StructureMeta::Pyramid { height: 140 }));
}

#[test]
fn local_structure_dungeon() {
    // 19 % 17 == 2, 19 % 5 == 4; roll 11 picks entry 1
    let r = local_structure(v(-8, 9), 19, both(), UNITS, 11);
    assert_eq!(
        r,
        Some(StructureData {
            pos: v(-8, 9),
            seed: 19,
            meta: Some(StructureMeta::Volume { unit_x: v(0, 1), unit_y: v(-1, 0), dungeon: 1 }),
        })
    );
    let r = local_structure(v(-8, 9), 19, both(), UNITS, u32::MAX);
    assert_eq!(
        r.unwrap().meta,
        Some(StructureMeta::Volume { unit_x: v(0, 1), unit_y: v(-1, 0), dungeon: 0 })
    );
}

#[test]
fn local_structure_pyramid_seed_without_pyramid_site_can_be_dungeon() {
    let site = Some(SiteClimate { suits_pyramid: false, suits_dungeon: true });
    let r = local_structure(v(0, 0), 87, site, UNITS, 4);
    assert_eq!(
        r.unwrap().meta,
        Some(StructureMeta::Volume { unit_x: v(0, 1), unit_y: v(-1, 0), dungeon: 4 })
    );
}

#[test]
fn local_structure_none() {
    assert_eq!(local_structure(v(0, 0), 3, both(), UNITS, 0), None);
    let nothing = Some(SiteClimate { suits_pyramid: false, suits_dungeon: false });
    assert_eq!(local_structure(v(0, 0), 87, nothing, UNITS, 0), None);
    let calm_only = Some(SiteClimate { suits_pyramid: false, suits_dungeon: true });
    assert_eq!(local_structure(v(0, 0), 7, calm_only, UNITS, 0), None);
}

#[test]
fn local_structure_outside_world() {
    assert_eq!(local_structure(v(0, 0), 7, None, UNITS, 0), None);
    assert_eq!(local_structure(v(0, 0), 19, None, UNITS, 0), None);
}

#[test]
fn close_structures_fill_every_entry() {
    let c = cands([(0, 0), (1, 0), (2, 0), (3, 0), (4, 0), (5, 0), (6, 0), (7, 0), (8, 0)]);
    let pyramid = StructureData { pos: v(50, 60), seed: 7, meta: Some(StructureMeta::Pyramid { height: 140 }) };
    let mut local = [None; 9];
    local[2] = Some(pyramid);
    let r = gen_close_structures(&c, &local);
    for i in 0..9 {
        if i == 2 {
            assert_eq!(r[i], Some(pyramid));
        } else {
            assert_eq!(r[i], Some(StructureData { pos: c[i].0, seed: c[i].1, meta: None }));
        }
    }
}

#[test]
fn dungeon_table() {
    let t = dungeon_specs();
    assert_eq!(t.len(), DUNGEON_COUNT);
    assert_eq!(t[0].asset, "world.structure.dungeon.ruins");
    assert_eq!(t[0].center, (57, 58, 61));
    assert_eq!(t[1].asset, "world.structure.dungeon.ruins_2");
    assert_eq!(t[1].center, (53, 57, 60));
    assert_eq!(t[2].asset, "world.structure.dungeon.ruins_3");
    assert_eq!(t[2].center, (58, 45, 72));
    assert_eq!(t[3].asset, "world.structure.dungeon.meso_sewer_temple");
    assert_eq!(t[3].center, (63, 62, 60));
    assert_eq!(t[4].asset, "world.structure.dungeon.ruins_maze");
    assert_eq!(t[4].center, (60, 60, 116));
}
