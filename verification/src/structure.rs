use vstd::prelude::*;

use crate::geometry::{IVec2, dist_sq, dist_sq_fits, vek_distance_squared, lemma_dist_sq_zero};

verus! {

/// Number of candidate sites that a structure generator offers around a position.
pub const CANDIDATES: usize = 9;

/// Height, in blocks, of every pyramid.
pub const PYRAMID_HEIGHT: i32 = 140;

/// What is built at a structure site.
#[derive(Clone, Copy, Debug, PartialEq, Eq, Structural)]
pub enum StructureMeta {
    /// A pyramid of the given height.
    Pyramid { height: i32 },
    /// A prefabricated volume taken from the dungeon table at index `dungeon`,
    /// laid out with its x axis along `unit_x` and its y axis along `unit_y`.
    Volume { unit_x: IVec2, unit_y: IVec2, dungeon: usize },
}

/// A structure site: its position, its seed, and what (if anything) is built there.
#[derive(Clone, Copy, Debug, PartialEq, Eq, Structural)]
pub struct StructureData {
    pub pos: IVec2,
    pub seed: u32,
    pub meta: Option<StructureMeta>,
}

/// The climate facts about the chunk under a site that decide which structure
/// may stand there.
#[derive(Clone, Copy, Debug, PartialEq, Eq, Structural)]
pub struct SiteClimate {
    /// Hot enough for a desert, well above its water level, and calm terrain.
    pub suits_pyramid: bool,
    /// Very calm terrain.
    pub suits_dungeon: bool,
}

/// `k` is the index of the first candidate whose squared distance to `wpos`
/// is the least of all candidates.
pub open spec fn is_first_nearest(cands: Seq<(IVec2, u32)>, wpos: IVec2, k: int) -> bool {
    &&& 0 <= k < cands.len()
    &&& forall|j: int| 0 <= j < cands.len() ==> dist_sq(#[trigger] cands[j].0, wpos) >= dist_sq(cands[k].0, wpos)
    &&& forall|j: int| 0 <= j < k ==> dist_sq(#[trigger] cands[j].0, wpos) > dist_sq(cands[k].0, wpos)
}

/// The squared Euclidean distance, written out over the coordinates.
pub open spec fn sq_euclid(a: IVec2, b: IVec2) -> int {
    (a.x - b.x) * (a.x - b.x) + (a.y - b.y) * (a.y - b.y)
}

/// The first nearest candidate minimises the squared Euclidean distance to
/// `wpos` over all candidates, and every candidate before it is strictly
/// farther away.
pub proof fn lemma_first_nearest_minimises_euclidean(cands: Seq<(IVec2, u32)>, wpos: IVec2, k: int)
    requires
        is_first_nearest(cands, wpos, k),
    ensures
        forall|j: int| 0 <= j < cands.len() ==>
            (cands[k].0.x - wpos.x) * (cands[k].0.x - wpos.x) + (cands[k].0.y - wpos.y) * (cands[k].0.y - wpos.y)
            <= (#[trigger] cands[j].0.x - wpos.x) * (cands[j].0.x - wpos.x) + (cands[j].0.y - wpos.y) * (cands[j].0.y - wpos.y),
        forall|j: int| 0 <= j < k ==>
            (cands[k].0.x - wpos.x) * (cands[k].0.x - wpos.x) + (cands[k].0.y - wpos.y) * (cands[k].0.y - wpos.y)
            < (#[trigger] cands[j].0.x - wpos.x) * (cands[j].0.x - wpos.x) + (cands[j].0.y - wpos.y) * (cands[j].0.y - wpos.y),
{
    assert forall|j: int| 0 <= j < cands.len() implies
        (cands[k].0.x - wpos.x) * (cands[k].0.x - wpos.x) + (cands[k].0.y - wpos.y) * (cands[k].0.y - wpos.y)
        <= (#[trigger] cands[j].0.x - wpos.x) * (cands[j].0.x - wpos.x) + (cands[j].0.y - wpos.y) * (cands[j].0.y - wpos.y) by {
        assert(dist_sq(cands[j].0, wpos) >= dist_sq(cands[k].0, wpos));
    }
    assert forall|j: int| 0 <= j < k implies
        (cands[k].0.x - wpos.x) * (cands[k].0.x - wpos.x) + (cands[k].0.y - wpos.y) * (cands[k].0.y - wpos.y)
        < (#[trigger] cands[j].0.x - wpos.x) * (cands[j].0.x - wpos.x) + (cands[j].0.y - wpos.y) * (cands[j].0.y - wpos.y) by {
        assert(dist_sq(cands[j].0, wpos) > dist_sq(cands[k].0, wpos));
    }
}

/// Every candidate's squared distance to `wpos` can be computed in `i32`.
pub open spec fn all_dist_fit(cands: Seq<(IVec2, u32)>, wpos: IVec2) -> bool {
    forall|j: int| 0 <= j < cands.len() ==> dist_sq_fits(#[trigger] cands[j].0, wpos)
}

/// The candidate nearest to `wpos`; of several equally near, the first.
pub fn nearest_candidate(cands: &[(IVec2, u32); 9], wpos: IVec2) -> (r: (IVec2, u32))
    requires
        all_dist_fit(cands@, wpos),
    ensures
        exists|k: int| is_first_nearest(cands@, wpos, k) && r == cands@[k],
        exists|k: int| 0 <= k < 9 && r == #[trigger] cands@[k]
            && (forall|j: int| 0 <= j < k ==> sq_euclid(#[trigger] cands@[j].0, wpos) > sq_euclid(r.0, wpos)),
        forall|j: int| 0 <= j < 9 ==> sq_euclid(r.0, wpos) <= sq_euclid(#[trigger] cands@[j].0, wpos),
{
    let mut best: usize = 0;
    let mut best_dist: i32 = vek_distance_squared(cands[0].0, wpos);
    let mut i: usize = 1;
    while i < CANDIDATES
        invariant
            1 <= i <= 9,
            best < i,
            all_dist_fit(cands@, wpos),
            best_dist == dist_sq(cands@[best as int].0, wpos),
            forall|j: int| 0 <= j < i ==> dist_sq(#[trigger] cands@[j].0, wpos) >= best_dist,
            forall|j: int| 0 <= j < best ==> dist_sq(#[trigger] cands@[j].0, wpos) > best_dist,
        decreases 9 - i,
    {
        assert(dist_sq_fits(cands@[i as int].0, wpos));
        let d = vek_distance_squared(cands[i].0, wpos);
        if d < best_dist {
            best = i;
            best_dist = d;
        }
        i = i + 1;
    }
    assert(is_first_nearest(cands@, wpos, best as int));
    proof {
        lemma_first_nearest_minimises_euclidean(cands@, wpos, best as int);
    }
    cands[best]
}

/// There is only one first nearest candidate: the choice of `nearest_candidate`
/// is determined by the candidates and the position.
pub proof fn lemma_first_nearest_unique(cands: Seq<(IVec2, u32)>, wpos: IVec2, k1: int, k2: int)
    requires
        is_first_nearest(cands, wpos, k1),
        is_first_nearest(cands, wpos, k2),
    ensures
        k1 == k2,
{
    assert(dist_sq(cands[k1].0, wpos) >= dist_sq(cands[k2].0, wpos));
    assert(dist_sq(cands[k2].0, wpos) >= dist_sq(cands[k1].0, wpos));
}

/// If a candidate stands exactly at `wpos`, the nearest candidate stands there too.
pub proof fn lemma_nearest_at_candidate(cands: Seq<(IVec2, u32)>, wpos: IVec2, k: int, j: int)
    requires
        is_first_nearest(cands, wpos, k),
        0 <= j < cands.len(),
        cands[j].0 == wpos,
    ensures
        cands[k].0 == wpos,
{
    lemma_dist_sq_zero(cands[j].0, wpos);
    lemma_dist_sq_zero(cands[k].0, wpos);
}


/// Number of dungeon volumes in the dungeon table.
pub const DUNGEON_COUNT: usize = 5;

/// A dungeon volume of the dungeon table: the asset it is loaded from, and the
/// point of the volume that is placed at the structure's position.
#[derive(Clone, Copy, Debug)]
pub struct DungeonSpec {
    pub asset: &'static str,
    pub center: (i32, i32, i32),
}

/// The dungeon table, in the order in which a dungeon roll indexes it.
pub fn dungeon_specs() -> (r: Vec<DungeonSpec>)
    ensures
        r.len() == DUNGEON_COUNT,
        r@[0].asset@ == "world.structure.dungeon.ruins"@,
        r@[0].center == (57i32, 58i32, 61i32),
        r@[1].asset@ == "world.structure.dungeon.ruins_2"@,
        r@[1].center == (53i32, 57i32, 60i32),
        r@[2].asset@ == "world.structure.dungeon.ruins_3"@,
        r@[2].center == (58i32, 45i32, 72i32),
        r@[3].asset@ == "world.structure.dungeon.meso_sewer_temple"@,
        r@[3].center == (63i32, 62i32, 60i32),
        r@[4].asset@ == "world.structure.dungeon.ruins_maze"@,
        r@[4].center == (60i32, 60i32, 116i32),
{
    let mut r: Vec<DungeonSpec> = Vec::new();
    r.push(DungeonSpec { asset: "world.structure.dungeon.ruins", center: (57, 58, 61) });
    r.push(DungeonSpec { asset: "world.structure.dungeon.ruins_2", center: (53, 57, 60) });
    r.push(DungeonSpec { asset: "world.structure.dungeon.ruins_3", center: (58, 45, 72) });
    r.push(DungeonSpec { asset: "world.structure.dungeon.meso_sewer_temple", center: (63, 62, 60) });
    r.push(DungeonSpec { asset: "world.structure.dungeon.ruins_maze", center: (60, 60, 116) });
    r
}

/// Seeds that may carry a pyramid.
pub open spec fn pyramid_seed(seed: u32) -> bool {
    seed % 5 == 2
}

/// Seeds that may carry a dungeon.
pub open spec fn dungeon_seed(seed: u32) -> bool {
    seed % 17 == 2
}

/// The structure at the site `pos` with seed `seed`, whose chunk has the
/// climate `site` (`None` where the chunk lies outside the world). A pyramid
/// takes precedence over a dungeon. `units` is the rotation of the volume and
/// `dungeon_roll` the roll that picks its entry of the dungeon table.
pub open spec fn local_structure_of(
    pos: IVec2,
    seed: u32,
    site: Option<SiteClimate>,
    units: (IVec2, IVec2),
    dungeon_roll: u32,
) -> Option<StructureData> {
    match site {
        None => None,
        Some(c) => if pyramid_seed(seed) && c.suits_pyramid {
            Some(StructureData { pos, seed, meta: Some(StructureMeta::Pyramid { height: PYRAMID_HEIGHT }) })
        } else if dungeon_seed(seed) && c.suits_dungeon {
            Some(StructureData {
                pos,
                seed,
                meta: Some(StructureMeta::Volume {
                    unit_x: units.0,
                    unit_y: units.1,
                    dungeon: (dungeon_roll as nat % DUNGEON_COUNT as nat) as usize,
                }),
            })
        } else {
            None
        },
    }
}

/// Where the chunk exists, the seed is 2 modulo 5 and the site suits a
/// pyramid, a pyramid 140 blocks high stands at the site, however calm the
/// terrain.
pub proof fn lemma_pyramid_site(pos: IVec2, seed: u32, c: SiteClimate, units: (IVec2, IVec2), dungeon_roll: u32)
    requires
        seed % 5 == 2,
        c.suits_pyramid,
    ensures
        local_structure_of(pos, seed, Some(c), units, dungeon_roll) == Some(
            StructureData { pos, seed, meta: Some(StructureMeta::Pyramid { height: 140 }) },
        ),
{
}

/// Where no pyramid is placed, a seed that is 2 modulo 17 on a site that suits
/// a dungeon gives the volume rotated by `units`, picked from the table by the
/// roll modulo the table's five entries.
pub proof fn lemma_dungeon_site(pos: IVec2, seed: u32, c: SiteClimate, units: (IVec2, IVec2), dungeon_roll: u32)
    requires
        !(seed % 5 == 2 && c.suits_pyramid),
        seed % 17 == 2,
        c.suits_dungeon,
    ensures
        local_structure_of(pos, seed, Some(c), units, dungeon_roll) == Some(StructureData {
            pos,
            seed,
            meta: Some(StructureMeta::Volume { unit_x: units.0, unit_y: units.1, dungeon: (dungeon_roll % 5) as usize }),
        }),
        (dungeon_roll % 5) < 5,
{
}

/// A site whose terrain does not suit a dungeon never gets one, and a site that
/// gets neither a pyramid nor a dungeon stays empty.
pub proof fn lemma_no_structure(pos: IVec2, seed: u32, c: SiteClimate, units: (IVec2, IVec2), dungeon_roll: u32)
    requires
        !(seed % 5 == 2 && c.suits_pyramid),
        !(seed % 17 == 2 && c.suits_dungeon),
    ensures
        local_structure_of(pos, seed, Some(c), units, dungeon_roll) is None,
{
}

/// Only sites that suit a dungeon, with a seed 2 modulo 17, carry a dungeon
/// volume, and its table index is the roll modulo 5.
pub proof fn lemma_volume_needs_dungeon_site(pos: IVec2, seed: u32, site: Option<SiteClimate>, units: (IVec2, IVec2), dungeon_roll: u32)
    ensures
        local_structure_of(pos, seed, site, units, dungeon_roll) matches Some(s) ==> (
            s.meta matches Some(StructureMeta::Volume { dungeon, .. }) ==> (
                site matches Some(c) && c.suits_dungeon && seed % 17 == 2 && dungeon as int == dungeon_roll as int % 5)),
{
}

/// The structure, if any, that stands at the candidate site `pos` with seed `seed`.
pub fn local_structure(
    pos: IVec2,
    seed: u32,
    site: Option<SiteClimate>,
    units: (IVec2, IVec2),
    dungeon_roll: u32,
) -> (r: Option<StructureData>)
    ensures
        r == local_structure_of(pos, seed, site, units, dungeon_roll),
        r matches Some(s) ==> s.pos == pos && s.seed == seed && s.meta is Some,
        r matches Some(s) ==> (s.meta matches Some(StructureMeta::Pyramid { height }) ==> pyramid_seed(seed) && height == PYRAMID_HEIGHT),
        r matches Some(s) ==> (s.meta matches Some(StructureMeta::Volume { dungeon, .. }) ==> dungeon_seed(seed) && dungeon < DUNGEON_COUNT),
        !pyramid_seed(seed) && !dungeon_seed(seed) ==> r is None,
        site is None ==> r is None,
        site matches Some(c) && seed % 5 == 2 && c.suits_pyramid ==> r == Some(
            StructureData { pos, seed, meta: Some(StructureMeta::Pyramid { height: 140 }) },
        ),
        site matches Some(c) && !(seed % 5 == 2 && c.suits_pyramid) && seed % 17 == 2 && c.suits_dungeon
            ==> r == Some(StructureData {
                pos,
                seed,
                meta: Some(StructureMeta::Volume { unit_x: units.0, unit_y: units.1, dungeon: (dungeon_roll % 5) as usize }),
            }),
        site matches Some(c) && !(seed % 5 == 2 && c.suits_pyramid) && !(seed % 17 == 2 && c.suits_dungeon)
            ==> r is None,
        r matches Some(s) ==> (s.meta matches Some(StructureMeta::Volume { dungeon, .. }) ==> (
            dungeon as int == dungeon_roll as int % 5 && (site matches Some(c) && c.suits_dungeon))),
{
    match site {
        None => None,
        Some(c) => {
            if seed % 5 == 2 && c.suits_pyramid {
                Some(StructureData { pos, seed, meta: Some(StructureMeta::Pyramid { height: PYRAMID_HEIGHT }) })
            } else if seed % 17 == 2 && c.suits_dungeon {
                let dungeon = dungeon_roll as usize % DUNGEON_COUNT;
                Some(StructureData {
                    pos,
                    seed,
                    meta: Some(StructureMeta::Volume { unit_x: units.0, unit_y: units.1, dungeon }),
                })
            } else {
                None
            }
        },
    }
}

/// The entry of the close structures for the candidate `cand`, given the
/// structure found at its site: that structure, or else a bare site.
pub open spec fn close_entry(cand: (IVec2, u32), local: Option<StructureData>) -> Option<StructureData> {
    match local {
        Some(s) => Some(s),
        None => Some(StructureData { pos: cand.0, seed: cand.1, meta: None }),
    }
}

/// A structure found at a candidate's site is kept as it is, whatever is built
/// there; only a site without a structure becomes a bare site at the
/// candidate's position with the candidate's seed.
pub proof fn lemma_close_entry(cand: (IVec2, u32), local: Option<StructureData>)
    ensures
        local matches Some(s) ==> close_entry(cand, local) == Some(s),
        local is None ==> close_entry(cand, local) == Some(StructureData { pos: cand.0, seed: cand.1, meta: None }),
{
}

/// The structures near a column: for each of the candidate sites, the
/// structure found at it, or else a bare site at the candidate's position with
/// its seed.
pub fn gen_close_structures(
    cands: &[(IVec2, u32); 9],
    local: &[Option<StructureData>; 9],
) -> (r: [Option<StructureData>; 9])
    ensures
        forall|i: int| 0 <= i < 9 ==> #[trigger] r@[i] == close_entry(cands@[i], local@[i]),
        forall|i: int| 0 <= i < 9 ==> (#[trigger] r@[i]) is Some,
        forall|i: int| 0 <= i < 9 && local@[i] is Some ==> #[trigger] r@[i] == local@[i],
        forall|i: int| 0 <= i < 9 && local@[i] is None ==> #[trigger] r@[i] == Some(
            StructureData { pos: cands@[i].0, seed: cands@[i].1, meta: None },
        ),
{
    let mut metas: [Option<StructureData>; 9] = [None; 9];
    let mut i: usize = 0;
    while i < CANDIDATES
        invariant
            i <= 9,
            forall|j: int| 0 <= j < i ==> #[trigger] metas@[j] == close_entry(cands@[j], local@[j]),
        decreases 9 - i,
    {
        let entry = match local[i] {
            Some(s) => Some(s),
            None => Some(StructureData { pos: cands[i].0, seed: cands[i].1, meta: None }),
        };
        metas[i] = entry;
        i = i + 1;
    }
    metas
}

} // verus!
