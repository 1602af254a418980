//! Terrain chunk coordinates and their ordering.

use vstd::prelude::*;

verus! {

/// Integer grid coordinate describing a terrain chunk.
#[derive(Clone, Copy, Debug, PartialEq, Eq, PartialOrd, Ord, Hash, Structural)]
pub struct TerrainChunkCoord {
    /// Chunk coordinate along the X axis.
    pub x: i32,
    /// Chunk coordinate along the Y axis.
    pub y: i32,
}

/// Strict ordering of chunk coordinates: by `x`, then by `y`.
pub open spec fn coord_lt(a: TerrainChunkCoord, b: TerrainChunkCoord) -> bool {
    a.x < b.x || (a.x == b.x && a.y < b.y)
}

impl TerrainChunkCoord {
    /// Create a new chunk coordinate instance.
    pub fn new(x: i32, y: i32) -> (coord: Self)
        ensures
            coord.x == x,
            coord.y == y,
    {
        Self { x, y }
    }

    /// Whether `self` sorts strictly before `other`.
    pub fn precedes(&self, other: &TerrainChunkCoord) -> (before: bool)
        ensures
            before == coord_lt(*self, *other),
    {
        self.x < other.x || (self.x == other.x && self.y < other.y)
    }
}

impl Default for TerrainChunkCoord {
    fn default() -> (coord: Self)
        ensures
            coord.x == 0,
            coord.y == 0,
    {
        Self { x: 0, y: 0 }
    }
}

/// Coordinate pair describing a changed terrain chunk, as the host sees it.
#[derive(Clone, Copy, Debug, PartialEq, Eq, Structural)]
pub struct MwTerrainChunkCoord {
    pub x: i32,
    pub y: i32,
}

impl Default for MwTerrainChunkCoord {
    fn default() -> (coord: Self)
        ensures
            coord.x == 0,
            coord.y == 0,
    {
        Self { x: 0, y: 0 }
    }
}

impl MwTerrainChunkCoord {
    /// The host-side coordinate with the same components as `coord`.
    pub open spec fn of(coord: TerrainChunkCoord) -> MwTerrainChunkCoord {
        MwTerrainChunkCoord { x: coord.x, y: coord.y }
    }
}

impl From<TerrainChunkCoord> for MwTerrainChunkCoord {
    fn from(coord: TerrainChunkCoord) -> (out: Self) {
        Self { x: coord.x, y: coord.y }
    }
}

impl vstd::std_specs::convert::FromSpecImpl<TerrainChunkCoord> for MwTerrainChunkCoord {
    open spec fn obeys_from_spec() -> bool {
        true
    }

    open spec fn from_spec(coord: TerrainChunkCoord) -> Self {
        MwTerrainChunkCoord::of(coord)
    }
}

} // verus!
