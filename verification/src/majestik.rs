//! The boundary's record of one simulation core: the mode it runs in and the
//! terrain diff captured by its latest tick, which the host may read any
//! number of times and take once.
//!
//! The simulation itself is not part of this crate. What decides whether a
//! map size is supported is asked of it, and the answer is handed in here.

use crate::codes::{CoreInitError, GameMode};
use crate::config::CoreInitConfig;
use crate::diff::{TerrainChanges, TerrainDiff};
use crate::timing::{day_cycle_accepted, day_cycle_is_valid};
use vstd::prelude::*;

verus! {

/// How the construction of a core ends for a given configuration, once the
/// simulation has said whether it supports the map size.
///
/// The day-cycle coefficient is judged first, so that a configuration that
/// fails on both counts reports the coefficient.
pub open spec fn init_outcome(config: CoreInitConfig, map_size_supported: bool) -> Result<
    (),
    CoreInitError,
> {
    if !day_cycle_accepted(config.day_cycle_coefficient_bits) {
        Err(CoreInitError::InvalidDayCycleCoefficient)
    } else if !map_size_supported {
        Err(CoreInitError::InvalidMapSize)
    } else {
        Ok(())
    }
}

/// Deterministic gameplay core, as far as the boundary keeps track of it.
pub struct MajestikCore {
    game_mode: GameMode,
    last_terrain_diff: TerrainDiff,
}

impl MajestikCore {
    /// The mode with which the core was initialised.
    pub closed spec fn mode(&self) -> GameMode {
        self.game_mode
    }

    /// The terrain diff captured by the latest tick and not yet taken.
    pub closed spec fn pending(&self) -> TerrainDiff {
        self.last_terrain_diff
    }

    /// Create a core from the supplied configuration. Nothing is built
    /// unless the whole configuration is accepted.
    pub fn new(config: CoreInitConfig, map_size_supported: bool) -> (result: Result<
        Self,
        CoreInitError,
    >)
        ensures
            match result {
                Ok(core) => {
                    &&& init_outcome(config, map_size_supported) is Ok
                    &&& core.mode() == config.game_mode
                    &&& core.pending().spec_is_empty()
                },
                Err(err) => init_outcome(config, map_size_supported) == Err::<(), CoreInitError>(
                    err,
                ),
            },
    {
        if !day_cycle_is_valid(config.day_cycle_coefficient_bits) {
            return Err(CoreInitError::InvalidDayCycleCoefficient);
        }
        if !map_size_supported {
            return Err(CoreInitError::InvalidMapSize);
        }
        Ok(MajestikCore { game_mode: config.game_mode, last_terrain_diff: TerrainDiff::default() })
    }

    /// Returns the mode with which this core was initialised.
    pub fn game_mode(&self) -> (mode: GameMode)
        ensures
            mode == self.mode(),
    {
        self.game_mode
    }

    /// Replace the pending diff by the normal form of the change-set that
    /// the latest tick produced.
    pub fn snapshot_last_terrain_diff(&mut self, changes: &TerrainChanges)
        ensures
            final(self).mode() == old(self).mode(),
            final(self).pending().is_normal_form_of(changes),
    {
        self.last_terrain_diff = TerrainDiff::from_terrain_changes(changes);
    }

    /// Read the terrain diff captured during the previous tick.
    pub fn last_terrain_diff(&self) -> (diff: &TerrainDiff)
        ensures
            *diff == self.pending(),
    {
        &self.last_terrain_diff
    }

    /// Take the previously captured terrain diff, leaving an empty one in
    /// its place.
    pub fn take_last_terrain_diff(&mut self) -> (diff: TerrainDiff)
        ensures
            diff == old(self).pending(),
            final(self).pending().spec_is_empty(),
            final(self).mode() == old(self).mode(),
    {
        let mut diff = TerrainDiff::default();
        std::mem::swap(&mut self.last_terrain_diff, &mut diff);
        diff
    }

    /// Put a prepared terrain diff in place of the pending one. Meant for
    /// test instrumentation: it bypasses the capture of a tick.
    pub fn inject_last_terrain_diff_for_test(&mut self, diff: TerrainDiff)
        ensures
            final(self).pending() == diff,
            final(self).mode() == old(self).mode(),
    {
        self.last_terrain_diff = diff;
    }
}

} // verus!
