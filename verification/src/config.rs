//! Configuration of a simulation core, as the host supplies it and as the
//! core takes it, and the options of a tick.
//!
//! The day-cycle coefficient is carried as the bit pattern of a
//! double-precision value, see [`crate::timing`].

use crate::codes::{GameMode, MwGameMode, MwResult};
use crate::timing::DOUBLE_ONE_BITS;
use vstd::prelude::*;

verus! {

/// Options that influence how a simulation tick executes.
#[derive(Clone, Copy, Debug, PartialEq, Eq, Structural)]
pub struct TickConfig {
    /// Whether terrain diffs generated during the tick should be applied
    /// immediately.
    pub update_terrain: bool,
}

impl Default for TickConfig {
    fn default() -> (config: Self)
        ensures
            !config.update_terrain,
    {
        TickConfig { update_terrain: false }
    }
}

/// Configuration used when instantiating a simulation core.
#[derive(Clone, Copy, Debug, PartialEq, Eq, Structural)]
pub struct CoreInitConfig {
    /// Base two logarithm of the world's width in chunks.
    pub map_size_lg_x: u32,
    /// Base two logarithm of the world's height in chunks.
    pub map_size_lg_y: u32,
    /// Sea level used when building the fallback terrain chunk.
    pub sea_level: i32,
    /// Day/night speed multiplier relative to real time, as a bit pattern.
    pub day_cycle_coefficient_bits: u64,
    /// Which gameplay mode to initialise the underlying state with.
    pub game_mode: GameMode,
}

impl CoreInitConfig {
    /// The fixed default: a unit-chunk map, sea level zero, a day-cycle
    /// coefficient of one, server mode.
    pub open spec fn spec_default() -> Self {
        CoreInitConfig {
            map_size_lg_x: 1,
            map_size_lg_y: 1,
            sea_level: 0,
            day_cycle_coefficient_bits: DOUBLE_ONE_BITS,
            game_mode: GameMode::Server,
        }
    }

    /// Build a configuration from its components.
    pub fn from_components(
        map_size_lg_x: u32,
        map_size_lg_y: u32,
        sea_level: i32,
        day_cycle_coefficient_bits: u64,
        game_mode: GameMode,
    ) -> (config: Self)
        ensures
            config == (CoreInitConfig {
                map_size_lg_x,
                map_size_lg_y,
                sea_level,
                day_cycle_coefficient_bits,
                game_mode,
            }),
    {
        CoreInitConfig {
            map_size_lg_x,
            map_size_lg_y,
            sea_level,
            day_cycle_coefficient_bits,
            game_mode,
        }
    }
}

impl Default for CoreInitConfig {
    fn default() -> (config: Self)
        ensures
            config == CoreInitConfig::spec_default(),
    {
        CoreInitConfig {
            map_size_lg_x: 1,
            map_size_lg_y: 1,
            sea_level: 0,
            day_cycle_coefficient_bits: DOUBLE_ONE_BITS,
            game_mode: GameMode::Server,
        }
    }
}

/// Configuration payload supplied by the host when it creates a core.
#[derive(Clone, Copy, Debug, PartialEq, Eq, Structural)]
pub struct MwCoreConfig {
    pub map_size_lg_x: u32,
    pub map_size_lg_y: u32,
    pub sea_level: i32,
    /// Day/night speed multiplier relative to real time, as a bit pattern.
    pub day_cycle_coefficient_bits: u64,
    /// Integer representation of [`MwGameMode`]. A value that stands for no
    /// mode makes creation fail with [`MwResult::InvalidGameMode`].
    pub game_mode: i32,
}

impl MwCoreConfig {
    /// The fixed default: a unit-chunk map, sea level zero, a day-cycle
    /// coefficient of one, server mode.
    pub open spec fn spec_default() -> Self {
        MwCoreConfig {
            map_size_lg_x: 1,
            map_size_lg_y: 1,
            sea_level: 0,
            day_cycle_coefficient_bits: DOUBLE_ONE_BITS,
            game_mode: 0,
        }
    }

    /// The core configuration that this payload stands for, or the result
    /// code with which it is refused.
    pub open spec fn spec_core_config(self) -> Result<CoreInitConfig, MwResult> {
        match MwGameMode::of_discriminant(self.game_mode) {
            Ok(mode) => Ok(
                CoreInitConfig {
                    map_size_lg_x: self.map_size_lg_x,
                    map_size_lg_y: self.map_size_lg_y,
                    sea_level: self.sea_level,
                    day_cycle_coefficient_bits: self.day_cycle_coefficient_bits,
                    game_mode: GameMode::of_host(mode),
                },
            ),
            Err(_) => Err(MwResult::InvalidGameMode),
        }
    }

    /// The game mode that the payload names, or
    /// [`MwResult::InvalidGameMode`] where it names none.
    pub fn try_game_mode(self) -> (mode: Result<MwGameMode, MwResult>)
        ensures
            mode == match MwGameMode::of_discriminant(self.game_mode) {
                Ok(m) => Ok::<MwGameMode, MwResult>(m),
                Err(_) => Err(MwResult::InvalidGameMode),
            },
    {
        match MwGameMode::try_from(self.game_mode) {
            Ok(mode) => Ok(mode),
            Err(_) => Err(MwResult::InvalidGameMode),
        }
    }

    /// Turn the payload into a core configuration. Only the game mode is
    /// judged here; the other fields are carried over as they are.
    pub fn try_into_core_config(self) -> (config: Result<CoreInitConfig, MwResult>)
        ensures
            config == self.spec_core_config(),
    {
        match self.try_game_mode() {
            Ok(game_mode) => Ok(
                CoreInitConfig::from_components(
                    self.map_size_lg_x,
                    self.map_size_lg_y,
                    self.sea_level,
                    self.day_cycle_coefficient_bits,
                    GameMode::from(game_mode),
                ),
            ),
            Err(err) => Err(err),
        }
    }
}

impl Default for MwCoreConfig {
    fn default() -> (config: Self)
        ensures
            config == MwCoreConfig::spec_default(),
    {
        MwCoreConfig {
            map_size_lg_x: 1,
            map_size_lg_y: 1,
            sea_level: 0,
            day_cycle_coefficient_bits: DOUBLE_ONE_BITS,
            game_mode: MwGameMode::Server.discriminant(),
        }
    }
}

} // verus!
