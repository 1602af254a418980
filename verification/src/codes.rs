//! The closed set of result codes returned at the boundary, and the game
//! modes as the host names them.

use vstd::prelude::*;

verus! {

/// Boolean type used across the boundary (0 = false, non-zero = true).
pub type MwBool = u8;

/// Errors produced when constructing a simulation core.
#[derive(Clone, Copy, Debug, PartialEq, Eq, Structural)]
pub enum CoreInitError {
    /// The requested map size is outside the supported range.
    InvalidMapSize,
    /// The provided day/night cycle multiplier was zero, negative, or not
    /// finite.
    InvalidDayCycleCoefficient,
}

impl CoreInitError {
    /// A short description of the error.
    pub fn message(&self) -> (text: &'static str)
        ensures
            text@ == match *self {
                CoreInitError::InvalidMapSize => "map_size_lg outside supported range"@,
                CoreInitError::InvalidDayCycleCoefficient =>
                    "day_cycle_coefficient must be finite and positive"@,
            },
    {
        match self {
            CoreInitError::InvalidMapSize => "map_size_lg outside supported range",
            CoreInitError::InvalidDayCycleCoefficient => {
                "day_cycle_coefficient must be finite and positive"
            },
        }
    }
}

/// Result codes returned by the boundary surface.
#[derive(Clone, Copy, Debug, PartialEq, Eq, Structural)]
pub enum MwResult {
    Success,
    NullPointer,
    InvalidMapSize,
    InvalidDayCycle,
    InvalidDeltaTime,
    InvalidGameMode,
    BufferTooLarge,
    InternalError,
}

impl MwResult {
    /// The stable integer that stands for this result at the boundary.
    pub open spec fn spec_code(self) -> i32 {
        match self {
            MwResult::Success => 0,
            MwResult::NullPointer => 1,
            MwResult::InvalidMapSize => 2,
            MwResult::InvalidDayCycle => 3,
            MwResult::InvalidDeltaTime => 4,
            MwResult::InvalidGameMode => 5,
            MwResult::BufferTooLarge => 6,
            MwResult::InternalError => 255,
        }
    }

    /// The stable integer that stands for this result at the boundary.
    pub fn code(self) -> (code: i32)
        ensures
            code == self.spec_code(),
    {
        match self {
            MwResult::Success => 0,
            MwResult::NullPointer => 1,
            MwResult::InvalidMapSize => 2,
            MwResult::InvalidDayCycle => 3,
            MwResult::InvalidDeltaTime => 4,
            MwResult::InvalidGameMode => 5,
            MwResult::BufferTooLarge => 6,
            MwResult::InternalError => 255,
        }
    }

    /// The result that an integer stands for, if it stands for one.
    pub fn from_code(code: i32) -> (result: Option<Self>)
        ensures
            match result {
                Some(r) => r.spec_code() == code,
                None => forall|r: MwResult| r.spec_code() != code,
            },
    {
        match code {
            0 => Some(MwResult::Success),
            1 => Some(MwResult::NullPointer),
            2 => Some(MwResult::InvalidMapSize),
            3 => Some(MwResult::InvalidDayCycle),
            4 => Some(MwResult::InvalidDeltaTime),
            5 => Some(MwResult::InvalidGameMode),
            6 => Some(MwResult::BufferTooLarge),
            255 => Some(MwResult::InternalError),
            _ => None,
        }
    }
}

/// Two results with the same code are the same result.
pub proof fn lemma_code_is_injective(a: MwResult, b: MwResult)
    requires
        a.spec_code() == b.spec_code(),
    ensures
        a == b,
{
}

impl From<CoreInitError> for MwResult {
    fn from(err: CoreInitError) -> (out: Self) {
        match err {
            CoreInitError::InvalidMapSize => MwResult::InvalidMapSize,
            CoreInitError::InvalidDayCycleCoefficient => MwResult::InvalidDayCycle,
        }
    }
}

impl vstd::std_specs::convert::FromSpecImpl<CoreInitError> for MwResult {
    open spec fn obeys_from_spec() -> bool {
        true
    }

    open spec fn from_spec(err: CoreInitError) -> Self {
        match err {
            CoreInitError::InvalidMapSize => MwResult::InvalidMapSize,
            CoreInitError::InvalidDayCycleCoefficient => MwResult::InvalidDayCycle,
        }
    }
}

/// The mode a simulation core runs in.
#[derive(Clone, Copy, Debug, PartialEq, Eq, Structural)]
pub enum GameMode {
    Server,
    Client,
    Singleplayer,
}

/// The host's representation of [`GameMode`].
#[derive(Clone, Copy, Debug, PartialEq, Eq, Structural)]
pub enum MwGameMode {
    Server,
    Client,
    Singleplayer,
}

impl GameMode {
    /// The core's mode for one of the host's.
    pub open spec fn of_host(mode: MwGameMode) -> GameMode {
        match mode {
            MwGameMode::Server => GameMode::Server,
            MwGameMode::Client => GameMode::Client,
            MwGameMode::Singleplayer => GameMode::Singleplayer,
        }
    }
}

impl MwGameMode {
    /// The host's mode for one of the core's.
    pub open spec fn of_core(mode: GameMode) -> MwGameMode {
        match mode {
            GameMode::Server => MwGameMode::Server,
            GameMode::Client => MwGameMode::Client,
            GameMode::Singleplayer => MwGameMode::Singleplayer,
        }
    }

    /// The integer that stands for this mode at the boundary.
    pub open spec fn spec_discriminant(self) -> i32 {
        match self {
            MwGameMode::Server => 0,
            MwGameMode::Client => 1,
            MwGameMode::Singleplayer => 2,
        }
    }

    /// The integer that stands for this mode at the boundary.
    pub fn discriminant(self) -> (value: i32)
        ensures
            value == self.spec_discriminant(),
    {
        match self {
            MwGameMode::Server => 0,
            MwGameMode::Client => 1,
            MwGameMode::Singleplayer => 2,
        }
    }

    /// The mode that an integer stands for, or nothing for an integer that
    /// stands for none.
    pub open spec fn of_discriminant(value: i32) -> Result<MwGameMode, ()> {
        if value == 0 {
            Ok(MwGameMode::Server)
        } else if value == 1 {
            Ok(MwGameMode::Client)
        } else if value == 2 {
            Ok(MwGameMode::Singleplayer)
        } else {
            Err(())
        }
    }
}

/// Reading back the integer of a mode gives that mode.
pub proof fn lemma_discriminant_round_trip(mode: MwGameMode)
    ensures
        MwGameMode::of_discriminant(mode.spec_discriminant()) == Ok::<MwGameMode, ()>(mode),
{
}

impl TryFrom<i32> for MwGameMode {
    type Error = ();

    fn try_from(value: i32) -> (out: Result<Self, ()>) {
        match value {
            0 => Ok(MwGameMode::Server),
            1 => Ok(MwGameMode::Client),
            2 => Ok(MwGameMode::Singleplayer),
            _ => Err(()),
        }
    }
}

impl vstd::std_specs::convert::TryFromSpecImpl<i32> for MwGameMode {
    open spec fn obeys_try_from_spec() -> bool {
        true
    }

    open spec fn try_from_spec(value: i32) -> Result<Self, ()> {
        MwGameMode::of_discriminant(value)
    }
}

impl From<GameMode> for MwGameMode {
    fn from(mode: GameMode) -> (out: Self) {
        match mode {
            GameMode::Server => MwGameMode::Server,
            GameMode::Client => MwGameMode::Client,
            GameMode::Singleplayer => MwGameMode::Singleplayer,
        }
    }
}

impl vstd::std_specs::convert::FromSpecImpl<GameMode> for MwGameMode {
    open spec fn obeys_from_spec() -> bool {
        true
    }

    open spec fn from_spec(mode: GameMode) -> Self {
        MwGameMode::of_core(mode)
    }
}

impl From<MwGameMode> for GameMode {
    fn from(mode: MwGameMode) -> (out: Self) {
        match mode {
            MwGameMode::Server => GameMode::Server,
            MwGameMode::Client => GameMode::Client,
            MwGameMode::Singleplayer => GameMode::Singleplayer,
        }
    }
}

impl vstd::std_specs::convert::FromSpecImpl<MwGameMode> for GameMode {
    open spec fn obeys_from_spec() -> bool {
        true
    }

    open spec fn from_spec(mode: MwGameMode) -> Self {
        GameMode::of_host(mode)
    }
}

} // verus!
