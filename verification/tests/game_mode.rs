use majestic_boundary::codes::{CoreInitError, GameMode, MwGameMode, MwResult};
use majestic_boundary::config::{CoreInitConfig, MwCoreConfig, TickConfig};
use majestic_boundary::majestik::MajestikCore;
use majestic_boundary::surface::{mw_core_create, mw_core_game_mode};

#[test]
fn game_mode_discriminant_validation() {
    assert!(MwGameMode::try_from(0).is_ok());
    assert!(MwGameMode::try_from(1).is_ok());
    assert!(MwGameMode::try_from(2).is_ok());
    assert!(MwGameMode::try_from(42).is_err());
}

#[test]
fn rejects_invalid_game_mode() {
    let config = MwCoreConfig {
        game_mode: 42,
        ..Default::default()
    };
    let created = mw_core_create(Some(config), true);
    assert_eq!(created.err(), Some(MwResult::InvalidGameMode));
}

#[test]
fn rejects_invalid_map_size() {
    let config = CoreInitConfig {
        map_size_lg_x: 32,
        map_size_lg_y: 32,
        ..CoreInitConfig::default()
    };
    assert!(matches!(
        MajestikCore::new(config, false),
        Err(CoreInitError::InvalidMapSize)
    ));
}

#[test]
fn rejects_invalid_day_cycle() {
    let config = CoreInitConfig {
        day_cycle_coefficient_bits: 0.0f64.to_bits(),
        ..CoreInitConfig::default()
    };
    assert!(matches!(
        MajestikCore::new(config, true),
        Err(CoreInitError::InvalidDayCycleCoefficient)
    ));

    let config = CoreInitConfig {
        day_cycle_coefficient_bits: f64::NAN.to_bits(),
        ..CoreInitConfig::default()
    };
    assert!(matches!(
        MajestikCore::new(config, true),
        Err(CoreInitError::InvalidDayCycleCoefficient)
    ));
}

#[test]
fn discriminants_are_the_documented_integers() {
    assert_eq!(MwGameMode::Server.discriminant(), 0);
    assert_eq!(MwGameMode::Client.discriminant(), 1);
    assert_eq!(MwGameMode::Singleplayer.discriminant(), 2);
    assert_eq!(MwGameMode::try_from(0), Ok(MwGameMode::Server));
    assert_eq!(MwGameMode::try_from(1), Ok(MwGameMode::Client));
    assert_eq!(MwGameMode::try_from(2), Ok(MwGameMode::Singleplayer));
    assert_eq!(MwGameMode::try_from(3), Err(()));
    assert_eq!(MwGameMode::try_from(-1), Err(()));
}

#[test]
fn modes_convert_both_ways() {
    assert_eq!(MwGameMode::from(GameMode::Server), MwGameMode::Server);
    assert_eq!(MwGameMode::from(GameMode::Client), MwGameMode::Client);
    assert_eq!(MwGameMode::from(GameMode::Singleplayer), MwGameMode::Singleplayer);
    assert_eq!(GameMode::from(MwGameMode::Server), GameMode::Server);
    assert_eq!(GameMode::from(MwGameMode::Client), GameMode::Client);
    assert_eq!(GameMode::from(MwGameMode::Singleplayer), GameMode::Singleplayer);
}

#[test]
fn result_codes_are_the_documented_integers() {
    assert_eq!(MwResult::Success.code(), 0);
    assert_eq!(MwResult::NullPointer.code(), 1);
    assert_eq!(MwResult::InvalidMapSize.code(), 2);
    assert_eq!(MwResult::InvalidDayCycle.code(), 3);
    assert_eq!(MwResult::InvalidDeltaTime.code(), 4);
    assert_eq!(MwResult::InvalidGameMode.code(), 5);
    assert_eq!(MwResult::BufferTooLarge.code(), 6);
    assert_eq!(MwResult::InternalError.code(), 255);
    assert_eq!(MwResult::from_code(6), Some(MwResult::BufferTooLarge));
    assert_eq!(MwResult::from_code(255), Some(MwResult::InternalError));
    assert_eq!(MwResult::from_code(7), None);
    assert_eq!(MwResult::from_code(-1), None);
}

#[test]
fn init_errors_map_to_result_codes() {
    assert_eq!(MwResult::from(CoreInitError::InvalidMapSize), MwResult::InvalidMapSize);
    assert_eq!(
        MwResult::from(CoreInitError::InvalidDayCycleCoefficient),
        MwResult::InvalidDayCycle
    );
}

#[test]
fn init_errors_describe_themselves() {
    assert_eq!(
        CoreInitError::InvalidMapSize.message(),
        "map_size_lg outside supported range"
    );
    assert_eq!(
        CoreInitError::InvalidDayCycleCoefficient.message(),
        "day_cycle_coefficient must be finite and positive"
    );
}

#[test]
fn default_configuration_is_the_unit_map_in_server_mode() {
    let config = MwCoreConfig::default();
    assert_eq!(config.map_size_lg_x, 1);
    assert_eq!(config.map_size_lg_y, 1);
    assert_eq!(config.sea_level, 0);
    assert_eq!(config.day_cycle_coefficient_bits, 1.0f64.to_bits());
    assert_eq!(config.game_mode, 0);

    let core_config = CoreInitConfig::default();
    assert_eq!(core_config.map_size_lg_x, 1);
    assert_eq!(core_config.map_size_lg_y, 1);
    assert_eq!(core_config.sea_level, 0);
    assert_eq!(core_config.day_cycle_coefficient_bits, 1.0f64.to_bits());
    assert_eq!(core_config.game_mode, GameMode::Server);
    assert!(!TickConfig::default().update_terrain);
}

#[test]
fn payload_is_carried_over_field_by_field() {
    let payload = MwCoreConfig {
        map_size_lg_x: 3,
        map_size_lg_y: 4,
        sea_level: -7,
        day_cycle_coefficient_bits: 2.5f64.to_bits(),
        game_mode: 2,
    };
    assert_eq!(payload.try_game_mode(), Ok(MwGameMode::Singleplayer));
    assert_eq!(
        payload.try_into_core_config(),
        Ok(CoreInitConfig::from_components(
            3,
            4,
            -7,
            2.5f64.to_bits(),
            GameMode::Singleplayer
        ))
    );
    let bad = MwCoreConfig { game_mode: 3, ..payload };
    assert_eq!(bad.try_game_mode(), Err(MwResult::InvalidGameMode));
    assert_eq!(bad.try_into_core_config(), Err(MwResult::InvalidGameMode));
}

#[test]
fn creation_reports_the_first_fault_only() {
    let all_bad = MwCoreConfig {
        day_cycle_coefficient_bits: 0.0f64.to_bits(),
        game_mode: 9,
        ..Default::default()
    };
    assert_eq!(mw_core_create(Some(all_bad), false).err(), Some(MwResult::InvalidGameMode));

    let bad_cycle_and_map = MwCoreConfig {
        day_cycle_coefficient_bits: f64::INFINITY.to_bits(),
        ..Default::default()
    };
    assert_eq!(
        mw_core_create(Some(bad_cycle_and_map), false).err(),
        Some(MwResult::InvalidDayCycle)
    );

    assert_eq!(
        mw_core_create(Some(MwCoreConfig::default()), false).err(),
        Some(MwResult::InvalidMapSize)
    );
}

#[test]
fn creation_without_payload_uses_the_default() {
    let core = match mw_core_create(None, true) {
        Ok(core) => core,
        Err(code) => panic!("default configuration refused: {:?}", code),
    };
    assert_eq!(core.game_mode(), GameMode::Server);
    assert_eq!(mw_core_game_mode(&core), MwGameMode::Server);
    assert!(core.last_terrain_diff().is_empty());
}

#[test]
fn created_core_reports_its_mode() {
    let payload = MwCoreConfig { game_mode: 1, ..Default::default() };
    let core = match mw_core_create(Some(payload), true) {
        Ok(core) => core,
        Err(code) => panic!("client configuration refused: {:?}", code),
    };
    assert_eq!(mw_core_game_mode(&core), MwGameMode::Client);
}

#[test]
fn day_cycle_must_be_finite_and_positive() {
    let accepted = [1.0f64, 0.5, 1e-300, f64::MIN_POSITIVE, f64::from_bits(1), f64::MAX];
    for value in accepted {
        let config = CoreInitConfig {
            day_cycle_coefficient_bits: value.to_bits(),
            ..CoreInitConfig::default()
        };
        assert!(MajestikCore::new(config, true).is_ok(), "{} refused", value);
    }
    let refused = [0.0f64, -0.0, -1.0, f64::INFINITY, f64::NEG_INFINITY, f64::NAN, -f64::NAN];
    for value in refused {
        let config = CoreInitConfig {
            day_cycle_coefficient_bits: value.to_bits(),
            ..CoreInitConfig::default()
        };
        assert!(matches!(
            MajestikCore::new(config, true),
            Err(CoreInitError::InvalidDayCycleCoefficient)
        ));
    }
}
