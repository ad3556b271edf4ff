use bosun_emitter::{mode, resolve_mode, Config, Mode, ModeError, Presence};

fn presence(bits: u8) -> Presence {
    Presence {
        metric: bits & 1 != 0,
        value: bits & 2 != 0,
        rate: bits & 4 != 0,
        unit: bits & 8 != 0,
        description: bits & 16 != 0,
        force: bits & 32 != 0,
    }
}

fn expected(p: &Presence) -> Result<Mode, ModeError> {
    let described = p.rate && p.unit && p.description;
    if !p.metric {
        Err(ModeError::NoSuchMode)
    } else if described {
        if p.value {
            Ok(Mode::Normal)
        } else {
            Ok(Mode::MetadataOnly)
        }
    } else if p.value {
        if p.force {
            Ok(Mode::DatumOnly)
        } else {
            Err(ModeError::NoMetadata)
        }
    } else {
        Err(ModeError::NoValue)
    }
}

fn config_with(p: &Presence) -> Config {
    let mut config = Config::default();
    if p.metric {
        config.metric = Some("app.requests".to_string());
    }
    if p.value {
        config.value = Some("42".to_string());
    }
    if p.rate {
        config.rate = Some("counter".to_string());
    }
    if p.unit {
        config.unit = Some("count".to_string());
    }
    if p.description {
        config.description = Some("Total requests".to_string());
    }
    config
}

#[test]
fn all_sixty_four_combinations_follow_the_table() {
    let mut seen = 0;
    for bits in 0u8..64 {
        let p = presence(bits);
        let want = expected(&p);
        let config = config_with(&p);
        assert_eq!(mode(&config, p.force), want, "inputs {:06b}", bits);
        assert_eq!(resolve_mode(p), want, "inputs {:06b}", bits);
        seen += 1;
    }
    assert_eq!(seen, 64);
}

#[test]
fn complete_input_is_normal_with_and_without_force() {
    assert_eq!(resolve_mode(presence(0b011111)), Ok(Mode::Normal));
    assert_eq!(resolve_mode(presence(0b111111)), Ok(Mode::Normal));
}

#[test]
fn metadata_without_value_is_metadata_only() {
    assert_eq!(resolve_mode(presence(0b011101)), Ok(Mode::MetadataOnly));
    assert_eq!(resolve_mode(presence(0b111101)), Ok(Mode::MetadataOnly));
}

#[test]
fn value_without_metadata_needs_force() {
    assert_eq!(resolve_mode(presence(0b100011)), Ok(Mode::DatumOnly));
    assert_eq!(resolve_mode(presence(0b000011)), Err(ModeError::NoMetadata));
    // partial meta data does not count as meta data
    assert_eq!(resolve_mode(presence(0b101011)), Ok(Mode::DatumOnly));
    assert_eq!(resolve_mode(presence(0b001111)), Err(ModeError::NoMetadata));
}

#[test]
fn metric_alone_has_no_value() {
    assert_eq!(resolve_mode(presence(0b000001)), Err(ModeError::NoValue));
    assert_eq!(resolve_mode(presence(0b100001)), Err(ModeError::NoValue));
    assert_eq!(resolve_mode(presence(0b001101)), Err(ModeError::NoValue));
}

#[test]
fn no_metric_is_no_such_mode() {
    assert_eq!(resolve_mode(presence(0b000000)), Err(ModeError::NoSuchMode));
    assert_eq!(resolve_mode(presence(0b111110)), Err(ModeError::NoSuchMode));
    assert_eq!(resolve_mode(presence(0b000010)), Err(ModeError::NoSuchMode));
}

#[test]
fn example_configuration_resolves_to_normal() {
    let mut config = Config::default();
    config.metric = Some("app.requests".to_string());
    config.rate = Some("counter".to_string());
    config.unit = Some("count".to_string());
    config.description = Some("Total requests".to_string());
    config.value = Some("42".to_string());
    assert_eq!(mode(&config, false), Ok(Mode::Normal));
}

#[test]
fn mode_errors_have_distinct_negative_exit_codes() {
    assert_eq!(ModeError::NoMetadata.exit_code(), -11);
    assert_eq!(ModeError::NoValue.exit_code(), -12);
    assert_eq!(ModeError::NoSuchMode.exit_code(), -13);
}
