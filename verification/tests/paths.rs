use pink_log::{default_log_path, LogLevel, LogSettingsBuilder, PinkLogger};

fn assert_default_pattern(path: &str) {
    assert_eq!(path.len(), 49);
    assert!(path.starts_with("pink_log/"));
    assert!(path.ends_with(".txt"));
    let id = &path[9..45];
    for (i, c) in id.chars().enumerate() {
        if i == 8 || i == 13 || i == 18 || i == 23 {
            assert_eq!(c, '-');
        } else {
            assert!(c.is_ascii_digit() || ('a'..='f').contains(&c));
        }
    }
    assert_eq!(id.chars().nth(14), Some('4'));
    assert!(matches!(id.chars().nth(19), Some('8') | Some('9') | Some('a') | Some('b')));
    let parsed = uuid::Uuid::parse_str(id);
    assert!(parsed.is_ok());
    assert_eq!(parsed.unwrap().get_version_num(), 4);
}

#[test]
fn default_path_of_a_known_identifier() {
    assert_eq!(
        default_log_path(0x0123_4567_89ab_cdef_0123_4567_89ab_cdef),
        "pink_log/01234567-89ab-cdef-0123-456789abcdef.txt"
    );
    assert_eq!(
        default_log_path(0xa1a2a3a4b1b2c1c2d1d2d3d4d5d6d7d8),
        "pink_log/a1a2a3a4-b1b2-c1c2-d1d2-d3d4d5d6d7d8.txt"
    );
}

#[test]
fn default_path_of_the_extreme_identifiers() {
    assert_eq!(default_log_path(0), "pink_log/00000000-0000-0000-0000-000000000000.txt");
    assert_eq!(default_log_path(1), "pink_log/00000000-0000-0000-0000-000000000001.txt");
    assert_eq!(
        default_log_path(u128::MAX),
        "pink_log/ffffffff-ffff-ffff-ffff-ffffffffffff.txt"
    );
    assert_eq!(
        default_log_path(1u128 << 127),
        "pink_log/80000000-0000-0000-0000-000000000000.txt"
    );
}

#[test]
fn different_identifiers_have_different_default_paths() {
    assert_ne!(default_log_path(7), default_log_path(8));
    assert_ne!(default_log_path(1), default_log_path(1u128 << 64));
}

#[test]
fn default_logger_resolves_to_a_default_path() {
    let logger = PinkLogger::default();
    assert_default_pattern(logger.log_path());
    assert_eq!(logger.log_settings().log_level, LogLevel::Info);
    assert_eq!(logger.log_settings().log_file, None);
    assert!(logger.log_settings().write_log_to_file);
    assert!(!logger.log_settings().silent);
}

#[test]
fn logger_without_a_file_resolves_to_a_default_path() {
    let logger = PinkLogger::new(LogSettingsBuilder::new(LogLevel::Debug).build());
    assert_default_pattern(logger.log_path());
    assert_eq!(logger.log_settings().log_file, None);
}

#[test]
fn two_default_loggers_resolve_to_different_paths() {
    let first = PinkLogger::default();
    let second = PinkLogger::default();
    assert_ne!(first.log_path(), second.log_path());

    let third = PinkLogger::new(LogSettingsBuilder::new(LogLevel::Info).build());
    let fourth = PinkLogger::new(LogSettingsBuilder::new(LogLevel::Info).build());
    assert_ne!(third.log_path(), fourth.log_path());
}

#[test]
fn logger_with_a_file_keeps_that_file() {
    let mut builder = LogSettingsBuilder::new(LogLevel::Info);
    builder.set_log_file(&String::from("logs/app.log"));
    let logger = PinkLogger::new(builder.build());
    assert_eq!(logger.log_path(), "logs/app.log");
    assert_eq!(logger.log_settings().log_file, Some(String::from("logs/app.log")));
}

#[test]
fn logger_accepts_an_empty_path_as_it_is() {
    let mut builder = LogSettingsBuilder::new(LogLevel::Info);
    builder.set_log_file(&String::new());
    let logger = PinkLogger::new(builder.build());
    assert_eq!(logger.log_path(), "");
}
