use pink_log::{LogLevel, LogSettings, LogSettingsBuilder};

#[test]
fn test_log_settings_new() {
    let log_settings = LogSettings::new(LogLevel::Debug);

    // Check the default
    assert_eq!(log_settings.log_level, LogLevel::Debug);
    assert_eq!(log_settings.log_file, None);
    assert_eq!(log_settings.write_log_to_file, true);
    assert_eq!(log_settings.silent, false);
}

#[test]
fn builder_starts_from_the_initial_configuration() {
    let settings = LogSettingsBuilder::new(LogLevel::Warn).build();
    assert_eq!(settings.log_level, LogLevel::Warn);
    assert_eq!(settings.log_file, None);
    assert!(settings.write_log_to_file);
    assert!(!settings.silent);
}

#[test]
fn builder_overrides_each_field_alone() {
    let mut builder = LogSettingsBuilder::new(LogLevel::Trace);
    builder.set_log_level(LogLevel::Error);
    let settings = builder.build();
    assert_eq!(settings.log_level, LogLevel::Error);
    assert_eq!(settings.log_file, None);
    assert!(settings.write_log_to_file);
    assert!(!settings.silent);

    let mut builder = LogSettingsBuilder::new(LogLevel::Trace);
    builder.set_log_file(&String::from("logs/app.log"));
    let settings = builder.build();
    assert_eq!(settings.log_level, LogLevel::Trace);
    assert_eq!(settings.log_file, Some(String::from("logs/app.log")));
    assert!(settings.write_log_to_file);
    assert!(!settings.silent);

    let mut builder = LogSettingsBuilder::new(LogLevel::Trace);
    builder.set_write_log_to_file(false);
    let settings = builder.build();
    assert_eq!(settings.log_level, LogLevel::Trace);
    assert_eq!(settings.log_file, None);
    assert!(!settings.write_log_to_file);
    assert!(!settings.silent);

    let mut builder = LogSettingsBuilder::new(LogLevel::Trace);
    builder.set_silent(true);
    let settings = builder.build();
    assert_eq!(settings.log_level, LogLevel::Trace);
    assert_eq!(settings.log_file, None);
    assert!(settings.write_log_to_file);
    assert!(settings.silent);
}

#[test]
fn builder_keeps_the_last_value_set() {
    let mut builder = LogSettingsBuilder::new(LogLevel::Info);
    builder.set_log_file(&String::from("first.log"));
    builder.set_log_file(&String::from("second.log"));
    builder.set_silent(true);
    builder.set_silent(false);
    builder.set_write_log_to_file(false);
    builder.set_log_level(LogLevel::Off);
    builder.set_log_level(LogLevel::Fatal);
    let settings = builder.build();
    assert_eq!(settings.log_level, LogLevel::Fatal);
    assert_eq!(settings.log_file, Some(String::from("second.log")));
    assert!(!settings.write_log_to_file);
    assert!(!settings.silent);
}

#[test]
fn builder_accepts_an_empty_path() {
    let mut builder = LogSettingsBuilder::new(LogLevel::Info);
    builder.set_log_file(&String::new());
    let settings = builder.build();
    assert_eq!(settings.log_file, Some(String::new()));
}
