use radarsync::config::{log_level, progress_mode, LogLevel, OutputConfig, ProgressMode};
use radarsync::endpoint::{connect_path, new_connect_path, request_device_url};

#[test]
fn progress_mode_names() {
    assert_eq!(ProgressMode::On.name(), "on");
    assert_eq!(ProgressMode::Off.name(), "off");
    assert_eq!(ProgressMode::Auto.name(), "auto");
    assert_eq!(ProgressMode::default(), ProgressMode::Auto);
}

#[test]
fn progress_follows_terminal_and_quiet() {
    assert_eq!(progress_mode(true, false), ProgressMode::On);
    assert_eq!(progress_mode(true, true), ProgressMode::Off);
    assert_eq!(progress_mode(false, false), ProgressMode::Off);
}

#[test]
fn log_levels() {
    assert_eq!(log_level(true, 3), LogLevel::Off);
    assert_eq!(log_level(false, 0), LogLevel::Warn);
    assert_eq!(log_level(false, 1), LogLevel::Info);
    assert_eq!(log_level(false, 2), LogLevel::Debug);
    assert_eq!(log_level(false, 9), LogLevel::Trace);
    let c = OutputConfig::from_flags(false, 1, true);
    assert_eq!(c, OutputConfig { progress: ProgressMode::On, log_level: LogLevel::Info });
}

#[test]
fn endpoints() {
    assert_eq!(connect_path("1234"), "/api/v1/code?id=1234");
    let p = new_connect_path();
    assert!(p.starts_with("/api/v1/code?id="));
    assert_eq!(p.len(), "/api/v1/code?id=".len() + 36);
    assert_ne!(p, new_connect_path());
    assert_eq!(request_device_url(), "https://doppler-transfer.com/api/v0/request-device");
}
