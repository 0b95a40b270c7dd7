use openrgb_daemon::cli::{resolve_configuration, Arguments, Passthrough};
use openrgb_daemon::config::{
    command_arguments, join_colors, verbosity_of, Configuration, Device, LogLevel, Server,
    Verbosity,
};
use openrgb_daemon::decimal::{decimal_text, signed_decimal_text};

fn s(x: &str) -> String {
    x.to_string()
}

fn device(name: &str) -> Device {
    Device {
        device: Some(s(name)),
        zone: None,
        color: None,
        mode: None,
        brightness: None,
        size: None,
    }
}

#[test]
fn decimal_matches_std() {
    for n in [0u64, 7, 10, 99, 100, 6742, 65535, 1_000_000, u64::MAX] {
        assert_eq!(decimal_text(n), n.to_string());
    }
    for n in [0i64, -1, 5, -10, i64::MIN, i64::MAX] {
        assert_eq!(signed_decimal_text(n), n.to_string());
    }
}

#[test]
fn verbosity_follows_level() {
    assert_eq!(verbosity_of(None), Verbosity::Info);
    assert_eq!(verbosity_of(Some(LogLevel::Error)), Verbosity::Error);
    assert_eq!(verbosity_of(Some(LogLevel::Warning)), Verbosity::Warn);
    assert_eq!(verbosity_of(Some(LogLevel::Notice)), Verbosity::Info);
    assert_eq!(verbosity_of(Some(LogLevel::Informational)), Verbosity::Debug);
    assert_eq!(verbosity_of(Some(LogLevel::Debug)), Verbosity::Trace);
    assert_eq!(LogLevel::default(), LogLevel::Notice);
}

#[test]
fn empty_configuration_has_no_arguments() {
    assert!(command_arguments(&Configuration::default()).is_empty());
    let c = Configuration { log_level: None, server: Some(Server::default()), devices: Some(vec![]) };
    assert!(command_arguments(&c).is_empty());
}

#[test]
fn full_configuration_arguments_in_order() {
    let c = Configuration {
        log_level: Some(LogLevel::Debug),
        server: Some(Server { config: Some(s("/etc/openrgb")), profile: Some(s("desk")), port: Some(6742) }),
        devices: Some(vec![
            Device {
                device: Some(s("0")),
                zone: Some(2),
                color: Some(vec![s("FF0000"), s("00FF00"), s("0000FF")]),
                mode: Some(s("static")),
                brightness: Some(80),
                size: Some(12),
            },
            device("keyboard"),
        ]),
    };
    let expected: Vec<String> = [
        "--server-port", "6742", "--config", "/etc/openrgb", "--profile", "desk", "--device", "0",
        "--zone", "2", "--color", "FF0000,00FF00,0000FF", "--mode", "static", "--brightness", "80",
        "--size", "12", "--device", "keyboard",
    ]
    .iter()
    .map(|x| x.to_string())
    .collect();
    assert_eq!(command_arguments(&c), expected);
}

#[test]
fn colors_join_with_commas() {
    assert_eq!(join_colors(&vec![]), "");
    assert_eq!(join_colors(&vec![s("random")]), "random");
    assert_eq!(join_colors(&vec![s("a"), s("b")]), "a,b");
}

#[test]
fn passthrough_overrides_file() {
    let file = Configuration {
        log_level: None,
        server: Some(Server { config: Some(s("/from/file")), profile: Some(s("file")), port: Some(1) }),
        devices: Some(vec![device("a")]),
    };
    let p = Passthrough { server_port: Some(7000), device: Some(device("b")), profile: None, config: Some(s("/cli")) };
    let r = resolve_configuration(file, Some(p), Some(LogLevel::Error));
    let server = r.server.expect("server");
    assert_eq!(server.port, Some(7000));
    assert_eq!(server.profile, Some(s("file")));
    assert_eq!(server.config, Some(s("/cli")));
    let names: Vec<Option<String>> = r.devices.expect("devices").into_iter().map(|d| d.device).collect();
    assert_eq!(names, vec![Some(s("a")), Some(s("b"))]);
    assert_eq!(r.log_level, Some(LogLevel::Error));
}

#[test]
fn passthrough_creates_server_and_devices() {
    let p = Passthrough { server_port: None, device: Some(device("x")), profile: Some(s("p")), config: None };
    let r = resolve_configuration(Configuration::default(), Some(p), None);
    let server = r.server.expect("server");
    assert_eq!(server.port, None);
    assert_eq!(server.profile, Some(s("p")));
    assert_eq!(server.config, None);
    assert_eq!(r.devices.expect("devices").len(), 1);
    assert_eq!(r.log_level, None);
}

#[test]
fn empty_passthrough_leaves_file_alone() {
    let p = Passthrough { server_port: None, device: None, profile: None, config: None };
    let r = resolve_configuration(Configuration::default(), Some(p), None);
    assert!(r.server.is_none());
    assert!(r.devices.is_none());
}

#[test]
fn file_log_level_wins_over_command_line() {
    let file = Configuration { log_level: Some(LogLevel::Warning), server: None, devices: None };
    let r = resolve_configuration(file, None, Some(LogLevel::Debug));
    assert_eq!(r.log_level, Some(LogLevel::Warning));
    let args = Arguments { config_file: None, log_level: Some(LogLevel::Debug), passthrough_options: None, binary: s("openrgb") };
    let r = resolve_configuration(Configuration::default(), args.passthrough_options, args.log_level);
    assert_eq!(r.log_level, Some(LogLevel::Debug));
}
