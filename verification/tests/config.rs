use holdmybackup::config::args::{recursive_modes, Opt};
use holdmybackup::config::{Config, Opt as AddressOpt};

#[test]
fn options_default() {
    let opt = Opt::args(None, None, None, None);
    assert_eq!(opt.address, "127.0.0.1:9090");
    assert_eq!(opt.config_path, "./config.yaml");
    assert_eq!(opt.recursive_mode, "nonrecursive");
    assert_eq!(opt.log_level, "info");
}

#[test]
fn options_given_are_kept() {
    let opt = Opt::args(
        Some("0.0.0.0:8080".to_string()),
        Some("/etc/hmb.yaml".to_string()),
        Some("recursive".to_string()),
        Some("debug".to_string()),
    );
    assert_eq!(opt.address, "0.0.0.0:8080");
    assert_eq!(opt.config_path, "/etc/hmb.yaml");
    assert_eq!(opt.recursive_mode, "recursive");
    assert_eq!(opt.log_level, "debug");
}

#[test]
fn recursive_modes_listed() {
    assert_eq!(recursive_modes(), vec!["recursive", "nonrecursive"]);
}

#[test]
fn first_layout_types_hold_values() {
    let opt = AddressOpt { address: "127.0.0.1:9090".to_string() };
    assert_eq!(opt.address, "127.0.0.1:9090");
    let cfg = Config {
        backup: holdmybackup::config::Backup {
            strategy: holdmybackup::config::BackupStrategy::KeepEverything,
            backup_path: vec![".".to_string()],
        },
        storage: holdmybackup::config::Storage { backup_path: "backups".to_string(), minio: None },
        verbosity: Some("debug".to_string()),
    };
    assert_eq!(cfg.verbosity, Some("debug".to_string()));
    let without = Config { verbosity: None, ..cfg };
    assert_eq!(without.verbosity, None);
}
