use grin::config::default_config;
use grin::config::resolve_config;
use grin::config::CliOverrides;
use grin::config::ConfigError;
use grin::config::ConfigFileRead;
use grin::config::FileConfig;
use grin::config::Seeding;
use grin::config::DEFAULT_CUCKOO_SIZE;
use grin::config::DEFAULT_PORT;

fn no_cli() -> CliOverrides {
    CliOverrides { port: None, mine: false, seed: None }
}

fn empty_file() -> FileConfig {
    FileConfig { port: None, enable_mining: None, seeding_type: None, cuckoo_size: None }
}

#[test]
fn defaults() {
    let c = default_config();
    assert_eq!(c.p2p_config.port, DEFAULT_PORT);
    assert!(!c.mining_config.enable_mining);
    assert!(matches!(c.seeding_type, Seeding::WebStatic));
    assert_eq!(c.cuckoo_size, DEFAULT_CUCKOO_SIZE);
}

#[test]
fn cli_dominates_file_dominates_default() {
    // File sets port=10, CLI passes --port 20: resolved port is 20.
    let file = FileConfig { port: Some(10), ..empty_file() };
    let cli = CliOverrides { port: Some(20), ..no_cli() };
    let c = resolve_config(ConfigFileRead::Parsed(file), cli).unwrap();
    assert_eq!(c.p2p_config.port, 20);

    // CLI omitted: resolved port is the file's 10.
    let file = FileConfig { port: Some(10), ..empty_file() };
    let c = resolve_config(ConfigFileRead::Parsed(file), no_cli()).unwrap();
    assert_eq!(c.p2p_config.port, 10);

    // No file: resolved port is the default.
    let c = resolve_config(ConfigFileRead::Absent, no_cli()).unwrap();
    assert_eq!(c.p2p_config.port, DEFAULT_PORT);
}

#[test]
fn cli_seed_replaces_file_list_entirely() {
    // File sets List(["a.com","b.com"]); CLI passes --seed c.com:
    // resolved seeding is List(["c.com"]), replaced rather than merged.
    let file = FileConfig {
        seeding_type: Some(Seeding::List(vec!["a.com".to_string(), "b.com".to_string()])),
        ..empty_file()
    };
    let cli = CliOverrides { seed: Some(vec!["c.com".to_string()]), ..no_cli() };
    let c = resolve_config(ConfigFileRead::Parsed(file), cli).unwrap();
    match c.seeding_type {
        Seeding::List(l) => assert_eq!(l, vec!["c.com".to_string()]),
        Seeding::WebStatic => panic!("seeding was not replaced by the CLI list"),
    }
}

#[test]
fn mine_flag_force_enables_mining() {
    let file = FileConfig { enable_mining: Some(false), ..empty_file() };
    let cli = CliOverrides { mine: true, ..no_cli() };
    let c = resolve_config(ConfigFileRead::Parsed(file), cli).unwrap();
    assert!(c.mining_config.enable_mining);
}

#[test]
fn file_mining_applies_without_cli_flag() {
    let file = FileConfig { enable_mining: Some(true), ..empty_file() };
    let c = resolve_config(ConfigFileRead::Parsed(file), no_cli()).unwrap();
    assert!(c.mining_config.enable_mining);
}

#[test]
fn file_cuckoo_size_overrides_default() {
    let file = FileConfig { cuckoo_size: Some(30), ..empty_file() };
    let c = resolve_config(ConfigFileRead::Parsed(file), no_cli()).unwrap();
    assert_eq!(c.cuckoo_size, 30);
}

#[test]
fn malformed_file_is_fatal() {
    let r = resolve_config(ConfigFileRead::Malformed, no_cli());
    assert_eq!(r.unwrap_err(), ConfigError::Parse);
}
