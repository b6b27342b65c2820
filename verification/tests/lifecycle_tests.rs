use grin::config::default_config;
use grin::config::CliOverrides;
use grin::config::ConfigError;
use grin::config::ConfigFileRead;
use grin::config::FileConfig;
use grin::endpoints::Endpoint;
use grin::lifecycle::begin_invocation;
use grin::lifecycle::enter_run_mode;
use grin::lifecycle::server_command;
use grin::lifecycle::wallet_command;
use grin::lifecycle::LifecycleState;
use grin::lifecycle::RunMode;
use grin::lifecycle::SendDestination;
use grin::lifecycle::ServerAction;
use grin::lifecycle::WalletAction;
use grin::lifecycle::WalletCliArgs;
use grin::lifecycle::WalletError;
use grin::lifecycle::WalletSubcommand;

fn no_cli() -> CliOverrides {
    CliOverrides { port: None, mine: false, seed: None }
}

#[test]
fn run_mode_goes_foreground_with_resolved_config() {
    let a = server_command(RunMode::Run, ConfigFileRead::Absent, no_cli()).unwrap();
    match a {
        ServerAction::RunForeground(c) => {
            assert_eq!(c.p2p_config.port, default_config().p2p_config.port)
        },
        _ => panic!("expected a foreground run"),
    }
}

#[test]
fn start_mode_daemonizes_with_pid_file() {
    let cli = CliOverrides { port: Some(7000), ..no_cli() };
    let a = server_command(RunMode::Start, ConfigFileRead::Absent, cli).unwrap();
    match a {
        ServerAction::Daemonize { config, pid_file } => {
            assert_eq!(config.p2p_config.port, 7000);
            assert_eq!(pid_file, "/tmp/grin.pid");
        },
        _ => panic!("expected daemonization"),
    }
}

#[test]
fn stop_mode_is_a_hint_only() {
    let a = server_command(RunMode::Stop, ConfigFileRead::Absent, no_cli()).unwrap();
    assert!(matches!(a, ServerAction::StopHint));
}

#[test]
fn malformed_config_stops_every_mode() {
    for mode in [RunMode::Run, RunMode::Start, RunMode::Stop] {
        let r = server_command(mode, ConfigFileRead::Malformed, no_cli());
        assert_eq!(r.unwrap_err(), ConfigError::Parse);
    }
}

#[test]
fn config_file_values_reach_the_run_action() {
    let file = FileConfig {
        port: Some(10),
        enable_mining: None,
        seeding_type: None,
        cuckoo_size: None,
    };
    let a = server_command(RunMode::Run, ConfigFileRead::Parsed(file), no_cli()).unwrap();
    match a {
        ServerAction::RunForeground(c) => assert_eq!(c.p2p_config.port, 10),
        _ => panic!("expected a foreground run"),
    }
}

#[test]
fn lifecycle_enters_each_mode_once() {
    let s = begin_invocation(LifecycleState::Idle);
    assert_eq!(s, LifecycleState::ResolvingConfig);
    assert_eq!(enter_run_mode(s, RunMode::Run), LifecycleState::RunningForeground);
    assert_eq!(enter_run_mode(s, RunMode::Start), LifecycleState::RunningDaemon);
    assert_eq!(enter_run_mode(s, RunMode::Stop), LifecycleState::Stopped);
}

#[test]
fn wallet_requires_a_passphrase() {
    let args = WalletCliArgs { pass: None, subcommand: WalletSubcommand::Receive };
    assert_eq!(wallet_command(args).unwrap_err(), WalletError::MissingPassphrase);
}

#[test]
fn wallet_receive_builds_the_receiving_server() {
    let args = WalletCliArgs {
        pass: Some("receive pass".to_string()),
        subcommand: WalletSubcommand::Receive,
    };
    match wallet_command(args).unwrap() {
        WalletAction::Receive { server, bind_addr } => {
            assert_eq!(bind_addr, "127.0.0.1:13416");
            assert_eq!(server.mounts.len(), 1);
            assert_eq!(server.mounts[0].0, "/receive_coinbase");
            assert!(matches!(server.mounts[0].1, Endpoint::WalletReceive(_)));
        },
        _ => panic!("expected receiving mode"),
    }
}

#[test]
fn wallet_send_defaults_to_stdout() {
    let args = WalletCliArgs {
        pass: Some("send pass".to_string()),
        subcommand: WalletSubcommand::Send { amount: Some("100".to_string()), dest: None },
    };
    match wallet_command(args).unwrap() {
        WalletAction::Send { amount, dest, .. } => {
            assert_eq!(amount, 100);
            assert!(matches!(dest, SendDestination::Stdout));
        },
        _ => panic!("expected send mode"),
    }
}

#[test]
fn wallet_send_honours_an_explicit_destination() {
    let args = WalletCliArgs {
        pass: Some("send pass".to_string()),
        subcommand: WalletSubcommand::Send {
            amount: Some("42".to_string()),
            dest: Some("10.0.0.1:13415".to_string()),
        },
    };
    match wallet_command(args).unwrap() {
        WalletAction::Send { amount, dest, .. } => {
            assert_eq!(amount, 42);
            match dest {
                SendDestination::Remote(addr) => assert_eq!(addr, "10.0.0.1:13415"),
                SendDestination::Stdout => panic!("destination flag was ignored"),
            }
        },
        _ => panic!("expected send mode"),
    }
}

#[test]
fn wallet_send_amount_errors() {
    let args = WalletCliArgs {
        pass: Some("p".to_string()),
        subcommand: WalletSubcommand::Send { amount: None, dest: None },
    };
    assert_eq!(wallet_command(args).unwrap_err(), WalletError::MissingAmount);
    let args = WalletCliArgs {
        pass: Some("p".to_string()),
        subcommand: WalletSubcommand::Send { amount: Some("ten".to_string()), dest: None },
    };
    assert_eq!(wallet_command(args).unwrap_err(), WalletError::InvalidAmount);
}
