//! The lifecycle manager: the state machine that turns a resolved
//! configuration into a running node (foreground, background daemon, or
//! torn down), entered once per process invocation and never re-entered,
//! and the routing of wallet subcommands to receive-mode registration or
//! send-mode issuance. The outside work each decision calls for (starting
//! the embedded node, forking, writing to a terminal) is carried out by the
//! process around this library; the decisions themselves are made here.
use vstd::prelude::*;
use vstd::utf8::encode_utf8;

use crate::amount::dec_value;
use crate::amount::is_amount;
use crate::amount::parse_amount;
use crate::config::config_resolved;
use crate::config::file_of;
use crate::config::resolve_config;
use crate::config::CliOverrides;
use crate::config::ConfigError;
use crate::config::ConfigFileRead;
use crate::config::ServerConfig;
use crate::endpoints::build_wallet_apis;
use crate::endpoints::ApiServer;
use crate::endpoints::Endpoint;
use crate::keys::derive_wallet_key;
use crate::keys::derived_key;
use crate::keys::ExtendedKey;

verus! {

/// The three mutually exclusive run modes, selected once from the CLI
/// subcommand and never changed within a process lifetime.
#[derive(Clone, Copy, PartialEq, Eq, Structural, Debug)]
pub enum RunMode {
    /// Run the node in the foreground.
    Run,
    /// Detach into a background daemon, then run the node there.
    Start,
    /// Tear the background daemon down.
    Stop,
}

/// The states of one process invocation.
#[derive(Clone, Copy, PartialEq, Eq, Structural, Debug)]
pub enum LifecycleState {
    Idle,
    ResolvingConfig,
    RunningForeground,
    RunningDaemon,
    Stopped,
}

/// A state from which no further transition exists.
pub open spec fn is_terminal(s: LifecycleState) -> bool {
    match s {
        LifecycleState::RunningForeground => true,
        LifecycleState::RunningDaemon => true,
        LifecycleState::Stopped => true,
        _ => false,
    }
}

/// The transition relation of the lifecycle state machine:
/// Idle -> ResolvingConfig -> one of the three terminal states.
pub open spec fn lifecycle_next(s: LifecycleState, s2: LifecycleState) -> bool {
    match (s, s2) {
        (LifecycleState::Idle, LifecycleState::ResolvingConfig) => true,
        (LifecycleState::ResolvingConfig, LifecycleState::RunningForeground) => true,
        (LifecycleState::ResolvingConfig, LifecycleState::RunningDaemon) => true,
        (LifecycleState::ResolvingConfig, LifecycleState::Stopped) => true,
        _ => false,
    }
}

/// The terminal state each run mode enters.
pub open spec fn run_mode_target(mode: RunMode) -> LifecycleState {
    match mode {
        RunMode::Run => LifecycleState::RunningForeground,
        RunMode::Start => LifecycleState::RunningDaemon,
        RunMode::Stop => LifecycleState::Stopped,
    }
}

/// The only step out of `Idle`: begin resolving the configuration.
pub fn begin_invocation(state: LifecycleState) -> (s2: LifecycleState)
    requires
        state == LifecycleState::Idle,
    ensures
        lifecycle_next(state, s2),
        s2 == LifecycleState::ResolvingConfig,
{
    LifecycleState::ResolvingConfig
}

/// Enter the run mode chosen from the CLI, leaving `ResolvingConfig` for
/// the mode's terminal state.
pub fn enter_run_mode(state: LifecycleState, mode: RunMode) -> (s2: LifecycleState)
    requires
        state == LifecycleState::ResolvingConfig,
    ensures
        lifecycle_next(state, s2),
        s2 == run_mode_target(mode),
{
    match mode {
        RunMode::Run => LifecycleState::RunningForeground,
        RunMode::Start => LifecycleState::RunningDaemon,
        RunMode::Stop => LifecycleState::Stopped,
    }
}

/// Law: the state machine is entered once per invocation and never
/// re-entered — no transition leaves a running or stopped state.
pub proof fn law_lifecycle_no_reentry(s: LifecycleState, s2: LifecycleState)
    requires
        is_terminal(s),
    ensures
        !lifecycle_next(s, s2),
{
}

/// What the process around the library must do for a server subcommand.
#[derive(Debug)]
pub enum ServerAction {
    /// Apply the config, start the node in this process, then block
    /// indefinitely until externally terminated.
    RunForeground(ServerConfig),
    /// Detach into a background daemon recording its PID at `pid_file`,
    /// then run the node inside the detached process.
    Daemonize { config: ServerConfig, pid_file: String },
    /// Tearing the daemon down is not implemented here: the operator
    /// signals the OS-level process directly.
    StopHint,
}

/// Decide the server subcommand: resolve the configuration (a malformed
/// config file is fatal before anything is mounted) and map the run mode to
/// the action the surrounding process must take.
pub fn server_command(mode: RunMode, read: ConfigFileRead, cli: CliOverrides) -> (r: Result<
    ServerAction,
    ConfigError,
>)
    ensures
        r is Err <==> read is Malformed,
        r matches Err(e) ==> e == ConfigError::Parse,
        r matches Ok(a) ==> match mode {
            RunMode::Run => a matches ServerAction::RunForeground(c) && config_resolved(
                c,
                file_of(read),
                cli,
            ),
            RunMode::Start => a matches ServerAction::Daemonize { config, pid_file }
                && config_resolved(config, file_of(read), cli) && pid_file@ == "/tmp/grin.pid"@,
            RunMode::Stop => a is StopHint,
        },
{
    let config = match resolve_config(read, cli) {
        Ok(c) => c,
        Err(e) => {
            return Err(e);
        },
    };
    match mode {
        RunMode::Run => Ok(ServerAction::RunForeground(config)),
        RunMode::Start => Ok(
            ServerAction::Daemonize { config, pid_file: "/tmp/grin.pid".to_owned() },
        ),
        RunMode::Stop => Ok(ServerAction::StopHint),
    }
}

/// The wallet subcommands this core routes.
#[derive(Debug)]
pub enum WalletSubcommand {
    /// Run the wallet in receiving mode.
    Receive,
    /// Build a transaction sending `amount`, to stdout by default or to a
    /// destination server when one is given.
    Send { amount: Option<String>, dest: Option<String> },
}

/// The wallet part of the command line.
#[derive(Debug)]
pub struct WalletCliArgs {
    /// Passphrase used to generate the private key seed.
    pub pass: Option<String>,
    pub subcommand: WalletSubcommand,
}

/// Where a built transaction goes: the default-vs-override decision made
/// once from the CLI flag.
#[derive(Debug)]
pub enum SendDestination {
    /// Write the constructed transaction to the standard output stream.
    Stdout,
    /// Issue it to a receiver at this address.
    Remote(String),
}

/// What the process around the library must do for a wallet subcommand.
#[derive(Debug)]
pub enum WalletAction {
    /// Serve the receiving endpoint, bound to the fixed local address.
    Receive { server: ApiServer, bind_addr: String },
    /// Hand the key, amount and destination to transaction issuance.
    Send { key: ExtendedKey, amount: u64, dest: SendDestination },
}

/// A wallet subcommand could not proceed.
#[derive(Clone, Copy, PartialEq, Eq, Structural, Debug)]
pub enum WalletError {
    /// No passphrase was supplied.
    MissingPassphrase,
    /// No amount to send was supplied.
    MissingAmount,
    /// The amount did not parse as a whole number in range.
    InvalidAmount,
}

/// The key material the wallet derives from a passphrase.
pub open spec fn wallet_key_of(pass: Seq<char>) -> Seq<u8> {
    derived_key(encode_utf8(pass))
}

/// The chosen destination honours the CLI flag: stdout by default, the
/// given address when one was passed.
pub open spec fn send_dest_ok(dest: Option<Seq<char>>, d: SendDestination) -> bool {
    match dest {
        None => d is Stdout,
        Some(ds) => d matches SendDestination::Remote(x) && x@ == ds,
    }
}

/// Decide a wallet subcommand: derive the key from the passphrase (failing
/// without one), then either build the receiving server or resolve the
/// amount and destination of a send. Issuing the transaction or serving the
/// endpoint is the surrounding process's work.
pub fn wallet_command(args: WalletCliArgs) -> (r: Result<WalletAction, WalletError>)
    ensures
        r == Err::<WalletAction, WalletError>(WalletError::MissingPassphrase) <==> args.pass
            is None,
        args.pass matches Some(p) ==> match args.subcommand {
            WalletSubcommand::Receive => r matches Ok(a) && a matches WalletAction::Receive {
                server,
                bind_addr,
            } && server.wf() && server.base_path@ == "/v1"@ && server.mounts@.len() == 1
                && server.mounts@[0].0@ == "/receive_coinbase"@ && (server.mounts@[0].1
                matches Endpoint::WalletReceive(w) && w.key.key@ == wallet_key_of(p@)
                && w.key.well_formed()) && bind_addr@ == "127.0.0.1:13416"@,
            WalletSubcommand::Send { amount, dest } => match amount {
                None => r == Err::<WalletAction, WalletError>(WalletError::MissingAmount),
                Some(s) => if is_amount(s@) && dec_value(s@) <= u64::MAX {
                    r matches Ok(a) && a matches WalletAction::Send { key, amount: n, dest: d }
                        && key.key@ == wallet_key_of(p@) && key.well_formed() && n == dec_value(s@)
                        && send_dest_ok(
                        match dest {
                            Some(ds) => Some(ds@),
                            None => None,
                        },
                        d,
                    )
                } else {
                    r == Err::<WalletAction, WalletError>(WalletError::InvalidAmount)
                },
            },
        },
{
    let pass_ref: Option<&str> = match &args.pass {
        Some(s) => Some(s.as_str()),
        None => None,
    };
    let key = match derive_wallet_key(pass_ref) {
        Ok(k) => k,
        Err(_) => {
            return Err(WalletError::MissingPassphrase);
        },
    };
    match args.subcommand {
        WalletSubcommand::Receive => {
            let server = build_wallet_apis(key);
            Ok(WalletAction::Receive { server, bind_addr: "127.0.0.1:13416".to_owned() })
        },
        WalletSubcommand::Send { amount, dest } => {
            let s = match amount {
                Some(s) => s,
                None => {
                    return Err(WalletError::MissingAmount);
                },
            };
            let n = match parse_amount(s.as_str()) {
                Ok(n) => n,
                Err(_) => {
                    return Err(WalletError::InvalidAmount);
                },
            };
            let d = match dest {
                Some(ds) => SendDestination::Remote(ds),
                None => SendDestination::Stdout,
            };
            Ok(WalletAction::Send { key, amount: n, dest: d })
        },
    }
}

} // verus!
