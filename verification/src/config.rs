//! Configuration resolution: a hard-coded default, optional values from an
//! on-disk config file, and CLI overrides, merged into one immutable
//! `ServerConfig` snapshot. CLI values strictly dominate file values, which
//! strictly dominate defaults.
use vstd::prelude::*;

verus! {

/// Default p2p port used when neither the config file nor the CLI sets one.
pub const DEFAULT_PORT: u16 = 13414;

/// Default cuckoo cycle size used when the config file does not set one.
pub const DEFAULT_CUCKOO_SIZE: u32 = 12;

/// Peer discovery strategy at startup.
#[derive(Debug)]
pub enum Seeding {
    /// Discover peers from a web-hosted list.
    WebStatic,
    /// Connect to an explicit, ordered list of seed addresses.
    List(Vec<String>),
}

/// Mathematical model of a `Seeding` value.
pub enum SeedingV {
    WebStatic,
    List(Seq<Seq<char>>),
}

impl View for Seeding {
    type V = SeedingV;

    open spec fn view(&self) -> SeedingV {
        match self {
            Seeding::WebStatic => SeedingV::WebStatic,
            Seeding::List(v) => SeedingV::List(v.deep_view()),
        }
    }
}

#[derive(Debug)]
pub struct P2PConfig {
    pub port: u16,
}

#[derive(Debug)]
pub struct MiningConfig {
    pub enable_mining: bool,
}

/// The immutable configuration snapshot a run mode receives. Resolved once
/// per invocation and never mutated afterwards.
#[derive(Debug)]
pub struct ServerConfig {
    pub p2p_config: P2PConfig,
    pub mining_config: MiningConfig,
    pub seeding_type: Seeding,
    pub cuckoo_size: u32,
}

/// Values an on-disk config file may set; a field left out of the file is
/// `None` and falls back to the default.
#[derive(Debug)]
pub struct FileConfig {
    pub port: Option<u16>,
    pub enable_mining: Option<bool>,
    pub seeding_type: Option<Seeding>,
    pub cuckoo_size: Option<u32>,
}

/// Explicit CLI overrides, applied last and at finest granularity.
#[derive(Debug)]
pub struct CliOverrides {
    /// `--port N`
    pub port: Option<u16>,
    /// `--mine` force-enables mining; its absence leaves the file value.
    pub mine: bool,
    /// `--seed S...` replaces the seeding strategy entirely.
    pub seed: Option<Vec<String>>,
}

/// Outcome of looking for the config file at its well-known location.
#[derive(Debug)]
pub enum ConfigFileRead {
    /// No file exists; defaults apply, which is not an error.
    Absent,
    /// A file exists but could not be parsed; fatal, never silently ignored.
    Malformed,
    /// A file exists and parsed into these values.
    Parsed(FileConfig),
}

/// A fatal configuration error: the config file was present but malformed.
#[derive(Clone, Copy, PartialEq, Eq, Structural, Debug)]
pub enum ConfigError {
    Parse,
}

/// The port values the file sets, if the file exists and sets one.
pub open spec fn file_port(file: Option<FileConfig>) -> Option<u16> {
    match file {
        Some(fc) => fc.port,
        None => None,
    }
}

pub open spec fn file_mining(file: Option<FileConfig>) -> Option<bool> {
    match file {
        Some(fc) => fc.enable_mining,
        None => None,
    }
}

pub open spec fn file_seeding(file: Option<FileConfig>) -> Option<Seeding> {
    match file {
        Some(fc) => fc.seeding_type,
        None => None,
    }
}

pub open spec fn file_cuckoo(file: Option<FileConfig>) -> Option<u32> {
    match file {
        Some(fc) => fc.cuckoo_size,
        None => None,
    }
}

pub open spec fn resolved_port(file: Option<FileConfig>, cli: CliOverrides) -> u16 {
    match cli.port {
        Some(p) => p,
        None => match file_port(file) {
            Some(p) => p,
            None => DEFAULT_PORT,
        },
    }
}

pub open spec fn resolved_mining(file: Option<FileConfig>, cli: CliOverrides) -> bool {
    if cli.mine {
        true
    } else {
        match file_mining(file) {
            Some(m) => m,
            None => false,
        }
    }
}

pub open spec fn resolved_seeding(file: Option<FileConfig>, cli: CliOverrides) -> SeedingV {
    match cli.seed {
        Some(s) => SeedingV::List(s.deep_view()),
        None => match file_seeding(file) {
            Some(st) => st@,
            None => SeedingV::WebStatic,
        },
    }
}

pub open spec fn resolved_cuckoo(file: Option<FileConfig>, cli: CliOverrides) -> u32 {
    match file_cuckoo(file) {
        Some(c) => c,
        None => DEFAULT_CUCKOO_SIZE,
    }
}

/// A snapshot is exactly the resolution of the given file values and CLI
/// overrides, field by field.
pub open spec fn config_resolved(c: ServerConfig, file: Option<FileConfig>, cli: CliOverrides) -> bool {
    &&& c.p2p_config.port == resolved_port(file, cli)
    &&& c.mining_config.enable_mining == resolved_mining(file, cli)
    &&& c.seeding_type@ == resolved_seeding(file, cli)
    &&& c.cuckoo_size == resolved_cuckoo(file, cli)
}

/// The file values a read outcome carries, if any.
pub open spec fn file_of(read: ConfigFileRead) -> Option<FileConfig> {
    match read {
        ConfigFileRead::Parsed(f) => Some(f),
        _ => None,
    }
}

/// The hard-coded default configuration: static-web seeding, mining
/// disabled, fixed cuckoo size and port.
pub fn default_config() -> (c: ServerConfig)
    ensures
        c.p2p_config.port == DEFAULT_PORT,
        !c.mining_config.enable_mining,
        c.seeding_type@ == SeedingV::WebStatic,
        c.cuckoo_size == DEFAULT_CUCKOO_SIZE,
{
    ServerConfig {
        p2p_config: P2PConfig { port: DEFAULT_PORT },
        mining_config: MiningConfig { enable_mining: false },
        seeding_type: Seeding::WebStatic,
        cuckoo_size: DEFAULT_CUCKOO_SIZE,
    }
}

/// Merge defaults, optional file values and CLI overrides into one snapshot.
pub fn apply_overrides(file: Option<FileConfig>, cli: CliOverrides) -> (c: ServerConfig)
    ensures
        c.p2p_config.port == resolved_port(file, cli),
        c.mining_config.enable_mining == resolved_mining(file, cli),
        c.seeding_type@ == resolved_seeding(file, cli),
        c.cuckoo_size == resolved_cuckoo(file, cli),
{
    let mut c = default_config();
    if let Some(f) = file {
        if let Some(p) = f.port {
            c.p2p_config.port = p;
        }
        if let Some(m) = f.enable_mining {
            c.mining_config.enable_mining = m;
        }
        if let Some(st) = f.seeding_type {
            c.seeding_type = st;
        }
        if let Some(cs) = f.cuckoo_size {
            c.cuckoo_size = cs;
        }
    }
    if let Some(p) = cli.port {
        c.p2p_config.port = p;
    }
    if cli.mine {
        c.mining_config.enable_mining = true;
    }
    if let Some(s) = cli.seed {
        c.seeding_type = Seeding::List(s);
    }
    c
}

/// Resolve the whole configuration from what was found on disk and the CLI.
/// An absent file is not an error; a malformed file is fatal and is
/// surfaced, never silently replaced by defaults.
pub fn resolve_config(read: ConfigFileRead, cli: CliOverrides) -> (r: Result<
    ServerConfig,
    ConfigError,
>)
    ensures
        r is Err <==> read is Malformed,
        r matches Err(e) ==> e == ConfigError::Parse,
        r matches Ok(c) ==> config_resolved(c, file_of(read), cli),
{
    match read {
        ConfigFileRead::Absent => Ok(apply_overrides(None, cli)),
        ConfigFileRead::Malformed => Err(ConfigError::Parse),
        ConfigFileRead::Parsed(f) => Ok(apply_overrides(Some(f), cli)),
    }
}

/// Law: CLI overrides strictly dominate file values, which strictly
/// dominate defaults, field by field; and an explicit `--seed` list
/// replaces the seeding strategy entirely, whatever the file said.
pub proof fn law_config_precedence(file: FileConfig, cli: CliOverrides)
    ensures
        cli.port matches Some(p) ==> resolved_port(Some(file), cli) == p,
        file.port matches Some(p) ==> (cli.port is None ==> resolved_port(Some(file), cli) == p),
        cli.port is None && file.port is None ==> resolved_port(Some(file), cli) == DEFAULT_PORT,
        cli.mine ==> resolved_mining(Some(file), cli),
        file.enable_mining matches Some(m) ==> (!cli.mine ==> resolved_mining(Some(file), cli)
            == m),
        !cli.mine && file.enable_mining is None ==> !resolved_mining(Some(file), cli),
        cli.seed matches Some(s) ==> resolved_seeding(Some(file), cli) == SeedingV::List(
            s.deep_view(),
        ),
        file.seeding_type matches Some(st) ==> (cli.seed is None ==> resolved_seeding(
            Some(file),
            cli,
        ) == st@),
        cli.seed is None && file.seeding_type is None ==> resolved_seeding(Some(file), cli)
            == SeedingV::WebStatic,
{
}

} // verus!
