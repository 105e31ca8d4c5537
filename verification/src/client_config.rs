//! The client document: how this node is run.

use crate::arguments::read_optional;
use crate::datadir::join;
use crate::datadir::join_spec;
use crate::datadir::DEFAULT_DATA_DIR;
use crate::effects::LogLevel;
use crate::error::ConfigError;
use crate::error::ConfigErrorView;
use crate::eth2_config::MINIMAL;
use crate::home::home_dir;
use crate::text::optional_text;
use vstd::prelude::*;
use vstd::string::StringExecFns;

verus! {

/// The port that the node listens on for peers unless told otherwise.
pub const DEFAULT_LIBP2P_PORT: u16 = 9000;

/// The RPC server's port unless told otherwise.
pub const DEFAULT_RPC_PORT: u16 = 5051;

/// The REST API's port unless told otherwise.
pub const DEFAULT_REST_API_PORT: u16 = 5052;

/// The address `127.0.0.1` as the 32 bits of an IPv4 address.
pub const LOCALHOST: u32 = 0x7f00_0001;

/// The name of the database inside its directory unless told otherwise.
pub const DEFAULT_DB_NAME: &'static str = "chain.db";

/// How the beacon chain comes to life when the node starts. Exactly one of
/// the four holds for a run.
#[derive(Clone, Debug, PartialEq, Eq)]
pub enum StartMethod {
    /// Go on with the database of an existing data directory.
    Resume,
    /// Take the configuration and a first peer from a running server.
    HttpBootstrap { server: String, port: Option<u16> },
    /// Make a genesis state dated `minutes` before now.
    RecentGenesis { validator_count: usize, minutes: u64 },
    /// Make a genesis state at the time `genesis_time`.
    Generated { validator_count: usize, genesis_time: u64 },
}

/// A `StartMethod` with its server as a sequence of characters.
pub enum StartMethodView {
    Resume,
    HttpBootstrap { server: Seq<char>, port: Option<u16> },
    RecentGenesis { validator_count: usize, minutes: u64 },
    Generated { validator_count: usize, genesis_time: u64 },
}

impl View for StartMethod {
    type V = StartMethodView;

    open spec fn view(&self) -> StartMethodView {
        match self {
            StartMethod::Resume => StartMethodView::Resume,
            StartMethod::HttpBootstrap { server, port } => StartMethodView::HttpBootstrap {
                server: server@,
                port: *port,
            },
            StartMethod::RecentGenesis { validator_count, minutes } => {
                StartMethodView::RecentGenesis {
                    validator_count: *validator_count,
                    minutes: *minutes,
                }
            },
            StartMethod::Generated { validator_count, genesis_time } => {
                StartMethodView::Generated {
                    validator_count: *validator_count,
                    genesis_time: *genesis_time,
                }
            },
        }
    }
}

impl StartMethod {
    /// A copy of this start method.
    pub fn duplicate(&self) -> (copy: StartMethod)
        ensures
            copy@ == self@,
    {
        match self {
            StartMethod::Resume => StartMethod::Resume,
            StartMethod::HttpBootstrap { server, port } => StartMethod::HttpBootstrap {
                server: server.clone(),
                port: *port,
            },
            StartMethod::RecentGenesis { validator_count, minutes } => {
                StartMethod::RecentGenesis {
                    validator_count: *validator_count,
                    minutes: *minutes,
                }
            },
            StartMethod::Generated { validator_count, genesis_time } => StartMethod::Generated {
                validator_count: *validator_count,
                genesis_time: *genesis_time,
            },
        }
    }
}

/// Where the chain's data is kept.
#[derive(Clone, Copy, Debug, PartialEq, Eq, Structural)]
pub enum DatabaseKind {
    /// In memory only: there is no database path.
    Memory,
    /// On disk, under the data directory.
    Disk,
}

/// How the node picks the head of the chain among forks.
#[derive(Clone, Copy, Debug, PartialEq, Eq, Structural)]
pub enum ForkChoiceAlgorithm {
    /// The longest chain wins.
    LongestChain,
    /// The heaviest branch by latest votes, found the plain way.
    SlowLMDGhost,
    /// The heaviest branch by latest votes, found with cached ancestors.
    OptimizedLMDGhost,
    /// The heaviest branch by latest votes, found bit by bit.
    BitwiseLMDGhost,
}

/// An IP address, as the bits of its number.
#[derive(Clone, Copy, Debug, PartialEq, Eq, Structural)]
pub enum IpAddress {
    V4(u32),
    V6(u128),
}

/// An address and TCP port that the node listens on.
#[derive(Clone, Copy, Debug, PartialEq, Eq, Structural)]
pub struct ListenAddress {
    pub ip: IpAddress,
    pub port: u16,
}

/// A peer to dial when the node starts.
#[derive(Clone, Debug, PartialEq, Eq)]
pub enum BootNode {
    /// A peer given by its full network address, in text.
    Address { multiaddr: String },
    /// The peer behind a bootstrap server, listening on `port`.
    Server { server: String, port: u16 },
}

/// A `BootNode` with its texts as sequences of characters.
pub enum BootNodeView {
    Address { multiaddr: Seq<char> },
    Server { server: Seq<char>, port: u16 },
}

impl View for BootNode {
    type V = BootNodeView;

    open spec fn view(&self) -> BootNodeView {
        match self {
            BootNode::Address { multiaddr } => BootNodeView::Address { multiaddr: multiaddr@ },
            BootNode::Server { server, port } => BootNodeView::Server {
                server: server@,
                port: *port,
            },
        }
    }
}

impl BootNode {
    /// A copy of this peer.
    pub fn duplicate(&self) -> (copy: BootNode)
        ensures
            copy@ == self@,
    {
        match self {
            BootNode::Address { multiaddr } => BootNode::Address { multiaddr: multiaddr.clone() },
            BootNode::Server { server, port } => BootNode::Server {
                server: server.clone(),
                port: *port,
            },
        }
    }
}

/// The views of a list of peers, in order.
pub open spec fn boot_nodes_view(nodes: Seq<BootNode>) -> Seq<BootNodeView> {
    nodes.map_values(|node: BootNode| node@)
}

/// The network settings.
#[derive(Clone, Debug, PartialEq, Eq)]
pub struct NetworkConfig {
    pub listen_addresses: Vec<ListenAddress>,
    pub libp2p_port: u16,
    pub discovery_port: u16,
    pub boot_nodes: Vec<BootNode>,
}

/// A `NetworkConfig` with its lists as sequences.
pub struct NetworkConfigView {
    pub listen_addresses: Seq<ListenAddress>,
    pub libp2p_port: u16,
    pub discovery_port: u16,
    pub boot_nodes: Seq<BootNodeView>,
}

impl View for NetworkConfig {
    type V = NetworkConfigView;

    open spec fn view(&self) -> NetworkConfigView {
        NetworkConfigView {
            listen_addresses: self.listen_addresses@,
            libp2p_port: self.libp2p_port,
            discovery_port: self.discovery_port,
            boot_nodes: boot_nodes_view(self.boot_nodes@),
        }
    }
}

/// The settings of the RPC server.
#[derive(Clone, Copy, Debug, PartialEq, Eq, Structural)]
pub struct RpcConfig {
    pub enabled: bool,
    /// The IPv4 address to listen on, as its 32 bits.
    pub listen_address: u32,
    pub port: u16,
}

/// The settings of the REST API.
#[derive(Clone, Copy, Debug, PartialEq, Eq, Structural)]
pub struct RestApiConfig {
    pub port: u16,
}

/// The client document.
#[derive(Clone, Debug, PartialEq, Eq)]
pub struct ClientConfig {
    pub data_dir: String,
    pub db_type: DatabaseKind,
    pub db_name: String,
    pub fork_choice: ForkChoiceAlgorithm,
    /// The name of the set of constants that the node is run with.
    pub spec_constants: String,
    pub beacon_chain_start_method: StartMethod,
    pub network: NetworkConfig,
    pub rpc: RpcConfig,
    pub rest_api: RestApiConfig,
}

/// A `ClientConfig` with its texts and lists as sequences.
pub struct ClientConfigView {
    pub data_dir: Seq<char>,
    pub db_type: DatabaseKind,
    pub db_name: Seq<char>,
    pub fork_choice: ForkChoiceAlgorithm,
    pub spec_constants: Seq<char>,
    pub beacon_chain_start_method: StartMethodView,
    pub network: NetworkConfigView,
    pub rpc: RpcConfig,
    pub rest_api: RestApiConfig,
}

impl View for ClientConfig {
    type V = ClientConfigView;

    open spec fn view(&self) -> ClientConfigView {
        ClientConfigView {
            data_dir: self.data_dir@,
            db_type: self.db_type,
            db_name: self.db_name@,
            fork_choice: self.fork_choice,
            spec_constants: self.spec_constants@,
            beacon_chain_start_method: self.beacon_chain_start_method@,
            network: self.network@,
            rpc: self.rpc,
            rest_api: self.rest_api,
        }
    }
}

impl ClientConfigView {
    /// The path of the database: under the data directory where the database
    /// is kept on disk, none where it is kept in memory.
    pub open spec fn db_path(self) -> Option<Seq<char>> {
        match self.db_type {
            DatabaseKind::Disk => Some(join_spec(self.data_dir, self.db_name)),
            DatabaseKind::Memory => None,
        }
    }
}

/// The default data directory as it is joined to the home directory.
pub const HOME_DATA_DIR: &'static str = ".lighthouse/";

/// The data directory of the client document that a node starts from: the
/// default directory under the home directory, or, without a home
/// directory, the default directory by its bare name.
pub open spec fn default_data_dir(home: Option<Seq<char>>) -> Seq<char> {
    match home {
        Some(home) => join_spec(home, HOME_DATA_DIR@),
        None => DEFAULT_DATA_DIR@,
    }
}

/// The name of the database of the client document that a node starts
/// from: the default name in the default data directory, or, without a home
/// directory, the default name alone.
pub open spec fn default_db_name(home: Option<Seq<char>>) -> Seq<char> {
    match home {
        Some(_) => join_spec(default_data_dir(home), DEFAULT_DB_NAME@),
        None => DEFAULT_DB_NAME@,
    }
}

/// The client document that a node starts from, given the home directory
/// where there is one: the default data directory under it, a database in
/// memory with its default name in that directory, the bitwise fork choice,
/// the constants of small test networks, one listening address on this
/// machine, no peers, and the RPC server switched off.
pub open spec fn default_client_config(home: Option<Seq<char>>) -> ClientConfigView {
    ClientConfigView {
        data_dir: default_data_dir(home),
        db_type: DatabaseKind::Memory,
        db_name: default_db_name(home),
        fork_choice: ForkChoiceAlgorithm::BitwiseLMDGhost,
        spec_constants: MINIMAL@,
        beacon_chain_start_method: StartMethodView::Resume,
        network: NetworkConfigView {
            listen_addresses: seq![
                ListenAddress { ip: IpAddress::V4(LOCALHOST), port: DEFAULT_LIBP2P_PORT },
            ],
            libp2p_port: DEFAULT_LIBP2P_PORT,
            discovery_port: DEFAULT_LIBP2P_PORT,
            boot_nodes: Seq::empty(),
        },
        rpc: RpcConfig { enabled: false, listen_address: LOCALHOST, port: DEFAULT_RPC_PORT },
        rest_api: RestApiConfig { port: DEFAULT_REST_API_PORT },
    }
}

impl ClientConfig {
    /// The built-in client document with the data directory and the name
    /// of the database as given.
    fn built_in(data_dir: String, db_name: String) -> (config: ClientConfig)
        ensures
            config@ == (ClientConfigView {
                data_dir: data_dir@,
                db_name: db_name@,
                ..default_client_config(None)
            }),
    {
        let mut listen_addresses: Vec<ListenAddress> = Vec::new();
        listen_addresses.push(
            ListenAddress { ip: IpAddress::V4(LOCALHOST), port: DEFAULT_LIBP2P_PORT },
        );
        let boot_nodes: Vec<BootNode> = Vec::new();
        let config = ClientConfig {
            data_dir,
            db_type: DatabaseKind::Memory,
            db_name,
            fork_choice: ForkChoiceAlgorithm::BitwiseLMDGhost,
            spec_constants: String::from_str(MINIMAL),
            beacon_chain_start_method: StartMethod::Resume,
            network: NetworkConfig {
                listen_addresses,
                libp2p_port: DEFAULT_LIBP2P_PORT,
                discovery_port: DEFAULT_LIBP2P_PORT,
                boot_nodes,
            },
            rpc: RpcConfig { enabled: false, listen_address: LOCALHOST, port: DEFAULT_RPC_PORT },
            rest_api: RestApiConfig { port: DEFAULT_REST_API_PORT },
        };
        assert(config@.network.listen_addresses =~= default_client_config(
            None,
        ).network.listen_addresses);
        assert(config@.network.boot_nodes =~= default_client_config(None).network.boot_nodes);
        config
    }

    /// The client document that a node starts from where the home
    /// directory is `home`: its data directory is the default directory under
    /// `home`, and its database has the default name in that directory.
    /// Nothing is created on disk.
    pub fn default_in(home: &str) -> (config: ClientConfig)
        ensures
            config@ == default_client_config(Some(home@)),
            config@.data_dir == join_spec(home@, HOME_DATA_DIR@),
            config@.db_name == join_spec(join_spec(home@, HOME_DATA_DIR@), DEFAULT_DB_NAME@),
    {
        let data_dir = join(home, HOME_DATA_DIR);
        let db_name = join(data_dir.as_str(), DEFAULT_DB_NAME);
        ClientConfig::built_in(data_dir, db_name)
    }

    /// The client document that a node starts from where no home directory
    /// is known: the default directory and the default name of the database
    /// stand by their bare names.
    pub fn default_without_home() -> (config: ClientConfig)
        ensures
            config@ == default_client_config(None),
    {
        ClientConfig::built_in(String::from_str(DEFAULT_DATA_DIR), String::from_str(DEFAULT_DB_NAME))
    }

    /// The client document that a node starts from, given the home
    /// directory where there is one.
    pub fn default_for(home: &Option<String>) -> (config: ClientConfig)
        ensures
            config@ == default_client_config(optional_text(*home)),
    {
        match home {
            Some(home) => ClientConfig::default_in(home.as_str()),
            None => ClientConfig::default_without_home(),
        }
    }
}

impl Default for ClientConfig {
    /// The client document that a node starts from on this machine: the
    /// home directory is asked for, and the document is the one for it, or
    /// the one without a home directory where there is none.
    fn default() -> (config: ClientConfig)
        ensures
            exists|home: Option<Seq<char>>| config@ == #[trigger] default_client_config(home),
    {
        let home = home_dir();
        ClientConfig::default_for(&home)
    }
}

impl ClientConfig {
    /// The path of the database, where the document names one.
    pub fn db_path(&self) -> (path: Option<String>)
        ensures
            match self@.db_path() {
                Some(expected) => path is Some && path->0@ == expected,
                None => path is None,
            },
    {
        match self.db_type {
            DatabaseKind::Disk => Some(join(self.data_dir.as_str(), self.db_name.as_str())),
            DatabaseKind::Memory => None,
        }
    }
}

/// The flag that sets the port to listen on for peers.
pub const FLAG_PORT: &'static str = "port";

/// The flag that sets the address to listen on for peers.
pub const FLAG_LISTEN_ADDRESS: &'static str = "listen-address";

/// The flag that names a peer to dial.
pub const FLAG_BOOT_NODES: &'static str = "boot-nodes";

/// The flag that sets the address of the RPC server.
pub const FLAG_RPC_ADDRESS: &'static str = "rpc-address";

/// The flag that sets the RPC server's port.
pub const FLAG_RPC_PORT: &'static str = "rpc-port";

/// An address flag: the text that was given, and the address that the text
/// stands for, where it stands for one.
#[derive(Clone, Debug, PartialEq, Eq)]
pub struct GivenAddress {
    pub raw: String,
    pub address: Option<IpAddress>,
}

/// A peer flag: the text that was given, and the network address that the
/// text stands for, where it stands for one.
#[derive(Clone, Debug, PartialEq, Eq)]
pub struct GivenPeer {
    pub raw: String,
    /// The address in the text form that `multiaddr` writes it in.
    pub address: Option<String>,
}

/// The network address that the `multiaddr` crate reads a text as, written
/// out again as the crate writes it; nothing where the crate refuses the
/// text.
pub uninterp spec fn multiaddr_of(text: Seq<char>) -> Option<Seq<char>>;

/// Reads a text as a network address with `multiaddr::Multiaddr::from_str`
/// and writes the address out again with its `Display`.
///
/// Believed, not proved: what comes back depends on the text alone. Which
/// texts are addresses, and how an address is written, is the crate's to
/// say.
#[verifier::external_body]
fn read_multiaddr(text: &str) -> (address: Option<String>)
    ensures
        optional_text(address) == multiaddr_of(text@),
{
    match text.parse::<multiaddr::Multiaddr>() {
        Ok(address) => Some(address.to_string()),
        Err(_) => None,
    }
}

impl GivenPeer {
    /// The peer flag for the text `raw`: the text, and the network address
    /// that it is read as, where it is read as one.
    pub fn read(raw: &str) -> (given: GivenPeer)
        ensures
            given.raw@ == raw@,
            optional_text(given.address) == multiaddr_of(raw@),
    {
        GivenPeer { raw: String::from_str(raw), address: read_multiaddr(raw) }
    }
}

/// The flags of a node that runs on built-in settings, as they were given.
#[derive(Clone, Debug, PartialEq, Eq)]
pub struct ClientArgs {
    /// How often `-v` was given.
    pub verbosity: u64,
    pub port: Option<String>,
    pub listen_address: Option<GivenAddress>,
    pub boot_nodes: Option<GivenPeer>,
    pub datadir: Option<String>,
    /// Whether `--rpc` was given.
    pub rpc: bool,
    pub rpc_address: Option<GivenAddress>,
    pub rpc_port: Option<String>,
}

/// The level of the log for `verbosity` times `-v`: information without
/// any, then debugging, then everything.
pub open spec fn level_for(verbosity: u64) -> LogLevel {
    if verbosity == 0 {
        LogLevel::Info
    } else if verbosity == 1 {
        LogLevel::Debug
    } else {
        LogLevel::Trace
    }
}

/// The first of the flags that cannot be read, with its text: the port, the
/// listening address, the peer, the address of the RPC server, which must be
/// an IPv4 address, and the RPC server's port, in this order.
pub open spec fn first_unreadable(args: ClientArgs) -> Option<(Seq<char>, Seq<char>)> {
    if args.port is Some && read_port(args.port) is None {
        Some((FLAG_PORT@, args.port->0@))
    } else if args.listen_address is Some && args.listen_address->0.address is None {
        Some((FLAG_LISTEN_ADDRESS@, args.listen_address->0.raw@))
    } else if args.boot_nodes is Some && args.boot_nodes->0.address is None {
        Some((FLAG_BOOT_NODES@, args.boot_nodes->0.raw@))
    } else if args.rpc_address is Some && !(args.rpc_address->0.address is Some
        && args.rpc_address->0.address->0 is V4) {
        Some((FLAG_RPC_ADDRESS@, args.rpc_address->0.raw@))
    } else if args.rpc_port is Some && read_port(args.rpc_port) is None {
        Some((FLAG_RPC_PORT@, args.rpc_port->0@))
    } else {
        None
    }
}

/// The port that a text stands for, where it is a numeral within 16 bits.
pub open spec fn read_port(raw: Option<String>) -> Option<u16> {
    match raw {
        Some(text) => match crate::decimal::read_number(text@, u16::MAX as nat) {
            Some(port) => Some(port as u16),
            None => None,
        },
        None => None,
    }
}

/// The client document that the flags give, where each can be read and
/// the home directory is `home`: the one that a node starts from, with
/// - the port to listen on, where one was given, also in every listening address;
/// - the one listening address replaced by the one given, at the port to listen on;
/// - the address of the peer given added to the peers to dial;
/// - the data directory given;
/// - the RPC server switched on by `--rpc`, at the address and port given.
pub open spec fn client_config_for(args: ClientArgs, home: Option<Seq<char>>) -> ClientConfigView {
    let start = default_client_config(home);
    let port = match read_port(args.port) {
        Some(port) => port,
        None => start.network.libp2p_port,
    };
    ClientConfigView {
        data_dir: match args.datadir {
            Some(dir) => dir@,
            None => start.data_dir,
        },
        network: NetworkConfigView {
            listen_addresses: seq![
                ListenAddress {
                    ip: match args.listen_address {
                        Some(given) => given.address->0,
                        None => IpAddress::V4(LOCALHOST),
                    },
                    port,
                },
            ],
            libp2p_port: port,
            boot_nodes: match args.boot_nodes {
                Some(given) => seq![BootNodeView::Address { multiaddr: given.address->0@ }],
                None => Seq::empty(),
            },
            ..start.network
        },
        rpc: RpcConfig {
            enabled: args.rpc,
            listen_address: match args.rpc_address {
                Some(given) => given.address->0->V4_0,
                None => start.rpc.listen_address,
            },
            port: match read_port(args.rpc_port) {
                Some(port) => port,
                None => start.rpc.port,
            },
        },
        ..start
    }
}

/// The address `address` at the port `port`.
pub open spec fn at_port(address: ListenAddress, port: u16) -> ListenAddress {
    ListenAddress { port, ..address }
}

impl NetworkConfig {
    /// Sets the port to listen on, in every listening address too.
    pub fn set_listen_port(&mut self, port: u16)
        ensures
            final(self)@ == (NetworkConfigView {
                libp2p_port: port,
                listen_addresses: old(self)@.listen_addresses.map_values(
                    |address: ListenAddress| at_port(address, port),
                ),
                ..old(self)@
            }),
    {
        self.libp2p_port = port;
        let ghost before = self.listen_addresses@;
        let mut i: usize = 0;
        while i < self.listen_addresses.len()
            invariant
                i <= self.listen_addresses.len(),
                self.listen_addresses@.len() == before.len(),
                self.libp2p_port == port,
                self.discovery_port == old(self).discovery_port,
                self.boot_nodes == old(self).boot_nodes,
                forall|j: int|
                    0 <= j < i ==> self.listen_addresses@[j] == at_port(#[trigger] before[j], port),
                forall|j: int| i <= j < before.len() ==> self.listen_addresses@[j] == before[j],
            decreases self.listen_addresses.len() - i,
        {
            let address = self.listen_addresses[i];
            self.listen_addresses.set(i, ListenAddress { port, ..address });
            i = i + 1;
        }
        assert(self.listen_addresses@ =~= before.map_values(
            |address: ListenAddress| at_port(address, port),
        ));
    }
}

impl ClientConfig {
    /// The level of the log and the client document that the flags of a
    /// node on built-in settings give on this machine: the home directory
    /// is asked for, and the rest is [`ClientConfig::parse_args_with_home`].
    ///
    /// Which flag fails, if any, does not depend on the home directory.
    pub fn parse_args(args: &ClientArgs) -> (parsed: Result<(LogLevel, ClientConfig), ConfigError>)
        ensures
            match first_unreadable(*args) {
                Some((flag, raw)) => parsed is Err && parsed->Err_0@
                    == (ConfigErrorView::ParseError { name: flag, raw }),
                None => parsed is Ok && parsed->Ok_0.0 == level_for(args.verbosity)
                    && exists|home: Option<Seq<char>>|
                    parsed->Ok_0.1@ == #[trigger] client_config_for(*args, home),
            },
    {
        let home = home_dir();
        ClientConfig::parse_args_with_home(args, &home)
    }

    /// The level of the log and the client document that the flags of a
    /// node on built-in settings give, where the home directory is `home`.
    ///
    /// The first flag whose text cannot be read fails with a `ParseError`
    /// that names the flag and holds the text.
    pub fn parse_args_with_home(args: &ClientArgs, home: &Option<String>) -> (parsed: Result<
        (LogLevel, ClientConfig),
        ConfigError,
    >)
        ensures
            match first_unreadable(*args) {
                Some((flag, raw)) => parsed is Err && parsed->Err_0@
                    == (ConfigErrorView::ParseError { name: flag, raw }),
                None => parsed is Ok && parsed->Ok_0.0 == level_for(args.verbosity)
                    && parsed->Ok_0.1@ == client_config_for(*args, optional_text(*home)),
            },
    {
        let mut config = ClientConfig::default_for(home);
        let level = if args.verbosity == 0 {
            LogLevel::Info
        } else if args.verbosity == 1 {
            LogLevel::Debug
        } else {
            LogLevel::Trace
        };
        match read_optional(FLAG_PORT, &args.port, 65535) {
            Err(error) => {
                return Err(error);
            },
            Ok(Some(port)) => {
                config.network.set_listen_port(port as u16);
            },
            Ok(None) => {},
        }
        assert(config@.network.listen_addresses =~= seq![
            ListenAddress { ip: IpAddress::V4(LOCALHOST), port: config.network.libp2p_port },
        ]);
        match &args.listen_address {
            Some(given) => match given.address {
                Some(ip) => {
                    let mut addresses: Vec<ListenAddress> = Vec::new();
                    addresses.push(ListenAddress { ip, port: config.network.libp2p_port });
                    config.network.listen_addresses = addresses;
                },
                None => {
                    return Err(
                        ConfigError::ParseError {
                            name: String::from_str(FLAG_LISTEN_ADDRESS),
                            raw: given.raw.clone(),
                        },
                    );
                },
            },
            None => {},
        }
        match &args.boot_nodes {
            Some(given) => {
                let multiaddr = match &given.address {
                    Some(address) => address.clone(),
                    None => {
                        return Err(
                            ConfigError::ParseError {
                                name: String::from_str(FLAG_BOOT_NODES),
                                raw: given.raw.clone(),
                            },
                        );
                    },
                };
                let node = BootNode::Address { multiaddr };
                let ghost before = config.network.boot_nodes@;
                config.network.boot_nodes.push(node);
                assert(boot_nodes_view(before.push(node)) =~= boot_nodes_view(before).push(node@));
            },
            None => {},
        }
        match &args.datadir {
            Some(dir) => {
                config.data_dir = dir.clone();
            },
            None => {},
        }
        if args.rpc {
            config.rpc.enabled = true;
        }
        match &args.rpc_address {
            Some(given) => match given.address {
                Some(IpAddress::V4(bits)) => {
                    config.rpc.listen_address = bits;
                },
                _ => {
                    return Err(
                        ConfigError::ParseError {
                            name: String::from_str(FLAG_RPC_ADDRESS),
                            raw: given.raw.clone(),
                        },
                    );
                },
            },
            None => {},
        }
        match read_optional(FLAG_RPC_PORT, &args.rpc_port, 65535) {
            Err(error) => {
                return Err(error);
            },
            Ok(Some(port)) => {
                config.rpc.port = port as u16;
            },
            Ok(None) => {},
        }
        assert(config@.network.listen_addresses =~= client_config_for(
            *args,
            optional_text(*home),
        ).network.listen_addresses);
        assert(config@.network.boot_nodes =~= client_config_for(
            *args,
            optional_text(*home),
        ).network.boot_nodes);
        Ok((level, config))
    }
}

} // verus!
