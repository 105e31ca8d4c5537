//! From the raw command line to a typed request.
//!
//! The command line arrives as a record of flags, each with the text that
//! was given for it, if any. Resolving it validates and converts every
//! field: nothing is defaulted in silence, and nothing outside is touched.

use crate::client_config::StartMethod;
use crate::client_config::StartMethodView;
use crate::decimal::parse_bounded;
use crate::decimal::read_number;
use crate::error::ConfigError;
use crate::error::ConfigErrorView;
use crate::eth2_config::is_spec_name;
use crate::eth2_config::INTEROP;
use crate::eth2_config::MAINNET;
use crate::eth2_config::MINIMAL;
use crate::text::copy_optional;
use crate::text::optional_text;
use crate::text::same_text;
use vstd::prelude::*;
use vstd::string::StringExecFns;

verus! {

/// The flag that moves every port by a number.
pub const FLAG_PORT_BUMP: &'static str = "port-bump";

/// The flag that names the protocol variant.
pub const FLAG_SPEC: &'static str = "spec";

/// The flag that names the bootstrap server.
pub const FLAG_SERVER: &'static str = "server";

/// The flag that gives the bootstrap server's libp2p port.
pub const FLAG_LIBP2P_PORT: &'static str = "libp2p-port";

/// The flag that gives the number of validators.
pub const FLAG_VALIDATOR_COUNT: &'static str = "validator_count";

/// The flag that gives the age of a recent genesis in minutes.
pub const FLAG_MINUTES: &'static str = "minutes";

/// The flag that gives the time of genesis.
pub const FLAG_GENESIS_TIME: &'static str = "genesis_time";

/// The flags of the way to start a fresh chain, as they were given.
#[derive(Clone, Debug, PartialEq, Eq)]
pub enum MethodArgs {
    /// `bootstrap --server <url> [--libp2p-port <n>]`
    Bootstrap { server: Option<String>, libp2p_port: Option<String> },
    /// `recent --validator_count <n> --minutes <n>`
    Recent { validator_count: Option<String>, minutes: Option<String> },
    /// `quick --validator_count <n> --genesis_time <n>`
    Quick { validator_count: Option<String>, genesis_time: Option<String> },
}

/// The flags of the `testnet` sub-command, as they were given.
#[derive(Clone, Debug, PartialEq, Eq)]
pub struct TestnetArgs {
    pub random_datadir: bool,
    pub eth2_config: Option<String>,
    pub client_config: Option<String>,
    pub spec: Option<String>,
    pub force: bool,
    pub method: Option<MethodArgs>,
}

/// The command line, as it was given.
#[derive(Clone, Debug, PartialEq, Eq)]
pub struct CliArgs {
    pub datadir: Option<String>,
    pub port_bump: Option<String>,
    /// The `testnet` sub-command; without it the node resumes.
    pub testnet: Option<TestnetArgs>,
}

/// What a fresh-chain run was asked to do, every field validated.
#[derive(Clone, Debug, PartialEq, Eq)]
pub struct TestnetRequest {
    pub random_datadir: bool,
    pub force: bool,
    /// The file to take the protocol document from.
    pub eth2_config: Option<String>,
    /// The file to take the client document from.
    pub client_config: Option<String>,
    /// The protocol variant, by name.
    pub spec: Option<String>,
    /// How the chain is started; never `Resume`.
    pub method: StartMethod,
}

/// A `TestnetRequest` with its texts as sequences of characters.
pub struct TestnetRequestView {
    pub random_datadir: bool,
    pub force: bool,
    pub eth2_config: Option<Seq<char>>,
    pub client_config: Option<Seq<char>>,
    pub spec: Option<Seq<char>>,
    pub method: StartMethodView,
}

impl View for TestnetRequest {
    type V = TestnetRequestView;

    open spec fn view(&self) -> TestnetRequestView {
        TestnetRequestView {
            random_datadir: self.random_datadir,
            force: self.force,
            eth2_config: optional_text(self.eth2_config),
            client_config: optional_text(self.client_config),
            spec: optional_text(self.spec),
            method: self.method@,
        }
    }
}

/// What the node was asked to do at start-up.
#[derive(Clone, Debug, PartialEq, Eq)]
pub enum StartupRequest {
    /// Go on with an existing data directory.
    Resume,
    /// Start a fresh chain.
    Testnet(TestnetRequest),
}

/// A `StartupRequest` with its texts as sequences of characters.
pub enum StartupRequestView {
    Resume,
    Testnet(TestnetRequestView),
}

impl View for StartupRequest {
    type V = StartupRequestView;

    open spec fn view(&self) -> StartupRequestView {
        match self {
            StartupRequest::Resume => StartupRequestView::Resume,
            StartupRequest::Testnet(request) => StartupRequestView::Testnet(request@),
        }
    }
}

impl StartupRequestView {
    /// Whether a clean start was forced.
    pub open spec fn force(self) -> bool {
        self is Testnet && self->Testnet_0.force
    }

    /// The file named for the protocol document, if one was named.
    pub open spec fn eth2_config(self) -> Option<Seq<char>> {
        match self {
            StartupRequestView::Testnet(request) => request.eth2_config,
            StartupRequestView::Resume => None,
        }
    }

    /// The file named for the client document, if one was named.
    pub open spec fn client_config(self) -> Option<Seq<char>> {
        match self {
            StartupRequestView::Testnet(request) => request.client_config,
            StartupRequestView::Resume => None,
        }
    }

    /// The protocol variant that was named, if one was named.
    pub open spec fn spec(self) -> Option<Seq<char>> {
        match self {
            StartupRequestView::Testnet(request) => request.spec,
            StartupRequestView::Resume => None,
        }
    }

    /// How the chain is started.
    pub open spec fn method(self) -> StartMethodView {
        match self {
            StartupRequestView::Testnet(request) => request.method,
            StartupRequestView::Resume => StartMethodView::Resume,
        }
    }

    /// Whether the protocol document must come from the bootstrap server:
    /// no file was named for it, no variant was named, and the chain is
    /// started from a server.
    pub open spec fn fetches_eth2_config(self) -> bool {
        self.eth2_config() is None && self.spec() is None && self.server() is Some
    }

    /// Whether the bootstrap server must be asked for its port: the chain
    /// is started from a server and no port was given.
    pub open spec fn asks_for_port(self) -> bool {
        self.method() is HttpBootstrap && self.method()->HttpBootstrap_port is None
    }

    /// The bootstrap server, if the chain is started from one.
    pub open spec fn server(self) -> Option<Seq<char>> {
        match self.method() {
            StartMethodView::HttpBootstrap { server, .. } => Some(server),
            StartMethodView::Resume => None,
            StartMethodView::RecentGenesis { .. } => None,
            StartMethodView::Generated { .. } => None,
        }
    }
}

impl StartupRequest {
    /// Whether a clean start was forced.
    pub fn force(&self) -> (force: bool)
        ensures
            force == self@.force(),
    {
        match self {
            StartupRequest::Testnet(request) => request.force,
            StartupRequest::Resume => false,
        }
    }

    /// The file named for the protocol document, if one was named.
    pub fn eth2_config(&self) -> (path: Option<String>)
        ensures
            optional_text(path) == self@.eth2_config(),
    {
        match self {
            StartupRequest::Testnet(request) => copy_optional(&request.eth2_config),
            StartupRequest::Resume => None,
        }
    }

    /// The file named for the client document, if one was named.
    pub fn client_config(&self) -> (path: Option<String>)
        ensures
            optional_text(path) == self@.client_config(),
    {
        match self {
            StartupRequest::Testnet(request) => copy_optional(&request.client_config),
            StartupRequest::Resume => None,
        }
    }

    /// The protocol variant that was named, if one was named.
    pub fn spec(&self) -> (name: Option<String>)
        ensures
            optional_text(name) == self@.spec(),
    {
        match self {
            StartupRequest::Testnet(request) => copy_optional(&request.spec),
            StartupRequest::Resume => None,
        }
    }

    /// How the chain is started.
    pub fn method(&self) -> (method: StartMethod)
        ensures
            method@ == self@.method(),
    {
        match self {
            StartupRequest::Testnet(request) => request.method.duplicate(),
            StartupRequest::Resume => StartMethod::Resume,
        }
    }

    /// The bootstrap server, if the chain is started from one.
    pub fn server(&self) -> (server: Option<String>)
        ensures
            optional_text(server) == self@.server(),
    {
        match self {
            StartupRequest::Testnet(request) => match &request.method {
                StartMethod::HttpBootstrap { server, .. } => Some(server.clone()),
                StartMethod::Resume => None,
                StartMethod::RecentGenesis { .. } => None,
                StartMethod::Generated { .. } => None,
            },
            StartupRequest::Resume => None,
        }
    }
}

/// The number given for a flag that must be there: missing, it is a
/// `MissingArgument`; there but no numeral within `max`, a `ParseError` with
/// the flag and the text as given.
pub open spec fn required_number(flag: Seq<char>, raw: Option<String>, max: nat) -> Result<
    nat,
    ConfigErrorView,
> {
    match raw {
        None => Err(ConfigErrorView::MissingArgument { flag }),
        Some(text) => match read_number(text@, max) {
            Some(n) => Ok(n),
            None => Err(ConfigErrorView::ParseError { name: flag, raw: text@ }),
        },
    }
}

/// The number given for a flag that may be missing: there but no numeral
/// within `max`, it is a `ParseError` with the flag and the text as given.
pub open spec fn optional_number(flag: Seq<char>, raw: Option<String>, max: nat) -> Result<
    Option<nat>,
    ConfigErrorView,
> {
    match raw {
        None => Ok(None),
        Some(text) => match read_number(text@, max) {
            Some(n) => Ok(Some(n)),
            None => Err(ConfigErrorView::ParseError { name: flag, raw: text@ }),
        },
    }
}

/// The start method that the flags of a sub-command stand for. The fields
/// are read in the order of the command line's help: the first that is
/// missing or unreadable decides the error.
pub open spec fn method_spec(args: MethodArgs) -> Result<StartMethodView, ConfigErrorView> {
    match args {
        MethodArgs::Bootstrap { server, libp2p_port } => match server {
            None => Err(ConfigErrorView::MissingArgument { flag: FLAG_SERVER@ }),
            Some(server) => match optional_number(
                FLAG_LIBP2P_PORT@,
                libp2p_port,
                u16::MAX as nat,
            ) {
                Err(e) => Err(e),
                Ok(port) => Ok(
                    StartMethodView::HttpBootstrap {
                        server: server@,
                        port: match port {
                            Some(p) => Some(p as u16),
                            None => None,
                        },
                    },
                ),
            },
        },
        MethodArgs::Recent { validator_count, minutes } => match required_number(
            FLAG_VALIDATOR_COUNT@,
            validator_count,
            usize::MAX as nat,
        ) {
            Err(e) => Err(e),
            Ok(count) => match required_number(FLAG_MINUTES@, minutes, u64::MAX as nat) {
                Err(e) => Err(e),
                Ok(m) => Ok(
                    StartMethodView::RecentGenesis {
                        validator_count: count as usize,
                        minutes: m as u64,
                    },
                ),
            },
        },
        MethodArgs::Quick { validator_count, genesis_time } => match required_number(
            FLAG_VALIDATOR_COUNT@,
            validator_count,
            usize::MAX as nat,
        ) {
            Err(e) => Err(e),
            Ok(count) => match required_number(
                FLAG_GENESIS_TIME@,
                genesis_time,
                u64::MAX as nat,
            ) {
                Err(e) => Err(e),
                Ok(t) => Ok(
                    StartMethodView::Generated {
                        validator_count: count as usize,
                        genesis_time: t as u64,
                    },
                ),
            },
        },
    }
}

/// What the flags of `testnet` are resolved to:
/// - a `spec` that names no protocol variant is an `UnknownSpec`;
/// - without a protocol document file and without a variant, only a
///   bootstrap run can go on (it asks the server): otherwise `spec` is missing;
/// - without a sub-command there is no way to start the chain;
/// - otherwise the sub-command's fields decide.
pub open spec fn testnet_spec(args: TestnetArgs) -> Result<TestnetRequestView, ConfigErrorView> {
    if args.spec is Some && !is_spec_name(args.spec->0@) {
        Err(ConfigErrorView::UnknownSpec { name: args.spec->0@ })
    } else if args.eth2_config is None && args.spec is None && !(args.method is Some
        && args.method->0 is Bootstrap) {
        Err(ConfigErrorView::MissingArgument { flag: FLAG_SPEC@ })
    } else if args.method is None {
        Err(ConfigErrorView::NoTestnetMethod)
    } else {
        match method_spec(args.method->0) {
            Err(e) => Err(e),
            Ok(method) => Ok(
                TestnetRequestView {
                    random_datadir: args.random_datadir,
                    force: args.force,
                    eth2_config: optional_text(args.eth2_config),
                    client_config: optional_text(args.client_config),
                    spec: optional_text(args.spec),
                    method,
                },
            ),
        }
    }
}

/// What the command line is resolved to: without `testnet`, to resume,
/// whatever else was given; with it, what its flags are resolved to.
pub open spec fn resolve_spec(args: CliArgs) -> Result<StartupRequestView, ConfigErrorView> {
    match args.testnet {
        None => Ok(StartupRequestView::Resume),
        Some(testnet) => match testnet_spec(testnet) {
            Err(e) => Err(e),
            Ok(request) => Ok(StartupRequestView::Testnet(request)),
        },
    }
}

/// Whether `result` is the success or the failure that `expected` describes.
pub open spec fn number_matches(result: Result<u64, ConfigError>, expected: Result<
    nat,
    ConfigErrorView,
>) -> bool {
    match expected {
        Ok(n) => result is Ok && result->Ok_0 == n,
        Err(e) => result is Err && result->Err_0@ == e,
    }
}

/// Reads the number given for the flag `flag`, which must be there.
pub fn read_required(flag: &str, raw: &Option<String>, max: u64) -> (value: Result<
    u64,
    ConfigError,
>)
    ensures
        number_matches(value, required_number(flag@, *raw, max as nat)),
{
    match raw {
        None => Err(ConfigError::MissingArgument { flag: String::from_str(flag) }),
        Some(text) => match parse_bounded(text.as_str(), max) {
            Some(n) => Ok(n),
            None => Err(
                ConfigError::ParseError { name: String::from_str(flag), raw: text.clone() },
            ),
        },
    }
}

/// Reads the number given for the flag `flag`, if one was given.
pub fn read_optional(flag: &str, raw: &Option<String>, max: u64) -> (value: Result<
    Option<u64>,
    ConfigError,
>)
    ensures
        match optional_number(flag@, *raw, max as nat) {
            Ok(Some(n)) => value is Ok && value->Ok_0 == Some(n as u64),
            Ok(None) => value is Ok && value->Ok_0 is None,
            Err(e) => value is Err && value->Err_0@ == e,
        },
{
    match raw {
        None => Ok(None),
        Some(text) => match parse_bounded(text.as_str(), max) {
            Some(n) => Ok(Some(n)),
            None => Err(
                ConfigError::ParseError { name: String::from_str(flag), raw: text.clone() },
            ),
        },
    }
}

/// Whether `result` is the success or the failure that `expected` describes.
pub open spec fn method_matches(result: Result<StartMethod, ConfigError>, expected: Result<
    StartMethodView,
    ConfigErrorView,
>) -> bool {
    match expected {
        Ok(method) => result is Ok && result->Ok_0@ == method,
        Err(e) => result is Err && result->Err_0@ == e,
    }
}

/// Resolves the flags of a sub-command to the start method they stand for.
pub fn resolve_method(args: &MethodArgs) -> (method: Result<StartMethod, ConfigError>)
    ensures
        method_matches(method, method_spec(*args)),
{
    match args {
        MethodArgs::Bootstrap { server, libp2p_port } => {
            let server = match server {
                None => {
                    return Err(
                        ConfigError::MissingArgument { flag: String::from_str(FLAG_SERVER) },
                    );
                },
                Some(server) => server,
            };
            let port = match read_optional(FLAG_LIBP2P_PORT, libp2p_port, 65535) {
                Err(e) => {
                    return Err(e);
                },
                Ok(Some(p)) => Some(p as u16),
                Ok(None) => None,
            };
            Ok(StartMethod::HttpBootstrap { server: server.clone(), port })
        },
        MethodArgs::Recent { validator_count, minutes } => {
            let count = match read_required(
                FLAG_VALIDATOR_COUNT,
                validator_count,
                usize::MAX as u64,
            ) {
                Err(e) => {
                    return Err(e);
                },
                Ok(count) => count as usize,
            };
            let minutes = match read_required(FLAG_MINUTES, minutes, u64::MAX) {
                Err(e) => {
                    return Err(e);
                },
                Ok(minutes) => minutes,
            };
            Ok(StartMethod::RecentGenesis { validator_count: count, minutes })
        },
        MethodArgs::Quick { validator_count, genesis_time } => {
            let count = match read_required(
                FLAG_VALIDATOR_COUNT,
                validator_count,
                usize::MAX as u64,
            ) {
                Err(e) => {
                    return Err(e);
                },
                Ok(count) => count as usize,
            };
            let genesis_time = match read_required(FLAG_GENESIS_TIME, genesis_time, u64::MAX) {
                Err(e) => {
                    return Err(e);
                },
                Ok(genesis_time) => genesis_time,
            };
            Ok(StartMethod::Generated { validator_count: count, genesis_time })
        },
    }
}

/// Whether `name` is one of `mainnet`, `minimal` and `interop`.
pub fn known_spec_name(name: &str) -> (known: bool)
    ensures
        known == is_spec_name(name@),
{
    same_text(name, MAINNET) || same_text(name, MINIMAL) || same_text(name, INTEROP)
}

/// Whether `result` is the success or the failure that `expected` describes.
pub open spec fn testnet_matches(result: Result<TestnetRequest, ConfigError>, expected: Result<
    TestnetRequestView,
    ConfigErrorView,
>) -> bool {
    match expected {
        Ok(request) => result is Ok && result->Ok_0@ == request,
        Err(e) => result is Err && result->Err_0@ == e,
    }
}

/// Resolves the flags of `testnet` to a validated request.
pub fn resolve_testnet(args: &TestnetArgs) -> (request: Result<TestnetRequest, ConfigError>)
    ensures
        testnet_matches(request, testnet_spec(*args)),
{
    match &args.spec {
        Some(name) => {
            if !known_spec_name(name.as_str()) {
                return Err(ConfigError::UnknownSpec { name: name.clone() });
            }
        },
        None => {},
    }
    let bootstrap = match &args.method {
        Some(MethodArgs::Bootstrap { .. }) => true,
        _ => false,
    };
    if args.eth2_config.is_none() && args.spec.is_none() && !bootstrap {
        return Err(ConfigError::MissingArgument { flag: String::from_str(FLAG_SPEC) });
    }
    let method = match &args.method {
        None => {
            return Err(ConfigError::NoTestnetMethod);
        },
        Some(method_args) => match resolve_method(method_args) {
            Err(e) => {
                return Err(e);
            },
            Ok(method) => method,
        },
    };
    Ok(
        TestnetRequest {
            random_datadir: args.random_datadir,
            force: args.force,
            eth2_config: copy_optional(&args.eth2_config),
            client_config: copy_optional(&args.client_config),
            spec: copy_optional(&args.spec),
            method,
        },
    )
}

/// Whether `result` is the success or the failure that `expected` describes.
pub open spec fn request_matches(result: Result<StartupRequest, ConfigError>, expected: Result<
    StartupRequestView,
    ConfigErrorView,
>) -> bool {
    match expected {
        Ok(request) => result is Ok && result->Ok_0@ == request,
        Err(e) => result is Err && result->Err_0@ == e,
    }
}

/// Resolves the command line to what the node was asked to do.
///
/// Without `testnet` the node resumes, and no other flag is looked at.
pub fn resolve(args: &CliArgs) -> (request: Result<StartupRequest, ConfigError>)
    ensures
        request_matches(request, resolve_spec(*args)),
        args.testnet is None ==> request is Ok && request->Ok_0@ == StartupRequestView::Resume,
{
    match &args.testnet {
        None => Ok(StartupRequest::Resume),
        Some(testnet) => match resolve_testnet(testnet) {
            Err(e) => Err(e),
            Ok(request) => Ok(StartupRequest::Testnet(request)),
        },
    }
}

} // verus!
