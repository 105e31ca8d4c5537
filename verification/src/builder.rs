//! The builder of the two documents.
//!
//! A builder holds the data directory and the two documents while they are
//! worked out. Each part of the work is a pair of functions: one says what to
//! do first, the other takes what came of it and says what follows. Neither
//! touches the world outside.

use crate::client_config::boot_nodes_view;
use crate::client_config::default_client_config;
use crate::client_config::BootNode;
use crate::client_config::BootNodeView;
use crate::client_config::ClientConfig;
use crate::client_config::ClientConfigView;
use crate::client_config::StartMethod;
use crate::client_config::StartMethodView;
use crate::datadir::add_name_suffix;
use crate::datadir::client_config_path;
use crate::datadir::eth2_config_path;
use crate::datadir::file_name;
use crate::datadir::file_name_spec;
use crate::datadir::join;
use crate::datadir::join_spec;
use crate::datadir::with_name_suffix;
use crate::datadir::CLIENT_CONFIG_FILENAME;
use crate::datadir::DEFAULT_DATA_DIR;
use crate::datadir::ETH2_CONFIG_FILENAME;
use crate::decimal::parse_u16;
use crate::decimal::read_number;
use crate::effects::Action;
use crate::effects::ActionView;
use crate::effects::CleanStage;
use crate::effects::Event;
use crate::effects::LoadStage;
use crate::effects::Notice;
use crate::effects::PersistStage;
use crate::effects::Stage;
use crate::effects::Step;
use crate::effects::StepView;
use crate::arguments::FLAG_PORT_BUMP;
use crate::arguments::FLAG_SPEC;
use crate::entropy::is_token;
use crate::entropy::random_string;
use crate::error::ConfigError;
use crate::error::ConfigErrorView;
use crate::eth2_config::eth2_config_for;
use crate::eth2_config::is_spec_name;
use crate::eth2_config::Eth2Config;
use crate::eth2_config::Eth2ConfigView;
use crate::eth2_config::MINIMAL;
use crate::home::home_dir;
use crate::text::optional_text;
use crate::text::same_text;
use vstd::prelude::*;
use vstd::string::StringExecFns;

verus! {

/// What goes between a data directory's name and its random token.
pub const RANDOM_INFIX: &'static str = "_random_";

/// What a backup directory's name starts with.
pub const BACKUP_PREFIX: &'static str = "backup_";

/// How many characters a random token has.
pub const TOKEN_LENGTH: usize = 6;

/// The documents of a run while they are worked out.
#[derive(Clone, Debug, PartialEq, Eq)]
pub struct ConfigBuilder {
    /// Where the node's data will live.
    pub data_dir: String,
    pub eth2_config: Eth2Config,
    pub client_config: ClientConfig,
    /// What there is to tell the operator, oldest first.
    pub notices: Vec<Notice>,
}

/// A `ConfigBuilder` with its texts and lists as sequences.
pub struct ConfigBuilderView {
    pub data_dir: Seq<char>,
    pub eth2_config: Eth2ConfigView,
    pub client_config: ClientConfigView,
    pub notices: Seq<Notice>,
}

impl View for ConfigBuilder {
    type V = ConfigBuilderView;

    open spec fn view(&self) -> ConfigBuilderView {
        ConfigBuilderView {
            data_dir: self.data_dir@,
            eth2_config: self.eth2_config@,
            client_config: self.client_config@,
            notices: self.notices@,
        }
    }
}

/// The data directory of a run: the one that was named; without one, the
/// default directory under the home directory; without either, none.
pub open spec fn resolve_data_dir(datadir: Option<Seq<char>>, home: Option<Seq<char>>) -> Result<
    Seq<char>,
    ConfigErrorView,
> {
    match datadir {
        Some(dir) => Ok(dir),
        None => match home {
            Some(home) => Ok(join_spec(home, DEFAULT_DATA_DIR@)),
            None => Err(ConfigErrorView::NoHomeDirectory),
        },
    }
}

/// The builder that a run starts from in the data directory `data_dir`
/// where the home directory is `home`: the documents that a node starts
/// from, and nothing to tell.
pub open spec fn initial_builder(data_dir: Seq<char>, home: Option<Seq<char>>) -> ConfigBuilderView {
    ConfigBuilderView {
        data_dir,
        eth2_config: eth2_config_for(MINIMAL@),
        client_config: default_client_config(home),
        notices: Seq::empty(),
    }
}

/// The builder that a run starts from where `datadir` was named for the
/// data directory and `home` is the home directory, or the failure where
/// there is neither.
pub open spec fn initial_builder_for(datadir: Option<Seq<char>>, home: Option<Seq<char>>) -> Result<
    ConfigBuilderView,
    ConfigErrorView,
> {
    match resolve_data_dir(datadir, home) {
        Ok(dir) => Ok(initial_builder(dir, home)),
        Err(error) => Err(error),
    }
}

/// The data directory `data_dir` with its name made unique by `token`: a
/// sibling of `data_dir` whose name is that of `data_dir`, then `_random_`,
/// then the token.
pub open spec fn random_datadir(data_dir: Seq<char>, token: Seq<char>) -> Seq<char> {
    with_name_suffix(data_dir, RANDOM_INFIX@ + token)
}

/// The backup directory under `data_dir` that `token` names.
pub open spec fn backup_dir(data_dir: Seq<char>, token: Seq<char>) -> Seq<char> {
    join_spec(data_dir, BACKUP_PREFIX@ + token)
}

/// A port moved up by `bump`, `times` times over.
pub open spec fn bumped(port: u16, bump: u16, times: int) -> int {
    port + times * bump
}

/// The text of an optional value, or the empty text.
pub open spec fn text_or_empty(text: Option<Seq<char>>) -> Seq<char> {
    match text {
        Some(t) => t,
        None => Seq::empty(),
    }
}

impl ConfigBuilderView {
    /// This builder with one more peer to dial, and the notice of it.
    pub open spec fn with_boot_node(self, node: BootNodeView) -> ConfigBuilderView {
        ConfigBuilderView {
            client_config: ClientConfigView {
                network: crate::client_config::NetworkConfigView {
                    boot_nodes: self.client_config.network.boot_nodes.push(node),
                    ..self.client_config.network
                },
                ..self.client_config
            },
            notices: self.notices.push(Notice::EstimatedBootstrapAddress),
            ..self
        }
    }

    /// This builder with the chain started in another way.
    pub open spec fn with_start_method(self, method: StartMethodView) -> ConfigBuilderView {
        ConfigBuilderView {
            client_config: ClientConfigView {
                beacon_chain_start_method: method,
                ..self.client_config
            },
            ..self
        }
    }

    /// This builder with one more notice.
    pub open spec fn with_notice(self, notice: Notice) -> ConfigBuilderView {
        ConfigBuilderView { notices: self.notices.push(notice), ..self }
    }

    /// The path of the client document in this builder's data directory.
    pub open spec fn client_file(self) -> Seq<char> {
        join_spec(self.data_dir, CLIENT_CONFIG_FILENAME@)
    }

    /// The path of the protocol document in this builder's data directory.
    pub open spec fn eth2_file(self) -> Seq<char> {
        join_spec(self.data_dir, ETH2_CONFIG_FILENAME@)
    }

    /// What taking the protocol variant from the command line gives: both
    /// documents follow a name that is a variant; anything else fails.
    pub open spec fn update_spec_from_subcommand(self, spec: Option<Seq<char>>) -> Result<
        ConfigBuilderView,
        ConfigErrorView,
    > {
        match spec {
            None => Err(ConfigErrorView::MissingArgument { flag: FLAG_SPEC@ }),
            Some(name) => if is_spec_name(name) {
                Ok(
                    ConfigBuilderView {
                        eth2_config: eth2_config_for(name),
                        client_config: ClientConfigView {
                            spec_constants: name,
                            ..self.client_config
                        },
                        ..self
                    },
                )
            } else {
                Err(ConfigErrorView::UnknownSpec { name })
            },
        }
    }

    /// What an answer to reading the protocol document at `path` gives: the
    /// document replaces the builder's; a missing, unreadable or malformed
    /// file fails.
    pub open spec fn load_eth2_config_after(self, path: Seq<char>, event: Event) -> Result<
        ConfigBuilderView,
        ConfigErrorView,
    > {
        match event {
            Event::Eth2ConfigFound(document) => Ok(
                ConfigBuilderView { eth2_config: document@, ..self },
            ),
            Event::Absent => Err(ConfigErrorView::DocumentNotFound { path }),
            Event::Malformed { detail } => Err(
                ConfigErrorView::ParseError { name: path, raw: detail@ },
            ),
            Event::Failed { detail } => Err(ConfigErrorView::IoError { path, detail: detail@ }),
            _ => Err(ConfigErrorView::UnexpectedEvent),
        }
    }

    /// What an answer to reading the client document at `path` gives: the
    /// document replaces the builder's; a missing, unreadable or malformed
    /// file fails.
    pub open spec fn load_client_config_after(self, path: Seq<char>, event: Event) -> Result<
        ConfigBuilderView,
        ConfigErrorView,
    > {
        match event {
            Event::ClientConfigFound(document) => Ok(
                ConfigBuilderView { client_config: document@, ..self },
            ),
            Event::Absent => Err(ConfigErrorView::DocumentNotFound { path }),
            Event::Malformed { detail } => Err(
                ConfigErrorView::ParseError { name: path, raw: detail@ },
            ),
            Event::Failed { detail } => Err(ConfigErrorView::IoError { path, detail: detail@ }),
            _ => Err(ConfigErrorView::UnexpectedEvent),
        }
    }

    /// How loading an existing data directory begins: by asking whether the
    /// directory is there.
    pub open spec fn load_from_datadir(self) -> StepView {
        StepView::Perform {
            next: Stage::Load(LoadStage::Datadir),
            action: ActionView::CheckExists { path: self.data_dir },
        }
    }

    /// How loading an existing data directory goes on. The directory must be
    /// there; then the protocol document and the client document are read
    /// from it, and either must be there and well formed; then the database
    /// that the client document just read names, if it names one, must be
    /// there.
    pub open spec fn load_from_datadir_after(self, stage: LoadStage, event: Event) -> (
        ConfigBuilderView,
        StepView,
    ) {
        match stage {
            LoadStage::Datadir => match event {
                Event::Exists(true) => (
                    self,
                    StepView::Perform {
                        next: Stage::Load(LoadStage::Eth2Document),
                        action: ActionView::ReadEth2Config { path: self.eth2_file() },
                    },
                ),
                Event::Exists(false) => (
                    self,
                    StepView::Fail {
                        error: ConfigErrorView::DatadirNotFound { path: self.data_dir },
                    },
                ),
                _ => (self, StepView::Fail { error: ConfigErrorView::UnexpectedEvent }),
            },
            LoadStage::Eth2Document => match self.load_eth2_config_after(
                self.eth2_file(),
                event,
            ) {
                Err(error) => (self, StepView::Fail { error }),
                Ok(loaded) => (
                    loaded,
                    StepView::Perform {
                        next: Stage::Load(LoadStage::ClientDocument),
                        action: ActionView::ReadClientConfig { path: self.client_file() },
                    },
                ),
            },
            LoadStage::ClientDocument => match self.load_client_config_after(
                self.client_file(),
                event,
            ) {
                Err(error) => (self, StepView::Fail { error }),
                Ok(loaded) => match loaded.client_config.db_path() {
                    Some(path) => (
                        loaded,
                        StepView::Perform {
                            next: Stage::Load(LoadStage::Database),
                            action: ActionView::CheckExists { path },
                        },
                    ),
                    None => (loaded, StepView::Done),
                },
            },
            LoadStage::Database => match event {
                Event::Exists(true) => (self, StepView::Done),
                Event::Exists(false) => (
                    self,
                    StepView::Fail {
                        error: ConfigErrorView::DatabaseNotFound {
                            path: text_or_empty(self.client_config.db_path()),
                        },
                    },
                ),
                _ => (self, StepView::Fail { error: ConfigErrorView::UnexpectedEvent }),
            },
        }
    }

    /// How moving old files aside begins: by creating the backup directory.
    pub open spec fn clean_datadir(self, backup: Seq<char>) -> StepView {
        StepView::Perform {
            next: Stage::Clean(CleanStage::BackupDir),
            action: ActionView::CreateDirAll { path: backup },
        }
    }

    /// The move of the database into the backup directory, where there is a
    /// database to move: a database path that ends in no name fails.
    pub open spec fn database_move(self, backup: Seq<char>) -> StepView {
        match self.client_config.db_path() {
            None => StepView::Done,
            Some(path) => match file_name_spec(path) {
                None => StepView::Fail { error: ConfigErrorView::InvalidPath { path } },
                Some(name) => StepView::Perform {
                    next: Stage::Clean(CleanStage::DatabaseMove),
                    action: ActionView::Rename { from: path, to: join_spec(backup, name) },
                },
            },
        }
    }

    /// How moving old files aside goes on. The backup directory must have
    /// been created. Then the client document, the protocol document and the
    /// database are moved into it, one after the other and under their own
    /// names; what came of a move is not looked at.
    pub open spec fn clean_datadir_after(
        self,
        backup: Seq<char>,
        stage: CleanStage,
        event: Event,
    ) -> StepView {
        match stage {
            CleanStage::BackupDir => match event {
                Event::Completed => StepView::Perform {
                    next: Stage::Clean(CleanStage::ClientMove),
                    action: ActionView::Rename {
                        from: self.client_file(),
                        to: join_spec(backup, CLIENT_CONFIG_FILENAME@),
                    },
                },
                Event::Failed { detail } => StepView::Fail {
                    error: ConfigErrorView::IoError { path: backup, detail: detail@ },
                },
                _ => StepView::Fail { error: ConfigErrorView::UnexpectedEvent },
            },
            CleanStage::ClientMove => StepView::Perform {
                next: Stage::Clean(CleanStage::Eth2Move),
                action: ActionView::Rename {
                    from: self.eth2_file(),
                    to: join_spec(backup, ETH2_CONFIG_FILENAME@),
                },
            },
            CleanStage::Eth2Move => self.database_move(backup),
            CleanStage::DatabaseMove => StepView::Done,
        }
    }

    /// How taking the bootstrap server's address begins. With a port given
    /// the address is known at once, and the server is not asked; without
    /// one the server is asked for its port.
    pub open spec fn import_bootstrap_libp2p_address(
        self,
        server: Seq<char>,
        port: Option<u16>,
    ) -> (ConfigBuilderView, StepView) {
        match port {
            Some(port) => (
                self.with_boot_node(BootNodeView::Server { server, port }),
                StepView::Done,
            ),
            None => (
                self,
                StepView::Perform {
                    next: Stage::ListenPort,
                    action: ActionView::FetchListenPort { server },
                },
            ),
        }
    }

    /// How taking the bootstrap server's address ends. The port that the
    /// server named gives the address; any other answer leaves the node
    /// without one, which is told as a warning and stops nothing.
    pub open spec fn import_bootstrap_libp2p_address_after(
        self,
        server: Seq<char>,
        event: Event,
    ) -> ConfigBuilderView {
        match event {
            Event::ListenPort(port) => self.with_boot_node(
                BootNodeView::Server { server, port },
            ),
            _ => self.with_notice(Notice::NoBootstrapAddress),
        }
    }

    /// How taking the bootstrap server's protocol document ends: the
    /// document replaces the builder's; a server that could not be asked, or
    /// whose answer cannot be understood, fails the run.
    pub open spec fn import_bootstrap_eth2_config_after(
        self,
        server: Seq<char>,
        event: Event,
    ) -> Result<ConfigBuilderView, ConfigErrorView> {
        match event {
            Event::Eth2ConfigFound(document) => Ok(
                ConfigBuilderView { eth2_config: document@, ..self },
            ),
            Event::Failed { detail } => Err(
                ConfigErrorView::NetworkError { server, detail: detail@ },
            ),
            Event::Malformed { detail } => Err(
                ConfigErrorView::NetworkError { server, detail: detail@ },
            ),
            _ => Err(ConfigErrorView::UnexpectedEvent),
        }
    }

    /// The creation of the data directory.
    pub open spec fn create_datadir(self) -> StepView {
        StepView::Perform {
            next: Stage::Persist(PersistStage::DatadirCreated),
            action: ActionView::CreateDirAll { path: self.data_dir },
        }
    }

    /// How writing the documents to a new data directory begins: by asking
    /// whether a database is in the way, where the client document names
    /// one; by creating the data directory otherwise.
    pub open spec fn write_configs_to_new_datadir(self) -> StepView {
        match self.client_config.db_path() {
            Some(path) => StepView::Perform {
                next: Stage::Persist(PersistStage::DatabaseFree),
                action: ActionView::CheckExists { path },
            },
            None => self.create_datadir(),
        }
    }

    /// How writing the documents to a new data directory goes on. A
    /// database, a client document or a protocol document that is already
    /// there fails the run, and all three are asked for before anything is
    /// written: the documents are written only after both their files were
    /// found missing. A directory that cannot be created and a document that
    /// cannot be written fail the run.
    pub open spec fn write_configs_to_new_datadir_after(
        self,
        stage: PersistStage,
        event: Event,
    ) -> StepView {
        match stage {
            PersistStage::DatabaseFree => match event {
                Event::Exists(false) => self.create_datadir(),
                Event::Exists(true) => StepView::Fail {
                    error: ConfigErrorView::DatadirNotClean {
                        path: text_or_empty(self.client_config.db_path()),
                    },
                },
                _ => StepView::Fail { error: ConfigErrorView::UnexpectedEvent },
            },
            PersistStage::DatadirCreated => match event {
                Event::Completed => StepView::Perform {
                    next: Stage::Persist(PersistStage::ClientFree),
                    action: ActionView::CheckExists { path: self.client_file() },
                },
                Event::Failed { detail } => StepView::Fail {
                    error: ConfigErrorView::IoError { path: self.data_dir, detail: detail@ },
                },
                _ => StepView::Fail { error: ConfigErrorView::UnexpectedEvent },
            },
            PersistStage::ClientFree => match event {
                Event::Exists(false) => StepView::Perform {
                    next: Stage::Persist(PersistStage::Eth2Free),
                    action: ActionView::CheckExists { path: self.eth2_file() },
                },
                Event::Exists(true) => StepView::Fail {
                    error: ConfigErrorView::DatadirNotClean { path: self.client_file() },
                },
                _ => StepView::Fail { error: ConfigErrorView::UnexpectedEvent },
            },
            PersistStage::Eth2Free => match event {
                Event::Exists(false) => StepView::Perform {
                    next: Stage::Persist(PersistStage::ClientWritten),
                    action: ActionView::WriteClientConfig { path: self.client_file() },
                },
                Event::Exists(true) => StepView::Fail {
                    error: ConfigErrorView::DatadirNotClean { path: self.eth2_file() },
                },
                _ => StepView::Fail { error: ConfigErrorView::UnexpectedEvent },
            },
            PersistStage::ClientWritten => match event {
                Event::Completed => StepView::Perform {
                    next: Stage::Persist(PersistStage::Eth2Written),
                    action: ActionView::WriteEth2Config { path: self.eth2_file() },
                },
                Event::Failed { detail } => StepView::Fail {
                    error: ConfigErrorView::IoError {
                        path: self.client_file(),
                        detail: detail@,
                    },
                },
                _ => StepView::Fail { error: ConfigErrorView::UnexpectedEvent },
            },
            PersistStage::Eth2Written => match event {
                Event::Completed => StepView::Done,
                Event::Failed { detail } => StepView::Fail {
                    error: ConfigErrorView::IoError { path: self.eth2_file(), detail: detail@ },
                },
                _ => StepView::Fail { error: ConfigErrorView::UnexpectedEvent },
            },
        }
    }

    /// Whether every port, moved by `bump`, is still a port. The RPC port is
    /// moved twice.
    pub open spec fn ports_fit(self, bump: u16) -> bool {
        &&& bumped(self.client_config.network.libp2p_port, bump, 1) <= u16::MAX
        &&& bumped(self.client_config.network.discovery_port, bump, 1) <= u16::MAX
        &&& bumped(self.client_config.rpc.port, bump, 2) <= u16::MAX
        &&& bumped(self.client_config.rest_api.port, bump, 1) <= u16::MAX
    }

    /// The client document as it is handed out: every port moved by `bump`,
    /// the RPC port twice over, and the data directory set to the builder's.
    pub open spec fn finished_client_config(self, bump: u16) -> ClientConfigView {
        ClientConfigView {
            data_dir: self.data_dir,
            network: crate::client_config::NetworkConfigView {
                libp2p_port: bumped(self.client_config.network.libp2p_port, bump, 1) as u16,
                discovery_port: bumped(self.client_config.network.discovery_port, bump, 1) as u16,
                ..self.client_config.network
            },
            rpc: crate::client_config::RpcConfig {
                port: bumped(self.client_config.rpc.port, bump, 2) as u16,
                ..self.client_config.rpc
            },
            rest_api: crate::client_config::RestApiConfig {
                port: bumped(self.client_config.rest_api.port, bump, 1) as u16,
            },
            ..self.client_config
        }
    }

    /// What building gives. A bump that is no number within 16 bits fails,
    /// then two documents that name different constants, then a bump that
    /// moves a port beyond the last port. Otherwise the two documents are handed
    /// out, the client document finished.
    pub open spec fn build(self, port_bump: Option<Seq<char>>) -> Result<
        (ClientConfigView, Eth2ConfigView),
        ConfigErrorView,
    > {
        let bump = match port_bump {
            Some(raw) => read_number(raw, u16::MAX as nat),
            None => Some(0nat),
        };
        if bump is None {
            Err(ConfigErrorView::ParseError { name: FLAG_PORT_BUMP@, raw: port_bump->0 })
        } else if self.eth2_config.spec_constants != self.client_config.spec_constants {
            Err(
                ConfigErrorView::SpecMismatch {
                    client: self.client_config.spec_constants,
                    eth2: self.eth2_config.spec_constants,
                },
            )
        } else if !self.ports_fit(bump->0 as u16) {
            Err(ConfigErrorView::PortOutOfRange)
        } else {
            Ok((self.finished_client_config(bump->0 as u16), self.eth2_config))
        }
    }
}

/// Whether `result` is the success or the failure that `expected` describes.
pub open spec fn builder_matches(result: Result<ConfigBuilder, ConfigError>, expected: Result<
    ConfigBuilderView,
    ConfigErrorView,
>) -> bool {
    match expected {
        Ok(builder) => result is Ok && result->Ok_0@ == builder,
        Err(error) => result is Err && result->Err_0@ == error,
    }
}

/// Whether `result` is the success that `expected` describes and `builder`
/// the builder it gives, or the failure with `builder` as it was in `before`.
pub open spec fn update_matches(
    result: Result<(), ConfigError>,
    builder: ConfigBuilderView,
    before: ConfigBuilderView,
    expected: Result<ConfigBuilderView, ConfigErrorView>,
) -> bool {
    match expected {
        Ok(after) => result is Ok && builder == after,
        Err(error) => result is Err && result->Err_0@ == error && builder == before,
    }
}

impl ConfigBuilder {
    /// A builder for the data directory that `datadir` and `home` give, with
    /// the documents that a node starts from: the protocol document of small
    /// test networks and the client document for the home directory `home`.
    /// A missing home directory fails only where no data directory was named.
    pub fn with_home(datadir: &Option<String>, home: Option<String>) -> (builder: Result<
        ConfigBuilder,
        ConfigError,
    >)
        ensures
            builder_matches(builder, initial_builder_for(optional_text(*datadir), optional_text(home))),
    {
        let client_config = ClientConfig::default_for(&home);
        let data_dir = match datadir {
            Some(dir) => dir.clone(),
            None => match home {
                Some(home) => join(home.as_str(), DEFAULT_DATA_DIR),
                None => {
                    return Err(ConfigError::NoHomeDirectory);
                },
            },
        };
        Ok(
            ConfigBuilder {
                data_dir,
                eth2_config: Eth2Config::minimal(),
                client_config,
                notices: Vec::new(),
            },
        )
    }

    /// A builder with the documents that a node starts from on this
    /// machine. The home directory is asked for: the client document lies
    /// under it, and so does the data directory unless one was named. With a
    /// data directory named this never fails.
    pub fn new(datadir: &Option<String>) -> (builder: Result<ConfigBuilder, ConfigError>)
        ensures
            datadir is Some ==> builder is Ok,
            exists|home: Option<Seq<char>>|
                builder_matches(
                    builder,
                    #[trigger] initial_builder_for(optional_text(*datadir), home),
                ),
    {
        let home = home_dir();
        ConfigBuilder::with_home(datadir, home)
    }

    /// Makes the data directory's name unique with `token`.
    pub fn append_random_suffix(&mut self, token: &str)
        ensures
            final(self)@ == (ConfigBuilderView {
                data_dir: random_datadir(old(self)@.data_dir, token@),
                ..old(self)@
            }),
    {
        let mut suffix = String::from_str(RANDOM_INFIX);
        suffix.append(token);
        self.data_dir = add_name_suffix(self.data_dir.as_str(), suffix.as_str());
    }

    /// Makes the data directory's name unique with a random token of six
    /// letters and digits.
    pub fn set_random_datadir(&mut self)
        ensures
            exists|token: Seq<char>|
                is_token(token, TOKEN_LENGTH as nat) && final(self)@ == (ConfigBuilderView {
                    data_dir: #[trigger] random_datadir(old(self)@.data_dir, token),
                    ..old(self)@
                }),
    {
        let token = random_string(TOKEN_LENGTH);
        self.append_random_suffix(token.as_str());
    }

    /// The backup directory under the data directory that `token` names.
    pub fn backup_dir(&self, token: &str) -> (path: String)
        ensures
            path@ == backup_dir(self@.data_dir, token@),
    {
        let mut name = String::from_str(BACKUP_PREFIX);
        name.append(token);
        join(self.data_dir.as_str(), name.as_str())
    }

    /// Sets how the beacon chain is started.
    pub fn set_beacon_chain_start_method(&mut self, method: StartMethod)
        ensures
            final(self)@ == old(self)@.with_start_method(method@),
    {
        self.client_config.beacon_chain_start_method = method;
    }

    /// Adds a notice for the operator.
    pub fn notice(&mut self, notice: Notice)
        ensures
            final(self)@ == old(self)@.with_notice(notice),
    {
        self.notices.push(notice);
    }

    /// Adds the bootstrap server as a peer to dial, and tells of it.
    fn add_bootstrap_node(&mut self, server: &str, port: u16)
        ensures
            final(self)@ == old(self)@.with_boot_node(
                BootNodeView::Server { server: server@, port },
            ),
    {
        let node = BootNode::Server { server: String::from_str(server), port };
        let ghost before = self.client_config.network.boot_nodes@;
        self.client_config.network.boot_nodes.push(node);
        self.notices.push(Notice::EstimatedBootstrapAddress);
        assert(boot_nodes_view(before.push(node)) =~= boot_nodes_view(before).push(node@));
    }

    /// Begins taking the bootstrap server's address.
    ///
    /// With `port` given the server is added as a peer at once and nothing
    /// is asked of it; without, the step asks the server for its port.
    pub fn import_bootstrap_libp2p_address(&mut self, server: &str, port: Option<u16>) -> (step:
        Step)
        ensures
            (final(self)@, step@) == old(self)@.import_bootstrap_libp2p_address(server@, port),
            port is Some ==> step@ is Done,
    {
        match port {
            Some(port) => {
                self.add_bootstrap_node(server, port);
                Step::Done
            },
            None => Step::Perform {
                next: Stage::ListenPort,
                action: Action::FetchListenPort { server: String::from_str(server) },
            },
        }
    }

    /// Ends taking the bootstrap server's address with the server's answer.
    /// This never fails: without a usable answer the node goes on without
    /// the address, and a warning says so.
    pub fn import_bootstrap_libp2p_address_after(&mut self, server: &str, event: &Event)
        ensures
            final(self)@ == old(self)@.import_bootstrap_libp2p_address_after(server@, *event),
    {
        match event {
            Event::ListenPort(port) => {
                self.add_bootstrap_node(server, *port);
            },
            _ => {
                self.notice(Notice::NoBootstrapAddress);
            },
        }
    }

    /// The action that asks the bootstrap server for its protocol document.
    pub fn import_bootstrap_eth2_config(server: &str) -> (action: Action)
        ensures
            action@ == (ActionView::FetchEth2Config { server: server@ }),
    {
        Action::FetchEth2Config { server: String::from_str(server) }
    }

    /// Ends taking the bootstrap server's protocol document with the
    /// server's answer.
    pub fn import_bootstrap_eth2_config_after(&mut self, server: &str, event: Event) -> (result:
        Result<(), ConfigError>)
        ensures
            update_matches(
                result,
                final(self)@,
                old(self)@,
                old(self)@.import_bootstrap_eth2_config_after(server@, event),
            ),
    {
        match event {
            Event::Eth2ConfigFound(document) => {
                self.update_eth2_config(document);
                Ok(())
            },
            Event::Failed { detail } => Err(
                ConfigError::NetworkError { server: String::from_str(server), detail },
            ),
            Event::Malformed { detail } => Err(
                ConfigError::NetworkError { server: String::from_str(server), detail },
            ),
            _ => Err(ConfigError::UnexpectedEvent),
        }
    }

    /// Replaces the protocol document.
    fn update_eth2_config(&mut self, eth2_config: Eth2Config)
        ensures
            final(self)@ == (ConfigBuilderView { eth2_config: eth2_config@, ..old(self)@ }),
    {
        self.eth2_config = eth2_config;
    }

    /// Takes the protocol variant from the command line: `spec` is the text
    /// given for the flag of that name.
    pub fn update_spec_from_subcommand(&mut self, spec: &Option<String>) -> (result: Result<
        (),
        ConfigError,
    >)
        ensures
            update_matches(
                result,
                final(self)@,
                old(self)@,
                old(self)@.update_spec_from_subcommand(optional_text(*spec)),
            ),
    {
        match spec {
            None => Err(ConfigError::MissingArgument { flag: String::from_str(FLAG_SPEC) }),
            Some(name) => match Eth2Config::for_spec_name(name.as_str()) {
                Some(eth2_config) => {
                    self.client_config.spec_constants = name.clone();
                    self.eth2_config = eth2_config;
                    Ok(())
                },
                None => Err(ConfigError::UnknownSpec { name: name.clone() }),
            },
        }
    }

    /// The action that reads the client document at `path`.
    pub fn load_client_config(path: &str) -> (action: Action)
        ensures
            action@ == (ActionView::ReadClientConfig { path: path@ }),
    {
        Action::ReadClientConfig { path: String::from_str(path) }
    }

    /// Takes the answer to reading the client document at `path`.
    pub fn load_client_config_after(&mut self, path: &str, event: Event) -> (result: Result<
        (),
        ConfigError,
    >)
        ensures
            update_matches(
                result,
                final(self)@,
                old(self)@,
                old(self)@.load_client_config_after(path@, event),
            ),
    {
        match event {
            Event::ClientConfigFound(document) => {
                self.client_config = document;
                Ok(())
            },
            Event::Absent => Err(ConfigError::DocumentNotFound { path: String::from_str(path) }),
            Event::Malformed { detail } => Err(
                ConfigError::ParseError { name: String::from_str(path), raw: detail },
            ),
            Event::Failed { detail } => Err(
                ConfigError::IoError { path: String::from_str(path), detail },
            ),
            _ => Err(ConfigError::UnexpectedEvent),
        }
    }

    /// The action that reads the protocol document at `path`.
    pub fn load_eth2_config(path: &str) -> (action: Action)
        ensures
            action@ == (ActionView::ReadEth2Config { path: path@ }),
    {
        Action::ReadEth2Config { path: String::from_str(path) }
    }

    /// Takes the answer to reading the protocol document at `path`.
    pub fn load_eth2_config_after(&mut self, path: &str, event: Event) -> (result: Result<
        (),
        ConfigError,
    >)
        ensures
            update_matches(
                result,
                final(self)@,
                old(self)@,
                old(self)@.load_eth2_config_after(path@, event),
            ),
    {
        match event {
            Event::Eth2ConfigFound(document) => {
                self.update_eth2_config(document);
                Ok(())
            },
            Event::Absent => Err(ConfigError::DocumentNotFound { path: String::from_str(path) }),
            Event::Malformed { detail } => Err(
                ConfigError::ParseError { name: String::from_str(path), raw: detail },
            ),
            Event::Failed { detail } => Err(
                ConfigError::IoError { path: String::from_str(path), detail },
            ),
            _ => Err(ConfigError::UnexpectedEvent),
        }
    }

    /// Begins loading the documents of an existing data directory.
    pub fn load_from_datadir(&self) -> (step: Step)
        ensures
            step@ == self@.load_from_datadir(),
    {
        Step::Perform {
            next: Stage::Load(LoadStage::Datadir),
            action: Action::CheckExists { path: self.data_dir.clone() },
        }
    }

    /// Goes on loading the documents of an existing data directory with
    /// what came of the last action. A failure leaves the builder as it was.
    pub fn load_from_datadir_after(&mut self, stage: LoadStage, event: Event) -> (step: Step)
        ensures
            (final(self)@, step@) == old(self)@.load_from_datadir_after(stage, event),
    {
        match stage {
            LoadStage::Datadir => match event {
                Event::Exists(true) => Step::Perform {
                    next: Stage::Load(LoadStage::Eth2Document),
                    action: Action::ReadEth2Config {
                        path: eth2_config_path(self.data_dir.as_str()),
                    },
                },
                Event::Exists(false) => Step::Fail {
                    error: ConfigError::DatadirNotFound { path: self.data_dir.clone() },
                },
                _ => Step::Fail { error: ConfigError::UnexpectedEvent },
            },
            LoadStage::Eth2Document => {
                let path = eth2_config_path(self.data_dir.as_str());
                match self.load_eth2_config_after(path.as_str(), event) {
                    Err(error) => Step::Fail { error },
                    Ok(()) => Step::Perform {
                        next: Stage::Load(LoadStage::ClientDocument),
                        action: Action::ReadClientConfig {
                            path: client_config_path(self.data_dir.as_str()),
                        },
                    },
                }
            },
            LoadStage::ClientDocument => {
                let path = client_config_path(self.data_dir.as_str());
                match self.load_client_config_after(path.as_str(), event) {
                    Err(error) => Step::Fail { error },
                    Ok(()) => match self.client_config.db_path() {
                        Some(path) => Step::Perform {
                            next: Stage::Load(LoadStage::Database),
                            action: Action::CheckExists { path },
                        },
                        None => Step::Done,
                    },
                }
            },
            LoadStage::Database => match event {
                Event::Exists(true) => Step::Done,
                Event::Exists(false) => Step::Fail {
                    error: ConfigError::DatabaseNotFound { path: self.database_text() },
                },
                _ => Step::Fail { error: ConfigError::UnexpectedEvent },
            },
        }
    }

    /// The path of the database, or the empty text where there is none.
    fn database_text(&self) -> (path: String)
        ensures
            path@ == text_or_empty(self@.client_config.db_path()),
    {
        match self.client_config.db_path() {
            Some(path) => path,
            None => String::new(),
        }
    }

    /// Begins moving the old files of the data directory into `backup`.
    pub fn clean_datadir(&self, backup: &str) -> (step: Step)
        ensures
            step@ == self@.clean_datadir(backup@),
    {
        Step::Perform {
            next: Stage::Clean(CleanStage::BackupDir),
            action: Action::CreateDirAll { path: String::from_str(backup) },
        }
    }

    /// Goes on moving the old files of the data directory into `backup`
    /// with what came of the last action.
    pub fn clean_datadir_after(&self, backup: &str, stage: CleanStage, event: &Event) -> (step:
        Step)
        ensures
            step@ == self@.clean_datadir_after(backup@, stage, *event),
    {
        match stage {
            CleanStage::BackupDir => match event {
                Event::Completed => Step::Perform {
                    next: Stage::Clean(CleanStage::ClientMove),
                    action: Action::Rename {
                        from: client_config_path(self.data_dir.as_str()),
                        to: client_config_path(backup),
                    },
                },
                Event::Failed { detail } => Step::Fail {
                    error: ConfigError::IoError {
                        path: String::from_str(backup),
                        detail: detail.clone(),
                    },
                },
                _ => Step::Fail { error: ConfigError::UnexpectedEvent },
            },
            CleanStage::ClientMove => Step::Perform {
                next: Stage::Clean(CleanStage::Eth2Move),
                action: Action::Rename {
                    from: eth2_config_path(self.data_dir.as_str()),
                    to: eth2_config_path(backup),
                },
            },
            CleanStage::Eth2Move => match self.client_config.db_path() {
                None => Step::Done,
                Some(path) => match file_name(path.as_str()) {
                    None => Step::Fail { error: ConfigError::InvalidPath { path } },
                    Some(name) => Step::Perform {
                        next: Stage::Clean(CleanStage::DatabaseMove),
                        action: Action::Rename { to: join(backup, name.as_str()), from: path },
                    },
                },
            },
            CleanStage::DatabaseMove => Step::Done,
        }
    }

    /// The step that creates the data directory.
    fn create_datadir(&self) -> (step: Step)
        ensures
            step@ == self@.create_datadir(),
    {
        Step::Perform {
            next: Stage::Persist(PersistStage::DatadirCreated),
            action: Action::CreateDirAll { path: self.data_dir.clone() },
        }
    }

    /// Begins writing the documents to a new data directory.
    pub fn write_configs_to_new_datadir(&self) -> (step: Step)
        ensures
            step@ == self@.write_configs_to_new_datadir(),
    {
        match self.client_config.db_path() {
            Some(path) => Step::Perform {
                next: Stage::Persist(PersistStage::DatabaseFree),
                action: Action::CheckExists { path },
            },
            None => self.create_datadir(),
        }
    }

    /// Goes on writing the documents to a new data directory with what came
    /// of the last action.
    pub fn write_configs_to_new_datadir_after(&self, stage: PersistStage, event: &Event) -> (step:
        Step)
        ensures
            step@ == self@.write_configs_to_new_datadir_after(stage, *event),
    {
        match stage {
            PersistStage::DatabaseFree => match event {
                Event::Exists(false) => self.create_datadir(),
                Event::Exists(true) => Step::Fail {
                    error: ConfigError::DatadirNotClean { path: self.database_text() },
                },
                _ => Step::Fail { error: ConfigError::UnexpectedEvent },
            },
            PersistStage::DatadirCreated => match event {
                Event::Completed => Step::Perform {
                    next: Stage::Persist(PersistStage::ClientFree),
                    action: Action::CheckExists {
                        path: client_config_path(self.data_dir.as_str()),
                    },
                },
                Event::Failed { detail } => Step::Fail {
                    error: ConfigError::IoError {
                        path: self.data_dir.clone(),
                        detail: detail.clone(),
                    },
                },
                _ => Step::Fail { error: ConfigError::UnexpectedEvent },
            },
            PersistStage::ClientFree => match event {
                Event::Exists(false) => Step::Perform {
                    next: Stage::Persist(PersistStage::Eth2Free),
                    action: Action::CheckExists { path: eth2_config_path(self.data_dir.as_str()) },
                },
                Event::Exists(true) => Step::Fail {
                    error: ConfigError::DatadirNotClean {
                        path: client_config_path(self.data_dir.as_str()),
                    },
                },
                _ => Step::Fail { error: ConfigError::UnexpectedEvent },
            },
            PersistStage::Eth2Free => match event {
                Event::Exists(false) => Step::Perform {
                    next: Stage::Persist(PersistStage::ClientWritten),
                    action: Action::WriteClientConfig {
                        path: client_config_path(self.data_dir.as_str()),
                    },
                },
                Event::Exists(true) => Step::Fail {
                    error: ConfigError::DatadirNotClean {
                        path: eth2_config_path(self.data_dir.as_str()),
                    },
                },
                _ => Step::Fail { error: ConfigError::UnexpectedEvent },
            },
            PersistStage::ClientWritten => match event {
                Event::Completed => Step::Perform {
                    next: Stage::Persist(PersistStage::Eth2Written),
                    action: Action::WriteEth2Config {
                        path: eth2_config_path(self.data_dir.as_str()),
                    },
                },
                Event::Failed { detail } => Step::Fail {
                    error: ConfigError::IoError {
                        path: client_config_path(self.data_dir.as_str()),
                        detail: detail.clone(),
                    },
                },
                _ => Step::Fail { error: ConfigError::UnexpectedEvent },
            },
            PersistStage::Eth2Written => match event {
                Event::Completed => Step::Done,
                Event::Failed { detail } => Step::Fail {
                    error: ConfigError::IoError {
                        path: eth2_config_path(self.data_dir.as_str()),
                        detail: detail.clone(),
                    },
                },
                _ => Step::Fail { error: ConfigError::UnexpectedEvent },
            },
        }
    }

    /// Hands out the two documents, and ends the builder.
    ///
    /// `port_bump` is the text given for the flag of that name. Every port
    /// is moved up by it, the RPC port twice; the two documents must name
    /// the same constants; the client document gets the builder's data
    /// directory. Nothing is written anywhere.
    pub fn build(self, port_bump: &Option<String>) -> (configs: Result<
        (ClientConfig, Eth2Config),
        ConfigError,
    >)
        ensures
            match self@.build(optional_text(*port_bump)) {
                Ok(expected) => configs is Ok && (configs->Ok_0.0@, configs->Ok_0.1@) == expected,
                Err(error) => configs is Err && configs->Err_0@ == error,
            },
    {
        let ConfigBuilder { data_dir, eth2_config, client_config, notices } = self;
        let mut client_config = client_config;
        let bump: u16 = match port_bump {
            None => 0,
            Some(raw) => match parse_u16(raw.as_str()) {
                Some(bump) => bump,
                None => {
                    return Err(
                        ConfigError::ParseError {
                            name: String::from_str(FLAG_PORT_BUMP),
                            raw: raw.clone(),
                        },
                    );
                },
            },
        };
        let step: u32 = bump as u32;
        let libp2p_port: u32 = client_config.network.libp2p_port as u32 + step;
        let discovery_port: u32 = client_config.network.discovery_port as u32 + step;
        let rpc_port: u32 = client_config.rpc.port as u32 + step + step;
        let rest_api_port: u32 = client_config.rest_api.port as u32 + step;
        if !same_text(eth2_config.spec_constants.as_str(), client_config.spec_constants.as_str()) {
            return Err(
                ConfigError::SpecMismatch {
                    client: client_config.spec_constants,
                    eth2: eth2_config.spec_constants,
                },
            );
        }
        if libp2p_port > 65535 || discovery_port > 65535 || rpc_port > 65535 || rest_api_port
            > 65535 {
            return Err(ConfigError::PortOutOfRange);
        }
        client_config.network.libp2p_port = libp2p_port as u16;
        client_config.network.discovery_port = discovery_port as u16;
        client_config.rpc.port = rpc_port as u16;
        client_config.rest_api.port = rest_api_port as u16;
        client_config.data_dir = data_dir;
        Ok((client_config, eth2_config))
    }
}

} // verus!
