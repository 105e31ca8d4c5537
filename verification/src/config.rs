//! Resolving the configuration of a run, one action at a time.
//!
//! A run goes from the command line to the two finished documents. On the
//! way it needs the world outside: files to look at, move and write, and for
//! a bootstrap a server to ask. [`get_configs`] begins a run and
//! [`Resolution::advance`] takes it on; each gives a [`Progress`], which
//! either names the next action or ends the run. There is no retry: a run
//! that failed is over.

use crate::arguments::resolve;
use crate::arguments::resolve_spec;
use crate::arguments::CliArgs;
use crate::arguments::StartupRequest;
use crate::arguments::StartupRequestView;
use crate::arguments::FLAG_SPEC;
use crate::builder::backup_dir;
use crate::builder::initial_builder;
use crate::builder::random_datadir;
use crate::builder::resolve_data_dir;
use crate::builder::text_or_empty;
use crate::builder::ConfigBuilder;
use crate::builder::ConfigBuilderView;
use crate::builder::TOKEN_LENGTH;
use crate::client_config::ClientConfig;
use crate::client_config::ClientConfigView;
use crate::client_config::StartMethod;
use crate::client_config::StartMethodView;
use crate::datadir::file_name_spec;
use crate::datadir::join_spec;
use crate::datadir::CLIENT_CONFIG_FILENAME;
use crate::datadir::ETH2_CONFIG_FILENAME;
use crate::effects::CleanStage;
use crate::effects::LoadStage;
use crate::effects::PersistStage;
use crate::effects::Action;
use crate::effects::ActionView;
use crate::effects::Event;
use crate::effects::Notice;
use crate::effects::Stage;
use crate::effects::Step;
use crate::effects::StepView;
use crate::entropy::is_token;
use crate::entropy::random_string;
use crate::error::ConfigError;
use crate::error::ConfigErrorView;
use crate::eth2_config::Eth2Config;
use crate::eth2_config::Eth2ConfigView;
use crate::home::home_dir;
use crate::text::copy_optional;
use crate::text::optional_text;
use vstd::prelude::*;
use vstd::string::StringExecFns;

verus! {

/// A run that waits for the event of its last action.
#[derive(Clone, Debug, PartialEq, Eq)]
pub struct Resolution {
    pub builder: ConfigBuilder,
    /// What the run was asked to do.
    pub request: StartupRequest,
    /// The text given for the flag that moves the ports, if any.
    pub port_bump: Option<String>,
    /// Where old files are moved to; empty unless a clean start was forced.
    pub backup_dir: String,
    /// What the run waits for.
    pub stage: Stage,
}

/// A `Resolution` with its texts and lists as sequences.
pub struct ResolutionView {
    pub builder: ConfigBuilderView,
    pub request: StartupRequestView,
    pub port_bump: Option<Seq<char>>,
    pub backup_dir: Seq<char>,
    pub stage: Stage,
}

impl View for Resolution {
    type V = ResolutionView;

    open spec fn view(&self) -> ResolutionView {
        ResolutionView {
            builder: self.builder@,
            request: self.request@,
            port_bump: optional_text(self.port_bump),
            backup_dir: self.backup_dir@,
            stage: self.stage,
        }
    }
}

/// How far a run has come.
#[derive(Clone, Debug, PartialEq, Eq)]
pub enum Progress {
    /// Carry out `action`, and hand what came of it to `state`.
    Continue { state: Resolution, action: Action },
    /// The run is over: these are the two documents.
    Built { client_config: ClientConfig, eth2_config: Eth2Config },
    /// The run is over: it failed.
    Failed { error: ConfigError },
}

/// A `Progress` with its texts and lists as sequences.
pub enum ProgressView {
    Continue { state: ResolutionView, action: ActionView },
    Built { client_config: ClientConfigView, eth2_config: Eth2ConfigView },
    Failed { error: ConfigErrorView },
}

impl View for Progress {
    type V = ProgressView;

    open spec fn view(&self) -> ProgressView {
        match self {
            Progress::Continue { state, action } => ProgressView::Continue {
                state: state@,
                action: action@,
            },
            Progress::Built { client_config, eth2_config } => ProgressView::Built {
                client_config: client_config@,
                eth2_config: eth2_config@,
            },
            Progress::Failed { error } => ProgressView::Failed { error: error@ },
        }
    }
}

impl ResolutionView {
    /// Whether this run waits for something that its request can lead to.
    pub open spec fn consistent(self) -> bool {
        match self.request {
            StartupRequestView::Resume => self.stage is Load,
            StartupRequestView::Testnet(request) => match self.stage {
                Stage::Load(_) => false,
                Stage::Clean(_) => request.force,
                Stage::Eth2File => request.eth2_config is Some,
                Stage::Eth2Fetch => self.request.fetches_eth2_config(),
                Stage::ClientFile => request.client_config is Some,
                Stage::ListenPort => request.method is HttpBootstrap
                    && request.method->HttpBootstrap_port is None,
                Stage::Persist(_) => self.builder.client_config.beacon_chain_start_method
                    == request.method,
            },
        }
    }

    /// The action whose outcome this run waits for.
    pub open spec fn awaited(self) -> ActionView {
        let builder = self.builder;
        let database = text_or_empty(builder.client_config.db_path());
        let server = text_or_empty(self.request.server());
        match self.stage {
            Stage::Load(LoadStage::Datadir) => ActionView::CheckExists { path: builder.data_dir },
            Stage::Load(LoadStage::Eth2Document) => ActionView::ReadEth2Config {
                path: builder.eth2_file(),
            },
            Stage::Load(LoadStage::ClientDocument) => ActionView::ReadClientConfig {
                path: builder.client_file(),
            },
            Stage::Load(LoadStage::Database) => ActionView::CheckExists { path: database },
            Stage::Clean(CleanStage::BackupDir) => ActionView::CreateDirAll {
                path: self.backup_dir,
            },
            Stage::Clean(CleanStage::ClientMove) => ActionView::Rename {
                from: builder.client_file(),
                to: join_spec(self.backup_dir, CLIENT_CONFIG_FILENAME@),
            },
            Stage::Clean(CleanStage::Eth2Move) => ActionView::Rename {
                from: builder.eth2_file(),
                to: join_spec(self.backup_dir, ETH2_CONFIG_FILENAME@),
            },
            Stage::Clean(CleanStage::DatabaseMove) => ActionView::Rename {
                from: database,
                to: join_spec(self.backup_dir, text_or_empty(file_name_spec(database))),
            },
            Stage::Eth2File => ActionView::ReadEth2Config {
                path: text_or_empty(self.request.eth2_config()),
            },
            Stage::Eth2Fetch => ActionView::FetchEth2Config { server },
            Stage::ClientFile => ActionView::ReadClientConfig {
                path: text_or_empty(self.request.client_config()),
            },
            Stage::ListenPort => ActionView::FetchListenPort { server },
            Stage::Persist(PersistStage::DatabaseFree) => ActionView::CheckExists {
                path: database,
            },
            Stage::Persist(PersistStage::DatadirCreated) => ActionView::CreateDirAll {
                path: builder.data_dir,
            },
            Stage::Persist(PersistStage::ClientFree) => ActionView::CheckExists {
                path: builder.client_file(),
            },
            Stage::Persist(PersistStage::Eth2Free) => ActionView::CheckExists {
                path: builder.eth2_file(),
            },
            Stage::Persist(PersistStage::ClientWritten) => ActionView::WriteClientConfig {
                path: builder.client_file(),
            },
            Stage::Persist(PersistStage::Eth2Written) => ActionView::WriteEth2Config {
                path: builder.eth2_file(),
            },
        }
    }

    /// This run with another builder.
    pub open spec fn with_builder(self, builder: ConfigBuilderView) -> ResolutionView {
        ResolutionView { builder, ..self }
    }

    /// This run waiting at `stage`.
    pub open spec fn at(self, stage: Stage) -> ResolutionView {
        ResolutionView { stage, ..self }
    }

    /// What a step of one part means for the run: an action to wait for, a
    /// failure, or `otherwise` where the part is done.
    pub open spec fn follow(self, step: StepView, otherwise: ProgressView) -> ProgressView {
        match step {
            StepView::Perform { next, action } => ProgressView::Continue {
                state: self.at(next),
                action,
            },
            StepView::Fail { error } => ProgressView::Failed { error },
            StepView::Done => otherwise,
        }
    }

    /// The end of a run: the documents are built.
    pub open spec fn finish(self) -> ProgressView {
        match self.builder.build(self.port_bump) {
            Ok((client_config, eth2_config)) => ProgressView::Built { client_config, eth2_config },
            Err(error) => ProgressView::Failed { error },
        }
    }

    /// The end of a run that resumes: whatever start method the client
    /// document that was loaded holds, the chain is resumed; then the
    /// documents are built.
    pub open spec fn resume(self) -> ProgressView {
        self.with_builder(self.builder.with_start_method(self.request.method())).finish()
    }

    /// The last part of a fresh-chain run: the start method is set, and the
    /// documents are written to the new data directory.
    pub open spec fn persist(self) -> ProgressView {
        let builder = self.builder.with_start_method(self.request.method()).with_notice(
            Notice::CreatingNewDatadir,
        );
        self.with_builder(builder).follow(
            builder.write_configs_to_new_datadir(),
            self.with_builder(builder).finish(),
        )
    }

    /// Where a clean start was forced, old files are moved aside, the
    /// database that the client document now settled names among them;
    /// then the run goes on to the bootstrap server's address.
    pub open spec fn force_clean(self) -> ProgressView {
        if self.request.force() {
            self.follow(
                self.builder.clean_datadir(self.backup_dir),
                self.resolve_bootstrap_address(),
            )
        } else {
            self.resolve_bootstrap_address()
        }
    }

    /// Where the protocol document must come from the bootstrap server, the
    /// server is asked for it; then the run goes on to write the documents.
    pub open spec fn fetch_eth2_config(self) -> ProgressView {
        if self.request.fetches_eth2_config() {
            ProgressView::Continue {
                state: self.at(Stage::Eth2Fetch),
                action: ActionView::FetchEth2Config { server: self.request.server()->0 },
            }
        } else {
            self.persist()
        }
    }

    /// For a bootstrap, the server's address is taken; then the run goes on
    /// to the protocol document of the server. So a server is asked for its
    /// port, where it must be asked, before it is asked for its document.
    pub open spec fn resolve_bootstrap_address(self) -> ProgressView {
        match self.request.method() {
            StartMethodView::HttpBootstrap { server, port } => {
                let (builder, step) = self.builder.import_bootstrap_libp2p_address(server, port);
                self.with_builder(builder).follow(
                    step,
                    self.with_builder(builder).fetch_eth2_config(),
                )
            },
            StartMethodView::Resume => self.fetch_eth2_config(),
            StartMethodView::RecentGenesis { .. } => self.fetch_eth2_config(),
            StartMethodView::Generated { .. } => self.fetch_eth2_config(),
        }
    }

    /// A client document file that was named is read; then the run goes on
    /// to move old files aside.
    pub open spec fn resolve_client_config(self) -> ProgressView {
        match self.request.client_config() {
            Some(path) => ProgressView::Continue {
                state: self.at(Stage::ClientFile),
                action: ActionView::ReadClientConfig { path },
            },
            None => self.force_clean(),
        }
    }

    /// The protocol document is settled: a file that was named wins; else a
    /// variant that was named; else, for a bootstrap only, the server will be
    /// asked, once its address was taken. Then the run goes on to the client
    /// document.
    pub open spec fn resolve_eth2_config(self) -> ProgressView {
        if self.request.eth2_config() is Some {
            ProgressView::Continue {
                state: self.at(Stage::Eth2File),
                action: ActionView::ReadEth2Config { path: self.request.eth2_config()->0 },
            }
        } else if self.request.spec() is Some {
            match self.builder.update_spec_from_subcommand(self.request.spec()) {
                Err(error) => ProgressView::Failed { error },
                Ok(builder) => self.with_builder(builder).resolve_client_config(),
            }
        } else if self.request.server() is Some {
            self.resolve_client_config()
        } else {
            ProgressView::Failed { error: ConfigErrorView::MissingArgument { flag: FLAG_SPEC@ } }
        }
    }

    /// A fresh-chain run, from its first part on. The protocol document is
    /// settled from a file or a name, then the client document; then, where
    /// a clean start was forced, old files are moved aside; then the
    /// bootstrap server's address is taken, and its protocol document where
    /// neither file nor name gave one; and last the documents are written.
    /// Nothing on disk is changed before the old files were moved aside.
    pub open spec fn process_testnet_subcommand(self) -> ProgressView {
        self.resolve_eth2_config()
    }

    /// A run that waits, handed `event`. A run that resumes only ever loads
    /// an existing data directory and then builds, and a fresh-chain run
    /// never loads one: a run found waiting anywhere else ends with
    /// `UnexpectedEvent`.
    #[verifier::opaque]
    pub open spec fn advance(self, event: Event) -> ProgressView {
        if (self.request is Resume) != (self.stage is Load) {
            ProgressView::Failed { error: ConfigErrorView::UnexpectedEvent }
        } else {
            match self.stage {
                Stage::Load(stage) => {
                    let (builder, step) = self.builder.load_from_datadir_after(stage, event);
                    self.with_builder(builder).follow(step, self.with_builder(builder).resume())
                },
                Stage::Clean(stage) => self.follow(
                    self.builder.clean_datadir_after(self.backup_dir, stage, event),
                    self.resolve_bootstrap_address(),
                ),
                Stage::Eth2File => match self.builder.load_eth2_config_after(
                    text_or_empty(self.request.eth2_config()),
                    event,
                ) {
                    Err(error) => ProgressView::Failed { error },
                    Ok(builder) => self.with_builder(builder).resolve_client_config(),
                },
                Stage::Eth2Fetch => match self.builder.import_bootstrap_eth2_config_after(
                    text_or_empty(self.request.server()),
                    event,
                ) {
                    Err(error) => ProgressView::Failed { error },
                    Ok(builder) => self.with_builder(builder).persist(),
                },
                Stage::ClientFile => match self.builder.load_client_config_after(
                    text_or_empty(self.request.client_config()),
                    event,
                ) {
                    Err(error) => ProgressView::Failed { error },
                    Ok(builder) => self.with_builder(builder).force_clean(),
                },
                Stage::ListenPort => self.with_builder(
                    self.builder.import_bootstrap_libp2p_address_after(
                        text_or_empty(self.request.server()),
                        event,
                    ),
                ).fetch_eth2_config(),
                Stage::Persist(stage) => self.follow(
                    self.builder.write_configs_to_new_datadir_after(stage, event),
                    self.finish(),
                ),
            }
        }
    }
}

/// Where a run stands after `events` were handed to it one by one, each
/// being what came of the action asked for just before. A run that is over
/// stays as it ended.
pub open spec fn feed(progress: ProgressView, events: Seq<Event>) -> ProgressView
    decreases events.len(),
{
    if events.len() == 0 {
        progress
    } else {
        match feed(progress, events.drop_last()) {
            ProgressView::Continue { state, .. } => state.advance(events.last()),
            ended => ended,
        }
    }
}

/// How a run begins, given what the world outside holds for it: the home
/// directory, if there is one, and two random tokens.
///
/// The command line is resolved first, then the data directory. A run that
/// resumes begins to load the data directory. A fresh-chain run makes the
/// data directory's name unique with `datadir_token` where that was asked
/// for, names its backup directory with `backup_token` where a clean start
/// was forced, and begins its first part.
#[verifier::opaque]
pub open spec fn start_spec(
    args: CliArgs,
    home: Option<Seq<char>>,
    datadir_token: Seq<char>,
    backup_token: Seq<char>,
) -> ProgressView {
    match resolve_spec(args) {
        Err(error) => ProgressView::Failed { error },
        Ok(request) => match resolve_data_dir(optional_text(args.datadir), home) {
            Err(error) => ProgressView::Failed { error },
            Ok(data_dir) => match request {
                StartupRequestView::Resume => {
                    let builder = initial_builder(data_dir, home).with_notice(
                        Notice::ResumingFromDatadir,
                    );
                    let state = ResolutionView {
                        builder,
                        request,
                        port_bump: optional_text(args.port_bump),
                        backup_dir: Seq::empty(),
                        stage: Stage::Load(LoadStage::Datadir),
                    };
                    state.follow(builder.load_from_datadir(), state.resume())
                },
                StartupRequestView::Testnet(testnet) => {
                    let data_dir = if testnet.random_datadir {
                        random_datadir(data_dir, datadir_token)
                    } else {
                        data_dir
                    };
                    let state = ResolutionView {
                        builder: initial_builder(data_dir, home),
                        request,
                        port_bump: optional_text(args.port_bump),
                        backup_dir: if testnet.force {
                            backup_dir(data_dir, backup_token)
                        } else {
                            Seq::empty()
                        },
                        stage: Stage::Eth2File,
                    };
                    state.process_testnet_subcommand()
                },
            },
        },
    }
}

/// The text of an optional value, or the empty text.
fn owned_or_empty(text: Option<String>) -> (owned: String)
    ensures
        owned@ == text_or_empty(optional_text(text)),
{
    match text {
        Some(t) => t,
        None => String::new(),
    }
}

impl Resolution {
    /// What a step of one part means for the run: the action to wait for
    /// or the failure; or, where the part is done, the run as it is, for
    /// the next part to take on.
    fn follow(self, step: Step) -> (outcome: Result<Progress, Resolution>)
        ensures
            step@ is Done ==> outcome is Err && outcome->Err_0 == self,
            !(step@ is Done) ==> outcome is Ok && forall|otherwise: ProgressView|
                outcome->Ok_0@ == #[trigger] self@.follow(step@, otherwise),
    {
        let mut state = self;
        match step {
            Step::Perform { next, action } => {
                state.stage = next;
                Ok(Progress::Continue { state, action })
            },
            Step::Fail { error } => Ok(Progress::Failed { error }),
            Step::Done => Err(state),
        }
    }

    /// Ends the run: builds the documents.
    fn finish(self) -> (progress: Progress)
        ensures
            progress@ == self@.finish(),
    {
        let Resolution { builder, request, port_bump, backup_dir, stage } = self;
        match builder.build(&port_bump) {
            Ok((client_config, eth2_config)) => Progress::Built { client_config, eth2_config },
            Err(error) => Progress::Failed { error },
        }
    }

    /// Ends a run that resumes: sets the start method and builds the documents.
    fn resume(self) -> (progress: Progress)
        ensures
            progress@ == self@.resume(),
    {
        let mut state = self;
        let method = state.request.method();
        state.builder.set_beacon_chain_start_method(method);
        state.finish()
    }

    /// Moves old files aside, where a clean start was forced, and goes on
    /// to the bootstrap server's address.
    fn force_clean(self) -> (progress: Progress)
        ensures
            progress@ == self@.force_clean(),
    {
        let state = self;
        if state.request.force() {
            let step = state.builder.clean_datadir(state.backup_dir.as_str());
            match state.follow(step) {
                Ok(progress) => progress,
                Err(state) => state.resolve_bootstrap_address(),
            }
        } else {
            state.resolve_bootstrap_address()
        }
    }

    /// Sets the start method and begins to write the documents.
    fn persist(self) -> (progress: Progress)
        ensures
            progress@ == self@.persist(),
    {
        let mut state = self;
        let method = state.request.method();
        state.builder.set_beacon_chain_start_method(method);
        state.builder.notice(Notice::CreatingNewDatadir);
        let step = state.builder.write_configs_to_new_datadir();
        match state.follow(step) {
            Ok(progress) => progress,
            Err(state) => state.finish(),
        }
    }

    /// Asks the bootstrap server for its protocol document, where that is
    /// where the document must come from, and goes on to write the documents.
    fn fetch_eth2_config(self) -> (progress: Progress)
        ensures
            progress@ == self@.fetch_eth2_config(),
    {
        let mut state = self;
        if state.request.eth2_config().is_some() || state.request.spec().is_some() {
            return state.persist();
        }
        match state.request.server() {
            Some(server) => {
                state.stage = Stage::Eth2Fetch;
                let action = ConfigBuilder::import_bootstrap_eth2_config(server.as_str());
                Progress::Continue { state, action }
            },
            None => state.persist(),
        }
    }

    /// Takes the bootstrap server's address, where the run is a bootstrap,
    /// and goes on to the server's protocol document.
    fn resolve_bootstrap_address(self) -> (progress: Progress)
        ensures
            progress@ == self@.resolve_bootstrap_address(),
    {
        let mut state = self;
        match state.request.method() {
            StartMethod::HttpBootstrap { server, port } => {
                let step = state.builder.import_bootstrap_libp2p_address(server.as_str(), port);
                match state.follow(step) {
                    Ok(progress) => progress,
                    Err(state) => state.fetch_eth2_config(),
                }
            },
            StartMethod::Resume => state.fetch_eth2_config(),
            StartMethod::RecentGenesis { .. } => state.fetch_eth2_config(),
            StartMethod::Generated { .. } => state.fetch_eth2_config(),
        }
    }

    /// Reads the client document file that was named, if one was, and goes
    /// on to move old files aside.
    fn resolve_client_config(self) -> (progress: Progress)
        ensures
            progress@ == self@.resolve_client_config(),
    {
        let mut state = self;
        match state.request.client_config() {
            Some(path) => {
                state.stage = Stage::ClientFile;
                Progress::Continue { state, action: ConfigBuilder::load_client_config(path.as_str()) }
            },
            None => state.force_clean(),
        }
    }

    /// Settles the protocol document and goes on to the client document.
    fn resolve_eth2_config(self) -> (progress: Progress)
        ensures
            progress@ == self@.resolve_eth2_config(),
    {
        let mut state = self;
        match state.request.eth2_config() {
            Some(path) => {
                state.stage = Stage::Eth2File;
                let action = ConfigBuilder::load_eth2_config(path.as_str());
                return Progress::Continue { state, action };
            },
            None => {},
        }
        let spec = state.request.spec();
        if spec.is_some() {
            return match state.builder.update_spec_from_subcommand(&spec) {
                Err(error) => Progress::Failed { error },
                Ok(()) => state.resolve_client_config(),
            };
        }
        match state.request.server() {
            Some(_) => state.resolve_client_config(),
            None => Progress::Failed {
                error: ConfigError::MissingArgument { flag: String::from_str(FLAG_SPEC) },
            },
        }
    }

    /// Begins a fresh-chain run with its first part: settling the protocol
    /// document.
    fn process_testnet_subcommand(self) -> (progress: Progress)
        ensures
            progress@ == self@.process_testnet_subcommand(),
    {
        self.resolve_eth2_config()
    }

    /// Takes the run on with `event`, which is what came of the action that
    /// the run last asked for.
    ///
    /// The answer is the next action, the two documents, or the failure. An
    /// event that answers no action the run could have asked for at this
    /// point ends it with `UnexpectedEvent`.
    pub fn advance(self, event: Event) -> (progress: Progress)
        ensures
            progress@ == self@.advance(event),
    {
        reveal(ResolutionView::advance);
        let mut state = self;
        let resumes = match &state.request {
            StartupRequest::Resume => true,
            StartupRequest::Testnet(_) => false,
        };
        let loads = match state.stage {
            Stage::Load(_) => true,
            _ => false,
        };
        if resumes != loads {
            return Progress::Failed { error: ConfigError::UnexpectedEvent };
        }
        match state.stage {
            Stage::Load(stage) => {
                let step = state.builder.load_from_datadir_after(stage, event);
                match state.follow(step) {
                    Ok(progress) => progress,
                    Err(state) => state.resume(),
                }
            },
            Stage::Clean(stage) => {
                let step = state.builder.clean_datadir_after(
                    state.backup_dir.as_str(),
                    stage,
                    &event,
                );
                match state.follow(step) {
                    Ok(progress) => progress,
                    Err(state) => state.resolve_bootstrap_address(),
                }
            },
            Stage::Eth2File => {
                let path = owned_or_empty(state.request.eth2_config());
                match state.builder.load_eth2_config_after(path.as_str(), event) {
                    Err(error) => Progress::Failed { error },
                    Ok(()) => state.resolve_client_config(),
                }
            },
            Stage::Eth2Fetch => {
                let server = owned_or_empty(state.request.server());
                match state.builder.import_bootstrap_eth2_config_after(server.as_str(), event) {
                    Err(error) => Progress::Failed { error },
                    Ok(()) => state.persist(),
                }
            },
            Stage::ClientFile => {
                let path = owned_or_empty(state.request.client_config());
                match state.builder.load_client_config_after(path.as_str(), event) {
                    Err(error) => Progress::Failed { error },
                    Ok(()) => state.force_clean(),
                }
            },
            Stage::ListenPort => {
                let server = owned_or_empty(state.request.server());
                state.builder.import_bootstrap_libp2p_address_after(server.as_str(), &event);
                state.fetch_eth2_config()
            },
            Stage::Persist(stage) => {
                let step = state.builder.write_configs_to_new_datadir_after(stage, &event);
                match state.follow(step) {
                    Ok(progress) => progress,
                    Err(state) => state.finish(),
                }
            },
        }
    }

    /// Begins a run for the command line `args`, given the home directory,
    /// if there is one, and the two random tokens that the run may need.
    pub fn start(
        args: &CliArgs,
        home: Option<String>,
        datadir_token: &str,
        backup_token: &str,
    ) -> (progress: Progress)
        ensures
            progress@ == start_spec(*args, optional_text(home), datadir_token@, backup_token@),
    {
        reveal(start_spec);
        let request = match resolve(args) {
            Err(error) => {
                return Progress::Failed { error };
            },
            Ok(request) => request,
        };
        let mut builder = match ConfigBuilder::with_home(&args.datadir, home) {
            Err(error) => {
                return Progress::Failed { error };
            },
            Ok(builder) => builder,
        };
        let port_bump = copy_optional(&args.port_bump);
        match request {
            StartupRequest::Resume => {
                builder.notice(Notice::ResumingFromDatadir);
                let step = builder.load_from_datadir();
                let state = Resolution {
                    builder,
                    request: StartupRequest::Resume,
                    port_bump,
                    backup_dir: String::new(),
                    stage: Stage::Load(LoadStage::Datadir),
                };
                match state.follow(step) {
                    Ok(progress) => progress,
                    Err(state) => state.resume(),
                }
            },
            StartupRequest::Testnet(testnet) => {
                if testnet.random_datadir {
                    builder.append_random_suffix(datadir_token);
                }
                let backup_dir = if testnet.force {
                    builder.backup_dir(backup_token)
                } else {
                    String::new()
                };
                let state = Resolution {
                    builder,
                    request: StartupRequest::Testnet(testnet),
                    port_bump,
                    backup_dir,
                    stage: Stage::Eth2File,
                };
                state.process_testnet_subcommand()
            },
        }
    }
}

/// Begins resolving the configuration for the command line `args`.
///
/// The home directory is asked for, since the client document that a node
/// starts from lies under it; a missing one fails the run only where no data
/// directory was named. A random token is drawn only where the run needs
/// one: for a random data directory, and for the backup directory of a
/// forced clean start.
/// Whatever these turn out to be, the run begins as [`start_spec`] says.
pub fn get_configs(args: &CliArgs) -> (progress: Progress)
    ensures
        exists|home: Option<Seq<char>>, datadir_token: Seq<char>, backup_token: Seq<char>|
            {
                &&& args.testnet is Some && args.testnet->0.random_datadir ==> is_token(
                    datadir_token,
                    TOKEN_LENGTH as nat,
                )
                &&& args.testnet is Some && args.testnet->0.force ==> is_token(
                    backup_token,
                    TOKEN_LENGTH as nat,
                )
                &&& progress@ == #[trigger] start_spec(*args, home, datadir_token, backup_token)
            },
{
    let home = home_dir();
    let (random_datadir, force) = match &args.testnet {
        Some(testnet) => (testnet.random_datadir, testnet.force),
        None => (false, false),
    };
    let datadir_token = if random_datadir {
        random_string(TOKEN_LENGTH)
    } else {
        String::new()
    };
    let backup_token = if force {
        random_string(TOKEN_LENGTH)
    } else {
        String::new()
    };
    Resolution::start(args, home, datadir_token.as_str(), backup_token.as_str())
}

} // verus!
