//! What the library asks of the world outside, and what the world answers.
//!
//! Resolving the configuration touches the file system and, for a bootstrap,
//! the network. The library does neither itself: it names an [`Action`], the
//! caller carries it out and hands back the [`Event`] that came of it.

use crate::client_config::ClientConfig;
use crate::error::ConfigError;
use crate::error::ConfigErrorView;
use crate::eth2_config::Eth2Config;
use vstd::prelude::*;

verus! {

/// Something for the caller to do.
#[derive(Clone, Debug, PartialEq, Eq)]
pub enum Action {
    /// Say whether `path` exists: answered by `Exists`.
    CheckExists { path: String },
    /// Create the directory `path` and every missing parent: answered by
    /// `Completed` or `Failed`.
    CreateDirAll { path: String },
    /// Try to rename `from` to `to`. Any answer will do: a source that is
    /// missing and a rename that fails are both passed over.
    Rename { from: String, to: String },
    /// Read the client document at `path`: answered by `ClientConfigFound`,
    /// `Absent`, `Malformed` or `Failed`.
    ReadClientConfig { path: String },
    /// Read the protocol document at `path`: answered by `Eth2ConfigFound`,
    /// `Absent`, `Malformed` or `Failed`.
    ReadEth2Config { path: String },
    /// Write the builder's client document to `path`: answered by
    /// `Completed` or `Failed`.
    WriteClientConfig { path: String },
    /// Write the builder's protocol document to `path`: answered by
    /// `Completed` or `Failed`.
    WriteEth2Config { path: String },
    /// Ask `server` once for the port it listens on for peers: answered by
    /// `ListenPort`, or by anything else where that failed.
    FetchListenPort { server: String },
    /// Ask `server` once for its protocol document: answered by
    /// `Eth2ConfigFound`, `Malformed` or `Failed`.
    FetchEth2Config { server: String },
}

/// An `Action` with its texts as sequences of characters.
pub enum ActionView {
    CheckExists { path: Seq<char> },
    CreateDirAll { path: Seq<char> },
    Rename { from: Seq<char>, to: Seq<char> },
    ReadClientConfig { path: Seq<char> },
    ReadEth2Config { path: Seq<char> },
    WriteClientConfig { path: Seq<char> },
    WriteEth2Config { path: Seq<char> },
    FetchListenPort { server: Seq<char> },
    FetchEth2Config { server: Seq<char> },
}

impl View for Action {
    type V = ActionView;

    open spec fn view(&self) -> ActionView {
        match self {
            Action::CheckExists { path } => ActionView::CheckExists { path: path@ },
            Action::CreateDirAll { path } => ActionView::CreateDirAll { path: path@ },
            Action::Rename { from, to } => ActionView::Rename { from: from@, to: to@ },
            Action::ReadClientConfig { path } => ActionView::ReadClientConfig { path: path@ },
            Action::ReadEth2Config { path } => ActionView::ReadEth2Config { path: path@ },
            Action::WriteClientConfig { path } => ActionView::WriteClientConfig { path: path@ },
            Action::WriteEth2Config { path } => ActionView::WriteEth2Config { path: path@ },
            Action::FetchListenPort { server } => ActionView::FetchListenPort {
                server: server@,
            },
            Action::FetchEth2Config { server } => ActionView::FetchEth2Config {
                server: server@,
            },
        }
    }
}

impl ActionView {
    /// Whether carrying out this action can change what is on disk.
    pub open spec fn changes_disk(self) -> bool {
        self is CreateDirAll || self is Rename || self is WriteClientConfig
            || self is WriteEth2Config
    }

    /// Whether carrying out this action writes a document.
    pub open spec fn writes_document(self) -> bool {
        self is WriteClientConfig || self is WriteEth2Config
    }

    /// Whether carrying out this action goes to the network.
    pub open spec fn uses_network(self) -> bool {
        self is FetchListenPort || self is FetchEth2Config
    }
}

/// What came of an action.
#[derive(Clone, Debug, PartialEq, Eq)]
pub enum Event {
    /// Whether the path exists.
    Exists(bool),
    /// The action was carried out.
    Completed,
    /// The action failed, and why.
    Failed { detail: String },
    /// There is no file at the path.
    Absent,
    /// There is a document, and it cannot be understood.
    Malformed { detail: String },
    /// The client document that was read.
    ClientConfigFound(ClientConfig),
    /// The protocol document that was read or fetched.
    Eth2ConfigFound(Eth2Config),
    /// The port that the server listens on for peers.
    ListenPort(u16),
}

/// Something worth telling the operator. It does not change what is done.
#[derive(Clone, Copy, Debug, PartialEq, Eq, Structural)]
pub enum Notice {
    /// The node goes on from an existing data directory.
    ResumingFromDatadir,
    /// A new data directory is being made.
    CreatingNewDatadir,
    /// An address of the bootstrap server was worked out.
    EstimatedBootstrapAddress,
    /// No address of the bootstrap server could be worked out: the node may
    /// find no peers.
    NoBootstrapAddress,
}

/// How loud a notice is.
#[derive(Clone, Copy, Debug, PartialEq, Eq, Structural)]
pub enum LogLevel {
    Warning,
    Info,
    Debug,
    Trace,
}

impl Notice {
    /// The level of this notice: a warning where no address could be worked
    /// out, plain information otherwise.
    pub open spec fn level_spec(self) -> LogLevel {
        match self {
            Notice::NoBootstrapAddress => LogLevel::Warning,
            _ => LogLevel::Info,
        }
    }

    /// The level of this notice.
    pub fn level(&self) -> (level: LogLevel)
        ensures
            level == self.level_spec(),
    {
        match self {
            Notice::NoBootstrapAddress => LogLevel::Warning,
            _ => LogLevel::Info,
        }
    }
}

/// Where loading an existing data directory stands: what it waits for.
#[derive(Clone, Copy, Debug, PartialEq, Eq, Structural)]
pub enum LoadStage {
    /// Whether the data directory exists.
    Datadir,
    /// The protocol document.
    Eth2Document,
    /// The client document.
    ClientDocument,
    /// Whether the database exists.
    Database,
}

/// Where moving old files aside stands: what it waits for.
#[derive(Clone, Copy, Debug, PartialEq, Eq, Structural)]
pub enum CleanStage {
    /// The backup directory to be created.
    BackupDir,
    /// The client document to be moved.
    ClientMove,
    /// The protocol document to be moved.
    Eth2Move,
    /// The database to be moved.
    DatabaseMove,
}

/// Where writing the documents to a new data directory stands: what it waits for.
#[derive(Clone, Copy, Debug, PartialEq, Eq, Structural)]
pub enum PersistStage {
    /// Whether a database is in the way.
    DatabaseFree,
    /// The data directory to be created.
    DatadirCreated,
    /// Whether a client document is in the way.
    ClientFree,
    /// Whether a protocol document is in the way.
    Eth2Free,
    /// The client document to be written.
    ClientWritten,
    /// The protocol document to be written.
    Eth2Written,
}

/// Where a run stands while it waits for an event.
#[derive(Clone, Copy, Debug, PartialEq, Eq, Structural)]
pub enum Stage {
    /// Loading an existing data directory.
    Load(LoadStage),
    /// Reading the protocol document from the file that was named.
    Eth2File,
    /// Reading the client document from the file that was named.
    ClientFile,
    /// Moving old files aside.
    Clean(CleanStage),
    /// Asking the bootstrap server for its port.
    ListenPort,
    /// Fetching the protocol document from the bootstrap server.
    Eth2Fetch,
    /// Writing the documents to the new data directory.
    Persist(PersistStage),
}

impl Stage {
    /// The place of this stage in a run: a run only ever goes on to a stage
    /// of a higher place. A fresh-chain run settles the protocol document
    /// from a file, then the client document, then moves old files aside,
    /// then takes the bootstrap server's address, then fetches the protocol
    /// document where it must, then writes.
    pub open spec fn place(self) -> nat {
        match self {
            Stage::Load(LoadStage::Datadir) => 0,
            Stage::Load(LoadStage::Eth2Document) => 1,
            Stage::Load(LoadStage::ClientDocument) => 2,
            Stage::Load(LoadStage::Database) => 3,
            Stage::Eth2File => 0,
            Stage::ClientFile => 1,
            Stage::Clean(CleanStage::BackupDir) => 2,
            Stage::Clean(CleanStage::ClientMove) => 3,
            Stage::Clean(CleanStage::Eth2Move) => 4,
            Stage::Clean(CleanStage::DatabaseMove) => 5,
            Stage::ListenPort => 6,
            Stage::Eth2Fetch => 7,
            Stage::Persist(PersistStage::DatabaseFree) => 8,
            Stage::Persist(PersistStage::DatadirCreated) => 9,
            Stage::Persist(PersistStage::ClientFree) => 10,
            Stage::Persist(PersistStage::Eth2Free) => 11,
            Stage::Persist(PersistStage::ClientWritten) => 12,
            Stage::Persist(PersistStage::Eth2Written) => 13,
        }
    }
}

/// What one part of a run says when it is handed an event.
#[derive(Clone, Debug, PartialEq, Eq)]
pub enum Step {
    /// Carry out `action`, and come back at `next` with what came of it.
    Perform { next: Stage, action: Action },
    /// This part is done, and nothing failed.
    Done,
    /// The run is over: it failed.
    Fail { error: ConfigError },
}

/// A `Step` with its texts as sequences of characters.
pub enum StepView {
    Perform { next: Stage, action: ActionView },
    Done,
    Fail { error: ConfigErrorView },
}

impl View for Step {
    type V = StepView;

    open spec fn view(&self) -> StepView {
        match self {
            Step::Perform { next, action } => StepView::Perform { next: *next, action: action@ },
            Step::Done => StepView::Done,
            Step::Fail { error } => StepView::Fail { error: error@ },
        }
    }
}

} // verus!
