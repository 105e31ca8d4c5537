//! The ways in which resolving the configuration can fail.

use vstd::prelude::*;
use vstd::string::StringExecFns;

verus! {

/// Why the configuration could not be resolved. Each failure ends the run:
/// nothing is retried and nothing half-built is handed out.
#[derive(Clone, Debug, PartialEq, Eq)]
pub enum ConfigError {
    /// A value could not be read: `name` is the flag it was given for, or the
    /// path of the document it stands in, and `raw` the text as it was
    /// found, or what the reader said of it.
    ParseError { name: String, raw: String },
    /// `name` is none of the protocol variants.
    UnknownSpec { name: String },
    /// The flag `flag` is needed and was not given.
    MissingArgument { flag: String },
    /// A fresh chain was asked for without saying how to start it.
    NoTestnetMethod,
    /// No data directory was given and no home directory is known.
    NoHomeDirectory,
    /// The data directory at `path` does not exist.
    DatadirNotFound { path: String },
    /// The database at `path` does not exist.
    DatabaseNotFound { path: String },
    /// The data directory already holds `path`.
    DatadirNotClean { path: String },
    /// The document at `path` does not exist.
    DocumentNotFound { path: String },
    /// `path` ends in no name, so it cannot be moved aside.
    InvalidPath { path: String },
    /// Creating or writing `path` failed.
    IoError { path: String, detail: String },
    /// The bootstrap server `server` could not be asked.
    NetworkError { server: String, detail: String },
    /// The two documents name different sets of constants.
    SpecMismatch { client: String, eth2: String },
    /// A port moved by the bump would lie beyond the last port.
    PortOutOfRange,
    /// The event handed in answers no action that was asked for.
    UnexpectedEvent,
}

/// A `ConfigError` with its texts as sequences of characters.
pub enum ConfigErrorView {
    ParseError { name: Seq<char>, raw: Seq<char> },
    UnknownSpec { name: Seq<char> },
    MissingArgument { flag: Seq<char> },
    NoTestnetMethod,
    NoHomeDirectory,
    DatadirNotFound { path: Seq<char> },
    DatabaseNotFound { path: Seq<char> },
    DatadirNotClean { path: Seq<char> },
    DocumentNotFound { path: Seq<char> },
    InvalidPath { path: Seq<char> },
    IoError { path: Seq<char>, detail: Seq<char> },
    NetworkError { server: Seq<char>, detail: Seq<char> },
    SpecMismatch { client: Seq<char>, eth2: Seq<char> },
    PortOutOfRange,
    UnexpectedEvent,
}

impl View for ConfigError {
    type V = ConfigErrorView;

    open spec fn view(&self) -> ConfigErrorView {
        match self {
            ConfigError::ParseError { name, raw } => ConfigErrorView::ParseError {
                name: name@,
                raw: raw@,
            },
            ConfigError::UnknownSpec { name } => ConfigErrorView::UnknownSpec { name: name@ },
            ConfigError::MissingArgument { flag } => ConfigErrorView::MissingArgument {
                flag: flag@,
            },
            ConfigError::NoTestnetMethod => ConfigErrorView::NoTestnetMethod,
            ConfigError::NoHomeDirectory => ConfigErrorView::NoHomeDirectory,
            ConfigError::DatadirNotFound { path } => ConfigErrorView::DatadirNotFound {
                path: path@,
            },
            ConfigError::DatabaseNotFound { path } => ConfigErrorView::DatabaseNotFound {
                path: path@,
            },
            ConfigError::DatadirNotClean { path } => ConfigErrorView::DatadirNotClean {
                path: path@,
            },
            ConfigError::DocumentNotFound { path } => ConfigErrorView::DocumentNotFound {
                path: path@,
            },
            ConfigError::InvalidPath { path } => ConfigErrorView::InvalidPath { path: path@ },
            ConfigError::IoError { path, detail } => ConfigErrorView::IoError {
                path: path@,
                detail: detail@,
            },
            ConfigError::NetworkError { server, detail } => ConfigErrorView::NetworkError {
                server: server@,
                detail: detail@,
            },
            ConfigError::SpecMismatch { client, eth2 } => ConfigErrorView::SpecMismatch {
                client: client@,
                eth2: eth2@,
            },
            ConfigError::PortOutOfRange => ConfigErrorView::PortOutOfRange,
            ConfigError::UnexpectedEvent => ConfigErrorView::UnexpectedEvent,
        }
    }
}

/// Two texts, one after the other.
fn join2(first: &str, second: &str) -> (text: String)
    ensures
        text@ == first@ + second@,
{
    let mut text = String::from_str(first);
    text.append(second);
    text
}

/// Three texts, one after the other.
fn join3(first: &str, second: &str, third: &str) -> (text: String)
    ensures
        text@ == first@ + second@ + third@,
{
    let mut text = join2(first, second);
    text.append(third);
    text
}

/// Four texts, one after the other.
fn join4(first: &str, second: &str, third: &str, fourth: &str) -> (text: String)
    ensures
        text@ == first@ + second@ + third@ + fourth@,
{
    let mut text = join3(first, second, third);
    text.append(fourth);
    text
}

impl ConfigErrorView {
    /// What to tell the operator of this failure.
    pub open spec fn message(self) -> Seq<char> {
        match self {
            ConfigErrorView::ParseError { name, raw } => "Unable to parse "@ + name + ": "@ + raw,
            ConfigErrorView::UnknownSpec { name } => "Unable to determine specification type: "@
                + name,
            ConfigErrorView::MissingArgument { flag } => "No "@ + flag + " specified"@,
            ConfigErrorView::NoTestnetMethod => "No testnet method specified. See 'testnet --help'."@,
            ConfigErrorView::NoHomeDirectory => "Unable to find a home directory for the datadir"@,
            ConfigErrorView::DatadirNotFound { path } => "No datadir found at "@ + path
                + ". To start a new beacon chain, see `testnet --help`. Use `--datadir` to specify a different directory"@,
            ConfigErrorView::DatabaseNotFound { path } => "No database found at "@ + path
                + ". Use 'testnet -f' to overwrite the existing datadir, or specify a different `--datadir`."@,
            ConfigErrorView::DatadirNotClean { path } => "Datadir is not clean, "@ + path
                + " exists. See `-f` in `testnet --help`."@,
            ConfigErrorView::DocumentNotFound { path } => path + " file does not exist"@,
            ConfigErrorView::InvalidPath { path } => "Invalid path found during datadir clean (no filename): "@
                + path,
            ConfigErrorView::IoError { path, detail } => path + ": "@ + detail,
            ConfigErrorView::NetworkError { server, detail } => "Unable to reach "@ + server
                + ": "@ + detail,
            ConfigErrorView::SpecMismatch { client, eth2 } =>
                "Specification constant mismatch: client_config "@ + client + ", eth2_config "@
                    + eth2,
            ConfigErrorView::PortOutOfRange => "The port bump moves a port beyond 65535"@,
            ConfigErrorView::UnexpectedEvent => "The event answers no action that was asked for"@,
        }
    }
}

impl ConfigError {
    /// What to tell the operator of this failure: one sentence that names
    /// what was at fault and, where there is a way out, the way out.
    pub fn message(&self) -> (message: String)
        ensures
            message@ == self@.message(),
    {
        match self {
            ConfigError::ParseError { name, raw } => join4(
                "Unable to parse ",
                name.as_str(),
                ": ",
                raw.as_str(),
            ),
            ConfigError::UnknownSpec { name } => join2(
                "Unable to determine specification type: ",
                name.as_str(),
            ),
            ConfigError::MissingArgument { flag } => join3("No ", flag.as_str(), " specified"),
            ConfigError::NoTestnetMethod => String::from_str(
                "No testnet method specified. See 'testnet --help'.",
            ),
            ConfigError::NoHomeDirectory => String::from_str(
                "Unable to find a home directory for the datadir",
            ),
            ConfigError::DatadirNotFound { path } => join3(
                "No datadir found at ",
                path.as_str(),
                ". To start a new beacon chain, see `testnet --help`. Use `--datadir` to specify a different directory",
            ),
            ConfigError::DatabaseNotFound { path } => join3(
                "No database found at ",
                path.as_str(),
                ". Use 'testnet -f' to overwrite the existing datadir, or specify a different `--datadir`.",
            ),
            ConfigError::DatadirNotClean { path } => join3(
                "Datadir is not clean, ",
                path.as_str(),
                " exists. See `-f` in `testnet --help`.",
            ),
            ConfigError::DocumentNotFound { path } => join2(path.as_str(), " file does not exist"),
            ConfigError::InvalidPath { path } => join2(
                "Invalid path found during datadir clean (no filename): ",
                path.as_str(),
            ),
            ConfigError::IoError { path, detail } => join3(path.as_str(), ": ", detail.as_str()),
            ConfigError::NetworkError { server, detail } => join4(
                "Unable to reach ",
                server.as_str(),
                ": ",
                detail.as_str(),
            ),
            ConfigError::SpecMismatch { client, eth2 } => join4(
                "Specification constant mismatch: client_config ",
                client.as_str(),
                ", eth2_config ",
                eth2.as_str(),
            ),
            ConfigError::PortOutOfRange => String::from_str(
                "The port bump moves a port beyond 65535",
            ),
            ConfigError::UnexpectedEvent => String::from_str(
                "The event answers no action that was asked for",
            ),
        }
    }
}

} // verus!
