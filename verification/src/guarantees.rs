//! What holds of every run.
//!
//! Each proof function here states, over the model of a run, something that
//! no command line, no answer of the world outside and no order of events
//! can break.

use crate::arguments::optional_number;
use crate::arguments::required_number;
use crate::arguments::resolve_spec;
use crate::arguments::CliArgs;
use crate::arguments::MethodArgs;
use crate::arguments::FLAG_GENESIS_TIME;
use crate::arguments::FLAG_LIBP2P_PORT;
use crate::arguments::FLAG_MINUTES;
use crate::arguments::FLAG_VALIDATOR_COUNT;
use crate::arguments::StartupRequestView;
use crate::builder::backup_dir;
use crate::builder::initial_builder;
use crate::builder::random_datadir;
use crate::builder::resolve_data_dir;
use crate::builder::text_or_empty;
use crate::builder::ConfigBuilderView;
use crate::client_config::StartMethodView;
use crate::config::feed;
use crate::config::start_spec;
use crate::config::ProgressView;
use crate::config::ResolutionView;
use crate::datadir::join_spec;
use crate::datadir::CLIENT_CONFIG_FILENAME;
use crate::datadir::ETH2_CONFIG_FILENAME;
use crate::decimal::all_digits;
use crate::decimal::decimal_text;
use crate::decimal::digits_value;
use crate::decimal::is_digit;
use crate::decimal::lemma_ascii_text_is_read_as_written;
use crate::decimal::lemma_decimal_text_round_trip;
use crate::decimal::numeral_digits;
use crate::decimal::read_number;
use crate::decimal::PLUS_SIGN;
use crate::effects::ActionView;
use crate::effects::CleanStage;
use crate::effects::Event;
use crate::effects::LoadStage;
use crate::effects::LogLevel;
use crate::effects::Notice;
use crate::effects::PersistStage;
use crate::effects::Stage;
use crate::error::ConfigErrorView;
use crate::eth2_config::is_spec_name;
use crate::text::optional_text;
use vstd::prelude::*;
use vstd::utf8::encode_utf8;

verus! {

/// A number written out in decimal is read back as that number, for a flag
/// that must be there and for one that may be missing alike; and a text that
/// is no numeral within the bound is refused with the flag's name and the
/// text itself.
pub proof fn numbers_round_trip(flag: Seq<char>, raw: String, n: nat, max: nat)
    ensures
        encode_utf8(raw@) == decimal_text(n) && n <= max ==> {
            &&& required_number(flag, Some(raw), max) == Ok::<nat, ConfigErrorView>(n)
            &&& optional_number(flag, Some(raw), max) == Ok::<Option<nat>, ConfigErrorView>(
                Some(n),
            )
        },
        read_number(raw@, max) is None ==> {
            &&& required_number(flag, Some(raw), max) == Err::<nat, ConfigErrorView>(
                ConfigErrorView::ParseError { name: flag, raw: raw@ },
            )
            &&& optional_number(flag, Some(raw), max) == Err::<Option<nat>, ConfigErrorView>(
                ConfigErrorView::ParseError { name: flag, raw: raw@ },
            )
        },
{
    lemma_decimal_text_round_trip(n);
}

/// The bytes of a text, one for each character.
pub open spec fn bytes_of(text: Seq<char>) -> Seq<u8> {
    Seq::new(text.len(), |i: int| text[i] as u8)
}

/// A text of one or more of the characters `0` to `9` is read as the
/// number that its digits denote, where that is within the bound; where it
/// is beyond the bound, the text is refused with the flag's name and the
/// text itself. Nothing is rounded, cut or defaulted.
pub proof fn digits_are_read_exactly(flag: Seq<char>, raw: String, max: nat)
    requires
        raw@.len() > 0,
        forall|i: int| 0 <= i < raw@.len() ==> '0' <= #[trigger] raw@[i] <= '9',
    ensures
        digits_value(bytes_of(raw@)) <= max ==> required_number(flag, Some(raw), max) == Ok::<
            nat,
            ConfigErrorView,
        >(digits_value(bytes_of(raw@))),
        digits_value(bytes_of(raw@)) > max ==> required_number(flag, Some(raw), max) == Err::<
            nat,
            ConfigErrorView,
        >(ConfigErrorView::ParseError { name: flag, raw: raw@ }),
{
    let text = raw@;
    assert(vstd::utf8::is_ascii_chars(text));
    lemma_ascii_text_is_read_as_written(text);
    let bytes = bytes_of(text);
    assert(encode_utf8(text) == bytes);
    assert(bytes[0] != PLUS_SIGN) by {
        assert('0' <= text[0]);
    }
    assert(numeral_digits(bytes) == bytes);
    assert(all_digits(bytes)) by {
        assert forall|i: int| 0 <= i < bytes.len() implies is_digit(#[trigger] bytes[i]) by {
            assert('0' <= text[i] <= '9');
        }
    }
}

/// A run without `testnet` asks first whether its data directory exists,
/// and told that it does not, fails with `DatadirNotFound`: whatever the
/// other flags, the home directory and the tokens are.
pub proof fn resume_needs_the_datadir(
    args: CliArgs,
    home: Option<Seq<char>>,
    datadir_token: Seq<char>,
    backup_token: Seq<char>,
)
    requires
        args.testnet is None,
        resolve_data_dir(optional_text(args.datadir), home) is Ok,
    ensures
        ({
            let data_dir = resolve_data_dir(optional_text(args.datadir), home)->Ok_0;
            let begun = start_spec(args, home, datadir_token, backup_token);
            &&& begun is Continue
            &&& begun->action == ActionView::CheckExists { path: data_dir }
            &&& feed(begun, seq![Event::Exists(false)]) == ProgressView::Failed {
                error: ConfigErrorView::DatadirNotFound { path: data_dir },
            }
        }),
{
    reveal(start_spec);
    reveal(ResolutionView::advance);
    let begun = start_spec(args, home, datadir_token, backup_token);
    let events = seq![Event::Exists(false)];
    assert(events.drop_last() =~= Seq::<Event>::empty());
    assert(feed(begun, events.drop_last()) == begun);
    assert(events.last() == Event::Exists(false));
}

/// A run that resumes and waits to hear of its data directory or of its
/// database fails when told that it is not there, and one that waits for a
/// document fails when told that there is none.
pub proof fn resume_needs_what_it_loads(state: ResolutionView)
    requires
        state.request is Resume,
    ensures
        state.stage == Stage::Load(LoadStage::Datadir) ==> state.advance(Event::Exists(false))
            == (ProgressView::Failed {
            error: ConfigErrorView::DatadirNotFound { path: state.builder.data_dir },
        }),
        state.stage == Stage::Load(LoadStage::Database) ==> state.advance(Event::Exists(false))
            == (ProgressView::Failed {
            error: ConfigErrorView::DatabaseNotFound {
                path: text_or_empty(state.builder.client_config.db_path()),
            },
        }),
        state.stage == Stage::Load(LoadStage::Eth2Document) ==> state.advance(Event::Absent)
            == (ProgressView::Failed {
            error: ConfigErrorView::DocumentNotFound { path: state.builder.eth2_file() },
        }),
        state.stage == Stage::Load(LoadStage::ClientDocument) ==> state.advance(Event::Absent)
            == (ProgressView::Failed {
            error: ConfigErrorView::DocumentNotFound { path: state.builder.client_file() },
        }),
{
    reveal(ResolutionView::advance);
}

/// Whether a part of a run may begin with waiting at `stage`.
pub open spec fn begins_a_part(stage: Stage) -> bool {
    ||| stage == Stage::Load(LoadStage::Datadir)
    ||| stage == Stage::Clean(CleanStage::BackupDir)
    ||| stage == Stage::Eth2File
    ||| stage == Stage::Eth2Fetch
    ||| stage == Stage::ClientFile
    ||| stage == Stage::ListenPort
    ||| stage == Stage::Persist(PersistStage::DatabaseFree)
    ||| stage == Stage::Persist(PersistStage::DatadirCreated)
}

/// Whether a run that goes on holds `request`, waits for something that
/// the request can lead to, and names the action that the stage it waits at
/// stands for.
pub open spec fn in_step(progress: ProgressView, request: StartupRequestView) -> bool {
    progress is Continue ==> {
        &&& progress->state.request == request
        &&& progress->state.consistent()
        &&& progress->action == progress->state.awaited()
    }
}

/// Whether documents that are handed out name the same constants, with the
/// client document in the data directory of the run `state` and with the
/// start method that the run was asked for.
pub open spec fn agrees(progress: ProgressView, state: ResolutionView) -> bool {
    progress is Built ==> {
        &&& progress->client_config.spec_constants == progress->eth2_config.spec_constants
        &&& progress->client_config.data_dir == state.builder.data_dir
        &&& progress->client_config.beacon_chain_start_method == state.request.method()
    }
}

/// Whether `progress` is what entering a part of the run `state` may give,
/// where the part begins no earlier than the place `low`: a run in step at
/// the beginning of a part, in the same data directory; or documents that
/// agree; or a failure. A run with a forced clean start that has not moved
/// the old files aside yet does not get past the point where it does, and a
/// bootstrap that must ask for the port and has not does not get past the
/// point where it does.
pub open spec fn entered(progress: ProgressView, state: ResolutionView, low: nat) -> bool {
    &&& in_step(progress, state.request)
    &&& agrees(progress, state)
    &&& progress is Continue ==> {
        &&& begins_a_part(progress->state.stage)
        &&& progress->state.builder.data_dir == state.builder.data_dir
        &&& progress->state.backup_dir == state.backup_dir
        &&& progress->state.stage.place() >= low
        &&& state.request.force() && low <= 2 ==> progress->state.stage.place() <= 2
        &&& state.request.asks_for_port() && low <= 6 ==> progress->state.stage.place() <= 6
    }
}

/// Writing the documents is entered in step.
proof fn lemma_persist_enters(state: ResolutionView)
    requires
        state.request is Testnet,
    ensures
        entered(state.persist(), state, 8),
{
}

/// Fetching the protocol document is entered in step.
proof fn lemma_fetch_enters(state: ResolutionView)
    requires
        state.request is Testnet,
    ensures
        entered(state.fetch_eth2_config(), state, 7),
{
    lemma_persist_enters(state);
}

/// Taking the bootstrap server's address is entered in step.
proof fn lemma_address_enters(state: ResolutionView)
    requires
        state.request is Testnet,
    ensures
        entered(state.resolve_bootstrap_address(), state, 6),
{
    lemma_fetch_enters(state);
    match state.request.method() {
        StartMethodView::HttpBootstrap { server, port } => {
            let (builder, step) = state.builder.import_bootstrap_libp2p_address(server, port);
            lemma_fetch_enters(state.with_builder(builder));
        },
        StartMethodView::Resume => {},
        StartMethodView::RecentGenesis { .. } => {},
        StartMethodView::Generated { .. } => {},
    }
}

/// Moving old files aside is entered in step.
proof fn lemma_clean_enters(state: ResolutionView)
    requires
        state.request is Testnet,
    ensures
        entered(state.force_clean(), state, 2),
{
    lemma_address_enters(state);
}

/// Settling the client document is entered in step.
proof fn lemma_client_enters(state: ResolutionView)
    requires
        state.request is Testnet,
    ensures
        entered(state.resolve_client_config(), state, 1),
{
    lemma_clean_enters(state);
}

/// Settling the protocol document is entered in step.
proof fn lemma_eth2_enters(state: ResolutionView)
    requires
        state.request is Testnet,
    ensures
        entered(state.resolve_eth2_config(), state, 0),
{
    lemma_client_enters(state);
    if state.request.eth2_config() is None && state.request.spec() is Some {
        match state.builder.update_spec_from_subcommand(state.request.spec()) {
            Ok(builder) => {
                lemma_client_enters(state.with_builder(builder));
            },
            Err(_) => {},
        }
    }
}

/// A fresh-chain run is entered in step.
proof fn lemma_testnet_enters(state: ResolutionView)
    requires
        state.request is Testnet,
    ensures
        entered(state.process_testnet_subcommand(), state, 0),
{
    lemma_eth2_enters(state);
}

/// Whether `next` is what a step of the run `state` on `event` may give: a
/// run in step in the same data directory, which has either entered a part
/// or gone one stage on within the part it was in, to a higher place either
/// way, and not past the moving aside of old files where that was forced
/// and not done, nor past asking for the port where that is due and not
/// done; or documents that agree; or a failure.
pub open spec fn stepped(next: ProgressView, state: ResolutionView, event: Event) -> bool {
    &&& in_step(next, state.request)
    &&& agrees(next, state)
    &&& next is Continue ==> {
        &&& next->state.builder.data_dir == state.builder.data_dir
        &&& next->state.backup_dir == state.backup_dir
        &&& !begins_a_part(next->state.stage) ==> follows(state.stage, event, next->state.stage)
        &&& next->state.stage.place() > state.stage.place()
        &&& state.request.force() && next->state.stage.place() >= 5 ==> state.stage.place() >= 4
        &&& state.request.asks_for_port() && next->state.stage.place() >= 7
            ==> state.stage.place() >= 6
    }
}

/// Whether a run that waits at `before` goes on to `after`, a stage within
/// the same part, when handed `event`.
pub open spec fn follows(before: Stage, event: Event, after: Stage) -> bool {
    match after {
        Stage::Load(LoadStage::Eth2Document) => before == Stage::Load(LoadStage::Datadir)
            && event == Event::Exists(true),
        Stage::Load(LoadStage::ClientDocument) => before == Stage::Load(LoadStage::Eth2Document)
            && event is Eth2ConfigFound,
        Stage::Load(LoadStage::Database) => before == Stage::Load(LoadStage::ClientDocument)
            && event is ClientConfigFound,
        Stage::Clean(CleanStage::ClientMove) => before == Stage::Clean(CleanStage::BackupDir)
            && event == Event::Completed,
        Stage::Clean(CleanStage::Eth2Move) => before == Stage::Clean(CleanStage::ClientMove),
        Stage::Clean(CleanStage::DatabaseMove) => before == Stage::Clean(CleanStage::Eth2Move),
        Stage::Persist(PersistStage::ClientFree) => before == Stage::Persist(
            PersistStage::DatadirCreated,
        ) && event == Event::Completed,
        Stage::Persist(PersistStage::Eth2Free) => before == Stage::Persist(
            PersistStage::ClientFree,
        ) && event == Event::Exists(false),
        Stage::Persist(PersistStage::ClientWritten) => before == Stage::Persist(
            PersistStage::Eth2Free,
        ) && event == Event::Exists(false),
        Stage::Persist(PersistStage::Eth2Written) => before == Stage::Persist(
            PersistStage::ClientWritten,
        ) && event == Event::Completed,
        _ => false,
    }
}

/// Every step keeps a run in step. A run that waits for something its
/// request can lead to goes on with the same request and in the same data
/// directory, waits again for something the request can lead to, and names
/// the action that its new stage stands for: stage and action never part.
/// Within a part the stages follow one another in their one order. And
/// documents that a step hands out name the same constants.
pub proof fn steps_keep_a_run_in_step(state: ResolutionView, event: Event)
    requires
        state.consistent(),
    ensures
        stepped(state.advance(event), state, event),
{
    reveal(ResolutionView::advance);
    match state.stage {
        Stage::Clean(stage) => {
            lemma_address_enters(state);
        },
        Stage::Eth2File => {
            match state.builder.load_eth2_config_after(
                text_or_empty(state.request.eth2_config()),
                event,
            ) {
                Ok(builder) => {
                    lemma_client_enters(state.with_builder(builder));
                },
                Err(_) => {},
            }
        },
        Stage::Eth2Fetch => {
            match state.builder.import_bootstrap_eth2_config_after(
                text_or_empty(state.request.server()),
                event,
            ) {
                Ok(builder) => {
                    lemma_persist_enters(state.with_builder(builder));
                },
                Err(_) => {},
            }
        },
        Stage::ClientFile => {
            match state.builder.load_client_config_after(
                text_or_empty(state.request.client_config()),
                event,
            ) {
                Ok(builder) => {
                    lemma_clean_enters(state.with_builder(builder));
                },
                Err(_) => {},
            }
        },
        Stage::ListenPort => {
            lemma_fetch_enters(
                state.with_builder(
                    state.builder.import_bootstrap_libp2p_address_after(
                        text_or_empty(state.request.server()),
                        event,
                    ),
                ),
            );
        },
        Stage::Persist(stage) => {},
        Stage::Load(_) => {},
    }
}

/// Every run begins in step, at the beginning of a part, with the request
/// that the command line was resolved to.
pub proof fn runs_begin_in_step(
    args: CliArgs,
    home: Option<Seq<char>>,
    datadir_token: Seq<char>,
    backup_token: Seq<char>,
)
    ensures
        ({
            let begun = start_spec(args, home, datadir_token, backup_token);
            &&& begun is Continue ==> {
                &&& resolve_spec(args) is Ok
                &&& in_step(begun, resolve_spec(args)->Ok_0)
                &&& begins_a_part(begun->state.stage)
                &&& resolve_spec(args)->Ok_0.force() ==> begun->state.stage.place() <= 2
                &&& resolve_spec(args)->Ok_0.asks_for_port() ==> begun->state.stage.place() <= 6
            }
            &&& begun is Built ==> resolve_spec(args) is Ok
                && begun->client_config.spec_constants == begun->eth2_config.spec_constants
                && begun->client_config.beacon_chain_start_method
                == resolve_spec(args)->Ok_0.method()
        }),
{
    reveal(start_spec);
    let begun = start_spec(args, home, datadir_token, backup_token);
    if begun is Continue {
        let request = resolve_spec(args)->Ok_0;
        match request {
            StartupRequestView::Testnet(testnet) => {
                let data_dir = resolve_data_dir(optional_text(args.datadir), home)->Ok_0;
                let data_dir = if testnet.random_datadir {
                    random_datadir(data_dir, datadir_token)
                } else {
                    data_dir
                };
                let first = ResolutionView {
                    builder: initial_builder(data_dir, home),
                    request,
                    port_bump: optional_text(args.port_bump),
                    backup_dir: if testnet.force {
                        backup_dir(data_dir, backup_token)
                    } else {
                        Seq::empty()
                    },
                    stage: Stage::Eth2File,
                };
                lemma_testnet_enters(first);
            },
            StartupRequestView::Resume => {},
        }
    }
}

/// A run stays in step for good: whatever it is told along the way, it
/// holds the request it began with, waits for something the request can
/// lead to, and names the action that its stage stands for.
pub proof fn runs_stay_in_step(
    args: CliArgs,
    home: Option<Seq<char>>,
    datadir_token: Seq<char>,
    backup_token: Seq<char>,
    events: Seq<Event>,
)
    ensures
        ({
            let reached = feed(start_spec(args, home, datadir_token, backup_token), events);
            reached is Continue ==> resolve_spec(args) is Ok && in_step(
                reached,
                resolve_spec(args)->Ok_0,
            )
        }),
    decreases events.len(),
{
    if events.len() == 0 {
        runs_begin_in_step(args, home, datadir_token, backup_token);
    } else {
        runs_stay_in_step(args, home, datadir_token, backup_token, events.drop_last());
        let before = feed(
            start_spec(args, home, datadir_token, backup_token),
            events.drop_last(),
        );
        if before is Continue {
            steps_keep_a_run_in_step(before->state, events.last());
        }
    }
}

/// No run writes a document before it has asked for both document files
/// and was told of each that it is not there. When the client document is
/// written, the last two events are these two answers, to these two
/// questions; when the protocol document is written, the client document
/// was written just before. Each goes to its own file in the data
/// directory. So a run never overwrites a document.
pub proof fn documents_are_written_after_both_were_found_missing(
    args: CliArgs,
    home: Option<Seq<char>>,
    datadir_token: Seq<char>,
    backup_token: Seq<char>,
    events: Seq<Event>,
)
    ensures
        ({
            let begun = start_spec(args, home, datadir_token, backup_token);
            let reached = feed(begun, events);
            let n = events.len() as int;
            &&& reached is Continue && reached->action is WriteClientConfig ==> {
                let builder = reached->state.builder;
                &&& n >= 2
                &&& feed(begun, events.take(n - 2)) is Continue
                &&& feed(begun, events.take(n - 2))->action == ActionView::CheckExists {
                    path: builder.client_file(),
                }
                &&& events[n - 2] == Event::Exists(false)
                &&& feed(begun, events.take(n - 1)) is Continue
                &&& feed(begun, events.take(n - 1))->action == ActionView::CheckExists {
                    path: builder.eth2_file(),
                }
                &&& events[n - 1] == Event::Exists(false)
                &&& reached->action == ActionView::WriteClientConfig {
                    path: builder.client_file(),
                }
            }
            &&& reached is Continue && reached->action is WriteEth2Config ==> {
                let builder = reached->state.builder;
                &&& n >= 3
                &&& feed(begun, events.take(n - 1)) is Continue
                &&& feed(begun, events.take(n - 1))->action == ActionView::WriteClientConfig {
                    path: builder.client_file(),
                }
                &&& events[n - 1] == Event::Completed
                &&& reached->action == ActionView::WriteEth2Config { path: builder.eth2_file() }
            }
        }),
{
    let begun = start_spec(args, home, datadir_token, backup_token);
    let reached = feed(begun, events);
    let n = events.len() as int;
    if reached is Continue && reached->action.writes_document() {
        runs_begin_in_step(args, home, datadir_token, backup_token);
        runs_stay_in_step(args, home, datadir_token, backup_token, events);
        assert(n >= 1);
        let one_back = events.drop_last();
        assert(one_back =~= events.take(n - 1));
        let before = feed(begun, one_back);
        assert(before is Continue);
        runs_stay_in_step(args, home, datadir_token, backup_token, one_back);
        steps_keep_a_run_in_step(before->state, events.last());
        assert(one_back.len() >= 1);
        let two_back = one_back.drop_last();
        assert(two_back =~= events.take(n - 2));
        let earlier = feed(begun, two_back);
        assert(earlier is Continue);
        assert(before == earlier->state.advance(one_back.last()));
        runs_stay_in_step(args, home, datadir_token, backup_token, two_back);
        steps_keep_a_run_in_step(earlier->state, one_back.last());
        if reached->action is WriteEth2Config {
            assert(two_back.len() >= 1);
        }
    }
}

/// Whether a run that began with `begun` and was handed `events` has moved
/// the old documents aside from its `k`-th action on: it asked for the backup
/// directory to be created, then for the client document to be moved into
/// it, then for the protocol document to be moved into it, each under its
/// own name, and all three were answered.
pub open spec fn moved_aside_at(begun: ProgressView, events: Seq<Event>, k: int) -> bool {
    let create = feed(begun, events.take(k));
    let first = feed(begun, events.take(k + 1));
    let second = feed(begun, events.take(k + 2));
    let data_dir = create->state.builder.data_dir;
    let backup = create->state.backup_dir;
    &&& 0 <= k
    &&& k + 2 < events.len()
    &&& create is Continue
    &&& create->state.stage == Stage::Clean(CleanStage::BackupDir)
    &&& create->action == ActionView::CreateDirAll { path: backup }
    &&& first is Continue
    &&& first->state.stage == Stage::Clean(CleanStage::ClientMove)
    &&& first->action == ActionView::Rename {
        from: join_spec(data_dir, CLIENT_CONFIG_FILENAME@),
        to: join_spec(backup, CLIENT_CONFIG_FILENAME@),
    }
    &&& second is Continue
    &&& second->state.stage == Stage::Clean(CleanStage::Eth2Move)
    &&& second->action == ActionView::Rename {
        from: join_spec(data_dir, ETH2_CONFIG_FILENAME@),
        to: join_spec(backup, ETH2_CONFIG_FILENAME@),
    }
}

/// How far a run with a forced clean start has come in moving the old
/// documents aside, by the place of the stage it waits at.
proof fn lemma_forced_runs_move_in_order(
    args: CliArgs,
    home: Option<Seq<char>>,
    datadir_token: Seq<char>,
    backup_token: Seq<char>,
    events: Seq<Event>,
)
    requires
        args.testnet is Some,
        args.testnet->0.force,
    ensures
        ({
            let begun = start_spec(args, home, datadir_token, backup_token);
            let reached = feed(begun, events);
            let n = events.len() as int;
            reached is Continue ==> {
                &&& reached->state.stage.place() == 3 ==> n >= 1 && feed(
                    begun,
                    events.take(n - 1),
                ) is Continue && feed(begun, events.take(n - 1))->state.stage == Stage::Clean(
                    CleanStage::BackupDir,
                )
                &&& reached->state.stage.place() == 4 ==> n >= 2 && feed(
                    begun,
                    events.take(n - 1),
                ) is Continue && feed(begun, events.take(n - 1))->state.stage == Stage::Clean(
                    CleanStage::ClientMove,
                ) && feed(begun, events.take(n - 2)) is Continue && feed(
                    begun,
                    events.take(n - 2),
                )->state.stage == Stage::Clean(CleanStage::BackupDir)
                &&& reached->state.stage.place() >= 5 ==> exists|k: int|
                    moved_aside_at(begun, events, k)
            }
        }),
    decreases events.len(),
{
    let begun = start_spec(args, home, datadir_token, backup_token);
    let reached = feed(begun, events);
    let n = events.len() as int;
    runs_begin_in_step(args, home, datadir_token, backup_token);
    runs_stay_in_step(args, home, datadir_token, backup_token, events);
    if reached is Continue {
        if n == 0 {
        } else {
            let shorter = events.drop_last();
            let before = feed(begun, shorter);
            assert(shorter =~= events.take(n - 1));
            assert(before is Continue);
            lemma_forced_runs_move_in_order(args, home, datadir_token, backup_token, shorter);
            runs_stay_in_step(args, home, datadir_token, backup_token, shorter);
            steps_keep_a_run_in_step(before->state, events.last());
            if n >= 2 {
                assert(shorter.take(n - 2) =~= events.take(n - 2));
            }
            if n >= 3 {
                assert(shorter.take(n - 3) =~= events.take(n - 3));
            }
            if reached->state.stage.place() >= 5 {
                if before->state.stage.place() == 4 {
                    runs_stay_in_step(
                        args,
                        home,
                        datadir_token,
                        backup_token,
                        events.take(n - 2),
                    );
                    runs_stay_in_step(
                        args,
                        home,
                        datadir_token,
                        backup_token,
                        events.take(n - 3),
                    );
                    runs_stay_in_their_data_dir(
                        args,
                        home,
                        datadir_token,
                        backup_token,
                        events.take(n - 3),
                    );
                    runs_stay_in_their_data_dir(
                        args,
                        home,
                        datadir_token,
                        backup_token,
                        events.take(n - 2),
                    );
                    runs_stay_in_their_data_dir(args, home, datadir_token, backup_token, shorter);
                    assert(moved_aside_at(begun, events, n - 3));
                } else {
                    let k = choose|k: int| moved_aside_at(begun, shorter, k);
                    assert(shorter.take(k) =~= events.take(k));
                    assert(shorter.take(k + 1) =~= events.take(k + 1));
                    assert(shorter.take(k + 2) =~= events.take(k + 2));
                    assert(moved_aside_at(begun, events, k));
                }
            }
        }
    }
}

/// A run with a forced clean start changes nothing on disk before it has
/// asked for the backup directory, and it writes no document and creates no
/// data directory before it has moved the old documents aside: whatever it
/// is told along the way, by the time it asks for a document to be written
/// it has asked for the backup directory to be created, named after the
/// backup token and lying in the data directory, and for the client
/// document and the protocol document to be moved into it.
pub proof fn forced_runs_move_the_old_documents_first(
    args: CliArgs,
    home: Option<Seq<char>>,
    datadir_token: Seq<char>,
    backup_token: Seq<char>,
    events: Seq<Event>,
)
    requires
        args.testnet is Some,
        args.testnet->0.force,
    ensures
        ({
            let begun = start_spec(args, home, datadir_token, backup_token);
            let reached = feed(begun, events);
            &&& reached is Continue && reached->action.changes_disk() ==> {
                &&& reached->state.stage.place() >= 2
                &&& reached->state.backup_dir == backup_dir(
                    reached->state.builder.data_dir,
                    backup_token,
                )
            }
            &&& reached is Continue && reached->action.changes_disk() && !(reached->state.stage
                is Clean) ==> exists|k: int| moved_aside_at(begun, events, k)
            &&& reached is Continue && reached->action.writes_document() ==> exists|k: int|
                moved_aside_at(begun, events, k)
        }),
{
    let begun = start_spec(args, home, datadir_token, backup_token);
    let reached = feed(begun, events);
    runs_stay_in_step(args, home, datadir_token, backup_token, events);
    runs_stay_in_their_data_dir(args, home, datadir_token, backup_token, events);
    lemma_forced_runs_move_in_order(args, home, datadir_token, backup_token, events);
    if reached is Continue {
        assert(begun->state.backup_dir == backup_dir(begun->state.builder.data_dir, backup_token))
            by {
            reveal(start_spec);
            runs_begin_in_step(args, home, datadir_token, backup_token);
        }
    }
}

/// A run stays in the data directory it began with, and keeps the backup
/// directory it began with.
pub proof fn runs_stay_in_their_data_dir(
    args: CliArgs,
    home: Option<Seq<char>>,
    datadir_token: Seq<char>,
    backup_token: Seq<char>,
    events: Seq<Event>,
)
    ensures
        ({
            let begun = start_spec(args, home, datadir_token, backup_token);
            let reached = feed(begun, events);
            reached is Continue ==> {
                &&& begun is Continue
                &&& reached->state.builder.data_dir == begun->state.builder.data_dir
                &&& reached->state.backup_dir == begun->state.backup_dir
            }
        }),
    decreases events.len(),
{
    let begun = start_spec(args, home, datadir_token, backup_token);
    if events.len() > 0 {
        let before = feed(begun, events.drop_last());
        if before is Continue {
            runs_stay_in_their_data_dir(args, home, datadir_token, backup_token, events.drop_last());
            runs_stay_in_step(args, home, datadir_token, backup_token, events.drop_last());
            steps_keep_a_run_in_step(before->state, events.last());
        }
    }
}

/// A run that resumes changes nothing: whatever it is told along the way,
/// it only ever asks whether something exists, or for a document to be
/// read. It writes nothing, moves nothing, creates nothing and asks no
/// server.
pub proof fn resumed_runs_change_nothing(
    args: CliArgs,
    home: Option<Seq<char>>,
    datadir_token: Seq<char>,
    backup_token: Seq<char>,
    events: Seq<Event>,
)
    requires
        args.testnet is None,
    ensures
        ({
            let reached = feed(start_spec(args, home, datadir_token, backup_token), events);
            reached is Continue ==> !reached->action.changes_disk()
                && !reached->action.uses_network()
        }),
{
    runs_stay_in_step(args, home, datadir_token, backup_token, events);
}

/// A fresh-chain run that is told of a document already in its data
/// directory fails with `DatadirNotClean` for that document, and asks for
/// nothing more: the document stays as it is.
pub proof fn existing_documents_are_kept(state: ResolutionView)
    requires
        state.request is Testnet,
    ensures
        state.stage == Stage::Persist(PersistStage::ClientFree) ==> state.advance(
            Event::Exists(true),
        ) == (ProgressView::Failed {
            error: ConfigErrorView::DatadirNotClean { path: state.builder.client_file() },
        }),
        state.stage == Stage::Persist(PersistStage::Eth2Free) ==> state.advance(
            Event::Exists(true),
        ) == (ProgressView::Failed {
            error: ConfigErrorView::DatadirNotClean { path: state.builder.eth2_file() },
        }),
{
    reveal(ResolutionView::advance);
}

/// Without a forced clean start no run ever asks for a rename, whatever
/// it is told along the way: what is in the data directory stays where it
/// is.
pub proof fn unforced_runs_move_nothing(
    args: CliArgs,
    home: Option<Seq<char>>,
    datadir_token: Seq<char>,
    backup_token: Seq<char>,
    events: Seq<Event>,
)
    requires
        args.testnet is Some ==> !args.testnet->0.force,
    ensures
        ({
            let reached = feed(start_spec(args, home, datadir_token, backup_token), events);
            reached is Continue ==> !(reached->action is Rename)
        }),
{
    runs_stay_in_step(args, home, datadir_token, backup_token, events);
}

/// A bootstrap with a port given never asks the server for its port:
/// whatever it is told along the way, no request for the address goes out.
pub proof fn a_given_port_is_never_asked_for(
    args: CliArgs,
    home: Option<Seq<char>>,
    datadir_token: Seq<char>,
    backup_token: Seq<char>,
    events: Seq<Event>,
)
    requires
        resolve_spec(args) is Ok,
        resolve_spec(args)->Ok_0 is Testnet,
        resolve_spec(args)->Ok_0->Testnet_0.method is HttpBootstrap,
        resolve_spec(args)->Ok_0->Testnet_0.method->HttpBootstrap_port is Some,
    ensures
        ({
            let reached = feed(start_spec(args, home, datadir_token, backup_token), events);
            reached is Continue ==> !(reached->action is FetchListenPort)
        }),
{
    runs_stay_in_step(args, home, datadir_token, backup_token, events);
}

/// A server that does not tell its port stops nothing: the run goes on,
/// with no peer added and with the warning that no address could be worked
/// out. Where the protocol document must come from the server, the server
/// is asked for it next; otherwise the run goes on to write the documents.
pub proof fn a_missing_address_is_only_a_warning(state: ResolutionView, event: Event)
    requires
        state.request is Testnet,
        state.stage == Stage::ListenPort,
        !(event is ListenPort),
    ensures
        ({
            let next = state.advance(event);
            let warned = state.builder.notices.push(Notice::NoBootstrapAddress);
            &&& next is Continue
            &&& next->state.builder.client_config.network.boot_nodes
                == state.builder.client_config.network.boot_nodes
            &&& Notice::NoBootstrapAddress.level_spec() == LogLevel::Warning
            &&& state.request.fetches_eth2_config() ==> {
                &&& next->state.stage == Stage::Eth2Fetch
                &&& next->action == ActionView::FetchEth2Config {
                    server: state.request.server()->0,
                }
                &&& next->state.builder.notices == warned
            }
            &&& !state.request.fetches_eth2_config() ==> {
                &&& next->state.stage is Persist
                &&& next->state.builder.notices == warned.push(Notice::CreatingNewDatadir)
            }
        }),
{
    reveal(ResolutionView::advance);
}

/// A server that does not hand out its protocol document ends the run with
/// a `NetworkError`.
pub proof fn a_missing_protocol_document_ends_the_run(state: ResolutionView, detail: String)
    requires
        state.request is Testnet,
        state.stage == Stage::Eth2Fetch,
    ensures
        state.advance(Event::Failed { detail }) == (ProgressView::Failed {
            error: ConfigErrorView::NetworkError {
                server: text_or_empty(state.request.server()),
                detail: detail@,
            },
        }),
        state.advance(Event::Malformed { detail }) == (ProgressView::Failed {
            error: ConfigErrorView::NetworkError {
                server: text_or_empty(state.request.server()),
                detail: detail@,
            },
        }),
{
    reveal(ResolutionView::advance);
}

/// Where the two documents name the same constants and every moved port
/// is still a port, building succeeds: the protocol document is handed out
/// as it is, and the client document with the listening port, the discovery
/// port and the REST port moved up by the bump, the RPC port by twice the
/// bump, and the builder's data directory. Nothing else of it changes.
pub proof fn build_moves_every_port(builder: ConfigBuilderView, port_bump: Option<Seq<char>>)
    requires
        builder.eth2_config.spec_constants == builder.client_config.spec_constants,
        port_bump is Some ==> read_number(port_bump->0, u16::MAX as nat) is Some,
        builder.ports_fit(
            if port_bump is Some {
                read_number(port_bump->0, u16::MAX as nat)->0 as u16
            } else {
                0
            },
        ),
    ensures
        ({
            let bump: u16 = if port_bump is Some {
                read_number(port_bump->0, u16::MAX as nat)->0 as u16
            } else {
                0
            };
            let built = builder.build(port_bump);
            let before = builder.client_config;
            &&& built is Ok
            &&& built->Ok_0.1 == builder.eth2_config
            &&& built->Ok_0.0.spec_constants == built->Ok_0.1.spec_constants
            &&& built->Ok_0.0.data_dir == builder.data_dir
            &&& built->Ok_0.0.network.libp2p_port == before.network.libp2p_port + bump
            &&& built->Ok_0.0.network.discovery_port == before.network.discovery_port + bump
            &&& built->Ok_0.0.rest_api.port == before.rest_api.port + bump
            &&& built->Ok_0.0.rpc.port == before.rpc.port + 2 * bump
            &&& built->Ok_0.0.network.listen_addresses == before.network.listen_addresses
            &&& built->Ok_0.0.network.boot_nodes == before.network.boot_nodes
            &&& built->Ok_0.0.rpc.enabled == before.rpc.enabled
            &&& built->Ok_0.0.rpc.listen_address == before.rpc.listen_address
            &&& built->Ok_0.0.beacon_chain_start_method == before.beacon_chain_start_method
            &&& built->Ok_0.0.db_type == before.db_type
            &&& built->Ok_0.0.fork_choice == before.fork_choice
            &&& built->Ok_0.0.db_name == before.db_name
        }),
{
}

/// Where the two documents name different constants, building fails, and
/// it fails with `SpecMismatch` and both names whenever the bump can be read
/// or there is none: the names are held against each other before any port
/// is moved. Nothing is corrected in silence.
pub proof fn build_refuses_a_mismatch(state: ResolutionView)
    requires
        state.builder.eth2_config.spec_constants != state.builder.client_config.spec_constants,
    ensures
        state.builder.build(state.port_bump) is Err,
        state.finish() is Failed,
        state.port_bump is None || read_number(state.port_bump->0, u16::MAX as nat) is Some
            ==> state.finish() == (ProgressView::Failed {
            error: ConfigErrorView::SpecMismatch {
                client: state.builder.client_config.spec_constants,
                eth2: state.builder.eth2_config.spec_constants,
            },
        }),
        state.port_bump is Some && read_number(state.port_bump->0, u16::MAX as nat) is None
            ==> state.finish() == (ProgressView::Failed {
            error: ConfigErrorView::ParseError {
                name: crate::arguments::FLAG_PORT_BUMP@,
                raw: state.port_bump->0,
            },
        }),
{
}

/// Building ends a run, whatever it gives: it asks for no action, so it
/// writes nothing.
pub proof fn building_asks_for_nothing(state: ResolutionView)
    ensures
        !(state.finish() is Continue),
{
}

/// Whenever a run hands out its two documents, at whatever point and
/// whatever it was told before, they name the same constants, and the
/// client document holds the start method that the command line asked for.
pub proof fn built_documents_agree(
    args: CliArgs,
    home: Option<Seq<char>>,
    datadir_token: Seq<char>,
    backup_token: Seq<char>,
    events: Seq<Event>,
)
    ensures
        ({
            let reached = feed(start_spec(args, home, datadir_token, backup_token), events);
            reached is Built ==> {
                &&& resolve_spec(args) is Ok
                &&& reached->client_config.spec_constants == reached->eth2_config.spec_constants
                &&& reached->client_config.beacon_chain_start_method
                    == resolve_spec(args)->Ok_0.method()
            }
        }),
    decreases events.len(),
{
    let begun = start_spec(args, home, datadir_token, backup_token);
    if events.len() == 0 {
        runs_begin_in_step(args, home, datadir_token, backup_token);
    } else {
        built_documents_agree(args, home, datadir_token, backup_token, events.drop_last());
        let before = feed(begun, events.drop_last());
        if before is Continue {
            runs_stay_in_step(args, home, datadir_token, backup_token, events.drop_last());
            steps_keep_a_run_in_step(before->state, events.last());
        }
    }
}

/// A run that resumes and has loaded its documents builds from exactly
/// what it loaded, with the start method set to `Resume` and nothing else
/// touched: once the database is found to be there, or once a client
/// document that names no database is read.
pub proof fn resumed_runs_build_from_what_they_loaded(
    state: ResolutionView,
    document: crate::client_config::ClientConfig,
)
    requires
        state.request is Resume,
    ensures
        state.stage == Stage::Load(LoadStage::Database) ==> state.advance(Event::Exists(true))
            == state.with_builder(
            state.builder.with_start_method(StartMethodView::Resume),
        ).finish(),
        state.stage == Stage::Load(LoadStage::ClientDocument) && document@.db_path() is None
            ==> state.advance(Event::ClientConfigFound(document)) == state.with_builder(
            (ConfigBuilderView { client_config: document@, ..state.builder }).with_start_method(
                StartMethodView::Resume,
            ),
        ).finish(),
{
    reveal(ResolutionView::advance);
}

/// A run without `testnet` resumes the chain: whatever start method the
/// client document in the data directory holds, and whatever the run is
/// told along the way, the client document that it hands out says `Resume`.
pub proof fn resumed_runs_hand_out_resume(
    args: CliArgs,
    home: Option<Seq<char>>,
    datadir_token: Seq<char>,
    backup_token: Seq<char>,
    events: Seq<Event>,
)
    requires
        args.testnet is None,
    ensures
        ({
            let reached = feed(start_spec(args, home, datadir_token, backup_token), events);
            reached is Built ==> reached->client_config.beacon_chain_start_method
                == StartMethodView::Resume
        }),
{
    built_documents_agree(args, home, datadir_token, backup_token, events);
}

/// A bootstrap that must ask for the port asks for it before it asks for
/// the protocol document, and on the way there changes nothing on disk but
/// what a forced clean start moves aside. Whatever the run is told along the
/// way: when it asks the server for its document, its last action was to ask
/// the same server for its port; and if no port came back, the warning has
/// been told and no peer was added.
pub proof fn a_bootstrap_asks_for_the_port_before_the_document(
    args: CliArgs,
    home: Option<Seq<char>>,
    datadir_token: Seq<char>,
    backup_token: Seq<char>,
    events: Seq<Event>,
)
    requires
        resolve_spec(args) is Ok,
        resolve_spec(args)->Ok_0.asks_for_port(),
    ensures
        ({
            let begun = start_spec(args, home, datadir_token, backup_token);
            let reached = feed(begun, events);
            let n = events.len() as int;
            let before = feed(begun, events.take(n - 1));
            reached is Continue && reached->action is FetchEth2Config ==> {
                &&& n >= 1
                &&& before is Continue
                &&& before->action == ActionView::FetchListenPort {
                    server: resolve_spec(args)->Ok_0.server()->0,
                }
                &&& reached->action == ActionView::FetchEth2Config {
                    server: resolve_spec(args)->Ok_0.server()->0,
                }
                &&& !(events[n - 1] is ListenPort) ==> {
                    &&& reached->state.builder.notices == before->state.builder.notices.push(
                        Notice::NoBootstrapAddress,
                    )
                    &&& reached->state.builder.client_config.network.boot_nodes
                        == before->state.builder.client_config.network.boot_nodes
                }
            }
        }),
{
    let begun = start_spec(args, home, datadir_token, backup_token);
    let reached = feed(begun, events);
    let n = events.len() as int;
    runs_begin_in_step(args, home, datadir_token, backup_token);
    runs_stay_in_step(args, home, datadir_token, backup_token, events);
    if reached is Continue && reached->action is FetchEth2Config {
        assert(n >= 1);
        let shorter = events.drop_last();
        assert(shorter =~= events.take(n - 1));
        let before = feed(begun, shorter);
        assert(before is Continue);
        runs_stay_in_step(args, home, datadir_token, backup_token, shorter);
        steps_keep_a_run_in_step(before->state, events.last());
        assert(before->state.stage == Stage::ListenPort);
        if !(events.last() is ListenPort) {
            a_missing_address_is_only_a_warning(before->state, events.last());
        }
    }
}

/// One run against a server that cannot be reached. A bootstrap that names
/// the server and nothing else, not the port, not a variant, no file and no
/// forced clean start, first asks the server for its port. Told that this
/// failed, it goes on with the warning and without a peer, and asks the
/// server for its protocol document. Told that this failed too, the run ends
/// with a `NetworkError`. Nothing was asked of the disk.
pub proof fn an_unreachable_server_warns_then_ends_the_run(
    args: CliArgs,
    home: Option<Seq<char>>,
    datadir_token: Seq<char>,
    backup_token: Seq<char>,
    port_failure: String,
    document_failure: String,
)
    requires
        resolve_spec(args) is Ok,
        resolve_data_dir(optional_text(args.datadir), home) is Ok,
        resolve_spec(args)->Ok_0.asks_for_port(),
        resolve_spec(args)->Ok_0.fetches_eth2_config(),
        resolve_spec(args)->Ok_0.client_config() is None,
        !resolve_spec(args)->Ok_0.force(),
    ensures
        ({
            let server = resolve_spec(args)->Ok_0.server()->0;
            let begun = start_spec(args, home, datadir_token, backup_token);
            let warned = feed(begun, seq![Event::Failed { detail: port_failure }]);
            let ended = feed(
                begun,
                seq![
                    Event::Failed { detail: port_failure },
                    Event::Failed { detail: document_failure },
                ],
            );
            &&& begun is Continue
            &&& begun->action == ActionView::FetchListenPort { server }
            &&& warned is Continue
            &&& warned->action == ActionView::FetchEth2Config { server }
            &&& warned->state.builder.notices == seq![Notice::NoBootstrapAddress]
            &&& warned->state.builder.client_config.network.boot_nodes
                == Seq::<crate::client_config::BootNodeView>::empty()
            &&& ended == ProgressView::Failed {
                error: ConfigErrorView::NetworkError { server, detail: document_failure@ },
            }
        }),
{
    let begun = start_spec(args, home, datadir_token, backup_token);
    let first = Event::Failed { detail: port_failure };
    let second = Event::Failed { detail: document_failure };
    let one = seq![first];
    let two = seq![first, second];
    assert(one.drop_last() =~= Seq::<Event>::empty());
    assert(two.drop_last() =~= one);
    assert(feed(begun, one.drop_last()) == begun);
    assert(begun is Continue && begun->state.stage == Stage::ListenPort
        && begun->state.request == resolve_spec(args)->Ok_0 && begun->action
        == (ActionView::FetchListenPort { server: resolve_spec(args)->Ok_0.server()->0 })
        && begun->state.builder.notices == Seq::<Notice>::empty()
        && begun->state.builder.client_config.network.boot_nodes == Seq::<
        crate::client_config::BootNodeView,
    >::empty()) by {
        reveal(start_spec);
    }
    a_missing_address_is_only_a_warning(begun->state, first);
    assert(feed(begun, one) == begun->state.advance(first));
    let warned = feed(begun, one);
    assert(warned->state.builder.notices =~= seq![Notice::NoBootstrapAddress]);
    runs_begin_in_step(args, home, datadir_token, backup_token);
    steps_keep_a_run_in_step(begun->state, first);
    a_missing_protocol_document_ends_the_run(warned->state, document_failure);
    assert(feed(begun, two.drop_last()) == warned);
    assert(feed(begun, two) == warned->state.advance(second));
}

/// A number that cannot be read ends a fresh-chain run at once, before
/// anything is asked of the world outside, with a `ParseError` that holds
/// the flag's name and the text as given. This is so wherever the flags
/// before it are in order: `spec` names a variant, and the fields of the
/// sub-command that come earlier are there and can be read. The first fault
/// in that order is the one that is told.
pub proof fn unreadable_numbers_end_the_run_at_once(
    args: CliArgs,
    home: Option<Seq<char>>,
    datadir_token: Seq<char>,
    backup_token: Seq<char>,
)
    requires
        args.testnet is Some,
        args.testnet->0.spec is Some,
        is_spec_name(args.testnet->0.spec->0@),
        args.testnet->0.method is Some,
    ensures
        ({
            let begun = start_spec(args, home, datadir_token, backup_token);
            let refused = |flag: Seq<char>, raw: String|
                begun == ProgressView::Failed {
                    error: ConfigErrorView::ParseError { name: flag, raw: raw@ },
                };
            match args.testnet->0.method->0 {
                MethodArgs::Recent { validator_count, minutes } => {
                    &&& validator_count is Some && read_number(
                        validator_count->0@,
                        usize::MAX as nat,
                    ) is None ==> refused(FLAG_VALIDATOR_COUNT@, validator_count->0)
                    &&& validator_count is Some && read_number(
                        validator_count->0@,
                        usize::MAX as nat,
                    ) is Some && minutes is Some && read_number(minutes->0@, u64::MAX as nat)
                        is None ==> refused(FLAG_MINUTES@, minutes->0)
                },
                MethodArgs::Quick { validator_count, genesis_time } => {
                    &&& validator_count is Some && read_number(
                        validator_count->0@,
                        usize::MAX as nat,
                    ) is None ==> refused(FLAG_VALIDATOR_COUNT@, validator_count->0)
                    &&& validator_count is Some && read_number(
                        validator_count->0@,
                        usize::MAX as nat,
                    ) is Some && genesis_time is Some && read_number(
                        genesis_time->0@,
                        u64::MAX as nat,
                    ) is None ==> refused(FLAG_GENESIS_TIME@, genesis_time->0)
                },
                MethodArgs::Bootstrap { server, libp2p_port } => {
                    server is Some && libp2p_port is Some && read_number(
                        libp2p_port->0@,
                        u16::MAX as nat,
                    ) is None ==> refused(FLAG_LIBP2P_PORT@, libp2p_port->0)
                },
            }
        }),
{
    reveal(start_spec);
}

} // verus!
