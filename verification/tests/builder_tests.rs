use beacon_node::builder::ConfigBuilder;
use beacon_node::client_config::BootNode;
use beacon_node::client_config::ClientConfig;
use beacon_node::client_config::DatabaseKind;
use beacon_node::client_config::StartMethod;
use beacon_node::effects::Action;
use beacon_node::effects::CleanStage;
use beacon_node::effects::Event;
use beacon_node::effects::LoadStage;
use beacon_node::effects::LogLevel;
use beacon_node::effects::Notice;
use beacon_node::effects::PersistStage;
use beacon_node::effects::Stage;
use beacon_node::effects::Step;
use beacon_node::error::ConfigError;
use beacon_node::eth2_config::Eth2Config;

fn builder_at(dir: &str) -> ConfigBuilder {
    ConfigBuilder::with_home(&Some(dir.to_string()), None).unwrap()
}

fn with_disk_database(dir: &str) -> ConfigBuilder {
    let mut builder = builder_at(dir);
    builder.client_config.db_type = DatabaseKind::Disk;
    builder.client_config.db_name = "chain.db".to_string();
    builder.client_config.data_dir = dir.to_string();
    builder
}

fn failed(detail: &str) -> Event {
    Event::Failed { detail: detail.to_string() }
}

fn perform(next: Stage, action: Action) -> Step {
    Step::Perform { next, action }
}

fn fail(error: ConfigError) -> Step {
    Step::Fail { error }
}

fn unexpected() -> Step {
    fail(ConfigError::UnexpectedEvent)
}

#[test]
fn builder_takes_the_named_datadir() {
    let builder = ConfigBuilder::with_home(&Some("/data".to_string()), Some("/home/a".to_string()));
    let builder = builder.unwrap();
    assert_eq!(builder.data_dir, "/data");
    assert_eq!(builder.eth2_config, Eth2Config::minimal());
    assert_eq!(builder.client_config, ClientConfig::default_in("/home/a"));
    assert!(builder.notices.is_empty());
}

#[test]
fn builder_falls_back_to_the_home_directory() {
    let builder = ConfigBuilder::with_home(&None, Some("/home/alice".to_string())).unwrap();
    assert_eq!(builder.data_dir, "/home/alice/.lighthouse");
}

#[test]
fn builder_without_datadir_and_home_fails() {
    assert_eq!(ConfigBuilder::with_home(&None, None), Err(ConfigError::NoHomeDirectory));
}

#[test]
fn new_builder_with_datadir_never_fails() {
    let builder = ConfigBuilder::new(&Some("/data".to_string())).unwrap();
    assert_eq!(builder.data_dir, "/data");
    assert_eq!(builder.eth2_config, Eth2Config::minimal());
    assert_eq!(builder.client_config, ClientConfig::default());
    assert!(builder.notices.is_empty());
}

#[test]
fn builder_with_home_holds_the_client_document_of_that_home() {
    let home = Some("/home/alice".to_string());
    let builder = ConfigBuilder::with_home(&Some("/data".to_string()), home).unwrap();
    assert_eq!(builder.data_dir, "/data");
    assert_eq!(builder.client_config, ClientConfig::default_in("/home/alice"));
    let builder = ConfigBuilder::with_home(&None, Some("/home/alice".to_string())).unwrap();
    assert_eq!(builder.data_dir, "/home/alice/.lighthouse");
    assert_eq!(builder.client_config.data_dir, "/home/alice/.lighthouse/");
}

#[test]
fn new_builder_without_datadir_uses_the_home_of_this_machine() {
    match ConfigBuilder::new(&None) {
        Ok(builder) => {
            assert!(builder.data_dir.ends_with(".lighthouse"));
            assert_ne!(builder.data_dir, ".lighthouse");
            assert_eq!(builder.client_config, ClientConfig::default());
            assert_eq!(builder.client_config.data_dir, format!("{}/", builder.data_dir));
        }
        Err(error) => assert_eq!(error, ConfigError::NoHomeDirectory),
    }
}

#[test]
fn random_suffix_is_appended() {
    let mut builder = builder_at("/home/alice/.lighthouse");
    builder.append_random_suffix("aB3dE9");
    assert_eq!(builder.data_dir, "/home/alice/.lighthouse_random_aB3dE9");
    assert_eq!(builder.client_config, ClientConfig::default_without_home());
}

#[test]
fn random_suffix_makes_a_sibling_of_the_datadir() {
    let mut builder = builder_at("/home/alice/.lighthouse/");
    builder.append_random_suffix("aB3dE9");
    assert_eq!(builder.data_dir, "/home/alice/.lighthouse_random_aB3dE9");
    let mut builder = builder_at("data/.");
    builder.append_random_suffix("aB3dE9");
    assert_eq!(builder.data_dir, "data_random_aB3dE9");
}

#[test]
fn cleaning_moves_a_database_whose_path_ends_in_a_separator() {
    let mut builder = with_disk_database("/data");
    builder.client_config.db_name = "chain.db/".to_string();
    assert_eq!(
        builder.clean_datadir_after("/data/backup_x", CleanStage::Eth2Move, &Event::Completed),
        perform(
            Stage::Clean(CleanStage::DatabaseMove),
            Action::Rename {
                from: "/data/chain.db/".to_string(),
                to: "/data/backup_x/chain.db".to_string(),
            }
        )
    );
}

#[test]
fn random_datadir_gets_six_letters_or_digits() {
    let mut builder = builder_at("/data");
    builder.set_random_datadir();
    let suffix = builder.data_dir.strip_prefix("/data_random_").unwrap();
    assert_eq!(suffix.chars().count(), 6);
    assert!(suffix.chars().all(|c| c.is_ascii_alphanumeric()));
}

#[test]
fn random_datadirs_differ() {
    let mut first = builder_at("/data");
    let mut second = builder_at("/data");
    first.set_random_datadir();
    second.set_random_datadir();
    assert_ne!(first.data_dir, second.data_dir);
}

#[test]
fn backup_dir_lies_in_the_datadir() {
    assert_eq!(builder_at("/data").backup_dir("x1y2z3"), "/data/backup_x1y2z3");
    assert_eq!(builder_at("/data/").backup_dir("x1y2z3"), "/data/backup_x1y2z3");
}

#[test]
fn start_method_is_set() {
    let mut builder = builder_at("/data");
    let method = StartMethod::RecentGenesis { validator_count: 8, minutes: 30 };
    builder.set_beacon_chain_start_method(method.clone());
    assert_eq!(builder.client_config.beacon_chain_start_method, method);
    let mut expected = ClientConfig::default_without_home();
    expected.beacon_chain_start_method = method;
    assert_eq!(builder.client_config, expected);
}

#[test]
fn notices_keep_their_order_and_level() {
    let mut builder = builder_at("/data");
    builder.notice(Notice::CreatingNewDatadir);
    builder.notice(Notice::NoBootstrapAddress);
    assert_eq!(builder.notices, vec![Notice::CreatingNewDatadir, Notice::NoBootstrapAddress]);
    assert_eq!(Notice::NoBootstrapAddress.level(), LogLevel::Warning);
    assert_eq!(Notice::CreatingNewDatadir.level(), LogLevel::Info);
    assert_eq!(Notice::ResumingFromDatadir.level(), LogLevel::Info);
    assert_eq!(Notice::EstimatedBootstrapAddress.level(), LogLevel::Info);
}

#[test]
fn bootstrap_address_with_port_asks_nothing() {
    let mut builder = builder_at("/data");
    let step = builder.import_bootstrap_libp2p_address("http://boot", Some(9001));
    assert_eq!(step, Step::Done);
    assert_eq!(
        builder.client_config.network.boot_nodes,
        vec![BootNode::Server { server: "http://boot".to_string(), port: 9001 }]
    );
    assert_eq!(builder.notices, vec![Notice::EstimatedBootstrapAddress]);
}

#[test]
fn bootstrap_address_without_port_asks_the_server() {
    let mut builder = builder_at("/data");
    let step = builder.import_bootstrap_libp2p_address("http://boot", None);
    assert_eq!(
        step,
        perform(Stage::ListenPort, Action::FetchListenPort { server: "http://boot".to_string() })
    );
    assert_eq!(builder, builder_at("/data"));
}

#[test]
fn bootstrap_address_from_the_servers_port() {
    let mut builder = builder_at("/data");
    builder.import_bootstrap_libp2p_address_after("http://boot", &Event::ListenPort(9002));
    assert_eq!(
        builder.client_config.network.boot_nodes,
        vec![BootNode::Server { server: "http://boot".to_string(), port: 9002 }]
    );
    assert_eq!(builder.notices, vec![Notice::EstimatedBootstrapAddress]);
}

#[test]
fn bootstrap_address_failure_is_a_warning() {
    let events = [
        failed("connection refused"),
        Event::Malformed { detail: "not a port".to_string() },
        Event::Absent,
        Event::Completed,
    ];
    for event in events.iter() {
        let mut builder = builder_at("/data");
        builder.import_bootstrap_libp2p_address_after("http://boot", event);
        assert!(builder.client_config.network.boot_nodes.is_empty());
        assert_eq!(builder.notices, vec![Notice::NoBootstrapAddress]);
    }
}

#[test]
fn bootstrap_document_is_asked_of_the_server() {
    assert_eq!(
        ConfigBuilder::import_bootstrap_eth2_config("http://boot"),
        Action::FetchEth2Config { server: "http://boot".to_string() }
    );
}

#[test]
fn bootstrap_document_replaces_the_builders() {
    let mut builder = builder_at("/data");
    let result = builder
        .import_bootstrap_eth2_config_after("http://boot", Event::Eth2ConfigFound(Eth2Config::interop()));
    assert_eq!(result, Ok(()));
    assert_eq!(builder.eth2_config, Eth2Config::interop());
    assert_eq!(builder.client_config, ClientConfig::default_without_home());
}

#[test]
fn bootstrap_document_failure_is_a_network_error() {
    let mut builder = builder_at("/data");
    assert_eq!(
        builder.import_bootstrap_eth2_config_after("http://boot", failed("timed out")),
        Err(ConfigError::NetworkError {
            server: "http://boot".to_string(),
            detail: "timed out".to_string(),
        })
    );
    assert_eq!(
        builder.import_bootstrap_eth2_config_after(
            "http://boot",
            Event::Malformed { detail: "not json".to_string() }
        ),
        Err(ConfigError::NetworkError {
            server: "http://boot".to_string(),
            detail: "not json".to_string(),
        })
    );
    assert_eq!(
        builder.import_bootstrap_eth2_config_after("http://boot", Event::Exists(true)),
        Err(ConfigError::UnexpectedEvent)
    );
    assert_eq!(builder, builder_at("/data"));
}

#[test]
fn spec_from_subcommand_sets_both_documents() {
    for name in ["mainnet", "minimal", "interop"].iter() {
        let mut builder = builder_at("/data");
        assert_eq!(builder.update_spec_from_subcommand(&Some(name.to_string())), Ok(()));
        assert_eq!(builder.eth2_config, Eth2Config::for_spec_name(name).unwrap());
        assert_eq!(builder.client_config.spec_constants, *name);
    }
}

#[test]
fn spec_from_subcommand_refuses_other_names() {
    let mut builder = builder_at("/data");
    assert_eq!(
        builder.update_spec_from_subcommand(&Some("goerli".to_string())),
        Err(ConfigError::UnknownSpec { name: "goerli".to_string() })
    );
    assert_eq!(
        builder.update_spec_from_subcommand(&None),
        Err(ConfigError::MissingArgument { flag: "spec".to_string() })
    );
    assert_eq!(builder, builder_at("/data"));
}

#[test]
fn load_actions_name_the_path() {
    assert_eq!(
        ConfigBuilder::load_client_config("/tmp/c.toml"),
        Action::ReadClientConfig { path: "/tmp/c.toml".to_string() }
    );
    assert_eq!(
        ConfigBuilder::load_eth2_config("/tmp/e.toml"),
        Action::ReadEth2Config { path: "/tmp/e.toml".to_string() }
    );
}

#[test]
fn loaded_documents_replace_the_builders() {
    let mut builder = builder_at("/data");
    let mut client = ClientConfig::default_without_home();
    client.rpc.port = 7000;
    assert_eq!(
        builder.load_client_config_after("/tmp/c.toml", Event::ClientConfigFound(client.clone())),
        Ok(())
    );
    assert_eq!(builder.client_config, client);
    assert_eq!(
        builder.load_eth2_config_after("/tmp/e.toml", Event::Eth2ConfigFound(Eth2Config::mainnet())),
        Ok(())
    );
    assert_eq!(builder.eth2_config, Eth2Config::mainnet());
}

#[test]
fn absent_documents_are_fatal() {
    let mut builder = builder_at("/data");
    assert_eq!(
        builder.load_client_config_after("/tmp/c.toml", Event::Absent),
        Err(ConfigError::DocumentNotFound { path: "/tmp/c.toml".to_string() })
    );
    assert_eq!(
        builder.load_eth2_config_after("/tmp/e.toml", Event::Absent),
        Err(ConfigError::DocumentNotFound { path: "/tmp/e.toml".to_string() })
    );
}

#[test]
fn malformed_documents_are_parse_errors() {
    let mut builder = builder_at("/data");
    let malformed = Event::Malformed { detail: "expected `=` at line 3".to_string() };
    assert_eq!(
        builder.load_client_config_after("/tmp/c.toml", malformed.clone()),
        Err(ConfigError::ParseError {
            name: "/tmp/c.toml".to_string(),
            raw: "expected `=` at line 3".to_string(),
        })
    );
    assert_eq!(
        builder.load_eth2_config_after("/tmp/e.toml", malformed),
        Err(ConfigError::ParseError {
            name: "/tmp/e.toml".to_string(),
            raw: "expected `=` at line 3".to_string(),
        })
    );
}

#[test]
fn unreadable_documents_are_io_errors() {
    let mut builder = builder_at("/data");
    assert_eq!(
        builder.load_client_config_after("/tmp/c.toml", failed("permission denied")),
        Err(ConfigError::IoError {
            path: "/tmp/c.toml".to_string(),
            detail: "permission denied".to_string(),
        })
    );
    assert_eq!(
        builder.load_eth2_config_after("/tmp/e.toml", failed("permission denied")),
        Err(ConfigError::IoError {
            path: "/tmp/e.toml".to_string(),
            detail: "permission denied".to_string(),
        })
    );
}

#[test]
fn documents_of_the_wrong_kind_are_unexpected() {
    let mut builder = builder_at("/data");
    assert_eq!(
        builder.load_client_config_after("/c", Event::Eth2ConfigFound(Eth2Config::minimal())),
        Err(ConfigError::UnexpectedEvent)
    );
    assert_eq!(
        builder.load_eth2_config_after("/e", Event::ClientConfigFound(ClientConfig::default_without_home())),
        Err(ConfigError::UnexpectedEvent)
    );
    assert_eq!(builder, builder_at("/data"));
}

#[test]
fn loading_begins_with_the_datadir() {
    assert_eq!(
        builder_at("/data").load_from_datadir(),
        perform(Stage::Load(LoadStage::Datadir), Action::CheckExists { path: "/data".to_string() })
    );
}

#[test]
fn loading_goes_document_by_document() {
    let mut builder = builder_at("/data");
    assert_eq!(
        builder.load_from_datadir_after(LoadStage::Datadir, Event::Exists(true)),
        perform(
            Stage::Load(LoadStage::Eth2Document),
            Action::ReadEth2Config { path: "/data/eth2-spec.toml".to_string() }
        )
    );
    assert_eq!(
        builder.load_from_datadir_after(
            LoadStage::Eth2Document,
            Event::Eth2ConfigFound(Eth2Config::mainnet())
        ),
        perform(
            Stage::Load(LoadStage::ClientDocument),
            Action::ReadClientConfig { path: "/data/beacon-node.toml".to_string() }
        )
    );
    assert_eq!(builder.eth2_config, Eth2Config::mainnet());
    let mut stored = ClientConfig::default_without_home();
    stored.db_type = DatabaseKind::Disk;
    stored.db_name = "chain.db".to_string();
    stored.data_dir = "/data".to_string();
    stored.spec_constants = "mainnet".to_string();
    assert_eq!(
        builder.load_from_datadir_after(
            LoadStage::ClientDocument,
            Event::ClientConfigFound(stored.clone())
        ),
        perform(
            Stage::Load(LoadStage::Database),
            Action::CheckExists { path: "/data/chain.db".to_string() }
        )
    );
    assert_eq!(builder.client_config, stored);
    assert_eq!(builder.load_from_datadir_after(LoadStage::Database, Event::Exists(true)), Step::Done);
}

#[test]
fn loading_a_document_without_database_is_done() {
    let mut builder = builder_at("/data");
    assert_eq!(
        builder.load_from_datadir_after(
            LoadStage::ClientDocument,
            Event::ClientConfigFound(ClientConfig::default_without_home())
        ),
        Step::Done
    );
}

#[test]
fn loading_fails_without_datadir_documents_or_database() {
    let mut builder = with_disk_database("/data");
    assert_eq!(
        builder.load_from_datadir_after(LoadStage::Datadir, Event::Exists(false)),
        fail(ConfigError::DatadirNotFound { path: "/data".to_string() })
    );
    assert_eq!(
        builder.load_from_datadir_after(LoadStage::Eth2Document, Event::Absent),
        fail(ConfigError::DocumentNotFound { path: "/data/eth2-spec.toml".to_string() })
    );
    assert_eq!(
        builder.load_from_datadir_after(LoadStage::ClientDocument, Event::Absent),
        fail(ConfigError::DocumentNotFound { path: "/data/beacon-node.toml".to_string() })
    );
    assert_eq!(
        builder.load_from_datadir_after(LoadStage::Database, Event::Exists(false)),
        fail(ConfigError::DatabaseNotFound { path: "/data/chain.db".to_string() })
    );
    assert_eq!(builder.load_from_datadir_after(LoadStage::Datadir, Event::Completed), unexpected());
    assert_eq!(builder.load_from_datadir_after(LoadStage::Database, Event::Absent), unexpected());
    assert_eq!(builder, with_disk_database("/data"));
}

#[test]
fn cleaning_creates_the_backup_then_moves() {
    let builder = with_disk_database("/data");
    let backup = "/data/backup_abc123";
    assert_eq!(
        builder.clean_datadir(backup),
        perform(
            Stage::Clean(CleanStage::BackupDir),
            Action::CreateDirAll { path: backup.to_string() }
        )
    );
    assert_eq!(
        builder.clean_datadir_after(backup, CleanStage::BackupDir, &Event::Completed),
        perform(
            Stage::Clean(CleanStage::ClientMove),
            Action::Rename {
                from: "/data/beacon-node.toml".to_string(),
                to: "/data/backup_abc123/beacon-node.toml".to_string(),
            }
        )
    );
    for event in [Event::Completed, failed("no such file")].iter() {
        assert_eq!(
            builder.clean_datadir_after(backup, CleanStage::ClientMove, event),
            perform(
                Stage::Clean(CleanStage::Eth2Move),
                Action::Rename {
                    from: "/data/eth2-spec.toml".to_string(),
                    to: "/data/backup_abc123/eth2-spec.toml".to_string(),
                }
            )
        );
        assert_eq!(
            builder.clean_datadir_after(backup, CleanStage::Eth2Move, event),
            perform(
                Stage::Clean(CleanStage::DatabaseMove),
                Action::Rename {
                    from: "/data/chain.db".to_string(),
                    to: "/data/backup_abc123/chain.db".to_string(),
                }
            )
        );
        assert_eq!(builder.clean_datadir_after(backup, CleanStage::DatabaseMove, event), Step::Done);
    }
}

#[test]
fn cleaning_without_database_moves_two_files() {
    let builder = builder_at("/data");
    assert_eq!(
        builder.clean_datadir_after("/data/backup_x", CleanStage::Eth2Move, &Event::Completed),
        Step::Done
    );
}

#[test]
fn cleaning_fails_without_backup_dir() {
    let builder = builder_at("/data");
    assert_eq!(
        builder.clean_datadir_after("/data/backup_x", CleanStage::BackupDir, &failed("read-only")),
        fail(ConfigError::IoError {
            path: "/data/backup_x".to_string(),
            detail: "read-only".to_string(),
        })
    );
    assert_eq!(
        builder.clean_datadir_after("/data/backup_x", CleanStage::BackupDir, &Event::Exists(true)),
        unexpected()
    );
}

#[test]
fn cleaning_fails_on_a_database_path_without_name() {
    let mut builder = with_disk_database("/data");
    builder.client_config.db_name = "..".to_string();
    assert_eq!(
        builder.clean_datadir_after("/data/backup_x", CleanStage::Eth2Move, &Event::Completed),
        fail(ConfigError::InvalidPath { path: "/data/..".to_string() })
    );
}

#[test]
fn writing_begins_with_the_database_or_the_datadir() {
    assert_eq!(
        builder_at("/data").write_configs_to_new_datadir(),
        perform(
            Stage::Persist(PersistStage::DatadirCreated),
            Action::CreateDirAll { path: "/data".to_string() }
        )
    );
    assert_eq!(
        with_disk_database("/data").write_configs_to_new_datadir(),
        perform(
            Stage::Persist(PersistStage::DatabaseFree),
            Action::CheckExists { path: "/data/chain.db".to_string() }
        )
    );
}

#[test]
fn writing_goes_file_by_file() {
    let builder = with_disk_database("/data");
    assert_eq!(
        builder.write_configs_to_new_datadir_after(PersistStage::DatabaseFree, &Event::Exists(false)),
        perform(
            Stage::Persist(PersistStage::DatadirCreated),
            Action::CreateDirAll { path: "/data".to_string() }
        )
    );
    assert_eq!(
        builder.write_configs_to_new_datadir_after(PersistStage::DatadirCreated, &Event::Completed),
        perform(
            Stage::Persist(PersistStage::ClientFree),
            Action::CheckExists { path: "/data/beacon-node.toml".to_string() }
        )
    );
    assert_eq!(
        builder.write_configs_to_new_datadir_after(PersistStage::ClientFree, &Event::Exists(false)),
        perform(
            Stage::Persist(PersistStage::Eth2Free),
            Action::CheckExists { path: "/data/eth2-spec.toml".to_string() }
        )
    );
    assert_eq!(
        builder.write_configs_to_new_datadir_after(PersistStage::Eth2Free, &Event::Exists(false)),
        perform(
            Stage::Persist(PersistStage::ClientWritten),
            Action::WriteClientConfig { path: "/data/beacon-node.toml".to_string() }
        )
    );
    assert_eq!(
        builder.write_configs_to_new_datadir_after(PersistStage::ClientWritten, &Event::Completed),
        perform(
            Stage::Persist(PersistStage::Eth2Written),
            Action::WriteEth2Config { path: "/data/eth2-spec.toml".to_string() }
        )
    );
    assert_eq!(
        builder.write_configs_to_new_datadir_after(PersistStage::Eth2Written, &Event::Completed),
        Step::Done
    );
}

#[test]
fn writing_refuses_a_datadir_that_is_not_clean() {
    let builder = with_disk_database("/data");
    let not_clean = |path: &str| fail(ConfigError::DatadirNotClean { path: path.to_string() });
    assert_eq!(
        builder.write_configs_to_new_datadir_after(PersistStage::DatabaseFree, &Event::Exists(true)),
        not_clean("/data/chain.db")
    );
    assert_eq!(
        builder.write_configs_to_new_datadir_after(PersistStage::ClientFree, &Event::Exists(true)),
        not_clean("/data/beacon-node.toml")
    );
    assert_eq!(
        builder.write_configs_to_new_datadir_after(PersistStage::Eth2Free, &Event::Exists(true)),
        not_clean("/data/eth2-spec.toml")
    );
}

#[test]
fn writing_fails_where_the_disk_fails() {
    let builder = builder_at("/data");
    let io = |path: &str| {
        fail(ConfigError::IoError { path: path.to_string(), detail: "disk full".to_string() })
    };
    let event = failed("disk full");
    assert_eq!(
        builder.write_configs_to_new_datadir_after(PersistStage::DatadirCreated, &event),
        io("/data")
    );
    assert_eq!(
        builder.write_configs_to_new_datadir_after(PersistStage::ClientWritten, &event),
        io("/data/beacon-node.toml")
    );
    assert_eq!(
        builder.write_configs_to_new_datadir_after(PersistStage::Eth2Written, &event),
        io("/data/eth2-spec.toml")
    );
}

#[test]
fn writing_refuses_events_that_answer_nothing() {
    let builder = builder_at("/data");
    let stages = [
        (PersistStage::DatabaseFree, Event::Completed),
        (PersistStage::DatadirCreated, Event::Exists(true)),
        (PersistStage::ClientFree, Event::Completed),
        (PersistStage::ClientWritten, Event::Exists(false)),
        (PersistStage::Eth2Free, Event::Absent),
        (PersistStage::Eth2Written, Event::ListenPort(1)),
    ];
    for (stage, event) in stages.iter() {
        assert_eq!(builder.write_configs_to_new_datadir_after(*stage, event), unexpected());
    }
}

#[test]
fn build_hands_out_both_documents() {
    let builder = builder_at("/data");
    let (client, eth2) = builder.build(&None).unwrap();
    let mut expected = ClientConfig::default_without_home();
    expected.data_dir = "/data".to_string();
    assert_eq!(client, expected);
    assert_eq!(eth2, Eth2Config::minimal());
}

#[test]
fn build_moves_every_port_and_the_rpc_port_twice() {
    let builder = builder_at("/data");
    let (client, _) = builder.build(&Some("10".to_string())).unwrap();
    assert_eq!(client.network.libp2p_port, 9010);
    assert_eq!(client.network.discovery_port, 9010);
    assert_eq!(client.rpc.port, 5071);
    assert_eq!(client.rest_api.port, 5062);
    assert_eq!(client.network.listen_addresses, ClientConfig::default_without_home().network.listen_addresses);
}

#[test]
fn build_with_a_bump_of_zero_changes_no_port() {
    let (client, _) = builder_at("/data").build(&Some("0".to_string())).unwrap();
    assert_eq!(client.network.libp2p_port, 9000);
    assert_eq!(client.rpc.port, 5051);
    assert_eq!(client.rest_api.port, 5052);
}

#[test]
fn build_refuses_a_bump_that_is_no_port_number() {
    for raw in ["ten", "65536", "-1", ""].iter() {
        assert_eq!(
            builder_at("/data").build(&Some(raw.to_string())),
            Err(ConfigError::ParseError { name: "port-bump".to_string(), raw: raw.to_string() })
        );
    }
}

#[test]
fn build_refuses_a_bump_beyond_the_last_port() {
    assert_eq!(builder_at("/data").build(&Some("60000".to_string())), Err(ConfigError::PortOutOfRange));
    let mut builder = builder_at("/data");
    builder.client_config.rpc.port = 65535;
    assert_eq!(builder.build(&Some("1".to_string())), Err(ConfigError::PortOutOfRange));
    let mut builder = builder_at("/data");
    builder.client_config.network.libp2p_port = 100;
    builder.client_config.network.discovery_port = 100;
    builder.client_config.rpc.port = 1;
    builder.client_config.rest_api.port = 100;
    let (client, _) = builder.build(&Some("32767".to_string())).unwrap();
    assert_eq!(client.rpc.port, 65535);
    assert_eq!(client.network.libp2p_port, 32867);
}

#[test]
fn build_refuses_documents_with_different_constants() {
    let mut builder = builder_at("/data");
    builder.eth2_config = Eth2Config::mainnet();
    assert_eq!(
        builder.build(&None),
        Err(ConfigError::SpecMismatch {
            client: "minimal".to_string(),
            eth2: "mainnet".to_string(),
        })
    );
}

#[test]
fn build_compares_before_it_moves_a_port() {
    let mut builder = builder_at("/data");
    builder.eth2_config = Eth2Config::mainnet();
    assert_eq!(
        builder.build(&Some("60000".to_string())),
        Err(ConfigError::SpecMismatch {
            client: "minimal".to_string(),
            eth2: "mainnet".to_string(),
        })
    );
}

#[test]
fn build_reads_the_bump_before_it_compares() {
    let mut builder = builder_at("/data");
    builder.eth2_config = Eth2Config::mainnet();
    assert_eq!(
        builder.build(&Some("x".to_string())),
        Err(ConfigError::ParseError { name: "port-bump".to_string(), raw: "x".to_string() })
    );
}
