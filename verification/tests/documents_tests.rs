use beacon_node::client_config::BootNode;
use beacon_node::client_config::ClientArgs;
use beacon_node::client_config::ClientConfig;
use beacon_node::client_config::DatabaseKind;
use beacon_node::client_config::ForkChoiceAlgorithm;
use beacon_node::client_config::GivenAddress;
use beacon_node::client_config::GivenPeer;
use beacon_node::client_config::IpAddress;
use beacon_node::client_config::ListenAddress;
use beacon_node::client_config::StartMethod;
use beacon_node::effects::LogLevel;
use beacon_node::error::ConfigError;
use beacon_node::eth2_config::ChainSpec;
use beacon_node::eth2_config::Eth2Config;

const LOCALHOST: u32 = 0x7f00_0001;

fn no_args() -> ClientArgs {
    ClientArgs {
        verbosity: 0,
        port: None,
        listen_address: None,
        boot_nodes: None,
        datadir: None,
        rpc: false,
        rpc_address: None,
        rpc_port: None,
    }
}

fn parse_error(name: &str, raw: &str) -> ConfigError {
    ConfigError::ParseError { name: name.to_string(), raw: raw.to_string() }
}

#[test]
fn protocol_variants() {
    let mainnet = Eth2Config::mainnet();
    assert_eq!(mainnet.spec_constants, "mainnet");
    assert_eq!(mainnet.spec, ChainSpec::mainnet());
    assert_eq!(mainnet.spec.target_committee_size, 128);
    assert_eq!(mainnet.spec.shuffle_round_count, 90);
    assert_eq!(mainnet.spec.min_genesis_active_validator_count, 65536);
    assert_eq!(mainnet.spec.seconds_per_slot, 6);
    assert_eq!(mainnet.spec.network_id, 1);

    let minimal = Eth2Config::minimal();
    assert_eq!(minimal.spec_constants, "minimal");
    assert_eq!(minimal.spec.target_committee_size, 4);
    assert_eq!(minimal.spec.shuffle_round_count, 10);
    assert_eq!(minimal.spec.min_genesis_active_validator_count, 64);
    assert_eq!(minimal.spec.seconds_per_slot, 6);
    assert_eq!(minimal.spec.network_id, 2);

    let interop = Eth2Config::interop();
    assert_eq!(interop.spec_constants, "interop");
    assert_eq!(interop.spec.target_committee_size, 4);
    assert_eq!(interop.spec.shuffle_round_count, 10);
    assert_eq!(interop.spec.min_genesis_active_validator_count, 65536);
    assert_eq!(interop.spec.seconds_per_slot, 12);
    assert_eq!(interop.spec.network_id, 13);
}

#[test]
fn protocol_variants_by_name() {
    assert_eq!(Eth2Config::for_spec_name("mainnet"), Some(Eth2Config::mainnet()));
    assert_eq!(Eth2Config::for_spec_name("minimal"), Some(Eth2Config::minimal()));
    assert_eq!(Eth2Config::for_spec_name("interop"), Some(Eth2Config::interop()));
    assert_eq!(Eth2Config::for_spec_name("testnet"), None);
    assert_eq!(Eth2Config::for_spec_name(""), None);
}

#[test]
fn protocol_document_duplicate_is_equal() {
    let config = Eth2Config::interop();
    assert_eq!(config.duplicate(), config);
}

#[test]
fn default_client_document_without_home() {
    let config = ClientConfig::default_without_home();
    assert_eq!(config.data_dir, ".lighthouse");
    assert_eq!(config.db_type, DatabaseKind::Memory);
    assert_eq!(config.db_name, "chain.db");
    assert_eq!(config.fork_choice, ForkChoiceAlgorithm::BitwiseLMDGhost);
    assert_eq!(config.spec_constants, "minimal");
    assert_eq!(config.beacon_chain_start_method, StartMethod::Resume);
    assert_eq!(
        config.network.listen_addresses,
        vec![ListenAddress { ip: IpAddress::V4(LOCALHOST), port: 9000 }]
    );
    assert_eq!(config.network.libp2p_port, 9000);
    assert_eq!(config.network.discovery_port, 9000);
    assert!(config.network.boot_nodes.is_empty());
    assert!(!config.rpc.enabled);
    assert_eq!(config.rpc.listen_address, LOCALHOST);
    assert_eq!(config.rpc.port, 5051);
    assert_eq!(config.rest_api.port, 5052);
}

#[test]
fn default_client_document_lies_under_the_home_directory() {
    let config = ClientConfig::default_in("/home/alice");
    assert_eq!(config.data_dir, "/home/alice/.lighthouse/");
    assert_eq!(config.db_name, "/home/alice/.lighthouse/chain.db");
    assert_eq!(config.db_type, DatabaseKind::Memory);
    assert_eq!(config.fork_choice, ForkChoiceAlgorithm::BitwiseLMDGhost);
    let mut expected = ClientConfig::default_without_home();
    expected.data_dir = "/home/alice/.lighthouse/".to_string();
    expected.db_name = "/home/alice/.lighthouse/chain.db".to_string();
    assert_eq!(config, expected);
    assert_eq!(ClientConfig::default_in("/home/alice/").data_dir, "/home/alice/.lighthouse/");
}

#[test]
fn default_client_document_for_an_optional_home() {
    assert_eq!(ClientConfig::default_for(&None), ClientConfig::default_without_home());
    assert_eq!(
        ClientConfig::default_for(&Some("/root".to_string())),
        ClientConfig::default_in("/root")
    );
}

#[test]
fn default_client_document_on_this_machine() {
    let config = ClientConfig::default_without_home();
    if config != ClientConfig::default_without_home() {
        let home = config.data_dir.strip_suffix("/.lighthouse/").unwrap();
        assert_eq!(config, ClientConfig::default_in(home));
        assert_eq!(config.db_name, format!("{}/.lighthouse/chain.db", home));
    }
}

#[test]
fn database_of_the_default_document_on_disk_lies_under_the_home_directory() {
    let mut config = ClientConfig::default_in("/home/alice");
    assert_eq!(config.db_path(), None);
    config.db_type = DatabaseKind::Disk;
    assert_eq!(config.db_path(), Some("/home/alice/.lighthouse/chain.db".to_string()));
}

#[test]
fn default_documents_name_the_same_constants() {
    assert_eq!(ClientConfig::default_without_home().spec_constants, Eth2Config::minimal().spec_constants);
}

#[test]
fn database_path_only_on_disk() {
    let mut config = ClientConfig::default_without_home();
    assert_eq!(config.db_path(), None);
    config.db_type = DatabaseKind::Disk;
    assert_eq!(config.db_path(), Some(".lighthouse/chain.db".to_string()));
    config.data_dir = "/data/".to_string();
    config.db_name = "beacon".to_string();
    assert_eq!(config.db_path(), Some("/data/beacon".to_string()));
}

#[test]
fn start_method_and_boot_node_duplicates_are_equal() {
    let methods = [
        StartMethod::Resume,
        StartMethod::HttpBootstrap { server: "http://a".to_string(), port: Some(1) },
        StartMethod::RecentGenesis { validator_count: 3, minutes: 4 },
        StartMethod::Generated { validator_count: 5, genesis_time: 6 },
    ];
    for method in methods.iter() {
        assert_eq!(&method.duplicate(), method);
    }
    let nodes = [
        BootNode::Address { multiaddr: "/ip4/1.2.3.4/tcp/9000".to_string() },
        BootNode::Server { server: "http://a".to_string(), port: 9000 },
    ];
    for node in nodes.iter() {
        assert_eq!(&node.duplicate(), node);
    }
}

#[test]
fn set_listen_port_moves_every_address() {
    let mut network = ClientConfig::default_without_home().network;
    network.listen_addresses.push(ListenAddress { ip: IpAddress::V6(1), port: 7 });
    network.set_listen_port(9100);
    assert_eq!(network.libp2p_port, 9100);
    assert_eq!(network.discovery_port, 9000);
    assert_eq!(
        network.listen_addresses,
        vec![
            ListenAddress { ip: IpAddress::V4(LOCALHOST), port: 9100 },
            ListenAddress { ip: IpAddress::V6(1), port: 9100 },
        ]
    );
}

#[test]
fn parse_args_without_flags_gives_the_default() {
    assert_eq!(ClientConfig::parse_args_with_home(&no_args(), &None), Ok((LogLevel::Info, ClientConfig::default_without_home())));
}

#[test]
fn parse_args_verbosity() {
    let mut args = no_args();
    args.verbosity = 1;
    assert_eq!(ClientConfig::parse_args_with_home(&args, &None).unwrap().0, LogLevel::Debug);
    args.verbosity = 2;
    assert_eq!(ClientConfig::parse_args_with_home(&args, &None).unwrap().0, LogLevel::Trace);
    args.verbosity = 7;
    assert_eq!(ClientConfig::parse_args_with_home(&args, &None).unwrap().0, LogLevel::Trace);
}

#[test]
fn parse_args_takes_every_flag() {
    let args = ClientArgs {
        verbosity: 0,
        port: Some("9100".to_string()),
        listen_address: Some(GivenAddress {
            raw: "10.0.0.1".to_string(),
            address: Some(IpAddress::V4(0x0a00_0001)),
        }),
        boot_nodes: Some(GivenPeer::read("/ip4/1.2.3.4/tcp/9000")),
        datadir: Some("/data".to_string()),
        rpc: true,
        rpc_address: Some(GivenAddress {
            raw: "0.0.0.0".to_string(),
            address: Some(IpAddress::V4(0)),
        }),
        rpc_port: Some("6000".to_string()),
    };
    let (level, config) = ClientConfig::parse_args_with_home(&args, &None).unwrap();
    assert_eq!(level, LogLevel::Info);
    assert_eq!(config.data_dir, "/data");
    assert_eq!(config.network.libp2p_port, 9100);
    assert_eq!(config.network.discovery_port, 9000);
    assert_eq!(
        config.network.listen_addresses,
        vec![ListenAddress { ip: IpAddress::V4(0x0a00_0001), port: 9100 }]
    );
    assert_eq!(
        config.network.boot_nodes,
        vec![BootNode::Address { multiaddr: "/ip4/1.2.3.4/tcp/9000".to_string() }]
    );
    assert!(config.rpc.enabled);
    assert_eq!(config.rpc.listen_address, 0);
    assert_eq!(config.rpc.port, 6000);
    assert_eq!(config.rest_api.port, 5052);
    assert_eq!(config.spec_constants, "minimal");
}

#[test]
fn parse_args_port_alone_moves_the_default_address() {
    let mut args = no_args();
    args.port = Some("9001".to_string());
    let (_, config) = ClientConfig::parse_args_with_home(&args, &None).unwrap();
    assert_eq!(config.network.libp2p_port, 9001);
    assert_eq!(
        config.network.listen_addresses,
        vec![ListenAddress { ip: IpAddress::V4(LOCALHOST), port: 9001 }]
    );
}

#[test]
fn parse_args_listen_address_may_be_ipv6() {
    let mut args = no_args();
    args.listen_address = Some(GivenAddress { raw: "::1".to_string(), address: Some(IpAddress::V6(1)) });
    let (_, config) = ClientConfig::parse_args_with_home(&args, &None).unwrap();
    assert_eq!(
        config.network.listen_addresses,
        vec![ListenAddress { ip: IpAddress::V6(1), port: 9000 }]
    );
}

#[test]
fn parse_args_refuses_what_it_cannot_read() {
    let mut args = no_args();
    args.port = Some("65536".to_string());
    assert_eq!(ClientConfig::parse_args_with_home(&args, &None), Err(parse_error("port", "65536")));

    let mut args = no_args();
    args.listen_address = Some(GivenAddress { raw: "localhost".to_string(), address: None });
    assert_eq!(ClientConfig::parse_args_with_home(&args, &None), Err(parse_error("listen-address", "localhost")));

    let mut args = no_args();
    args.boot_nodes = Some(GivenPeer::read("1.2.3.4"));
    assert_eq!(ClientConfig::parse_args_with_home(&args, &None), Err(parse_error("boot-nodes", "1.2.3.4")));

    let mut args = no_args();
    args.rpc_address = Some(GivenAddress { raw: "::1".to_string(), address: Some(IpAddress::V6(1)) });
    assert_eq!(ClientConfig::parse_args_with_home(&args, &None), Err(parse_error("rpc-address", "::1")));

    let mut args = no_args();
    args.rpc_address = Some(GivenAddress { raw: "rpc".to_string(), address: None });
    assert_eq!(ClientConfig::parse_args_with_home(&args, &None), Err(parse_error("rpc-address", "rpc")));

    let mut args = no_args();
    args.rpc_port = Some("port".to_string());
    assert_eq!(ClientConfig::parse_args_with_home(&args, &None), Err(parse_error("rpc-port", "port")));
}

#[test]
fn parse_args_names_the_first_flag_that_fails() {
    let mut args = no_args();
    args.port = Some("x".to_string());
    args.rpc_port = Some("y".to_string());
    args.boot_nodes = Some(GivenPeer { raw: "z".to_string(), address: None });
    assert_eq!(ClientConfig::parse_args_with_home(&args, &None), Err(parse_error("port", "x")));
    args.port = None;
    assert_eq!(ClientConfig::parse_args_with_home(&args, &None), Err(parse_error("boot-nodes", "z")));
}

#[test]
fn parse_args_starts_from_the_document_of_the_home_directory() {
    let home = Some("/home/alice".to_string());
    assert_eq!(
        ClientConfig::parse_args_with_home(&no_args(), &home),
        Ok((LogLevel::Info, ClientConfig::default_in("/home/alice")))
    );
    let mut args = no_args();
    args.datadir = Some("/data".to_string());
    let (_, config) = ClientConfig::parse_args_with_home(&args, &home).unwrap();
    assert_eq!(config.data_dir, "/data");
    assert_eq!(config.db_name, "/home/alice/.lighthouse/chain.db");
}

#[test]
fn parse_args_on_this_machine() {
    assert_eq!(ClientConfig::parse_args(&no_args()), Ok((LogLevel::Info, ClientConfig::default())));
    let mut args = no_args();
    args.rpc_port = Some("port".to_string());
    assert_eq!(ClientConfig::parse_args(&args), Err(parse_error("rpc-port", "port")));
}

#[test]
fn peers_are_read_as_network_addresses() {
    let given = GivenPeer::read("/ip4/127.0.0.1/tcp/9000");
    assert_eq!(given.raw, "/ip4/127.0.0.1/tcp/9000");
    assert_eq!(given.address, Some("/ip4/127.0.0.1/tcp/9000".to_string()));
    let given = GivenPeer::read("/ip6/0:0:0:0:0:0:0:1/tcp/9000");
    assert_eq!(given.raw, "/ip6/0:0:0:0:0:0:0:1/tcp/9000");
    assert_eq!(given.address, Some("/ip6/::1/tcp/9000".to_string()));
    assert_eq!(GivenPeer::read("/dns4/boot.example/tcp/9000").address.is_some(), true);
}

#[test]
fn texts_that_are_no_network_addresses_are_kept_and_not_read() {
    for raw in ["1.2.3.4", "ip4/1.2.3.4", "/ip4/1.2.3", "/tcp/port", "/nothing/1", "/ip4"].iter() {
        let given = GivenPeer::read(raw);
        assert_eq!(given.raw, *raw);
        assert_eq!(given.address, None, "{:?}", raw);
    }
}

#[test]
fn the_empty_text_is_the_address_without_steps() {
    assert_eq!(GivenPeer::read("").address, Some(String::new()));
}

#[test]
fn parse_args_dials_the_address_as_it_is_written_out() {
    let mut args = no_args();
    args.boot_nodes = Some(GivenPeer::read("/ip6/0:0:0:0:0:0:0:1/tcp/9000"));
    let (_, config) = ClientConfig::parse_args_with_home(&args, &None).unwrap();
    assert_eq!(
        config.network.boot_nodes,
        vec![BootNode::Address { multiaddr: "/ip6/::1/tcp/9000".to_string() }]
    );
}
