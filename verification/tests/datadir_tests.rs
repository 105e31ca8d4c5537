use beacon_node::datadir::add_name_suffix;
use beacon_node::datadir::client_config_path;
use beacon_node::datadir::eth2_config_path;
use beacon_node::datadir::file_name;
use beacon_node::datadir::join;
use beacon_node::datadir::name_bounds;
use beacon_node::datadir::CLIENT_CONFIG_FILENAME;
use beacon_node::datadir::DEFAULT_DATA_DIR;
use beacon_node::datadir::ETH2_CONFIG_FILENAME;
use std::path::Path;

#[test]
fn file_names_of_a_datadir() {
    assert_eq!(DEFAULT_DATA_DIR, ".lighthouse");
    assert_eq!(CLIENT_CONFIG_FILENAME, "beacon-node.toml");
    assert_eq!(ETH2_CONFIG_FILENAME, "eth2-spec.toml");
}

#[test]
fn join_puts_one_separator_between() {
    assert_eq!(join("/home/alice", ".lighthouse"), "/home/alice/.lighthouse");
    assert_eq!(join("/home/alice/", ".lighthouse"), "/home/alice/.lighthouse");
    assert_eq!(join("data", "chain.db"), "data/chain.db");
    assert_eq!(join("/", "etc"), "/etc");
}

#[test]
fn join_of_an_empty_base_is_the_name() {
    assert_eq!(join("", "chain.db"), "chain.db");
}

#[test]
fn join_of_a_rooted_name_is_the_name() {
    assert_eq!(join("/home/alice", "/var/db"), "/var/db");
    assert_eq!(join("", "/var/db"), "/var/db");
}

#[test]
fn join_of_an_empty_name_ends_in_a_separator() {
    assert_eq!(join("/home/alice", ""), "/home/alice/");
    assert_eq!(join("", ""), "");
}

#[test]
fn join_agrees_with_std_paths() {
    let bases = ["", "/", "a", "a/", "/a/b", "/a/b/", "ä/ö", "."];
    let names = ["", "x", "x/y", "/x", "beacon-node.toml", "ü", ".."];
    for base in bases.iter() {
        for name in names.iter() {
            let expected = Path::new(base).join(name);
            assert_eq!(join(base, name), expected.to_str().unwrap());
        }
    }
}

#[test]
fn document_paths_lie_in_the_datadir() {
    assert_eq!(client_config_path("/data"), "/data/beacon-node.toml");
    assert_eq!(eth2_config_path("/data"), "/data/eth2-spec.toml");
    assert_eq!(client_config_path("/data/"), "/data/beacon-node.toml");
    assert_eq!(eth2_config_path(""), "eth2-spec.toml");
}

#[test]
fn file_name_is_the_last_segment() {
    assert_eq!(file_name("/data/chain.db"), Some("chain.db".to_string()));
    assert_eq!(file_name("chain.db"), Some("chain.db".to_string()));
    assert_eq!(file_name("a/b/c"), Some("c".to_string()));
    assert_eq!(file_name("/ä/ö"), Some("ö".to_string()));
    assert_eq!(file_name("a/..b"), Some("..b".to_string()));
    assert_eq!(file_name("a/..."), Some("...".to_string()));
}

#[test]
fn file_name_skips_what_follows_the_name() {
    assert_eq!(file_name("/data/"), Some("data".to_string()));
    assert_eq!(file_name("/data//"), Some("data".to_string()));
    assert_eq!(file_name("data/chain.db/"), Some("chain.db".to_string()));
    assert_eq!(file_name("a/."), Some("a".to_string()));
    assert_eq!(file_name("a/./"), Some("a".to_string()));
    assert_eq!(file_name("a/b/././/"), Some("b".to_string()));
    assert_eq!(file_name("./a"), Some("a".to_string()));
}

#[test]
fn file_name_of_a_path_without_a_name_is_none() {
    assert_eq!(file_name(""), None);
    assert_eq!(file_name("/"), None);
    assert_eq!(file_name("//"), None);
    assert_eq!(file_name("/data/.."), None);
    assert_eq!(file_name("/data/../"), None);
    assert_eq!(file_name("/data/../."), None);
    assert_eq!(file_name(".."), None);
    assert_eq!(file_name("."), None);
    assert_eq!(file_name("./"), None);
    assert_eq!(file_name("/."), None);
}

#[test]
fn file_name_agrees_with_std_paths() {
    let paths = [
        "", "/", "//", ".", "..", "./", "/.", "a", "a/", "a//", "a/.", "a/./", "a/..", "a/../",
        "a/b", "/a/b/", "/a/b/.", "a/..b", "a/...", ".a", "a/.b/", "./a", "../a", "ä/ö/", "a/ /",
        "data/chain.db/", "/data/../.", "a/b/././/", "..a", ". ",
    ];
    for path in paths.iter() {
        let expected = Path::new(path).file_name().map(|name| name.to_str().unwrap().to_string());
        assert_eq!(file_name(path), expected, "{:?}", path);
        let bounds = name_bounds(path);
        assert_eq!(bounds.is_some(), expected.is_some(), "{:?}", path);
    }
}

#[test]
fn name_bounds_count_characters() {
    assert_eq!(name_bounds("/data/chain.db"), Some((6, 14)));
    assert_eq!(name_bounds("/data/chain.db/./"), Some((6, 14)));
    assert_eq!(name_bounds("ä/ö/"), Some((2, 3)));
    assert_eq!(name_bounds("name"), Some((0, 4)));
    assert_eq!(name_bounds("/"), None);
    assert_eq!(name_bounds("a/.."), None);
}

#[test]
fn name_suffix_makes_a_sibling() {
    assert_eq!(add_name_suffix("/data", "_random_abc123"), "/data_random_abc123");
    assert_eq!(add_name_suffix("/data/", "_random_abc123"), "/data_random_abc123");
    assert_eq!(add_name_suffix("/data/./", "_x"), "/data_x");
    assert_eq!(add_name_suffix("/home/a/.lighthouse", "_x"), "/home/a/.lighthouse_x");
    assert_eq!(add_name_suffix("relative/dir//", "_x"), "relative/dir_x");
    assert_eq!(add_name_suffix("/ä/ö/", "_x"), "/ä/ö_x");
}

#[test]
fn name_suffix_of_a_path_without_a_name_follows_the_path() {
    assert_eq!(add_name_suffix("/", "_x"), "/_x");
    assert_eq!(add_name_suffix("", "_x"), "_x");
    assert_eq!(add_name_suffix("a/..", "_x"), "a/.._x");
}

#[test]
fn file_name_of_a_joined_name_is_the_name() {
    assert_eq!(file_name(&join("/data", "chain.db")), Some("chain.db".to_string()));
    assert_eq!(
        file_name(&client_config_path("/data")),
        Some(CLIENT_CONFIG_FILENAME.to_string())
    );
}
