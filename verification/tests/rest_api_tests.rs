use beacon_node::rest_api::get_enr;
use beacon_node::rest_api::get_listen_addresses;
use beacon_node::rest_api::get_listen_port;
use beacon_node::rest_api::get_peer_count;
use beacon_node::rest_api::get_peer_id;
use beacon_node::rest_api::get_peer_list;
use beacon_node::rest_api::respond;
use beacon_node::rest_api::ApiError;
use beacon_node::rest_api::NetworkService;

fn service() -> NetworkService {
    NetworkService {
        listen_multiaddrs: vec![
            "/ip4/127.0.0.1/tcp/9000".to_string(),
            "/ip6/::1/tcp/9000".to_string(),
        ],
        listen_port: 9000,
        local_enr: "-IS4QHCYrYZbAKW".to_string(),
        local_peer_id: "QmYyQSo1c1Ym7orWxLYvCrM2EmxFTANf8wXmmE7DWjhx5N".to_string(),
        connected_peers: 3,
        connected_peer_set: vec!["QmA".to_string(), "QmB".to_string(), "QmC".to_string()],
    }
}

fn missing() -> Result<String, ApiError> {
    Err(ApiError::ServerError("NetworkService extension missing".to_string()))
}

#[test]
fn every_handler_needs_the_service() {
    assert_eq!(get_listen_addresses(None), missing());
    assert_eq!(get_listen_port(None), missing());
    assert_eq!(get_enr(None), missing());
    assert_eq!(get_peer_id(None), missing());
    assert_eq!(get_peer_count(None), missing());
    assert_eq!(get_peer_list(None), missing());
}

#[test]
fn listen_addresses_are_a_json_array() {
    assert_eq!(
        get_listen_addresses(Some(&service())),
        Ok("[\"/ip4/127.0.0.1/tcp/9000\",\"/ip6/::1/tcp/9000\"]".to_string())
    );
}

#[test]
fn listen_port_is_a_json_number() {
    assert_eq!(get_listen_port(Some(&service())), Ok("9000".to_string()));
    let mut network = service();
    network.listen_port = 0;
    assert_eq!(get_listen_port(Some(&network)), Ok("0".to_string()));
    network.listen_port = u16::MAX;
    assert_eq!(get_listen_port(Some(&network)), Ok("65535".to_string()));
}

#[test]
fn enr_is_a_json_string() {
    assert_eq!(get_enr(Some(&service())), Ok("\"-IS4QHCYrYZbAKW\"".to_string()));
}

#[test]
fn peer_id_is_a_json_string() {
    assert_eq!(
        get_peer_id(Some(&service())),
        Ok("\"QmYyQSo1c1Ym7orWxLYvCrM2EmxFTANf8wXmmE7DWjhx5N\"".to_string())
    );
}

#[test]
fn json_strings_are_escaped() {
    let mut network = service();
    network.local_enr = "a\"b\\c\nd".to_string();
    assert_eq!(get_enr(Some(&network)), Ok("\"a\\\"b\\\\c\\nd\"".to_string()));
}

#[test]
fn peer_count_is_a_json_number() {
    assert_eq!(get_peer_count(Some(&service())), Ok("3".to_string()));
    let mut network = service();
    network.connected_peers = usize::MAX;
    assert_eq!(get_peer_count(Some(&network)), Ok(usize::MAX.to_string()));
}

#[test]
fn peer_list_is_a_json_array() {
    assert_eq!(get_peer_list(Some(&service())), Ok("[\"QmA\",\"QmB\",\"QmC\"]".to_string()));
    let mut network = service();
    network.connected_peer_set = vec![];
    assert_eq!(get_peer_list(Some(&network)), Ok("[]".to_string()));
    network.connected_peer_set = vec!["only".to_string()];
    assert_eq!(get_peer_list(Some(&network)), Ok("[\"only\"]".to_string()));
}

#[test]
fn respond_passes_the_body_on() {
    assert_eq!(respond(Ok("[1]".to_string()), "Unable to serialize port: "), Ok("[1]".to_string()));
}

#[test]
fn respond_tells_what_went_wrong() {
    assert_eq!(
        respond(Err("disk full".to_string()), "Unable to serialize port: "),
        Err(ApiError::ServerError("Unable to serialize port: disk full".to_string()))
    );
}
