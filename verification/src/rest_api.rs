//! What the node tells of its network over the REST API.
//!
//! Each handler takes the state of the network service, where the request
//! carries one, and answers with the body of the response: one value of that
//! state as JSON.

use crate::decimal::decimal_text;
use vstd::prelude::*;
use vstd::string::StringExecFns;
use vstd::utf8::encode_utf8;

verus! {

/// What is said when a request carries no network service.
pub const MISSING_SERVICE: &'static str = "NetworkService extension missing";

/// What is said when an ENR cannot be written as JSON. The handlers for the
/// listening addresses, the peer id and the number of peers say the same.
pub const ENR_FAILURE: &'static str = "Unable to serialize Enr: ";

/// What is said when the port cannot be written as JSON.
pub const PORT_FAILURE: &'static str = "Unable to serialize port: ";

/// What is said when the list of peers cannot be written as JSON.
pub const PEERS_FAILURE: &'static str = "Unable to serialize Vec<PeerId>: ";

/// What the handlers read of the network service, as plain values.
#[derive(Clone, Debug, PartialEq, Eq)]
pub struct NetworkService {
    /// The addresses that the node listens on, each in text.
    pub listen_multiaddrs: Vec<String>,
    /// The TCP port that the node listens on.
    pub listen_port: u16,
    /// The node's record, in base64.
    pub local_enr: String,
    /// The node's peer id, in base58.
    pub local_peer_id: String,
    /// How many peers are connected.
    pub connected_peers: usize,
    /// The ids of the connected peers, each in text.
    pub connected_peer_set: Vec<String>,
}

/// Why a request could not be answered.
#[derive(Clone, Debug, PartialEq, Eq)]
pub enum ApiError {
    /// The server is at fault, and says why.
    ServerError(String),
}

/// An `ApiError` with its text as a sequence of characters.
pub enum ApiErrorView {
    ServerError(Seq<char>),
}

impl View for ApiError {
    type V = ApiErrorView;

    open spec fn view(&self) -> ApiErrorView {
        match self {
            ApiError::ServerError(message) => ApiErrorView::ServerError(message@),
        }
    }
}

/// The error of `serde_json`, `serde_json::Error`, taken as it comes:
/// nothing is known of what it holds.
#[verifier::external_type_specification]
#[verifier::external_body]
pub struct ExJsonError(serde_json::Error);

/// The JSON string that `serde_json` writes for a text: the text in double
/// quotes, with the characters that JSON cannot hold as they are escaped.
pub uninterp spec fn json_string(text: Seq<char>) -> Seq<char>;

/// The texts of a list, each as a JSON string, with a comma between two
/// neighbours.
pub open spec fn json_items(texts: Seq<Seq<char>>) -> Seq<char>
    decreases texts.len(),
{
    if texts.len() == 0 {
        Seq::empty()
    } else if texts.len() == 1 {
        json_string(texts[0])
    } else {
        json_items(texts.drop_last()) + seq![','] + json_string(texts.last())
    }
}

/// The JSON array of a list of texts, written without any space.
pub open spec fn json_array(texts: Seq<Seq<char>>) -> Seq<char> {
    seq!['['] + json_items(texts) + seq![']']
}

/// The characters of each text of a list.
pub open spec fn texts_view(texts: Seq<String>) -> Seq<Seq<char>> {
    texts.map_values(|text: String| text@)
}

/// Writes a number as JSON with `serde_json::to_string`.
///
/// Believed, not proved: a text comes back, and it is the number in
/// decimal, with no sign and no leading zero. Writing fails only where the
/// value's own `Serialize` fails or a map has a key that is no string, and
/// a number is neither.
#[verifier::external_body]
fn json_of_number(value: u64) -> (json: Result<String, serde_json::Error>)
    ensures
        json is Ok,
        encode_utf8(json->Ok_0@) == decimal_text(value as nat),
{
    serde_json::to_string(&value)
}

/// Writes a text as JSON with `serde_json::to_string`.
///
/// Believed, not proved: a text comes back, and it is the JSON string of
/// `value`, which depends on `value` alone. Writing fails only where the
/// value's own `Serialize` fails or a map has a key that is no string, and
/// a text is neither.
#[verifier::external_body]
fn json_of_text(value: &str) -> (json: Result<String, serde_json::Error>)
    ensures
        json is Ok,
        json->Ok_0@ == json_string(value@),
{
    serde_json::to_string(value)
}

/// Writes a list of texts as JSON with `serde_json::to_string`.
///
/// Believed, not proved: a text comes back, and it is `[`, the JSON
/// strings of the items in order with `,` between them, and `]`, as the
/// compact formatter of `serde_json` writes a sequence. Writing fails only
/// where the value's own `Serialize` fails or a map has a key that is no
/// string, and a list of texts is neither.
#[verifier::external_body]
fn json_of_texts(values: &Vec<String>) -> (json: Result<String, serde_json::Error>)
    ensures
        json is Ok,
        json->Ok_0@ == json_array(texts_view(values@)),
{
    serde_json::to_string(values)
}

/// Says what went wrong, with the `Debug` form of a `serde_json::Error`.
/// Nothing is claimed of the text.
#[verifier::external_body]
fn describe(error: &serde_json::Error) -> (description: String) {
    format!("{:?}", error)
}

/// Whether `response` is the failure of a server that says `message`.
pub open spec fn is_server_error(response: Result<String, ApiError>, message: Seq<char>) -> bool {
    response is Err && response->Err_0@ == ApiErrorView::ServerError(message)
}

/// Whether `response` is the failure of a server whose message begins with `prefix`.
pub open spec fn fails_with_prefix(response: Result<String, ApiError>, prefix: Seq<char>) -> bool {
    exists|description: Seq<char>| #[trigger]
        is_server_error(response, prefix + description)
}

/// The response for a value that was written as JSON, or could not be: the
/// JSON is the body; a failure is the server's, told as `prefix` followed by
/// what went wrong.
pub fn respond(json: Result<String, String>, prefix: &str) -> (response: Result<
    String,
    ApiError,
>)
    ensures
        match json {
            Ok(body) => response is Ok && response->Ok_0@ == body@,
            Err(description) => is_server_error(response, prefix@ + description@),
        },
{
    match json {
        Ok(body) => Ok(body),
        Err(description) => {
            let mut message = String::from_str(prefix);
            message.append(description.as_str());
            Err(ApiError::ServerError(message))
        },
    }
}

/// The response for what `serde_json` gave.
fn respond_to(json: Result<String, serde_json::Error>, prefix: &str) -> (response: Result<
    String,
    ApiError,
>)
    ensures
        json is Ok ==> response is Ok && response->Ok_0@ == json->Ok_0@,
        json is Err ==> fails_with_prefix(response, prefix@),
{
    match json {
        Ok(body) => respond(Ok(body), prefix),
        Err(error) => {
            let description = describe(&error);
            let response = respond(Err(description), prefix);
            assert(is_server_error(response, prefix@ + description@));
            response
        },
    }
}

/// The failure for a request that carries no network service.
fn missing_service() -> (response: Result<String, ApiError>)
    ensures
        is_server_error(response, MISSING_SERVICE@),
{
    Err(ApiError::ServerError(String::from_str(MISSING_SERVICE)))
}

/// The addresses that the node listens on, as a JSON array of texts.
///
/// Without a network service the server is at fault. With one, the body is
/// the array.
pub fn get_listen_addresses(network: Option<&NetworkService>) -> (response: Result<
    String,
    ApiError,
>)
    ensures
        network is None ==> is_server_error(response, MISSING_SERVICE@),
        network is Some ==> response is Ok && response->Ok_0@ == json_array(
            texts_view(network->0.listen_multiaddrs@),
        ),
{
    match network {
        None => missing_service(),
        Some(network) => respond_to(json_of_texts(&network.listen_multiaddrs), ENR_FAILURE),
    }
}

/// The TCP port that the node listens on, as a JSON number.
///
/// Without a network service the server is at fault. With one, the body is
/// the port in decimal.
pub fn get_listen_port(network: Option<&NetworkService>) -> (response: Result<String, ApiError>)
    ensures
        network is None ==> is_server_error(response, MISSING_SERVICE@),
        network is Some ==> response is Ok && encode_utf8(response->Ok_0@) == decimal_text(
            network->0.listen_port as nat,
        ),
{
    match network {
        None => missing_service(),
        Some(network) => respond_to(json_of_number(network.listen_port as u64), PORT_FAILURE),
    }
}

/// The node's record in base64, as a JSON string.
///
/// Without a network service the server is at fault. With one, the body is
/// the JSON string of the record.
pub fn get_enr(network: Option<&NetworkService>) -> (response: Result<String, ApiError>)
    ensures
        network is None ==> is_server_error(response, MISSING_SERVICE@),
        network is Some ==> response is Ok && response->Ok_0@ == json_string(
            network->0.local_enr@,
        ),
{
    match network {
        None => missing_service(),
        Some(network) => respond_to(json_of_text(network.local_enr.as_str()), ENR_FAILURE),
    }
}

/// The node's peer id in base58, as a JSON string.
///
/// Without a network service the server is at fault. With one, the body is
/// the JSON string of the id.
pub fn get_peer_id(network: Option<&NetworkService>) -> (response: Result<String, ApiError>)
    ensures
        network is None ==> is_server_error(response, MISSING_SERVICE@),
        network is Some ==> response is Ok && response->Ok_0@ == json_string(
            network->0.local_peer_id@,
        ),
{
    match network {
        None => missing_service(),
        Some(network) => respond_to(json_of_text(network.local_peer_id.as_str()), ENR_FAILURE),
    }
}

/// The number of connected peers, as a JSON number.
///
/// Without a network service the server is at fault. With one, the body is
/// the number in decimal.
pub fn get_peer_count(network: Option<&NetworkService>) -> (response: Result<String, ApiError>)
    ensures
        network is None ==> is_server_error(response, MISSING_SERVICE@),
        network is Some ==> response is Ok && encode_utf8(response->Ok_0@) == decimal_text(
            network->0.connected_peers as nat,
        ),
{
    match network {
        None => missing_service(),
        Some(network) => respond_to(json_of_number(network.connected_peers as u64), ENR_FAILURE),
    }
}

/// The ids of the connected peers, as a JSON array of texts.
///
/// Without a network service the server is at fault. With one, the body is
/// the array.
pub fn get_peer_list(network: Option<&NetworkService>) -> (response: Result<String, ApiError>)
    ensures
        network is None ==> is_server_error(response, MISSING_SERVICE@),
        network is Some ==> response is Ok && response->Ok_0@ == json_array(
            texts_view(network->0.connected_peer_set@),
        ),
{
    match network {
        None => missing_service(),
        Some(network) => respond_to(json_of_texts(&network.connected_peer_set), PEERS_FAILURE),
    }
}

} // verus!
