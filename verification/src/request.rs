//! The requests to the deals service and the reading of its answers, as far
//! as they are computed: what to ask, and what a status means. Sending a
//! request and receiving its answer is left to the caller.

use vstd::prelude::*;
use vstd::string::StringExecFns;
use crate::decimal::{decimal, decimal_string};
use crate::error::{DealveError, ErrorKind, ErrorView};

verus! {

/// A GET request: the address, and the pairs of its query in order.
#[derive(Debug, PartialEq, Eq)]
pub struct Request {
    pub url: String,
    pub query: Vec<(String, String)>,
}

/// A request as a mathematical value.
pub struct RequestView {
    pub url: Seq<char>,
    pub query: Seq<(Seq<char>, Seq<char>)>,
}

impl View for Request {
    type V = RequestView;

    open spec fn view(&self) -> RequestView {
        RequestView { url: self.url@, query: self.query.deep_view() }
    }
}

/// The error of a request made without a key.
pub open spec fn key_missing() -> ErrorView {
    ErrorView { kind: ErrorKind::Config, message: "API key is required"@ }
}

/// The request for the list of deals: at most `limit` deals in `country`,
/// of the shop `shop_id` or, without one, of all shops.
pub open spec fn deals_request_of(
    base_url: Seq<char>,
    key: Seq<char>,
    country: Seq<char>,
    limit: nat,
    shop_id: Option<u32>,
) -> RequestView {
    let fixed = seq![("key"@, key), ("country"@, country), ("limit"@, decimal(limit))];
    RequestView {
        url: base_url + "/deals/v2"@,
        query: match shop_id {
            Some(id) => fixed.push(("shops"@, decimal(id as nat))),
            None => fixed,
        },
    }
}

/// The request for the description of the game `game_id`.
pub open spec fn game_info_request_of(
    base_url: Seq<char>,
    key: Seq<char>,
    game_id: Seq<char>,
) -> RequestView {
    RequestView { url: base_url + "/games/info/v2"@, query: seq![("key"@, key), ("id"@, game_id)] }
}

/// The request for the price history of the game `game_id` in `country`.
pub open spec fn price_history_request_of(
    base_url: Seq<char>,
    key: Seq<char>,
    game_id: Seq<char>,
    country: Seq<char>,
) -> RequestView {
    RequestView {
        url: base_url + "/games/history/v2"@,
        query: seq![("key"@, key), ("id"@, game_id), ("country"@, country)],
    }
}

/// The message of the error for an answer with a status other than success.
pub open spec fn api_error_message(status: Seq<char>, body: Seq<char>) -> Seq<char> {
    "API returned status "@ + status + ": "@ + body
}

/// One pair of a query.
fn pair(name: &str, value: String) -> (pair: (String, String))
    ensures
        pair.deep_view() == (name@, value@),
{
    (String::from_str(name), value)
}

/// The address of an endpoint below `base_url`.
fn endpoint(base_url: &str, path: &str) -> (url: String)
    ensures
        url@ == base_url@ + path@,
{
    let mut url: String = String::from_str(base_url);
    url.append(path);
    url
}

/// The error of a request made without a key.
fn missing_key() -> (error: DealveError)
    ensures
        error@ == key_missing(),
{
    DealveError::Config(String::from_str("API key is required"))
}

/// Builds the request for the list of deals. Without a key there is no
/// request but a `Config` error.
pub fn deals_request(
    base_url: &str,
    api_key: Option<&str>,
    country: &str,
    limit: usize,
    shop_id: Option<u32>,
) -> (request: Result<Request, DealveError>)
    ensures
        api_key is None ==> (request matches Err(error) && error@ == key_missing()),
        api_key matches Some(key) ==> (request matches Ok(built) && built@ == deals_request_of(
            base_url@,
            key@,
            country@,
            limit as nat,
            shop_id,
        )),
{
    let key: &str = match api_key {
        Some(key) => key,
        None => {
            return Err(missing_key());
        },
    };
    let mut query: Vec<(String, String)> = Vec::new();
    query.push(pair("key", String::from_str(key)));
    query.push(pair("country", String::from_str(country)));
    query.push(pair("limit", decimal_string(limit as u64)));
    if let Some(id) = shop_id {
        query.push(pair("shops", decimal_string(id as u64)));
    }
    let built = Request { url: endpoint(base_url, "/deals/v2"), query };
    assert(built@.query =~= deals_request_of(
        base_url@,
        key@,
        country@,
        limit as nat,
        shop_id,
    ).query);
    Ok(built)
}

/// Builds the request for the description of a game. Without a key there
/// is no request but a `Config` error.
pub fn game_info_request(base_url: &str, api_key: Option<&str>, game_id: &str) -> (request: Result<
    Request,
    DealveError,
>)
    ensures
        api_key is None ==> (request matches Err(error) && error@ == key_missing()),
        api_key matches Some(key) ==> (request matches Ok(built) && built@ == game_info_request_of(
            base_url@,
            key@,
            game_id@,
        )),
{
    let key: &str = match api_key {
        Some(key) => key,
        None => {
            return Err(missing_key());
        },
    };
    let mut query: Vec<(String, String)> = Vec::new();
    query.push(pair("key", String::from_str(key)));
    query.push(pair("id", String::from_str(game_id)));
    let built = Request { url: endpoint(base_url, "/games/info/v2"), query };
    assert(built@.query =~= game_info_request_of(base_url@, key@, game_id@).query);
    Ok(built)
}

/// Builds the request for the price history of a game. Without a key there
/// is no request but a `Config` error.
pub fn price_history_request(
    base_url: &str,
    api_key: Option<&str>,
    game_id: &str,
    country: &str,
) -> (request: Result<Request, DealveError>)
    ensures
        api_key is None ==> (request matches Err(error) && error@ == key_missing()),
        api_key matches Some(key) ==> (request matches Ok(built) && built@
            == price_history_request_of(base_url@, key@, game_id@, country@)),
{
    let key: &str = match api_key {
        Some(key) => key,
        None => {
            return Err(missing_key());
        },
    };
    let mut query: Vec<(String, String)> = Vec::new();
    query.push(pair("key", String::from_str(key)));
    query.push(pair("id", String::from_str(game_id)));
    query.push(pair("country", String::from_str(country)));
    let built = Request { url: endpoint(base_url, "/games/history/v2"), query };
    assert(built@.query =~= price_history_request_of(base_url@, key@, game_id@, country@).query);
    Ok(built)
}

/// Whether a status code stands for success: the codes from 200 to 299.
pub fn is_success(status: u16) -> (success: bool)
    ensures
        success == (200 <= status < 300),
{
    200 <= status && status < 300
}

/// The error for an answer with a status other than success. `status` is the
/// status as it is displayed, and `body` what the answer carried.
pub fn api_error(status: &str, body: &str) -> (error: DealveError)
    ensures
        error@ == (ErrorView {
            kind: ErrorKind::Api,
            message: api_error_message(status@, body@),
        }),
{
    let mut message: String = String::from_str("API returned status ");
    message.append(status);
    message.append(": ");
    message.append(body);
    DealveError::Api(message)
}

} // verus!
