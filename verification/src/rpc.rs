//! JSON-RPC requests and responses.

use crate::value::{json_list, Json, JsonObject, ParamsValue, Reply, ResponseValue};
use vstd::prelude::*;

verus! {

/// The members of a JSON object.
pub type Members = Map<Seq<char>, Json>;

pub const CITA_BLOCK_NUMBER: &'static str = "cita_blockNumber";

pub const CITA_GET_META_DATA: &'static str = "cita_getMetaData";

pub const CITA_SEND_TRANSACTION: &'static str = "cita_sendTransaction";

pub const NET_PEER_COUNT: &'static str = "net_peerCount";

pub const CITA_GET_BLOCK_BY_HASH: &'static str = "cita_getBlockByHash";

pub const CITA_GET_BLOCK_BY_NUMBER: &'static str = "cita_getBlockByNumber";

pub const CITA_GET_TRANSACTION: &'static str = "cita_getTransaction";

pub const CITA_GET_TRANSACTION_PROOF: &'static str = "cita_getTransactionProof";

pub const ETH_GET_TRANSACTION_RECEIPT: &'static str = "eth_getTransactionReceipt";

pub const ETH_GET_LOGS: &'static str = "eth_getLogs";

pub const ETH_CALL: &'static str = "eth_call";

pub const ETH_GET_TRANSACTION_COUNT: &'static str = "eth_getTransactionCount";

pub const ETH_GET_CODE: &'static str = "eth_getCode";

pub const ETH_GET_ABI: &'static str = "eth_getAbi";

pub const ETH_GET_BALANCE: &'static str = "eth_getBalance";

pub const ETH_NEW_FILTER: &'static str = "eth_newFilter";

pub const ETH_NEW_BLOCK_FILTER: &'static str = "eth_newBlockFilter";

pub const ETH_UNINSTALL_FILTER: &'static str = "eth_uninstallFilter";

pub const ETH_GET_FILTER_CHANGES: &'static str = "eth_getFilterChanges";

pub const ETH_GET_FILTER_LOGS: &'static str = "eth_getFilterLogs";

/// What every request carries from the start: the protocol version.
pub open spec fn blank_request() -> Members {
    map!["jsonrpc"@ => Json::Str("2.0"@)]
}

/// A request that names a method.
pub open spec fn request(method: Seq<char>) -> Members {
    blank_request().insert("method"@, Json::Str(method))
}

/// A request that names a method and gives it positional parameters.
pub open spec fn request_with(method: Seq<char>, params: Seq<Json>) -> Members {
    request(method).insert("params"@, Json::List(params))
}

/// A request with its identifier filled in.
pub open spec fn with_id(params: Members, id: u64) -> Members {
    params.insert("id"@, Json::Int(id))
}

/// The members of a JSON-RPC request.
#[derive(Debug)]
pub struct JsonRpcParams {
    extra: JsonObject,
}

impl View for JsonRpcParams {
    type V = Members;

    closed spec fn view(&self) -> Members {
        self.extra@
    }
}

impl JsonRpcParams {
    /// A request that says nothing but its protocol version.
    pub fn new() -> (res: JsonRpcParams)
        ensures
            res@ == blank_request(),
    {
        let extra = JsonObject::new().insert("jsonrpc", ParamsValue::String("2.0".to_string()));
        assert(extra@ =~= blank_request());
        JsonRpcParams { extra }
    }

    /// Gives the member `key` the value `value`, in place of the value that it had.
    pub fn insert(self, key: &str, value: ParamsValue) -> (res: JsonRpcParams)
        ensures
            res@ == self@.insert(key@, value@),
    {
        JsonRpcParams { extra: self.extra.insert(key, value) }
    }

    /// The member `key`.
    pub fn get(&self, key: &str) -> (res: Option<&ParamsValue>)
        ensures
            match res {
                Some(value) => self@.contains_key(key@) && self@[key@] == value@,
                None => !self@.contains_key(key@),
            },
    {
        self.extra.get(key)
    }

    /// All members, as one JSON object.
    pub fn members(&self) -> (res: &JsonObject)
        ensures
            res@ == self@,
    {
        &self.extra
    }
}

impl Clone for JsonRpcParams {
    fn clone(&self) -> (res: Self)
        ensures
            res@ == self@,
    {
        JsonRpcParams { extra: self.extra.clone() }
    }
}

/// A request for `method`.
pub fn method_request(method: &str) -> (res: JsonRpcParams)
    ensures
        res@ == request(method@),
{
    JsonRpcParams::new().insert("method", ParamsValue::String(method.to_string()))
}

/// A request for `method` with positional parameters.
pub fn method_request_with(method: &str, params: Vec<ParamsValue>) -> (res: JsonRpcParams)
    ensures
        res@ == request_with(method@, json_list(params@)),
{
    method_request(method).insert("params", ParamsValue::List(params))
}

/// The model of a request that goes to one node.
pub struct OutgoingView {
    pub url: Seq<char>,
    pub params: Members,
}

/// A request that goes to one node: the members are posted to the URL as one JSON object.
#[derive(Debug)]
pub struct Outgoing {
    pub url: String,
    pub params: JsonRpcParams,
}

impl View for Outgoing {
    type V = OutgoingView;

    open spec fn view(&self) -> OutgoingView {
        OutgoingView { url: self.url@, params: self.params@ }
    }
}

/// The model of a batch.
#[verifier::ext_equal]
pub struct BatchView {
    pub trace: Option<Members>,
    pub requests: Seq<OutgoingView>,
}

/// Requests that go out together; one reply is due for each, in their order.
#[derive(Debug)]
pub struct Batch {
    /// What is printed before the requests go out
    pub trace: Option<JsonRpcParams>,
    /// The requests
    pub requests: Vec<Outgoing>,
}

impl View for Batch {
    type V = BatchView;

    open spec fn view(&self) -> BatchView {
        BatchView {
            trace: match self.trace {
                Some(params) => Some(params@),
                None => None,
            },
            requests: Seq::new(self.requests@.len(), |i: int| self.requests@[i]@),
        }
    }
}

/// The error in a response.
#[derive(Debug)]
pub struct ErrorResponse {
    pub code: i64,
    pub message: String,
}

/// The model of a response.
pub struct ResponseView {
    pub jsonrpc: Seq<char>,
    pub id: u64,
    pub result: Option<Reply>,
    pub error: Option<(i64, Seq<char>)>,
}

/// A JSON-RPC response.
#[derive(Debug)]
pub struct JsonRpcResponse {
    /// The protocol version
    pub jsonrpc: String,
    /// The identifier of the request that is answered
    pub id: u64,
    pub result: Option<ResponseValue>,
    pub error: Option<ErrorResponse>,
}

impl View for JsonRpcResponse {
    type V = ResponseView;

    open spec fn view(&self) -> ResponseView {
        ResponseView {
            jsonrpc: self.jsonrpc@,
            id: self.id,
            result: match self.result {
                Some(value) => Some(value@),
                None => None,
            },
            error: match self.error {
                Some(error) => Some((error.code, error.message@)),
                None => None,
            },
        }
    }
}

}
