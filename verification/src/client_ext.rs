//! The JSON-RPC methods of a node.

use crate::client::{borrowed_texts, Client};
use crate::rpc::{
    method_request, method_request_with, request, request_with, JsonRpcParams, Members, CITA_BLOCK_NUMBER,
    CITA_GET_BLOCK_BY_HASH, CITA_GET_BLOCK_BY_NUMBER, CITA_GET_TRANSACTION, CITA_GET_TRANSACTION_PROOF, ETH_CALL,
    ETH_GET_ABI, ETH_GET_BALANCE, ETH_GET_CODE, ETH_GET_FILTER_CHANGES, ETH_GET_FILTER_LOGS, ETH_GET_LOGS,
    ETH_GET_TRANSACTION_COUNT, ETH_GET_TRANSACTION_RECEIPT, ETH_NEW_BLOCK_FILTER, ETH_NEW_FILTER,
    ETH_UNINSTALL_FILTER, NET_PEER_COUNT,
};
use crate::step::{
    draft_of, is_asked, is_transaction_started, metadata_request, Awaiting, AwaitingView, Step, ToolError,
};
use crate::transaction::{Purpose, Scheme};
use crate::value::{json_list, Json, JsonObject, ParamsValue};
use vstd::prelude::*;

verus! {

/// The JSON-RPC methods of a node.
pub trait ClientExt {
    /// What starting a call gives
    type RpcResult;

    /// net_peerCount: Get network peer count
    fn get_net_peer_count(&mut self, url: &str) -> Self::RpcResult;

    /// cita_blockNumber: Get current height
    fn get_block_number(&mut self, url: &str) -> Self::RpcResult;

    /// cita_sendTransaction: Send a transaction return transaction hash
    fn send_transaction(
        &mut self,
        url: &str,
        code: &str,
        address: &str,
        current_height: Option<u64>,
        quota: Option<u64>,
        value: Option<u64>,
        blake2b: bool,
    ) -> Self::RpcResult;

    /// cita_getBlockByHash: Get block by hash
    fn get_block_by_hash(&mut self, url: &str, hash: &str, transaction_info: bool) -> Self::RpcResult;

    /// cita_getBlockByNumber: Get block by number
    fn get_block_by_number(&mut self, url: &str, height: &str, transaction_info: bool) -> Self::RpcResult;

    /// eth_getTransactionReceipt: Get transaction receipt
    fn get_transaction_receipt(&mut self, url: &str, hash: &str) -> Self::RpcResult;

    /// eth_getLogs: Get logs
    fn get_logs(
        &mut self,
        url: &str,
        topic: Option<Vec<&str>>,
        address: Option<Vec<&str>>,
        from: Option<&str>,
        to: Option<&str>,
    ) -> Self::RpcResult;

    /// eth_call: (readonly, will not save state change)
    fn call(
        &mut self,
        url: &str,
        from: Option<&str>,
        to: &str,
        data: Option<&str>,
        height: &str,
    ) -> Self::RpcResult;

    /// cita_getTransaction: Get transaction by hash
    fn get_transaction(&mut self, url: &str, hash: &str) -> Self::RpcResult;

    /// eth_getTransactionCount: Get transaction count of an account
    fn get_transaction_count(&mut self, url: &str, address: &str, height: &str) -> Self::RpcResult;

    /// eth_getCode: Get the code of a contract
    fn get_code(&mut self, url: &str, address: &str, height: &str) -> Self::RpcResult;

    /// eth_getAbi: Get the ABI of a contract
    fn get_abi(&mut self, url: &str, address: &str, height: &str) -> Self::RpcResult;

    /// eth_getBalance: Get the balance of a contract
    fn get_balance(&mut self, url: &str, address: &str, height: &str) -> Self::RpcResult;

    /// eth_newFilter: Install a filter for logs
    fn new_filter(
        &mut self,
        url: &str,
        topic: Option<Vec<&str>>,
        address: Option<Vec<&str>>,
        from: Option<&str>,
        to: Option<&str>,
    ) -> Self::RpcResult;

    /// eth_newBlockFilter: Install a filter for blocks
    fn new_block_filter(&mut self, url: &str) -> Self::RpcResult;

    /// eth_uninstallFilter: Uninstall a filter by its id
    fn uninstall_filter(&mut self, url: &str, filter_id: &str) -> Self::RpcResult;

    /// eth_getFilterChanges: Get filter changes
    fn get_filter_changes(&mut self, url: &str, filter_id: &str) -> Self::RpcResult;

    /// eth_getFilterLogs: Get filter logs
    fn get_filter_logs(&mut self, url: &str, filter_id: &str) -> Self::RpcResult;

    /// cita_getTransactionProof: Get proof of a transaction
    fn get_transaction_proof(&mut self, url: &str, hash: &str) -> Self::RpcResult;

    /// cita_getMetaData: Get metadata
    fn get_metadata(&mut self, url: &str, height: &str) -> Self::RpcResult;
}

/// The scheme that the flag of a call chooses.
pub open spec fn chosen_scheme(blake2b: bool) -> Scheme {
    if blake2b {
        Scheme::Blake2b
    } else {
        Scheme::Sha3
    }
}

/// A JSON array of strings.
pub open spec fn text_list(items: Seq<Seq<char>>) -> Json {
    Json::List(Seq::new(items.len(), |i: int| Json::Str(items[i])))
}

/// A JSON array of strings, or `null`.
pub open spec fn optional_text_list(items: Option<Vec<&str>>) -> Json {
    match items {
        Some(items) => text_list(borrowed_texts(items@)),
        None => Json::Null,
    }
}

/// The block that a filter names, the latest where it names none.
pub open spec fn block_or_latest(block: Option<&str>) -> Json {
    match block {
        Some(block) => Json::Str(block@),
        None => Json::Str("latest"@),
    }
}

/// The first and the last block of a filter.
pub open spec fn block_range(from: Option<&str>, to: Option<&str>) -> Members {
    Map::<Seq<char>, Json>::empty().insert("fromBlock"@, block_or_latest(from)).insert(
        "toBlock"@,
        block_or_latest(to),
    )
}

/// The request for logs. Without topics the list of topics is empty; without addresses the member
/// is `null`.
pub open spec fn logs_request(
    topic: Option<Vec<&str>>,
    address: Option<Vec<&str>>,
    from: Option<&str>,
    to: Option<&str>,
) -> Members {
    let topics = match topic {
        Some(_) => optional_text_list(topic),
        None => Json::List(Seq::empty()),
    };
    request_with(
        ETH_GET_LOGS@,
        seq![
            Json::Object(
                block_range(from, to).insert("topics"@, topics).insert("address"@, optional_text_list(address)),
            ),
        ],
    )
}

/// The request for a filter. Without topics or addresses the member is `null`.
pub open spec fn filter_request(
    topic: Option<Vec<&str>>,
    address: Option<Vec<&str>>,
    from: Option<&str>,
    to: Option<&str>,
) -> Members {
    request_with(
        ETH_NEW_FILTER@,
        seq![
            Json::Object(
                block_range(from, to).insert("topic"@, optional_text_list(topic)).insert(
                    "address"@,
                    optional_text_list(address),
                ),
            ),
        ],
    )
}

/// The message of a call; sender and data are there only where they are given.
pub open spec fn call_message(from: Option<Seq<char>>, to: Seq<char>, data: Option<Seq<char>>) -> Members {
    let target = Map::<Seq<char>, Json>::empty().insert("to"@, Json::Str(to));
    let sent = match from {
        Some(from) => target.insert("from"@, Json::Str(from)),
        None => target,
    };
    match data {
        Some(data) => sent.insert("data"@, Json::Str(data)),
        None => sent,
    }
}

/// The request for a call.
pub open spec fn call_request(
    from: Option<Seq<char>>,
    to: Seq<char>,
    data: Option<Seq<char>>,
    height: Seq<char>,
) -> Members {
    request_with(ETH_CALL@, seq![Json::Object(call_message(from, to, data)), Json::Str(height)])
}

/// The model of a text that may be missing.
pub open spec fn optional_text(text: Option<&str>) -> Option<Seq<char>> {
    match text {
        Some(text) => Some(text@),
        None => None,
    }
}

/// A value that holds a text.
fn text_value(text: &str) -> (res: ParamsValue)
    ensures
        res@ == Json::Str(text@),
{
    ParamsValue::String(text.to_string())
}

/// A request for `method` with one text.
fn text_request(method: &str, text: &str) -> (res: JsonRpcParams)
    ensures
        res@ == request_with(method@, seq![Json::Str(text@)]),
{
    let params: Vec<ParamsValue> = vec![text_value(text)];
    assert(json_list(params@) =~= seq![Json::Str(text@)]);
    method_request_with(method, params)
}

/// A request for `method` with two texts.
fn two_text_request(method: &str, first: &str, second: &str) -> (res: JsonRpcParams)
    ensures
        res@ == request_with(method@, seq![Json::Str(first@), Json::Str(second@)]),
{
    let params: Vec<ParamsValue> = vec![text_value(first), text_value(second)];
    assert(json_list(params@) =~= seq![Json::Str(first@), Json::Str(second@)]);
    method_request_with(method, params)
}

/// A request for `method` with a text and a flag.
fn flagged_request(method: &str, text: &str, flag: bool) -> (res: JsonRpcParams)
    ensures
        res@ == request_with(method@, seq![Json::Str(text@), Json::Bool(flag)]),
{
    let params: Vec<ParamsValue> = vec![text_value(text), ParamsValue::Bool(flag)];
    assert(json_list(params@) =~= seq![Json::Str(text@), Json::Bool(flag)]);
    method_request_with(method, params)
}

/// A request for `method` with one object.
fn object_request(method: &str, object: JsonObject) -> (res: JsonRpcParams)
    ensures
        res@ == request_with(method@, seq![Json::Object(object@)]),
{
    let params: Vec<ParamsValue> = vec![ParamsValue::Object(object)];
    assert(json_list(params@) =~= seq![Json::Object(object@)]);
    method_request_with(method, params)
}

/// The JSON array of some texts, or `null`.
pub fn optional_list(items: &Option<Vec<&str>>) -> (res: ParamsValue)
    ensures
        res@ == optional_text_list(*items),
{
    match items {
        Some(items) => {
            let n: usize = items.len();
            let mut values: Vec<ParamsValue> = Vec::new();
            let mut i: usize = 0;
            while i < n
                invariant
                    n == items@.len(),
                    i <= n,
                    values@.len() == i,
                    forall|j: int| 0 <= j < i ==> (#[trigger] values@[j])@ == Json::Str(items@[j]@),
                decreases n - i,
            {
                values.push(text_value(items[i]));
                i = i + 1;
            }
            assert(Json::List(json_list(values@)) == text_list(borrowed_texts(items@))) by {
                let texts = borrowed_texts(items@);
                assert forall|j: int| 0 <= j < n implies json_list(values@)[j] == Json::Str(texts[j]) by {
                    assert(values@[j]@ == Json::Str(items@[j]@));
                }
                assert(json_list(values@) =~= Seq::new(texts.len(), |k: int| Json::Str(texts[k])));
            }
            ParamsValue::List(values)
        },
        None => ParamsValue::Null,
    }
}

/// The first and the last block of a filter.
fn range_object(from: Option<&str>, to: Option<&str>) -> (res: JsonObject)
    ensures
        res@ == block_range(from, to),
{
    JsonObject::new().insert(
        "fromBlock",
        match from {
            Some(from) => text_value(from),
            None => text_value("latest"),
        },
    ).insert(
        "toBlock",
        match to {
            Some(to) => text_value(to),
            None => text_value("latest"),
        },
    )
}

/// The request for a call.
pub(crate) fn call_params(from: Option<&str>, to: &str, data: Option<&str>, height: &str) -> (res: JsonRpcParams)
    ensures
        res@ == call_request(optional_text(from), to@, optional_text(data), height@),
{
    let mut object = JsonObject::new().insert("to", text_value(to));
    if let Some(from) = from {
        object = object.insert("from", text_value(from));
    }
    if let Some(data) = data {
        object = object.insert("data", text_value(data));
    }
    let params: Vec<ParamsValue> = vec![ParamsValue::Object(object), text_value(height)];
    assert(json_list(params@) =~= seq![Json::Object(call_message(optional_text(from), to@, optional_text(data))), Json::Str(height@)]);
    method_request_with(ETH_CALL, params)
}

impl ClientExt for Client {
    type RpcResult = Result<Step, ToolError>;

    fn get_net_peer_count(&mut self, url: &str) -> (res: Result<Step, ToolError>)
        ensures
            is_asked(old(self)@, url@, request(NET_PEER_COUNT@), AwaitingView::Answer, final(self)@, res),
    {
        Ok(self.ask(url, method_request(NET_PEER_COUNT), Awaiting::Answer))
    }

    fn get_block_number(&mut self, url: &str) -> (res: Result<Step, ToolError>)
        ensures
            is_asked(old(self)@, url@, request(CITA_BLOCK_NUMBER@), AwaitingView::Answer, final(self)@, res),
    {
        Ok(self.ask(url, method_request(CITA_BLOCK_NUMBER), Awaiting::Answer))
    }

    fn send_transaction(
        &mut self,
        url: &str,
        code: &str,
        address: &str,
        current_height: Option<u64>,
        quota: Option<u64>,
        value: Option<u64>,
        blake2b: bool,
    ) -> (res: Result<Step, ToolError>)
        ensures
            is_transaction_started(
                old(self)@,
                code@,
                draft_of(
                    url@,
                    code@,
                    address@,
                    current_height,
                    quota,
                    value,
                    chosen_scheme(blake2b),
                    Purpose::Submit,
                ),
                final(self)@,
                res,
            ),
    {
        let scheme = if blake2b { Scheme::Blake2b } else { Scheme::Sha3 };
        self.start_transaction(url, code, address, current_height, quota, value, scheme, Purpose::Submit)
    }

    fn get_block_by_hash(&mut self, url: &str, hash: &str, transaction_info: bool) -> (res: Result<Step, ToolError>)
        ensures
            is_asked(
                old(self)@,
                url@,
                request_with(CITA_GET_BLOCK_BY_HASH@, seq![Json::Str(hash@), Json::Bool(transaction_info)]),
                AwaitingView::Answer,
                final(self)@,
                res,
            ),
    {
        let params = flagged_request(CITA_GET_BLOCK_BY_HASH, hash, transaction_info);
        Ok(self.ask(url, params, Awaiting::Answer))
    }

    fn get_block_by_number(
        &mut self,
        url: &str,
        height: &str,
        transaction_info: bool,
    ) -> (res: Result<Step, ToolError>)
        ensures
            is_asked(
                old(self)@,
                url@,
                request_with(CITA_GET_BLOCK_BY_NUMBER@, seq![Json::Str(height@), Json::Bool(transaction_info)]),
                AwaitingView::Answer,
                final(self)@,
                res,
            ),
    {
        let params = flagged_request(CITA_GET_BLOCK_BY_NUMBER, height, transaction_info);
        Ok(self.ask(url, params, Awaiting::Answer))
    }

    fn get_transaction_receipt(&mut self, url: &str, hash: &str) -> (res: Result<Step, ToolError>)
        ensures
            is_asked(
                old(self)@,
                url@,
                request_with(ETH_GET_TRANSACTION_RECEIPT@, seq![Json::Str(hash@)]),
                AwaitingView::Answer,
                final(self)@,
                res,
            ),
    {
        Ok(self.ask(url, text_request(ETH_GET_TRANSACTION_RECEIPT, hash), Awaiting::Answer))
    }

    fn get_logs(
        &mut self,
        url: &str,
        topic: Option<Vec<&str>>,
        address: Option<Vec<&str>>,
        from: Option<&str>,
        to: Option<&str>,
    ) -> (res: Result<Step, ToolError>)
        ensures
            is_asked(
                old(self)@,
                url@,
                logs_request(topic, address, from, to),
                AwaitingView::Answer,
                final(self)@,
                res,
            ),
    {
        let topics = if topic.is_some() { optional_list(&topic) } else { ParamsValue::List(Vec::new()) };
        assert(topic is None ==> topics@ == Json::List(Seq::empty())) by {
            if topic is None {
                assert(json_list(topics->List_0@) =~= Seq::empty());
            }
        }
        let object = range_object(from, to).insert("topics", topics).insert("address", optional_list(&address));
        Ok(self.ask(url, object_request(ETH_GET_LOGS, object), Awaiting::Answer))
    }

    fn call(
        &mut self,
        url: &str,
        from: Option<&str>,
        to: &str,
        data: Option<&str>,
        height: &str,
    ) -> (res: Result<Step, ToolError>)
        ensures
            is_asked(
                old(self)@,
                url@,
                call_request(optional_text(from), to@, optional_text(data), height@),
                AwaitingView::Answer,
                final(self)@,
                res,
            ),
    {
        Ok(self.ask(url, call_params(from, to, data, height), Awaiting::Answer))
    }

    fn get_transaction(&mut self, url: &str, hash: &str) -> (res: Result<Step, ToolError>)
        ensures
            is_asked(
                old(self)@,
                url@,
                request_with(CITA_GET_TRANSACTION@, seq![Json::Str(hash@)]),
                AwaitingView::Answer,
                final(self)@,
                res,
            ),
    {
        Ok(self.ask(url, text_request(CITA_GET_TRANSACTION, hash), Awaiting::Answer))
    }

    fn get_transaction_count(&mut self, url: &str, address: &str, height: &str) -> (res: Result<Step, ToolError>)
        ensures
            is_asked(
                old(self)@,
                url@,
                request_with(ETH_GET_TRANSACTION_COUNT@, seq![Json::Str(address@), Json::Str(height@)]),
                AwaitingView::Answer,
                final(self)@,
                res,
            ),
    {
        Ok(self.ask(url, two_text_request(ETH_GET_TRANSACTION_COUNT, address, height), Awaiting::Answer))
    }

    fn get_code(&mut self, url: &str, address: &str, height: &str) -> (res: Result<Step, ToolError>)
        ensures
            is_asked(
                old(self)@,
                url@,
                request_with(ETH_GET_CODE@, seq![Json::Str(address@), Json::Str(height@)]),
                AwaitingView::Answer,
                final(self)@,
                res,
            ),
    {
        Ok(self.ask(url, two_text_request(ETH_GET_CODE, address, height), Awaiting::Answer))
    }

    fn get_abi(&mut self, url: &str, address: &str, height: &str) -> (res: Result<Step, ToolError>)
        ensures
            is_asked(
                old(self)@,
                url@,
                request_with(ETH_GET_ABI@, seq![Json::Str(address@), Json::Str(height@)]),
                AwaitingView::Answer,
                final(self)@,
                res,
            ),
    {
        Ok(self.ask(url, two_text_request(ETH_GET_ABI, address, height), Awaiting::Answer))
    }

    fn get_balance(&mut self, url: &str, address: &str, height: &str) -> (res: Result<Step, ToolError>)
        ensures
            is_asked(
                old(self)@,
                url@,
                request_with(ETH_GET_BALANCE@, seq![Json::Str(address@), Json::Str(height@)]),
                AwaitingView::Answer,
                final(self)@,
                res,
            ),
    {
        Ok(self.ask(url, two_text_request(ETH_GET_BALANCE, address, height), Awaiting::Answer))
    }

    fn new_filter(
        &mut self,
        url: &str,
        topic: Option<Vec<&str>>,
        address: Option<Vec<&str>>,
        from: Option<&str>,
        to: Option<&str>,
    ) -> (res: Result<Step, ToolError>)
        ensures
            is_asked(
                old(self)@,
                url@,
                filter_request(topic, address, from, to),
                AwaitingView::Answer,
                final(self)@,
                res,
            ),
    {
        let object = range_object(from, to).insert("topic", optional_list(&topic)).insert(
            "address",
            optional_list(&address),
        );
        Ok(self.ask(url, object_request(ETH_NEW_FILTER, object), Awaiting::Answer))
    }

    fn new_block_filter(&mut self, url: &str) -> (res: Result<Step, ToolError>)
        ensures
            is_asked(old(self)@, url@, request(ETH_NEW_BLOCK_FILTER@), AwaitingView::Answer, final(self)@, res),
    {
        Ok(self.ask(url, method_request(ETH_NEW_BLOCK_FILTER), Awaiting::Answer))
    }

    fn uninstall_filter(&mut self, url: &str, filter_id: &str) -> (res: Result<Step, ToolError>)
        ensures
            is_asked(
                old(self)@,
                url@,
                request_with(ETH_UNINSTALL_FILTER@, seq![Json::Str(filter_id@)]),
                AwaitingView::Answer,
                final(self)@,
                res,
            ),
    {
        Ok(self.ask(url, text_request(ETH_UNINSTALL_FILTER, filter_id), Awaiting::Answer))
    }

    fn get_filter_changes(&mut self, url: &str, filter_id: &str) -> (res: Result<Step, ToolError>)
        ensures
            is_asked(
                old(self)@,
                url@,
                request_with(ETH_GET_FILTER_CHANGES@, seq![Json::Str(filter_id@)]),
                AwaitingView::Answer,
                final(self)@,
                res,
            ),
    {
        Ok(self.ask(url, text_request(ETH_GET_FILTER_CHANGES, filter_id), Awaiting::Answer))
    }

    fn get_filter_logs(&mut self, url: &str, filter_id: &str) -> (res: Result<Step, ToolError>)
        ensures
            is_asked(
                old(self)@,
                url@,
                request_with(ETH_GET_FILTER_LOGS@, seq![Json::Str(filter_id@)]),
                AwaitingView::Answer,
                final(self)@,
                res,
            ),
    {
        Ok(self.ask(url, text_request(ETH_GET_FILTER_LOGS, filter_id), Awaiting::Answer))
    }

    fn get_transaction_proof(&mut self, url: &str, hash: &str) -> (res: Result<Step, ToolError>)
        ensures
            is_asked(
                old(self)@,
                url@,
                request_with(CITA_GET_TRANSACTION_PROOF@, seq![Json::Str(hash@)]),
                AwaitingView::Answer,
                final(self)@,
                res,
            ),
    {
        Ok(self.ask(url, text_request(CITA_GET_TRANSACTION_PROOF, hash), Awaiting::Answer))
    }

    fn get_metadata(&mut self, url: &str, height: &str) -> (res: Result<Step, ToolError>)
        ensures
            is_asked(
                old(self)@,
                url@,
                metadata_request(height@),
                AwaitingView::Answer,
                final(self)@,
                res,
            ),
    {
        Ok(self.ask_metadata(url, height, Awaiting::Answer))
    }
}

}
