use cita_client::{
    AmendExt, Awaiting, Batch, Client, ClientExt, ContractExt, JsonObject, JsonRpcParams, ParamsValue, Step,
    StoreExt, ToolError,
};

const URL: &str = "http://127.0.0.1:1337";

fn text(value: Option<&ParamsValue>) -> String {
    match value {
        Some(ParamsValue::String(text)) => text.clone(),
        other => panic!("no text: {:?}", other),
    }
}

fn number(value: Option<&ParamsValue>) -> u64 {
    match value {
        Some(ParamsValue::Int(number)) => *number,
        other => panic!("no number: {:?}", other),
    }
}

fn list(value: Option<&ParamsValue>) -> &Vec<ParamsValue> {
    match value {
        Some(ParamsValue::List(items)) => items,
        other => panic!("no list: {:?}", other),
    }
}

fn object(value: &ParamsValue) -> &JsonObject {
    match value {
        ParamsValue::Object(object) => object,
        other => panic!("no object: {:?}", other),
    }
}

fn texts(value: Option<&ParamsValue>) -> Vec<String> {
    list(value).iter().map(|item| text(Some(item))).collect()
}

fn batch(step: Result<Step, ToolError>) -> Batch {
    match step {
        Ok(Step::Send(batch, Awaiting::Answer)) => batch,
        other => panic!("no request: {:?}", other),
    }
}

fn single(step: Result<Step, ToolError>) -> JsonRpcParams {
    let mut sent = batch(step);
    assert_eq!(sent.requests.len(), 1);
    let request = sent.requests.pop().unwrap();
    assert_eq!(request.url, URL);
    assert_eq!(text(request.params.get("jsonrpc")), "2.0");
    request.params
}

fn check_texts(step: Result<Step, ToolError>, id: u64, method: &str, params: &[&str]) {
    let request = single(step);
    assert_eq!(number(request.get("id")), id);
    assert_eq!(text(request.get("method")), method);
    assert_eq!(texts(request.get("params")), params);
    assert_eq!(request.members().entries().len(), 4);
}

fn check_bare(step: Result<Step, ToolError>, id: u64, method: &str) {
    let request = single(step);
    assert_eq!(number(request.get("id")), id);
    assert_eq!(text(request.get("method")), method);
    assert!(request.get("params").is_none());
    assert_eq!(request.members().entries().len(), 3);
}

#[test]
fn methods_without_parameters() {
    let mut client = Client::new();
    check_bare(client.get_net_peer_count(URL), 1, "net_peerCount");
    check_bare(client.get_block_number(URL), 2, "cita_blockNumber");
    check_bare(client.new_block_filter(URL), 3, "eth_newBlockFilter");
}

#[test]
fn methods_with_one_text() {
    let mut client = Client::new();
    check_texts(client.get_transaction_receipt(URL, "0x1"), 1, "eth_getTransactionReceipt", &["0x1"]);
    check_texts(client.get_transaction(URL, "0x2"), 2, "cita_getTransaction", &["0x2"]);
    check_texts(client.get_transaction_proof(URL, "0x3"), 3, "cita_getTransactionProof", &["0x3"]);
    check_texts(client.get_metadata(URL, "latest"), 4, "cita_getMetaData", &["latest"]);
    check_texts(client.uninstall_filter(URL, "0x5"), 5, "eth_uninstallFilter", &["0x5"]);
    check_texts(client.get_filter_changes(URL, "0x6"), 6, "eth_getFilterChanges", &["0x6"]);
    check_texts(client.get_filter_logs(URL, "0x7"), 7, "eth_getFilterLogs", &["0x7"]);
}

#[test]
fn methods_with_two_texts() {
    let mut client = Client::new();
    check_texts(client.get_transaction_count(URL, "a", "b"), 1, "eth_getTransactionCount", &["a", "b"]);
    check_texts(client.get_code(URL, "a", "b"), 2, "eth_getCode", &["a", "b"]);
    check_texts(client.get_abi(URL, "a", "b"), 3, "eth_getAbi", &["a", "b"]);
    check_texts(client.get_balance(URL, "a", "b"), 4, "eth_getBalance", &["a", "b"]);
}

#[test]
fn methods_with_a_flag() {
    let mut client = Client::new();
    let request = single(client.get_block_by_hash(URL, "0xab", true));
    assert_eq!(text(request.get("method")), "cita_getBlockByHash");
    let params = list(request.get("params"));
    assert_eq!(params.len(), 2);
    assert_eq!(text(Some(&params[0])), "0xab");
    assert!(matches!(params[1], ParamsValue::Bool(true)));

    let request = single(client.get_block_by_number(URL, "0x10", false));
    assert_eq!(text(request.get("method")), "cita_getBlockByNumber");
    let params = list(request.get("params"));
    assert_eq!(params.len(), 2);
    assert_eq!(text(Some(&params[0])), "0x10");
    assert!(matches!(params[1], ParamsValue::Bool(false)));
}

#[test]
fn logs_with_defaults() {
    let mut client = Client::new();
    let request = single(client.get_logs(URL, None, None, None, None));
    assert_eq!(text(request.get("method")), "eth_getLogs");
    let params = list(request.get("params"));
    assert_eq!(params.len(), 1);
    let filter = object(&params[0]);
    assert_eq!(filter.entries().len(), 4);
    assert_eq!(text(filter.get("fromBlock")), "latest");
    assert_eq!(text(filter.get("toBlock")), "latest");
    assert!(list(filter.get("topics")).is_empty());
    assert!(matches!(filter.get("address"), Some(ParamsValue::Null)));
}

#[test]
fn logs_with_everything() {
    let mut client = Client::new();
    let request = single(client.get_logs(
        URL,
        Some(vec!["t1", "t2"]),
        Some(vec!["a1"]),
        Some("0x1"),
        Some("0x2"),
    ));
    let filter = object(&list(request.get("params"))[0]);
    assert_eq!(text(filter.get("fromBlock")), "0x1");
    assert_eq!(text(filter.get("toBlock")), "0x2");
    assert_eq!(texts(filter.get("topics")), ["t1", "t2"]);
    assert_eq!(texts(filter.get("address")), ["a1"]);
}

#[test]
fn filters_with_and_without_topics() {
    let mut client = Client::new();
    let request = single(client.new_filter(URL, None, None, None, Some("0x9")));
    assert_eq!(text(request.get("method")), "eth_newFilter");
    let filter = object(&list(request.get("params"))[0]);
    assert_eq!(filter.entries().len(), 4);
    assert_eq!(text(filter.get("fromBlock")), "latest");
    assert_eq!(text(filter.get("toBlock")), "0x9");
    assert!(matches!(filter.get("topic"), Some(ParamsValue::Null)));
    assert!(matches!(filter.get("address"), Some(ParamsValue::Null)));
    assert!(filter.get("topics").is_none());

    let request = single(client.new_filter(URL, Some(vec!["t"]), Some(vec![]), None, None));
    let filter = object(&list(request.get("params"))[0]);
    assert_eq!(texts(filter.get("topic")), ["t"]);
    assert!(list(filter.get("address")).is_empty());
}

#[test]
fn calls_carry_what_is_given() {
    let mut client = Client::new();
    let request = single(client.call(URL, None, "to", None, "latest"));
    assert_eq!(text(request.get("method")), "eth_call");
    let params = list(request.get("params"));
    assert_eq!(params.len(), 2);
    let message = object(&params[0]);
    assert_eq!(message.entries().len(), 1);
    assert_eq!(text(message.get("to")), "to");
    assert_eq!(text(Some(&params[1])), "latest");

    let request = single(client.call(URL, Some("from"), "to", Some("0xdd"), "0x1"));
    let params = list(request.get("params"));
    let message = object(&params[0]);
    assert_eq!(message.entries().len(), 3);
    assert_eq!(text(message.get("from")), "from");
    assert_eq!(text(message.get("data")), "0xdd");
    assert_eq!(text(Some(&params[1])), "0x1");
}

#[test]
fn node_status_asks_the_node_manager() {
    let mut client = Client::new();
    let address = "1a702a25c6bca72b67987968f0bfb3a3213c5688";
    for given in [address.to_string(), format!("0x{}", address), format!("0X{}", address)] {
        let request = single(client.node_status(URL, &given));
        let params = list(request.get("params"));
        let message = object(&params[0]);
        assert_eq!(text(message.get("to")), "00000000000000000000000000000000013241a2");
        assert_eq!(
            text(message.get("data")),
            "0x645b8b1b0000000000000000000000001a702a25c6bca72b67987968f0bfb3a3213c5688"
        );
        assert_eq!(text(Some(&params[1])), "latest");
    }
}

#[test]
fn authorities_are_asked_of_the_node_manager() {
    let mut client = Client::new();
    match client.get_authorities(URL) {
        Ok(Step::Send(sent, Awaiting::Authorities)) => {
            assert_eq!(sent.requests.len(), 1);
            let params = list(sent.requests[0].params.get("params"));
            let message = object(&params[0]);
            assert_eq!(message.entries().len(), 2);
            assert_eq!(text(message.get("to")), "00000000000000000000000000000000013241a2");
            assert_eq!(text(message.get("data")), "0x609df32f");
            assert_eq!(text(Some(&params[1])), "latest");
        }
        other => panic!("{:?}", other),
    }
}

#[test]
fn one_request_to_many_nodes() {
    let mut client = Client::new();
    let params = JsonRpcParams::new()
        .insert("method", ParamsValue::String("m".to_string()))
        .insert("id", ParamsValue::Int(99));
    let sent = client.send_request(vec!["a", "b", "a"], params);
    assert!(sent.trace.is_none());
    let urls: Vec<&str> = sent.requests.iter().map(|request| request.url.as_str()).collect();
    assert_eq!(urls, ["a", "b", "a"]);
    for request in &sent.requests {
        assert_eq!(number(request.params.get("id")), 1);
        assert_eq!(text(request.params.get("method")), "m");
        assert_eq!(request.params.members().entries().len(), 3);
    }
    check_bare(client.get_block_number(URL), 2, "cita_blockNumber");
}

#[test]
fn many_requests_to_one_node() {
    let mut client = Client::new();
    check_bare(client.get_block_number(URL), 1, "cita_blockNumber");
    let params: Vec<JsonRpcParams> = ["x", "y", "z"]
        .iter()
        .map(|method| JsonRpcParams::new().insert("method", ParamsValue::String(method.to_string())))
        .collect();
    let sent = client.send_request_with_multiple_params("n", params);
    assert!(sent.trace.is_none());
    let ids: Vec<u64> = sent.requests.iter().map(|request| number(request.params.get("id"))).collect();
    assert_eq!(ids, [2, 3, 4]);
    let methods: Vec<String> = sent.requests.iter().map(|request| text(request.params.get("method"))).collect();
    assert_eq!(methods, ["x", "y", "z"]);
    assert!(sent.requests.iter().all(|request| request.url == "n"));
    check_bare(client.get_block_number(URL), 5, "cita_blockNumber");
}

#[test]
fn debug_mode_traces_without_the_identifier() {
    let mut client = Client::new().set_debug(true);
    assert!(client.debug());
    let sent = batch(client.get_transaction(URL, "0xh"));
    let trace = sent.trace.unwrap();
    assert_eq!(text(trace.get("method")), "cita_getTransaction");
    assert!(trace.get("id").is_none());
    assert_eq!(number(sent.requests[0].params.get("id")), 1);
    let many = client.send_request_with_multiple_params("n", vec![JsonRpcParams::new()]);
    assert!(many.trace.is_none());
    let mut client = client.set_debug(false);
    assert!(!client.debug());
    assert!(batch(client.get_transaction(URL, "0xh")).trace.is_none());
}

#[test]
fn later_members_replace_earlier_ones() {
    let params = JsonRpcParams::new()
        .insert("a", ParamsValue::Int(1))
        .insert("b", ParamsValue::Null)
        .insert("a", ParamsValue::Int(2));
    assert_eq!(number(params.get("a")), 2);
    assert_eq!(params.members().entries().len(), 3);
    assert!(params.get("c").is_none());
}

#[test]
fn values_are_copied_deeply() {
    let inner = JsonObject::new().insert("k", ParamsValue::List(vec![ParamsValue::Bool(true), ParamsValue::Null]));
    let value = ParamsValue::List(vec![ParamsValue::Object(inner), ParamsValue::Int(7), ParamsValue::String("s".to_string())]);
    assert_eq!(format!("{:?}", value.clone()), format!("{:?}", value));
}

fn draft_code(step: Result<Step, ToolError>) -> (Vec<u8>, String, Option<u64>, Option<u64>) {
    match step {
        Ok(Step::Send(sent, Awaiting::DraftHeight(draft))) => {
            assert_eq!(sent.requests.len(), 1);
            assert_eq!(text(sent.requests[0].params.get("method")), "cita_blockNumber");
            assert_eq!(draft.url, URL);
            assert_eq!(draft.current_height, None);
            (draft.data, draft.to, draft.quota, draft.value)
        }
        other => panic!("{:?}", other),
    }
}

fn bytes(digits: &str) -> Vec<u8> {
    hex::decode(digits).unwrap()
}

const ADDRESS: &str = "1a702a25c6bca72b67987968f0bfb3a3213c5688";

#[test]
fn consensus_nodes_are_changed_by_transactions() {
    let mut client = Client::new();
    let prefixed = format!("0x{}", ADDRESS);
    let word = format!("000000000000000000000000{}", ADDRESS);

    let (data, to, quota, value) = draft_code(client.downgrade_consensus_node(URL, &prefixed, false));
    assert_eq!(data, bytes(&format!("2d4ede93{}", word)));
    assert_eq!(data.len(), 36);
    assert_eq!(to, "00000000000000000000000000000000013241a2");
    assert_eq!((quota, value), (Some(1000), None));

    let (data, to, quota, value) = draft_code(client.new_consensus_node(URL, &prefixed, false));
    assert_eq!(data, bytes(&format!("ddad2ffe{}", word)));
    assert_eq!(to, prefixed);
    assert_eq!((quota, value), (Some(3000), None));

    let (data, to, quota, value) = draft_code(client.approve_node(URL, ADDRESS, true));
    assert_eq!(data, bytes(&format!("dd4c97a0{}", word)));
    assert_eq!(to, ADDRESS);
    assert_eq!((quota, value), (Some(3000), None));
}

#[test]
fn data_and_abi_are_stored_by_transactions() {
    let mut client = Client::new();
    let (data, to, quota, value) = draft_code(client.store_data(URL, "0x0102ff", Some(5), false));
    assert_eq!(data, [1, 2, 255]);
    assert_eq!(to, "ffffffffffffffffffffffffffffffffffffffff");
    assert_eq!((quota, value), (Some(5), None));
    let (same, _, _, _) = draft_code(client.store_data(URL, "0102FF", Some(5), false));
    assert_eq!(same, data);

    let (data, to, quota, value) =
        draft_code(client.store_abi(URL, &format!("0x{}", ADDRESS), "[]".to_string(), None, false));
    assert_eq!(&data[..20], &bytes(ADDRESS)[..]);
    assert_eq!(data[20..52], bytes(&format!("{:064x}", 32))[..]);
    assert_eq!(data[52..84], bytes(&format!("{:064x}", 2))[..]);
    assert_eq!(&data[84..86], b"[]");
    assert!(data[86..].iter().all(|byte| *byte == 0));
    assert_eq!(data.len(), 116);
    assert_eq!(to, "aaaaaaaaaaaaaaaaaaaaaaaaaaaaaaaaaaaaaaaa");
    assert_eq!((quota, value), (None, None));
}

#[test]
fn amendments_name_what_they_amend() {
    let mut client = Client::new();
    let to_all = "cccccccccccccccccccccccccccccccccccccccc";
    let (data, to, _, value) = draft_code(client.amend_code(URL, &format!("0X{}", ADDRESS), "0x6060", None, false));
    assert_eq!(data, bytes(&format!("{}6060", ADDRESS)));
    assert_eq!((to.as_str(), value), (to_all, Some(2)));

    let (data, to, _, value) = draft_code(client.amend_abi(URL, ADDRESS, "ab".to_string(), None, false));
    assert_eq!(data[84..86], *b"ab");
    assert_eq!((to.as_str(), value), (to_all, Some(1)));

    let key = format!("0x{:064x}", 1);
    let stored = format!("{:064x}", 2);
    let (data, to, quota, value) = draft_code(client.amend_h256kv(URL, ADDRESS, &key, &stored, Some(9), true));
    assert_eq!(data, bytes(&format!("{}{:064x}{:064x}", ADDRESS, 1, 2)));
    assert_eq!((to.as_str(), quota, value), (to_all, Some(9), Some(3)));
}
