//! What each call sends, member by member, in terms of what it was given.

use crate::client::{borrowed_texts, members_of, Client};
use crate::client_ext::{call_request, filter_request, logs_request, ClientExt};
use crate::contract_ext::{address_call, ContractExt, ADDRESS_PADDING, NODE_MANAGER_ADDRESS};
use crate::digits::without_prefix;
use crate::laws::{law_ids_count_up, law_prefix_is_removed, law_request_members, lemma_member_names};
use crate::rpc::{blank_request, request, request_with, Batch, JsonRpcParams, Members, CITA_BLOCK_NUMBER};
use crate::step::{
    after_request, after_requests, ask, is_asked, metadata_request, Awaiting, AwaitingView, ClientState, Outcome, Step,
    ToolError,
};
use crate::value::{
    distinct_keys, json_map, lemma_json_map_domain, lemma_json_map_index, Json, JsonObject, ParamsValue, Reply,
    ResponseValue,
};
use vstd::prelude::*;

verus! {

/// The client has used up `n` identifiers, from the last one on to zero, and is the same in all else.
pub open spec fn has_counted_on(before: ClientState, after: ClientState, n: nat) -> bool {
    &&& after.id == (before.id + n) % 0x1_0000_0000_0000_0000
    &&& after.chain_id == before.chain_id
    &&& after.sha3_private_key == before.sha3_private_key
    &&& after.blake2b_private_key == before.blake2b_private_key
    &&& after.debug == before.debug
}

/// Sending one request moves the identifier on by one, from the last one to zero, and changes
/// nothing else of the client.
pub proof fn law_request_uses_up_one_identifier(client: ClientState)
    ensures
        after_request(client).id == (client.id + 1) % 0x1_0000_0000_0000_0000,
        after_request(client).chain_id == client.chain_id,
        after_request(client).sha3_private_key == client.sha3_private_key,
        after_request(client).blake2b_private_key == client.blake2b_private_key,
        after_request(client).debug == client.debug,
{
}

/// Sending requests in a series moves the identifier on by their number, and changes nothing else of
/// the client.
pub proof fn law_series_uses_up_its_identifiers(client: ClientState, n: nat)
    ensures
        after_requests(client, n).id == (client.id + n) % 0x1_0000_0000_0000_0000,
        after_requests(client, n).chain_id == client.chain_id,
        after_requests(client, n).sha3_private_key == client.sha3_private_key,
        after_requests(client, n).blake2b_private_key == client.blake2b_private_key,
        after_requests(client, n).debug == client.debug,
{
    law_ids_count_up(client.id, n);
}

/// A request before it is sent: its version; its method where it names one; its parameters where it
/// has any; nothing else, and no identifier.
pub proof fn law_request_before_it_is_sent(method: Seq<char>, params: Seq<Json>)
    ensures
        blank_request() == map!["jsonrpc"@ => Json::Str("2.0"@)],
        request(method) == map!["jsonrpc"@ => Json::Str("2.0"@), "method"@ => Json::Str(method)],
        request_with(method, params) == map![
            "jsonrpc"@ => Json::Str("2.0"@),
            "method"@ => Json::Str(method),
            "params"@ => Json::List(params),
        ],
{
    lemma_member_names();
    assert(request(method) =~= map!["jsonrpc"@ => Json::Str("2.0"@), "method"@ => Json::Str(method)]);
    assert(request_with(method, params) =~= map![
        "jsonrpc"@ => Json::Str("2.0"@),
        "method"@ => Json::Str(method),
        "params"@ => Json::List(params),
    ]);
}

/// What goes out to several nodes: to each URL, in order, the members that were handed in, with the
/// next identifier. The trace is there in debug mode only and holds the members as they were handed
/// in.
pub proof fn law_batch_to_many_nodes(client: &mut Client, urls: Vec<&str>, params: JsonRpcParams, batch: Batch)
    requires
        call_ensures(Client::send_request, (client, urls, params), batch),
    ensures
        has_counted_on(old(client)@, final(client)@, 1),
        batch.requests@.len() == urls@.len(),
        forall|i: int|
            0 <= i < urls@.len() ==> {
                &&& (#[trigger] batch.requests@[i]).url@ == urls@[i]@
                &&& batch.requests@[i].params@ == params@.insert("id"@, Json::Int(final(client)@.id))
            },
        batch.trace is Some <==> old(client)@.debug,
        batch.trace matches Some(trace) ==> trace@ == params@,
{
    law_request_uses_up_one_identifier(old(client)@);
    assert(batch@.requests.len() == urls@.len());
    assert forall|i: int| 0 <= i < urls@.len() implies {
        &&& (#[trigger] batch.requests@[i]).url@ == urls@[i]@
        &&& batch.requests@[i].params@ == params@.insert("id"@, Json::Int(final(client)@.id))
    } by {
        assert(batch@.requests[i] == batch.requests@[i]@);
        assert(borrowed_texts(urls@)[i] == urls@[i]@);
    }
}

/// What goes out to one node in a series: every request that was handed in, in order, each with the
/// next identifier. A series is not traced.
pub proof fn law_batch_of_many_requests(
    client: &mut Client,
    url: &str,
    params: Vec<JsonRpcParams>,
    batch: Batch,
)
    requires
        call_ensures(Client::send_request_with_multiple_params, (client, url, params), batch),
    ensures
        has_counted_on(old(client)@, final(client)@, params@.len()),
        batch.requests@.len() == params@.len(),
        forall|i: int|
            0 <= i < params@.len() ==> {
                &&& (#[trigger] batch.requests@[i]).url@ == url@
                &&& batch.requests@[i].params@ == params@[i]@.insert(
                    "id"@,
                    Json::Int(((old(client)@.id + i + 1) % 0x1_0000_0000_0000_0000) as u64),
                )
            },
        batch.trace is None,
{
    law_series_uses_up_its_identifiers(old(client)@, params@.len());
    assert(batch@.requests.len() == params@.len());
    assert forall|i: int| 0 <= i < params@.len() implies {
        &&& (#[trigger] batch.requests@[i]).url@ == url@
        &&& batch.requests@[i].params@ == params@[i]@.insert(
            "id"@,
            Json::Int(((old(client)@.id + i + 1) % 0x1_0000_0000_0000_0000) as u64),
        )
    } by {
        assert(batch@.requests[i] == batch.requests@[i]@);
        assert(members_of(params@)[i] == params@[i]@);
        law_ids_count_up(old(client)@.id, (i + 1) as nat);
    }
}

/// A step that asks one node sends that node one request: the members that were handed in, with the
/// next identifier. The reply is waited for as was said.
pub proof fn law_one_request_goes_out(
    client: ClientState,
    url: Seq<char>,
    params: Members,
    awaiting: AwaitingView,
    step: Step,
)
    requires
        step@ == ask(client, url, params, awaiting),
    ensures
        step matches Step::Send(batch, awaited) && {
            &&& awaited@ == awaiting
            &&& batch.requests@.len() == 1
            &&& batch.requests@[0].url@ == url
            &&& batch.requests@[0].params@ == params.insert(
                "id"@,
                Json::Int(((client.id + 1) % 0x1_0000_0000_0000_0000) as u64),
            )
            &&& batch.trace is Some <==> client.debug
            &&& batch.trace matches Some(trace) ==> trace@ == params
        },
{
    let batch = step->Send_0;
    assert(batch@.requests.len() == 1);
    assert(batch@.requests[0] == batch.requests@[0]@);
}

/// A call with positional parameters sends one request of JSON-RPC 2.0 with that method and those
/// parameters, in order, and nothing else.
pub proof fn law_method_with_parameters(
    client: ClientState,
    url: Seq<char>,
    method: Seq<char>,
    args: Seq<Json>,
    after: ClientState,
    res: Result<Step, ToolError>,
)
    requires
        is_asked(client, url, request_with(method, args), AwaitingView::Answer, after, res),
    ensures
        after.id == (client.id + 1) % 0x1_0000_0000_0000_0000,
        after.chain_id == client.chain_id,
        after.sha3_private_key == client.sha3_private_key,
        after.blake2b_private_key == client.blake2b_private_key,
        after.debug == client.debug,
        res matches Ok(Step::Send(batch, Awaiting::Answer)) && {
            &&& batch.requests@.len() == 1
            &&& batch.requests@[0].url@ == url
            &&& batch.requests@[0].params@ == map![
                "jsonrpc"@ => Json::Str("2.0"@),
                "method"@ => Json::Str(method),
                "params"@ => Json::List(args),
                "id"@ => Json::Int(after.id),
            ]
        },
{
    law_request_uses_up_one_identifier(client);
    law_one_request_goes_out(client, url, request_with(method, args), AwaitingView::Answer, res->Ok_0);
    law_request_members(method, args, after.id);
}

/// A call without parameters sends one request of JSON-RPC 2.0 with that method, and nothing else.
pub proof fn law_method_without_parameters(
    client: ClientState,
    url: Seq<char>,
    method: Seq<char>,
    after: ClientState,
    res: Result<Step, ToolError>,
)
    requires
        is_asked(client, url, request(method), AwaitingView::Answer, after, res),
    ensures
        after.id == (client.id + 1) % 0x1_0000_0000_0000_0000,
        after.chain_id == client.chain_id,
        after.sha3_private_key == client.sha3_private_key,
        after.blake2b_private_key == client.blake2b_private_key,
        after.debug == client.debug,
        res matches Ok(Step::Send(batch, Awaiting::Answer)) && {
            &&& batch.requests@.len() == 1
            &&& batch.requests@[0].url@ == url
            &&& batch.requests@[0].params@ == map![
                "jsonrpc"@ => Json::Str("2.0"@),
                "method"@ => Json::Str(method),
                "id"@ => Json::Int(after.id),
            ]
        },
{
    law_request_uses_up_one_identifier(client);
    law_one_request_goes_out(client, url, request(method), AwaitingView::Answer, res->Ok_0);
    law_request_members(method, Seq::empty(), after.id);
}

/// The metadata is asked for at the height that was given, whatever it is.
pub proof fn law_metadata_is_asked_at_the_height(
    client: &mut Client,
    url: &str,
    height: &str,
    res: Result<Step, ToolError>,
)
    requires
        call_ensures(<Client as ClientExt>::get_metadata, (client, url, height), res),
    ensures
        has_counted_on(old(client)@, final(client)@, 1),
        res matches Ok(Step::Send(batch, Awaiting::Answer)) && {
            &&& batch.requests@.len() == 1
            &&& batch.requests@[0].url@ == url@
            &&& batch.requests@[0].params@ == map![
                "jsonrpc"@ => Json::Str("2.0"@),
                "method"@ => Json::Str("cita_getMetaData"@),
                "params"@ => Json::List(seq![Json::Str(height@)]),
                "id"@ => Json::Int(final(client)@.id),
            ]
        },
{
    law_method_with_parameters(
        old(client)@,
        url@,
        "cita_getMetaData"@,
        seq![Json::Str(height@)],
        final(client)@,
        res,
    );
}

/// A client that knows its chain tells it at once and stays as it is. One that does not asks for the
/// latest metadata.
pub proof fn law_chain_is_asked_of_the_latest_metadata(client: &mut Client, url: &str, step: Step)
    requires
        call_ensures(Client::get_chain_id, (client, url), step),
    ensures
        old(client)@.chain_id matches Some(chain_id) ==> {
            &&& has_counted_on(old(client)@, final(client)@, 0)
            &&& step matches Step::Done(Outcome::ChainId(told)) && told == chain_id
        },
        old(client)@.chain_id is None ==> {
            &&& has_counted_on(old(client)@, final(client)@, 1)
            &&& step matches Step::Send(batch, Awaiting::ChainId) && {
                &&& batch.requests@.len() == 1
                &&& batch.requests@[0].url@ == url@
                &&& batch.requests@[0].params@ == map![
                    "jsonrpc"@ => Json::Str("2.0"@),
                    "method"@ => Json::Str("cita_getMetaData"@),
                    "params"@ => Json::List(seq![Json::Str("latest"@)]),
                    "id"@ => Json::Int(final(client)@.id),
                ]
            }
        },
{
    if old(client)@.chain_id is None {
        law_request_uses_up_one_identifier(old(client)@);
        law_one_request_goes_out(old(client)@, url@, metadata_request("latest"@), AwaitingView::ChainId, step);
        law_request_members("cita_getMetaData"@, seq![Json::Str("latest"@)], final(client)@.id);
    }
}

/// The height is asked for by the method for the number of the last block.
pub proof fn law_height_is_asked_for(
    client: ClientState,
    url: Seq<char>,
    awaiting: AwaitingView,
    step: Step,
)
    requires
        step@ == ask(client, url, request(CITA_BLOCK_NUMBER@), awaiting),
    ensures
        step matches Step::Send(batch, awaited) && {
            &&& awaited@ == awaiting
            &&& batch.requests@.len() == 1
            &&& batch.requests@[0].url@ == url
            &&& batch.requests@[0].params@ == map![
                "jsonrpc"@ => Json::Str("2.0"@),
                "method"@ => Json::Str("cita_blockNumber"@),
                "id"@ => Json::Int(((client.id + 1) % 0x1_0000_0000_0000_0000) as u64),
            ]
        },
        awaiting is Height ==> step->Send_1 is Height,
{
    let id = ((client.id + 1) % 0x1_0000_0000_0000_0000) as u64;
    law_one_request_goes_out(client, url, request(CITA_BLOCK_NUMBER@), awaiting, step);
    law_request_members("cita_blockNumber"@, Seq::empty(), id);
}

/// The names of the members of a filter are all different.
proof fn lemma_filter_names()
    ensures
        "fromBlock"@ != "toBlock"@,
        "fromBlock"@ != "topics"@,
        "fromBlock"@ != "topic"@,
        "fromBlock"@ != "address"@,
        "toBlock"@ != "topics"@,
        "toBlock"@ != "topic"@,
        "toBlock"@ != "address"@,
        "topics"@ != "address"@,
        "topic"@ != "address"@,
{
    reveal_strlit("fromBlock");
    reveal_strlit("toBlock");
    reveal_strlit("topics");
    reveal_strlit("topic");
    reveal_strlit("address");
    assert("fromBlock"@.len() == 9 && "toBlock"@.len() == 7 && "topics"@.len() == 6 && "topic"@.len() == 5
        && "address"@.len() == 7);
    assert("toBlock"@[0] != "address"@[0]);
}

/// The request for logs holds one filter. Its first block is the one given, or the latest; so is its
/// last block, whatever the first is. Its topics are those given, in order, or an empty list; its
/// addresses are those given, in order, or `null`. It has no other member.
pub proof fn law_logs_filter(
    client: &mut Client,
    url: &str,
    topic: Option<Vec<&str>>,
    address: Option<Vec<&str>>,
    from: Option<&str>,
    to: Option<&str>,
    res: Result<Step, ToolError>,
)
    requires
        call_ensures(<Client as ClientExt>::get_logs, (client, url, topic, address, from, to), res),
    ensures
        has_counted_on(old(client)@, final(client)@, 1),
        res matches Ok(Step::Send(batch, Awaiting::Answer)) && {
            let sent = batch.requests@[0].params@;
            let filter = sent["params"@]->List_0[0]->Object_0;
            &&& batch.requests@.len() == 1
            &&& batch.requests@[0].url@ == url@
            &&& sent["jsonrpc"@] == Json::Str("2.0"@)
            &&& sent["method"@] == Json::Str("eth_getLogs"@)
            &&& sent["id"@] == Json::Int(final(client)@.id)
            &&& sent["params"@] == Json::List(seq![Json::Object(filter)])
            &&& sent.dom() == set!["jsonrpc"@, "method"@, "params"@, "id"@]
            &&& filter.dom() == set!["fromBlock"@, "toBlock"@, "topics"@, "address"@]
            &&& from matches Some(block) ==> filter["fromBlock"@] == Json::Str(block@)
            &&& from is None ==> filter["fromBlock"@] == Json::Str("latest"@)
            &&& to matches Some(block) ==> filter["toBlock"@] == Json::Str(block@)
            &&& to is None ==> filter["toBlock"@] == Json::Str("latest"@)
            &&& topic matches Some(items) ==> {
                &&& filter["topics"@] is List
                &&& filter["topics"@]->List_0.len() == items@.len()
                &&& forall|i: int|
                    0 <= i < items@.len() ==> #[trigger] filter["topics"@]->List_0[i] == Json::Str(items@[i]@)
            }
            &&& topic is None ==> filter["topics"@] == Json::List(Seq::empty())
            &&& address matches Some(items) ==> {
                &&& filter["address"@] is List
                &&& filter["address"@]->List_0.len() == items@.len()
                &&& forall|i: int|
                    0 <= i < items@.len() ==> #[trigger] filter["address"@]->List_0[i] == Json::Str(items@[i]@)
            }
            &&& address is None ==> filter["address"@] == Json::Null
        },
{
    let args = logs_request(topic, address, from, to)["params"@]->List_0;
    law_method_with_parameters(old(client)@, url@, "eth_getLogs"@, args, final(client)@, res);
    lemma_filter_names();
    let sent = res->Ok_0->Send_0.requests@[0].params@;
    let filter = sent["params"@]->List_0[0]->Object_0;
    lemma_sent_members("eth_getLogs"@, args, final(client)@.id);
    assert(args =~= seq![Json::Object(filter)]);
    assert(filter.dom() =~= set!["fromBlock"@, "toBlock"@, "topics"@, "address"@]);
}

/// The request for a filter holds one filter. Its first block is the one given, or the latest; so is
/// its last block, whatever the first is. Its topics and its addresses are those given, in order, or
/// `null`. It has no other member.
pub proof fn law_new_filter(
    client: &mut Client,
    url: &str,
    topic: Option<Vec<&str>>,
    address: Option<Vec<&str>>,
    from: Option<&str>,
    to: Option<&str>,
    res: Result<Step, ToolError>,
)
    requires
        call_ensures(<Client as ClientExt>::new_filter, (client, url, topic, address, from, to), res),
    ensures
        has_counted_on(old(client)@, final(client)@, 1),
        res matches Ok(Step::Send(batch, Awaiting::Answer)) && {
            let sent = batch.requests@[0].params@;
            let filter = sent["params"@]->List_0[0]->Object_0;
            &&& batch.requests@.len() == 1
            &&& batch.requests@[0].url@ == url@
            &&& sent["jsonrpc"@] == Json::Str("2.0"@)
            &&& sent["method"@] == Json::Str("eth_newFilter"@)
            &&& sent["id"@] == Json::Int(final(client)@.id)
            &&& sent["params"@] == Json::List(seq![Json::Object(filter)])
            &&& sent.dom() == set!["jsonrpc"@, "method"@, "params"@, "id"@]
            &&& filter.dom() == set!["fromBlock"@, "toBlock"@, "topic"@, "address"@]
            &&& from matches Some(block) ==> filter["fromBlock"@] == Json::Str(block@)
            &&& from is None ==> filter["fromBlock"@] == Json::Str("latest"@)
            &&& to matches Some(block) ==> filter["toBlock"@] == Json::Str(block@)
            &&& to is None ==> filter["toBlock"@] == Json::Str("latest"@)
            &&& topic matches Some(items) ==> {
                &&& filter["topic"@] is List
                &&& filter["topic"@]->List_0.len() == items@.len()
                &&& forall|i: int|
                    0 <= i < items@.len() ==> #[trigger] filter["topic"@]->List_0[i] == Json::Str(items@[i]@)
            }
            &&& topic is None ==> filter["topic"@] == Json::Null
            &&& address matches Some(items) ==> {
                &&& filter["address"@] is List
                &&& filter["address"@]->List_0.len() == items@.len()
                &&& forall|i: int|
                    0 <= i < items@.len() ==> #[trigger] filter["address"@]->List_0[i] == Json::Str(items@[i]@)
            }
            &&& address is None ==> filter["address"@] == Json::Null
        },
{
    let args = filter_request(topic, address, from, to)["params"@]->List_0;
    law_method_with_parameters(old(client)@, url@, "eth_newFilter"@, args, final(client)@, res);
    lemma_filter_names();
    let sent = res->Ok_0->Send_0.requests@[0].params@;
    let filter = sent["params"@]->List_0[0]->Object_0;
    lemma_sent_members("eth_newFilter"@, args, final(client)@.id);
    assert(args =~= seq![Json::Object(filter)]);
    assert(filter.dom() =~= set!["fromBlock"@, "toBlock"@, "topic"@, "address"@]);
}

/// The members of what is sent, one by one.
proof fn lemma_sent_members(method: Seq<char>, args: Seq<Json>, id: u64)
    ensures
        ({
            let sent = map![
                "jsonrpc"@ => Json::Str("2.0"@),
                "method"@ => Json::Str(method),
                "params"@ => Json::List(args),
                "id"@ => Json::Int(id),
            ];
            &&& sent["jsonrpc"@] == Json::Str("2.0"@)
            &&& sent["method"@] == Json::Str(method)
            &&& sent["params"@] == Json::List(args)
            &&& sent["id"@] == Json::Int(id)
            &&& sent.dom() == set!["jsonrpc"@, "method"@, "params"@, "id"@]
        }),
{
    lemma_member_names();
    let sent = map![
        "jsonrpc"@ => Json::Str("2.0"@),
        "method"@ => Json::Str(method),
        "params"@ => Json::List(args),
        "id"@ => Json::Int(id),
    ];
    assert(sent.dom() =~= set!["jsonrpc"@, "method"@, "params"@, "id"@]);
}

/// The names of the members of a message are all different.
proof fn lemma_message_names()
    ensures
        "to"@ != "from"@,
        "to"@ != "data"@,
        "from"@ != "data"@,
{
    reveal_strlit("to");
    reveal_strlit("from");
    reveal_strlit("data");
    assert("to"@.len() == 2 && "from"@.len() == 4 && "data"@.len() == 4);
    assert("from"@[0] != "data"@[0]);
}

/// The message and the height of a call are those given: the target always, the sender and the data
/// exactly where they are given, and nothing else.
pub proof fn law_call_message(
    client: ClientState,
    url: Seq<char>,
    from: Option<Seq<char>>,
    to: Seq<char>,
    data: Option<Seq<char>>,
    height: Seq<char>,
    awaiting: AwaitingView,
    after: ClientState,
    res: Result<Step, ToolError>,
)
    requires
        is_asked(client, url, call_request(from, to, data, height), awaiting, after, res),
    ensures
        res matches Ok(Step::Send(batch, awaited)) && {
            let sent = batch.requests@[0].params@;
            let message = sent["params"@]->List_0[0]->Object_0;
            &&& awaited@ == awaiting
            &&& batch.requests@.len() == 1
            &&& batch.requests@[0].url@ == url
            &&& sent["jsonrpc"@] == Json::Str("2.0"@)
            &&& sent["method"@] == Json::Str("eth_call"@)
            &&& sent["id"@] == Json::Int(after.id)
            &&& sent["params"@] == Json::List(seq![Json::Object(message), Json::Str(height)])
            &&& sent.dom() == set!["jsonrpc"@, "method"@, "params"@, "id"@]
            &&& message.contains_key("to"@)
            &&& message["to"@] == Json::Str(to)
            &&& message.contains_key("from"@) <==> from is Some
            &&& from matches Some(text) ==> message["from"@] == Json::Str(text)
            &&& message.contains_key("data"@) <==> data is Some
            &&& data matches Some(text) ==> message["data"@] == Json::Str(text)
            &&& message.dom().subset_of(set!["to"@, "from"@, "data"@])
        },
        after.id == (client.id + 1) % 0x1_0000_0000_0000_0000,
{
    let params = call_request(from, to, data, height);
    let args = params["params"@]->List_0;
    law_request_uses_up_one_identifier(client);
    law_one_request_goes_out(client, url, params, awaiting, res->Ok_0);
    law_request_members("eth_call"@, args, after.id);
    lemma_sent_members("eth_call"@, args, after.id);
    lemma_message_names();
    let sent = res->Ok_0->Send_0.requests@[0].params@;
    let message = sent["params"@]->List_0[0]->Object_0;
    assert(args =~= seq![Json::Object(message), Json::Str(height)]);
    assert(message.dom().subset_of(set!["to"@, "from"@, "data"@]));
}

/// The text is written with these digits, behind a prefix `0x` or `0X` or without one.
pub open spec fn is_spelled(text: Seq<char>, digits: Seq<char>) -> bool {
    ||| text == "0x"@ + digits
    ||| text == "0X"@ + digits
    ||| text == digits && !("0x"@.is_prefix_of(digits)) && !("0X"@.is_prefix_of(digits))
}

/// The digits of a text are what is left of it without its prefix.
pub(crate) proof fn lemma_spelled(text: Seq<char>, digits: Seq<char>)
    requires
        is_spelled(text, digits),
    ensures
        without_prefix(text) == digits,
{
    reveal_strlit("0x");
    reveal_strlit("0X");
    law_prefix_is_removed(digits);
    if without_prefix(text) != digits {
        if digits == "0x"@ + without_prefix(digits) {
            assert("0x"@ =~= digits.subrange(0, 2));
        } else {
            assert("0X"@ =~= digits.subrange(0, 2));
        }
    }
}

/// The digits that call a contract with an address: the selector, twenty-four zeros, the address. A
/// prefix `0x` or `0X` of the address is left out.
pub proof fn law_address_call_digits(selector: Seq<char>, address: Seq<char>, digits: Seq<char>)
    requires
        is_spelled(address, digits),
    ensures
        address_call(selector, address) == selector + Seq::new(24, |i: int| '0') + digits,
{
    reveal_strlit("000000000000000000000000");
    lemma_spelled(address, digits);
    assert(ADDRESS_PADDING@ =~= Seq::new(24, |i: int| '0'));
}

/// The status of a node is asked of the contract that manages the nodes, with the digits of the node
/// behind the selector and its padding.
pub proof fn law_node_status_call(
    client: &mut Client,
    url: &str,
    address: &str,
    digits: Seq<char>,
    res: Result<Step, ToolError>,
)
    requires
        call_ensures(<Client as ContractExt>::node_status, (client, url, address), res),
        is_spelled(address@, digits),
    ensures
        has_counted_on(old(client)@, final(client)@, 1),
        res matches Ok(Step::Send(batch, Awaiting::Answer)) && {
            let sent = batch.requests@[0].params@;
            &&& batch.requests@.len() == 1
            &&& batch.requests@[0].url@ == url@
            &&& sent["jsonrpc"@] == Json::Str("2.0"@)
            &&& sent["method"@] == Json::Str("eth_call"@)
            &&& sent["id"@] == Json::Int(final(client)@.id)
            &&& sent.dom() == set!["jsonrpc"@, "method"@, "params"@, "id"@]
            &&& sent["params"@] == Json::List(
                seq![
                    Json::Object(
                        map![
                            "to"@ => Json::Str("00000000000000000000000000000000013241a2"@),
                            "data"@ => Json::Str("0x645b8b1b"@ + Seq::new(24, |i: int| '0') + digits),
                        ],
                    ),
                    Json::Str("latest"@),
                ],
            )
        },
{
    let data = address_call("0x645b8b1b"@, address@);
    law_request_uses_up_one_identifier(old(client)@);
    law_call_message(
        old(client)@,
        url@,
        None,
        NODE_MANAGER_ADDRESS@,
        Some(data),
        "latest"@,
        AwaitingView::Answer,
        final(client)@,
        res,
    );
    law_address_call_digits("0x645b8b1b"@, address@, digits);
    lemma_message_names();
    let message = res->Ok_0->Send_0.requests@[0].params@["params"@]->List_0[0]->Object_0;
    assert(message =~= map![
        "to"@ => Json::Str("00000000000000000000000000000000013241a2"@),
        "data"@ => Json::Str("0x645b8b1b"@ + Seq::new(24, |i: int| '0') + digits),
    ]);
}

/// The consensus nodes are asked of the contract that manages the nodes.
pub proof fn law_authorities_call(
    client: &mut Client,
    url: &str,
    res: Result<Step, ToolError>,
)
    requires
        call_ensures(<Client as ContractExt>::get_authorities, (client, url), res),
    ensures
        has_counted_on(old(client)@, final(client)@, 1),
        res matches Ok(Step::Send(batch, Awaiting::Authorities)) && {
            let sent = batch.requests@[0].params@;
            &&& batch.requests@.len() == 1
            &&& batch.requests@[0].url@ == url@
            &&& sent["jsonrpc"@] == Json::Str("2.0"@)
            &&& sent["method"@] == Json::Str("eth_call"@)
            &&& sent["id"@] == Json::Int(final(client)@.id)
            &&& sent.dom() == set!["jsonrpc"@, "method"@, "params"@, "id"@]
            &&& sent["params"@] == Json::List(
                seq![
                    Json::Object(
                        map![
                            "to"@ => Json::Str("00000000000000000000000000000000013241a2"@),
                            "data"@ => Json::Str("0x609df32f"@),
                        ],
                    ),
                    Json::Str("latest"@),
                ],
            )
        },
{
    law_request_uses_up_one_identifier(old(client)@);
    law_call_message(
        old(client)@,
        url@,
        None,
        NODE_MANAGER_ADDRESS@,
        Some("0x609df32f"@),
        "latest"@,
        AwaitingView::Authorities,
        final(client)@,
        res,
    );
    lemma_message_names();
    let message = res->Ok_0->Send_0.requests@[0].params@["params"@]->List_0[0]->Object_0;
    assert(message =~= map![
        "to"@ => Json::Str("00000000000000000000000000000000013241a2"@),
        "data"@ => Json::Str("0x609df32f"@),
    ]);
}

/// What a value says is what it holds: texts, numbers and flags as they are, lists item by item and
/// in order, objects by their members.
pub proof fn law_values_say_what_they_hold(
    text: String,
    number: u64,
    flag: bool,
    items: Vec<ParamsValue>,
    object: JsonObject,
    value: ParamsValue,
)
    ensures
        ParamsValue::String(text)@ == Json::Str(text@),
        ParamsValue::Int(number)@ == Json::Int(number),
        ParamsValue::Bool(flag)@ == Json::Bool(flag),
        ParamsValue::Null@ == Json::Null,
        ParamsValue::Object(object)@ == Json::Object(object@),
        ParamsValue::List(items)@ matches Json::List(list) && list.len() == items@.len() && forall|i: int|
            0 <= i < items@.len() ==> #[trigger] list[i] == items@[i]@,
        ResponseValue::Object(object)@ == Reply::Object(object@),
        ResponseValue::Singe(value)@ == Reply::Single(value@),
{
}

/// An object has the keys of its entries, each with the value of its entry, and no others.
pub proof fn law_objects_hold_their_entries(entries: Seq<(String, ParamsValue)>, i: int, key: Seq<char>)
    requires
        distinct_keys(entries),
    ensures
        0 <= i < entries.len() ==> json_map(entries).contains_key(entries[i].0@) && json_map(
            entries,
        )[entries[i].0@] == entries[i].1@,
        json_map(entries).contains_key(key) <==> exists|j: int|
            0 <= j < entries.len() && #[trigger] entries[j].0@ == key,
{
    if 0 <= i < entries.len() {
        lemma_json_map_index(entries, i);
    }
    lemma_json_map_domain(entries, key);
}

}
