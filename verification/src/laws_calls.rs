//! What each method of a node sends, and what the settings of a client do.

use crate::client::Client;
use crate::client_ext::{optional_text, ClientExt};
use crate::laws_requests::{
    has_counted_on, law_call_message, law_height_is_asked_for, law_method_with_parameters,
    law_method_without_parameters, law_request_uses_up_one_identifier,
};
use crate::rpc::JsonRpcParams;
use crate::step::{Awaiting, AwaitingView, Step, ToolError};
use crate::transaction::{Blake2bPrivKey, PrivateKey, Sha3PrivKey};
use crate::value::{lemma_json_map_domain, lemma_json_map_index, Json, JsonObject, ParamsValue};
use vstd::prelude::*;

verus! {

/// The number of peers is asked for without parameters.
pub proof fn law_peer_count_is_asked_for(client: &mut Client, url: &str, res: Result<Step, ToolError>)
    requires
        call_ensures(<Client as ClientExt>::get_net_peer_count, (client, url), res),
    ensures
        has_counted_on(old(client)@, final(client)@, 1),
        res matches Ok(Step::Send(batch, Awaiting::Answer)) && {
            &&& batch.requests@.len() == 1
            &&& batch.requests@[0].url@ == url@
            &&& batch.requests@[0].params@ == map![
                "jsonrpc"@ => Json::Str("2.0"@),
                "method"@ => Json::Str("net_peerCount"@),
                "id"@ => Json::Int(final(client)@.id),
            ]
        },
{
    law_method_without_parameters(old(client)@, url@, "net_peerCount"@, final(client)@, res);
}

/// The number of the last block is asked for without parameters.
pub proof fn law_block_number_is_asked_for(client: &mut Client, url: &str, res: Result<Step, ToolError>)
    requires
        call_ensures(<Client as ClientExt>::get_block_number, (client, url), res),
    ensures
        has_counted_on(old(client)@, final(client)@, 1),
        res matches Ok(Step::Send(batch, Awaiting::Answer)) && {
            &&& batch.requests@.len() == 1
            &&& batch.requests@[0].url@ == url@
            &&& batch.requests@[0].params@ == map![
                "jsonrpc"@ => Json::Str("2.0"@),
                "method"@ => Json::Str("cita_blockNumber"@),
                "id"@ => Json::Int(final(client)@.id),
            ]
        },
{
    law_method_without_parameters(old(client)@, url@, "cita_blockNumber"@, final(client)@, res);
}

/// A filter for blocks is asked for without parameters.
pub proof fn law_block_filter_is_asked_for(client: &mut Client, url: &str, res: Result<Step, ToolError>)
    requires
        call_ensures(<Client as ClientExt>::new_block_filter, (client, url), res),
    ensures
        has_counted_on(old(client)@, final(client)@, 1),
        res matches Ok(Step::Send(batch, Awaiting::Answer)) && {
            &&& batch.requests@.len() == 1
            &&& batch.requests@[0].url@ == url@
            &&& batch.requests@[0].params@ == map![
                "jsonrpc"@ => Json::Str("2.0"@),
                "method"@ => Json::Str("eth_newBlockFilter"@),
                "id"@ => Json::Int(final(client)@.id),
            ]
        },
{
    law_method_without_parameters(old(client)@, url@, "eth_newBlockFilter"@, final(client)@, res);
}

/// A receipt is asked for by the hash of its transaction.
pub proof fn law_receipt_is_asked_for(
    client: &mut Client,
    url: &str,
    hash: &str,
    res: Result<Step, ToolError>,
)
    requires
        call_ensures(<Client as ClientExt>::get_transaction_receipt, (client, url, hash), res),
    ensures
        has_counted_on(old(client)@, final(client)@, 1),
        res matches Ok(Step::Send(batch, Awaiting::Answer)) && {
            &&& batch.requests@.len() == 1
            &&& batch.requests@[0].url@ == url@
            &&& batch.requests@[0].params@ == map![
                "jsonrpc"@ => Json::Str("2.0"@),
                "method"@ => Json::Str("eth_getTransactionReceipt"@),
                "params"@ => Json::List(seq![Json::Str(hash@)]),
                "id"@ => Json::Int(final(client)@.id),
            ]
        },
{
    let args = seq![Json::Str(hash@)];
    law_method_with_parameters(old(client)@, url@, "eth_getTransactionReceipt"@, args, final(client)@, res);
}

/// A transaction is asked for by its hash.
pub proof fn law_transaction_is_asked_for(
    client: &mut Client,
    url: &str,
    hash: &str,
    res: Result<Step, ToolError>,
)
    requires
        call_ensures(<Client as ClientExt>::get_transaction, (client, url, hash), res),
    ensures
        has_counted_on(old(client)@, final(client)@, 1),
        res matches Ok(Step::Send(batch, Awaiting::Answer)) && {
            &&& batch.requests@.len() == 1
            &&& batch.requests@[0].url@ == url@
            &&& batch.requests@[0].params@ == map![
                "jsonrpc"@ => Json::Str("2.0"@),
                "method"@ => Json::Str("cita_getTransaction"@),
                "params"@ => Json::List(seq![Json::Str(hash@)]),
                "id"@ => Json::Int(final(client)@.id),
            ]
        },
{
    let args = seq![Json::Str(hash@)];
    law_method_with_parameters(old(client)@, url@, "cita_getTransaction"@, args, final(client)@, res);
}

/// The proof of a transaction is asked for by its hash.
pub proof fn law_proof_is_asked_for(client: &mut Client, url: &str, hash: &str, res: Result<Step, ToolError>)
    requires
        call_ensures(<Client as ClientExt>::get_transaction_proof, (client, url, hash), res),
    ensures
        has_counted_on(old(client)@, final(client)@, 1),
        res matches Ok(Step::Send(batch, Awaiting::Answer)) && {
            &&& batch.requests@.len() == 1
            &&& batch.requests@[0].url@ == url@
            &&& batch.requests@[0].params@ == map![
                "jsonrpc"@ => Json::Str("2.0"@),
                "method"@ => Json::Str("cita_getTransactionProof"@),
                "params"@ => Json::List(seq![Json::Str(hash@)]),
                "id"@ => Json::Int(final(client)@.id),
            ]
        },
{
    let args = seq![Json::Str(hash@)];
    law_method_with_parameters(old(client)@, url@, "cita_getTransactionProof"@, args, final(client)@, res);
}

/// A filter is given up by its identifier.
pub proof fn law_filter_is_given_up(
    client: &mut Client,
    url: &str,
    filter_id: &str,
    res: Result<Step, ToolError>,
)
    requires
        call_ensures(<Client as ClientExt>::uninstall_filter, (client, url, filter_id), res),
    ensures
        has_counted_on(old(client)@, final(client)@, 1),
        res matches Ok(Step::Send(batch, Awaiting::Answer)) && {
            &&& batch.requests@.len() == 1
            &&& batch.requests@[0].url@ == url@
            &&& batch.requests@[0].params@ == map![
                "jsonrpc"@ => Json::Str("2.0"@),
                "method"@ => Json::Str("eth_uninstallFilter"@),
                "params"@ => Json::List(seq![Json::Str(filter_id@)]),
                "id"@ => Json::Int(final(client)@.id),
            ]
        },
{
    let args = seq![Json::Str(filter_id@)];
    law_method_with_parameters(old(client)@, url@, "eth_uninstallFilter"@, args, final(client)@, res);
}

/// The changes of a filter are asked for by its identifier.
pub proof fn law_filter_changes_are_asked_for(
    client: &mut Client,
    url: &str,
    filter_id: &str,
    res: Result<Step, ToolError>,
)
    requires
        call_ensures(<Client as ClientExt>::get_filter_changes, (client, url, filter_id), res),
    ensures
        has_counted_on(old(client)@, final(client)@, 1),
        res matches Ok(Step::Send(batch, Awaiting::Answer)) && {
            &&& batch.requests@.len() == 1
            &&& batch.requests@[0].url@ == url@
            &&& batch.requests@[0].params@ == map![
                "jsonrpc"@ => Json::Str("2.0"@),
                "method"@ => Json::Str("eth_getFilterChanges"@),
                "params"@ => Json::List(seq![Json::Str(filter_id@)]),
                "id"@ => Json::Int(final(client)@.id),
            ]
        },
{
    let args = seq![Json::Str(filter_id@)];
    law_method_with_parameters(old(client)@, url@, "eth_getFilterChanges"@, args, final(client)@, res);
}

/// The logs of a filter are asked for by its identifier.
pub proof fn law_filter_logs_are_asked_for(
    client: &mut Client,
    url: &str,
    filter_id: &str,
    res: Result<Step, ToolError>,
)
    requires
        call_ensures(<Client as ClientExt>::get_filter_logs, (client, url, filter_id), res),
    ensures
        has_counted_on(old(client)@, final(client)@, 1),
        res matches Ok(Step::Send(batch, Awaiting::Answer)) && {
            &&& batch.requests@.len() == 1
            &&& batch.requests@[0].url@ == url@
            &&& batch.requests@[0].params@ == map![
                "jsonrpc"@ => Json::Str("2.0"@),
                "method"@ => Json::Str("eth_getFilterLogs"@),
                "params"@ => Json::List(seq![Json::Str(filter_id@)]),
                "id"@ => Json::Int(final(client)@.id),
            ]
        },
{
    let args = seq![Json::Str(filter_id@)];
    law_method_with_parameters(old(client)@, url@, "eth_getFilterLogs"@, args, final(client)@, res);
}

/// A block is asked for by its hash, with or without its transactions as was said.
pub proof fn law_block_is_asked_for_by_hash(
    client: &mut Client,
    url: &str,
    hash: &str,
    transaction_info: bool,
    res: Result<Step, ToolError>,
)
    requires
        call_ensures(<Client as ClientExt>::get_block_by_hash, (client, url, hash, transaction_info), res),
    ensures
        has_counted_on(old(client)@, final(client)@, 1),
        res matches Ok(Step::Send(batch, Awaiting::Answer)) && {
            &&& batch.requests@.len() == 1
            &&& batch.requests@[0].url@ == url@
            &&& batch.requests@[0].params@ == map![
                "jsonrpc"@ => Json::Str("2.0"@),
                "method"@ => Json::Str("cita_getBlockByHash"@),
                "params"@ => Json::List(seq![Json::Str(hash@), Json::Bool(transaction_info)]),
                "id"@ => Json::Int(final(client)@.id),
            ]
        },
{
    let args = seq![Json::Str(hash@), Json::Bool(transaction_info)];
    law_method_with_parameters(old(client)@, url@, "cita_getBlockByHash"@, args, final(client)@, res);
}

/// A block is asked for by its number, with or without its transactions as was said.
pub proof fn law_block_is_asked_for_by_number(
    client: &mut Client,
    url: &str,
    height: &str,
    transaction_info: bool,
    res: Result<Step, ToolError>,
)
    requires
        call_ensures(<Client as ClientExt>::get_block_by_number, (client, url, height, transaction_info), res),
    ensures
        has_counted_on(old(client)@, final(client)@, 1),
        res matches Ok(Step::Send(batch, Awaiting::Answer)) && {
            &&& batch.requests@.len() == 1
            &&& batch.requests@[0].url@ == url@
            &&& batch.requests@[0].params@ == map![
                "jsonrpc"@ => Json::Str("2.0"@),
                "method"@ => Json::Str("cita_getBlockByNumber"@),
                "params"@ => Json::List(seq![Json::Str(height@), Json::Bool(transaction_info)]),
                "id"@ => Json::Int(final(client)@.id),
            ]
        },
{
    let args = seq![Json::Str(height@), Json::Bool(transaction_info)];
    law_method_with_parameters(old(client)@, url@, "cita_getBlockByNumber"@, args, final(client)@, res);
}

/// The number of transactions of an account is asked for at the height that was given.
pub proof fn law_transaction_count_is_asked_for(
    client: &mut Client,
    url: &str,
    address: &str,
    height: &str,
    res: Result<Step, ToolError>,
)
    requires
        call_ensures(<Client as ClientExt>::get_transaction_count, (client, url, address, height), res),
    ensures
        has_counted_on(old(client)@, final(client)@, 1),
        res matches Ok(Step::Send(batch, Awaiting::Answer)) && {
            &&& batch.requests@.len() == 1
            &&& batch.requests@[0].url@ == url@
            &&& batch.requests@[0].params@ == map![
                "jsonrpc"@ => Json::Str("2.0"@),
                "method"@ => Json::Str("eth_getTransactionCount"@),
                "params"@ => Json::List(seq![Json::Str(address@), Json::Str(height@)]),
                "id"@ => Json::Int(final(client)@.id),
            ]
        },
{
    let args = seq![Json::Str(address@), Json::Str(height@)];
    law_method_with_parameters(old(client)@, url@, "eth_getTransactionCount"@, args, final(client)@, res);
}

/// The code of a contract is asked for at the height that was given.
pub proof fn law_code_is_asked_for(
    client: &mut Client,
    url: &str,
    address: &str,
    height: &str,
    res: Result<Step, ToolError>,
)
    requires
        call_ensures(<Client as ClientExt>::get_code, (client, url, address, height), res),
    ensures
        has_counted_on(old(client)@, final(client)@, 1),
        res matches Ok(Step::Send(batch, Awaiting::Answer)) && {
            &&& batch.requests@.len() == 1
            &&& batch.requests@[0].url@ == url@
            &&& batch.requests@[0].params@ == map![
                "jsonrpc"@ => Json::Str("2.0"@),
                "method"@ => Json::Str("eth_getCode"@),
                "params"@ => Json::List(seq![Json::Str(address@), Json::Str(height@)]),
                "id"@ => Json::Int(final(client)@.id),
            ]
        },
{
    let args = seq![Json::Str(address@), Json::Str(height@)];
    law_method_with_parameters(old(client)@, url@, "eth_getCode"@, args, final(client)@, res);
}

/// The ABI of a contract is asked for at the height that was given.
pub proof fn law_abi_is_asked_for(
    client: &mut Client,
    url: &str,
    address: &str,
    height: &str,
    res: Result<Step, ToolError>,
)
    requires
        call_ensures(<Client as ClientExt>::get_abi, (client, url, address, height), res),
    ensures
        has_counted_on(old(client)@, final(client)@, 1),
        res matches Ok(Step::Send(batch, Awaiting::Answer)) && {
            &&& batch.requests@.len() == 1
            &&& batch.requests@[0].url@ == url@
            &&& batch.requests@[0].params@ == map![
                "jsonrpc"@ => Json::Str("2.0"@),
                "method"@ => Json::Str("eth_getAbi"@),
                "params"@ => Json::List(seq![Json::Str(address@), Json::Str(height@)]),
                "id"@ => Json::Int(final(client)@.id),
            ]
        },
{
    let args = seq![Json::Str(address@), Json::Str(height@)];
    law_method_with_parameters(old(client)@, url@, "eth_getAbi"@, args, final(client)@, res);
}

/// The balance of an account is asked for at the height that was given.
pub proof fn law_balance_is_asked_for(
    client: &mut Client,
    url: &str,
    address: &str,
    height: &str,
    res: Result<Step, ToolError>,
)
    requires
        call_ensures(<Client as ClientExt>::get_balance, (client, url, address, height), res),
    ensures
        has_counted_on(old(client)@, final(client)@, 1),
        res matches Ok(Step::Send(batch, Awaiting::Answer)) && {
            &&& batch.requests@.len() == 1
            &&& batch.requests@[0].url@ == url@
            &&& batch.requests@[0].params@ == map![
                "jsonrpc"@ => Json::Str("2.0"@),
                "method"@ => Json::Str("eth_getBalance"@),
                "params"@ => Json::List(seq![Json::Str(address@), Json::Str(height@)]),
                "id"@ => Json::Int(final(client)@.id),
            ]
        },
{
    let args = seq![Json::Str(address@), Json::Str(height@)];
    law_method_with_parameters(old(client)@, url@, "eth_getBalance"@, args, final(client)@, res);
}

/// A call asks with the message and the height that were given: the target always, the sender and
/// the data exactly where they were given, and nothing else.
pub proof fn law_call_is_asked_for(
    client: &mut Client,
    url: &str,
    from: Option<&str>,
    to: &str,
    data: Option<&str>,
    height: &str,
    res: Result<Step, ToolError>,
)
    requires
        call_ensures(<Client as ClientExt>::call, (client, url, from, to, data, height), res),
    ensures
        has_counted_on(old(client)@, final(client)@, 1),
        res matches Ok(Step::Send(batch, Awaiting::Answer)) && {
            let sent = batch.requests@[0].params@;
            let message = sent["params"@]->List_0[0]->Object_0;
            &&& batch.requests@.len() == 1
            &&& batch.requests@[0].url@ == url@
            &&& sent["jsonrpc"@] == Json::Str("2.0"@)
            &&& sent["method"@] == Json::Str("eth_call"@)
            &&& sent["id"@] == Json::Int(final(client)@.id)
            &&& sent["params"@] == Json::List(seq![Json::Object(message), Json::Str(height@)])
            &&& sent.dom() == set!["jsonrpc"@, "method"@, "params"@, "id"@]
            &&& message.contains_key("to"@)
            &&& message["to"@] == Json::Str(to@)
            &&& message.contains_key("from"@) <==> from is Some
            &&& from matches Some(text) ==> message["from"@] == Json::Str(text@)
            &&& message.contains_key("data"@) <==> data is Some
            &&& data matches Some(text) ==> message["data"@] == Json::Str(text@)
            &&& message.dom().subset_of(set!["to"@, "from"@, "data"@])
        },
{
    law_request_uses_up_one_identifier(old(client)@);
    law_call_message(
        old(client)@,
        url@,
        optional_text(from),
        to@,
        optional_text(data),
        height@,
        AwaitingView::Answer,
        final(client)@,
        res,
    );
}

/// The height of the chain is asked for by the number of the last block, and is what is waited for.
pub proof fn law_current_height_is_asked_for(client: &mut Client, url: &str, step: Step)
    requires
        call_ensures(Client::get_current_height, (client, url), step),
    ensures
        has_counted_on(old(client)@, final(client)@, 1),
        step matches Step::Send(batch, Awaiting::Height) && {
            &&& batch.requests@.len() == 1
            &&& batch.requests@[0].url@ == url@
            &&& batch.requests@[0].params@ == map![
                "jsonrpc"@ => Json::Str("2.0"@),
                "method"@ => Json::Str("cita_blockNumber"@),
                "id"@ => Json::Int(final(client)@.id),
            ]
        },
{
    law_request_uses_up_one_identifier(old(client)@);
    law_height_is_asked_for(old(client)@, url@, AwaitingView::Height, step);
}

/// A new client has sent nothing, traces nothing, and knows neither its chain nor a key.
pub proof fn law_new_client(client: Client)
    requires
        call_ensures(Client::new, (), client),
    ensures
        client@.id == 0,
        client@.chain_id is None,
        client@.sha3_private_key is None,
        client@.blake2b_private_key is None,
        !client@.debug,
{
}

/// The chain that is set is the one that the client knows; nothing else changes.
pub proof fn law_chain_is_set(client: &mut Client, chain_id: u32, res: &mut Client)
    requires
        call_ensures(Client::set_chain_id, (client, chain_id), res),
    ensures
        *final(client) == *final(res),
        old(res)@.chain_id == Some(chain_id),
        old(res)@.id == old(client)@.id,
        old(res)@.sha3_private_key == old(client)@.sha3_private_key,
        old(res)@.blake2b_private_key == old(client)@.blake2b_private_key,
        old(res)@.debug == old(client)@.debug,
{
}

/// A key that is set takes the place of the one of its kind; the other stays, and so does all else.
/// No key changes nothing.
pub proof fn law_key_is_set(client: &mut Client, private_key: PrivateKey, res: &mut Client)
    requires
        call_ensures(Client::set_private_key, (client, private_key), res),
    ensures
        *final(client) == *final(res),
        old(res)@.sha3_private_key == match private_key {
            PrivateKey::Sha3(key) => Some(key),
            _ => old(client)@.sha3_private_key,
        },
        old(res)@.blake2b_private_key == match private_key {
            PrivateKey::Blake2b(key) => Some(key),
            _ => old(client)@.blake2b_private_key,
        },
        old(res)@.id == old(client)@.id,
        old(res)@.chain_id == old(client)@.chain_id,
        old(res)@.debug == old(client)@.debug,
{
}

/// The keys that a client tells are those that it has.
pub proof fn law_keys_are_told(
    client: Client,
    sha3: Option<&Sha3PrivKey>,
    blake2b: Option<&Blake2bPrivKey>,
)
    requires
        call_ensures(Client::sha3_private_key, (&client,), sha3),
        call_ensures(Client::blake2b_private_key, (&client,), blake2b),
    ensures
        sha3 is Some <==> client@.sha3_private_key is Some,
        sha3 matches Some(key) ==> client@.sha3_private_key == Some(*key),
        blake2b is Some <==> client@.blake2b_private_key is Some,
        blake2b matches Some(key) ==> client@.blake2b_private_key == Some(*key),
{
}

/// The mode that is set is the one that is told; nothing else changes.
pub proof fn law_debug_mode_is_set(client: Client, mode: bool, after: Client, told: bool)
    requires
        call_ensures(Client::set_debug, (client, mode), after),
        call_ensures(Client::debug, (&after,), told),
    ensures
        told == mode,
        after@.debug == mode,
        after@.id == client@.id,
        after@.chain_id == client@.chain_id,
        after@.sha3_private_key == client@.sha3_private_key,
        after@.blake2b_private_key == client@.blake2b_private_key,
{
}

/// A member that is given to a request is read back; every other member reads as before.
pub proof fn law_given_members_are_read_back(
    params: JsonRpcParams,
    key: &str,
    value: ParamsValue,
    after: JsonRpcParams,
    other: &str,
    before: Option<&ParamsValue>,
    found: Option<&ParamsValue>,
)
    requires
        call_ensures(JsonRpcParams::insert, (params, key, value), after),
        call_ensures(JsonRpcParams::get, (&params, other), before),
        call_ensures(JsonRpcParams::get, (&after, other), found),
    ensures
        other@ == key@ ==> found is Some && found->0@ == value@,
        other@ != key@ ==> (found is Some <==> before is Some),
        other@ != key@ && found is Some ==> found->0@ == before->0@,
{
}

/// A value that an object is given is read back; every other key reads as before. A new object has
/// no key.
pub proof fn law_given_values_are_read_back(
    object: JsonObject,
    key: &str,
    value: ParamsValue,
    after: JsonObject,
    other: &str,
    before: Option<&ParamsValue>,
    found: Option<&ParamsValue>,
)
    requires
        call_ensures(JsonObject::insert, (object, key, value), after),
        call_ensures(JsonObject::get, (&object, other), before),
        call_ensures(JsonObject::get, (&after, other), found),
    ensures
        other@ == key@ ==> found is Some && found->0@ == value@,
        other@ != key@ ==> (found is Some <==> before is Some),
        other@ != key@ && found is Some ==> found->0@ == before->0@,
        call_ensures(JsonObject::new, (), object) ==> before is None,
{
}

/// The entries of the members of a request are what it reads: no key occurs twice, each entry is
/// found under its key, and what is found is an entry.
pub proof fn law_members_are_entries(
    params: JsonRpcParams,
    object: &JsonObject,
    entries: &Vec<(String, ParamsValue)>,
    key: &str,
    found: Option<&ParamsValue>,
)
    requires
        call_ensures(JsonRpcParams::members, (&params,), object),
        call_ensures(JsonObject::entries, (object,), entries),
        call_ensures(JsonRpcParams::get, (&params, key), found),
    ensures
        forall|i: int, j: int|
            0 <= i < j < entries@.len() ==> #[trigger] entries@[i].0@ != #[trigger] entries@[j].0@,
        found is Some <==> exists|i: int| 0 <= i < entries@.len() && #[trigger] entries@[i].0@ == key@,
        forall|i: int|
            0 <= i < entries@.len() && #[trigger] entries@[i].0@ == key@ ==> found is Some && found->0@
                == entries@[i].1@,
{
    lemma_json_map_domain(entries@, key@);
    assert forall|i: int| 0 <= i < entries@.len() && #[trigger] entries@[i].0@ == key@ implies found is Some
        && found->0@ == entries@[i].1@ by {
        lemma_json_map_index(entries@, i);
    }
}

}
