//! What becomes of a transaction, from what was asked for to what is signed and sent.

use crate::abi::{abi_string, lemma_big_endian_len, padded};
use crate::amend_ext::{AmendExt, AMEND_ABI, AMEND_ADDRESS, AMEND_CODE, AMEND_KV_H256};
use crate::client::Client;
use crate::client_ext::{chosen_scheme, ClientExt};
use crate::contract_ext::{address_call, ContractExt, NODE_MANAGER_ADDRESS};
use crate::digits::{digit_value, hex_bytes, hex_text, high_half, is_hex_digit, is_hex_form, lower_digit, DecodeError};
use crate::laws::{
    law_abi_code_data, law_abi_layout, law_address_call_data, law_amended_value_data, law_decoding_undoes_encoding,
    law_joined_codes, law_nonce_has_32_digits, law_request_members, word_value,
};
use crate::laws_replies::law_digits_stand_for_their_places;
use crate::laws_requests::{
    has_counted_on, is_spelled, law_height_is_asked_for, law_one_request_goes_out, law_request_uses_up_one_identifier,
    lemma_spelled,
};
use crate::reply::prefixed_quantity;
use crate::rpc::JsonRpcResponse;
use crate::step::{
    draft_of, is_transaction_started, metadata_request, transaction_request, Awaiting, AwaitingView, ClientState,
    Outcome, Step, ToolError,
};
use crate::store_ext::{abi_code, StoreExt, ABI_ADDRESS, STORE_ADDRESS};
use crate::transaction::{
    complete_draft, is_nonce, is_random_uuid, prepare_signing, Draft, Purpose, Scheme, SigningJob, SigningKey,
};
use crate::value::{Json, ParamsValue, ResponseValue};
use vstd::prelude::*;
use vstd::utf8::*;

verus! {

/// The digits of bytes: two for each, in order, the place of the high half before that of the low.
pub proof fn law_digits_of_bytes(bytes: Seq<u8>, i: int)
    requires
        0 <= i < bytes.len(),
    ensures
        hex_text(bytes).len() == 2 * bytes.len(),
        hex_text(bytes)[2 * i] == "0123456789abcdef"@[bytes[i] as int / 16],
        hex_text(bytes)[2 * i + 1] == "0123456789abcdef"@[bytes[i] as int % 16],
{
    law_digits_stand_for_their_places(bytes[i] as int / 16);
    law_digits_stand_for_their_places(bytes[i] as int % 16);
}

/// What is signed is what was drafted, field by field: target, data, quota and value as they were
/// asked for, one million where no quota was and zero where no value was; the last block, the chain
/// and the key as they were handed in; the digits of the bytes that were handed in as the nonce.
pub proof fn law_drafts_are_signed_as_asked_for(
    draft: Draft,
    valid_until_block: u64,
    chain_id: u32,
    key: SigningKey,
    nonce: &[u8],
    job: SigningJob,
)
    requires
        call_ensures(complete_draft, (draft, valid_until_block, chain_id, key, nonce), job),
    ensures
        job.transaction.to@ == draft.to@,
        job.transaction.data@ == draft.data@,
        draft.quota matches Some(quota) ==> job.transaction.quota == quota,
        draft.quota is None ==> job.transaction.quota == 1_000_000,
        draft.value matches Some(value) ==> job.transaction.value == value,
        draft.value is None ==> job.transaction.value == 0,
        job.transaction.valid_until_block == valid_until_block,
        job.transaction.chain_id == chain_id,
        job.transaction.nonce@ == hex_text(nonce@),
        job.key == key,
        job.url@ == draft.url@,
        job.purpose == draft.purpose,
{
}

/// What is signed with a fresh nonce is what was drafted, too.
pub proof fn law_fresh_nonce_changes_nothing_else(
    draft: Draft,
    valid_until_block: u64,
    chain_id: u32,
    key: SigningKey,
    job: SigningJob,
)
    requires
        call_ensures(prepare_signing, (draft, valid_until_block, chain_id, key), job),
    ensures
        job.transaction.to@ == draft.to@,
        job.transaction.data@ == draft.data@,
        draft.quota matches Some(quota) ==> job.transaction.quota == quota,
        draft.quota is None ==> job.transaction.quota == 1_000_000,
        draft.value matches Some(value) ==> job.transaction.value == value,
        draft.value is None ==> job.transaction.value == 0,
        job.transaction.valid_until_block == valid_until_block,
        job.transaction.chain_id == chain_id,
        is_nonce(job.transaction.nonce@),
        job.key == key,
        job.url@ == draft.url@,
        job.purpose == draft.purpose,
{
}

/// A call for a transaction starts exactly where its code is digits in pairs. Then the node is asked
/// for its height, and what was asked for is kept, the code as the bytes of its pairs. Otherwise
/// nothing is sent, the client stays as it is, and the first fault is told.
pub proof fn law_transaction_is_drafted_as_asked_for(
    client: ClientState,
    url: Seq<char>,
    code: Seq<char>,
    address: Seq<char>,
    current_height: Option<u64>,
    quota: Option<u64>,
    value: Option<u64>,
    scheme: Scheme,
    purpose: Purpose,
    after: ClientState,
    res: Result<Step, ToolError>,
)
    requires
        is_transaction_started(
            client,
            code,
            draft_of(url, code, address, current_height, quota, value, scheme, purpose),
            after,
            res,
        ),
    ensures
        res is Ok <==> encode_utf8(code).len() % 2 == 0 && forall|i: int|
            0 <= i < encode_utf8(code).len() ==> {
                ||| 0x30 <= #[trigger] encode_utf8(code)[i] <= 0x39
                ||| 0x41 <= encode_utf8(code)[i] <= 0x46
                ||| 0x61 <= encode_utf8(code)[i] <= 0x66
            },
        res is Ok ==> {
            &&& res->Ok_0 matches Step::Send(batch, Awaiting::DraftHeight(draft)) && {
                &&& batch.requests@.len() == 1
                &&& batch.requests@[0].url@ == url
                &&& batch.requests@[0].params@ == map![
                    "jsonrpc"@ => Json::Str("2.0"@),
                    "method"@ => Json::Str("cita_blockNumber"@),
                    "id"@ => Json::Int(after.id),
                ]
                &&& draft.url@ == url
                &&& draft.to@ == address
                &&& draft.current_height == current_height
                &&& draft.quota == quota
                &&& draft.value == value
                &&& draft.scheme == scheme
                &&& draft.purpose == purpose
                &&& draft.data@.len() == encode_utf8(code).len() / 2
                &&& forall|i: int|
                    0 <= i < draft.data@.len() ==> #[trigger] draft.data@[i] == 16 * digit_value(
                        encode_utf8(code)[2 * i],
                    ) + digit_value(encode_utf8(code)[2 * i + 1])
                &&& forall|bytes: Seq<u8>| code == #[trigger] hex_text(bytes) ==> draft.data@ == bytes
            }
            &&& after.id == (client.id + 1) % 0x1_0000_0000_0000_0000
            &&& after.chain_id == client.chain_id
            &&& after.sha3_private_key == client.sha3_private_key
            &&& after.blake2b_private_key == client.blake2b_private_key
            &&& after.debug == client.debug
        },
        res matches Err(ToolError::Decode(fault)) ==> {
            &&& after == client
            &&& encode_utf8(code).len() % 2 != 0 ==> fault is OddLength
            &&& encode_utf8(code).len() % 2 == 0 ==> {
                &&& fault matches DecodeError::InvalidHexCharacter { c, index } && {
                    &&& index < encode_utf8(code).len()
                    &&& c == encode_utf8(code)[index as int] as char
                    &&& !(0x30 <= encode_utf8(code)[index as int] <= 0x39)
                    &&& !(0x41 <= encode_utf8(code)[index as int] <= 0x46)
                    &&& !(0x61 <= encode_utf8(code)[index as int] <= 0x66)
                    &&& forall|i: int|
                        0 <= i < index ==> {
                            ||| 0x30 <= #[trigger] encode_utf8(code)[i] <= 0x39
                            ||| 0x41 <= encode_utf8(code)[i] <= 0x46
                            ||| 0x61 <= encode_utf8(code)[i] <= 0x66
                        }
                }
            }
        },
{
    let text = encode_utf8(code);
    match res {
        Ok(step) => {
            let awaiting = AwaitingView::DraftHeight(
                draft_of(url, code, address, current_height, quota, value, scheme, purpose),
            );
            law_request_uses_up_one_identifier(client);
            law_height_is_asked_for(client, url, awaiting, step);
            let draft = step->Send_1->DraftHeight_0;
            assert forall|i: int| 0 <= i < draft.data@.len() implies #[trigger] draft.data@[i] == 16
                * digit_value(text[2 * i]) + digit_value(text[2 * i + 1]) by {
                assert(is_hex_digit(text[2 * i]));
                assert(is_hex_digit(text[2 * i + 1]));
            }
            assert forall|bytes: Seq<u8>| code == #[trigger] hex_text(bytes) implies draft.data@ == bytes by {
                law_decoding_undoes_encoding(bytes);
            }
            assert forall|i: int| 0 <= i < text.len() implies {
                ||| 0x30 <= #[trigger] text[i] <= 0x39
                ||| 0x41 <= text[i] <= 0x46
                ||| 0x61 <= text[i] <= 0x66
            } by {
                assert(is_hex_digit(text[i]));
            }
        },
        Err(ToolError::Decode(fault)) => {
            if let DecodeError::InvalidHexCharacter { c, index } = fault {
                assert forall|i: int| 0 <= i < index implies {
                    ||| 0x30 <= #[trigger] text[i] <= 0x39
                    ||| 0x41 <= text[i] <= 0x46
                    ||| 0x61 <= text[i] <= 0x66
                } by {
                    assert(text.take(index as int)[i] == text[i]);
                    assert(is_hex_digit(text[i]));
                }
            }
        },
    }
}

/// When the replies with the height let the call go on: there is one, and the last is a text of two
/// bytes at least with a number; 88 more than the height that was asked for, or than the number where none was, has 64
/// bits; and where the chain is known, so is the key of the scheme.
pub proof fn law_height_that_a_draft_can_use(
    client: Client,
    draft: Draft,
    replies: Vec<JsonRpcResponse>,
    accepted: bool,
)
    requires
        call_ensures(Client::accepts, (&client, &Awaiting::DraftHeight(draft), &replies), accepted),
    ensures
        accepted <==> replies@.len() > 0 && match replies@.last().result {
            Some(ResponseValue::Singe(ParamsValue::String(text))) => {
                &&& encode_utf8(text@).len() >= 2
                &&& prefixed_quantity(text@) is Some
                &&& draft.current_height matches Some(height) ==> height + 88 <= u64::MAX
                &&& draft.current_height is None ==> prefixed_quantity(text@)->0 + 88 <= u64::MAX
                &&& client@.chain_id is Some && draft.scheme is Sha3 ==> client@.sha3_private_key is Some
                &&& client@.chain_id is Some && draft.scheme is Blake2b ==> client@.blake2b_private_key is Some
            },
            _ => false,
        },
{
}

/// What a reply with the height leads to. The transaction is valid for 88 blocks behind the height
/// that was asked for, whatever height the node tells, and behind the one that the node tells where
/// none was. A client that knows its chain has the transaction signed, as it was drafted. Any other
/// asks the node for its latest metadata, and keeps the draft and the last block.
pub proof fn law_height_sets_the_last_block(
    client: &mut Client,
    draft: Draft,
    text: String,
    replies: Vec<JsonRpcResponse>,
    step: Step,
)
    requires
        replies@.last().result == Some(ResponseValue::Singe(ParamsValue::String(text))),
        call_ensures(Client::accepts, (&*old(client), &Awaiting::DraftHeight(draft), &replies), true),
        call_ensures(Client::resume, (client, Awaiting::DraftHeight(draft), replies), step),
    ensures
        old(client)@.chain_id matches Some(chain_id) ==> {
            &&& final(client)@ == old(client)@
            &&& step matches Step::Sign(job) && {
                &&& draft.current_height matches Some(height) ==> job.transaction.valid_until_block == height + 88
                &&& draft.current_height is None ==> job.transaction.valid_until_block == prefixed_quantity(
                    text@,
                )->0 + 88
                &&& job.transaction.chain_id == chain_id
                &&& job.transaction.to@ == draft.to@
                &&& job.transaction.data@ == draft.data@
                &&& draft.quota matches Some(quota) ==> job.transaction.quota == quota
                &&& draft.quota is None ==> job.transaction.quota == 1_000_000
                &&& draft.value matches Some(value) ==> job.transaction.value == value
                &&& draft.value is None ==> job.transaction.value == 0
                &&& is_nonce(job.transaction.nonce@)
                &&& draft.scheme is Sha3 ==> Some(job.key) == Some(SigningKey::Sha3(old(client)@.sha3_private_key->0))
                &&& draft.scheme is Blake2b ==> Some(job.key) == Some(
                    SigningKey::Blake2b(old(client)@.blake2b_private_key->0),
                )
                &&& job.url@ == draft.url@
                &&& job.purpose == draft.purpose
            }
        },
        old(client)@.chain_id is None ==> {
            &&& has_counted_on(old(client)@, final(client)@, 1)
            &&& step matches Step::Send(batch, Awaiting::DraftChainId(kept, last)) && {
                &&& draft.current_height matches Some(height) ==> last == height + 88
                &&& draft.current_height is None ==> last == prefixed_quantity(text@)->0 + 88
                &&& kept.url@ == draft.url@
                &&& kept.to@ == draft.to@
                &&& kept.data@ == draft.data@
                &&& kept.current_height == draft.current_height
                &&& kept.quota == draft.quota
                &&& kept.value == draft.value
                &&& kept.scheme == draft.scheme
                &&& kept.purpose == draft.purpose
                &&& batch.requests@.len() == 1
                &&& batch.requests@[0].url@ == draft.url@
                &&& batch.requests@[0].params@ == map![
                    "jsonrpc"@ => Json::Str("2.0"@),
                    "method"@ => Json::Str("cita_getMetaData"@),
                    "params"@ => Json::List(seq![Json::Str("latest"@)]),
                    "id"@ => Json::Int(final(client)@.id),
                ]
            }
        },
{
    if old(client)@.chain_id is None {
        let awaiting = step@->Send_1;
        law_request_uses_up_one_identifier(old(client)@);
        law_one_request_goes_out(old(client)@, draft.url@, metadata_request("latest"@), awaiting, step);
        law_request_members("cita_getMetaData"@, seq![Json::Str("latest"@)], final(client)@.id);
    }
}

/// When the replies with the metadata let the call go on: there is one, an object in the last has the
/// member `chainId`, and the key of the scheme is known.
pub proof fn law_metadata_that_a_draft_can_use(
    client: Client,
    draft: Draft,
    last: u64,
    replies: Vec<JsonRpcResponse>,
    accepted: bool,
)
    requires
        call_ensures(Client::accepts, (&client, &Awaiting::DraftChainId(draft, last), &replies), accepted),
    ensures
        accepted <==> {
            &&& replies@.len() > 0
            &&& replies@.last().result matches Some(ResponseValue::Object(object)) ==> object@.contains_key("chainId"@)
            &&& draft.scheme is Sha3 ==> client@.sha3_private_key is Some
            &&& draft.scheme is Blake2b ==> client@.blake2b_private_key is Some
        },
{
}

/// What a reply with the metadata leads to: the transaction is signed as it was drafted, for the
/// chain that the metadata names, which the client keeps, or for chain zero where it names none.
pub proof fn law_metadata_sets_the_chain(
    client: &mut Client,
    draft: Draft,
    last: u64,
    replies: Vec<JsonRpcResponse>,
    step: Step,
)
    requires
        call_ensures(Client::accepts, (&*old(client), &Awaiting::DraftChainId(draft, last), &replies), true),
        call_ensures(Client::resume, (client, Awaiting::DraftChainId(draft, last), replies), step),
    ensures
        final(client)@.id == old(client)@.id,
        final(client)@.sha3_private_key == old(client)@.sha3_private_key,
        final(client)@.blake2b_private_key == old(client)@.blake2b_private_key,
        final(client)@.debug == old(client)@.debug,
        step matches Step::Sign(job) && {
            &&& match replies@.last().result {
                Some(ResponseValue::Object(object)) => match object@["chainId"@] {
                    Json::Int(number) => {
                        &&& job.transaction.chain_id == number as int % 0x1_0000_0000
                        &&& final(client)@.chain_id == Some(job.transaction.chain_id)
                    },
                    _ => job.transaction.chain_id == 0 && final(client)@.chain_id == old(client)@.chain_id,
                },
                _ => job.transaction.chain_id == 0 && final(client)@.chain_id == old(client)@.chain_id,
            }
            &&& job.transaction.valid_until_block == last
            &&& job.transaction.to@ == draft.to@
            &&& job.transaction.data@ == draft.data@
            &&& draft.quota matches Some(quota) ==> job.transaction.quota == quota
            &&& draft.quota is None ==> job.transaction.quota == 1_000_000
            &&& draft.value matches Some(value) ==> job.transaction.value == value
            &&& draft.value is None ==> job.transaction.value == 0
            &&& is_nonce(job.transaction.nonce@)
            &&& draft.scheme is Sha3 ==> Some(job.key) == Some(SigningKey::Sha3(old(client)@.sha3_private_key->0))
            &&& draft.scheme is Blake2b ==> Some(job.key) == Some(
                SigningKey::Blake2b(old(client)@.blake2b_private_key->0),
            )
            &&& job.url@ == draft.url@
            &&& job.purpose == draft.purpose
        },
{
}

/// A nonce is written in 32 lower-case digits.
pub proof fn law_nonce_digits(nonce: Seq<char>, i: int)
    requires
        is_nonce(nonce),
        0 <= i < 32,
    ensures
        nonce.len() == 32,
        '0' <= nonce[i] <= '9' || 'a' <= nonce[i] <= 'f',
        nonce[12] == '4',
        nonce[16] == '8' || nonce[16] == '9' || nonce[16] == 'a' || nonce[16] == 'b',
{
    law_nonce_has_32_digits(nonce);
    let bytes = choose|bytes: Seq<u8>|
        is_random_uuid(bytes) && nonce == #[trigger] hex_text(bytes);
    assert(nonce[16] == lower_digit(high_half(bytes[8])));
}

/// What a signed transaction leads to: its digits are the result of the call, or the only parameter
/// of the request that sends it to the node of the draft.
pub proof fn law_signed_transaction_is_used(client: &mut Client, job: SigningJob, signed: Vec<u8>, step: Step)
    requires
        call_ensures(Client::resume_signed, (client, job, signed), step),
    ensures
        job.purpose is Generate ==> {
            &&& final(client)@ == old(client)@
            &&& step matches Step::Done(Outcome::Transaction(text)) && text@ == hex_text(signed@)
        },
        job.purpose is Submit ==> {
            &&& has_counted_on(old(client)@, final(client)@, 1)
            &&& step matches Step::Send(batch, Awaiting::Answer) && {
                &&& batch.requests@.len() == 1
                &&& batch.requests@[0].url@ == job.url@
                &&& batch.requests@[0].params@ == map![
                    "jsonrpc"@ => Json::Str("2.0"@),
                    "method"@ => Json::Str("cita_sendTransaction"@),
                    "params"@ => Json::List(seq![Json::Str(hex_text(signed@))]),
                    "id"@ => Json::Int(final(client)@.id),
                ]
            }
        },
{
    if job.purpose is Submit {
        law_request_uses_up_one_identifier(old(client)@);
        law_one_request_goes_out(
            old(client)@,
            job.url@,
            transaction_request(hex_text(signed@)),
            AwaitingView::Answer,
            step,
        );
        law_request_members("cita_sendTransaction"@, seq![Json::Str(hex_text(signed@))], final(client)@.id);
    }
}

/// The way of a transaction from the call to the signature. Whatever the node tells in between, what
/// is signed has the target, the data, the quota and the value that the call was given, and is valid
/// for 88 blocks behind the height that the call was given, or that the node told where it was given
/// none.
pub proof fn law_transaction_from_call_to_signature(
    client: &mut Client,
    url: &str,
    code: &str,
    address: &str,
    current_height: Option<u64>,
    quota: Option<u64>,
    value: Option<u64>,
    blake2b: bool,
    res: Result<Step, ToolError>,
    text: String,
    heights: Vec<JsonRpcResponse>,
    started: &mut Client,
    asked: Step,
    metadata: Vec<JsonRpcResponse>,
    told: &mut Client,
    step: Step,
)
    requires
        is_hex_form(encode_utf8(code@)),
        call_ensures(
            <Client as ClientExt>::send_transaction,
            (client, url, code, address, current_height, quota, value, blake2b),
            res,
        ),
        *old(started) == *final(client),
        heights@.last().result == Some(ResponseValue::Singe(ParamsValue::String(text))),
        res matches Ok(Step::Send(_, awaiting)) ==> {
            &&& call_ensures(Client::accepts, (&*old(started), &awaiting, &heights), true)
            &&& call_ensures(Client::resume, (started, awaiting, heights), asked)
        },
        *old(told) == *final(started),
        match asked {
            Step::Send(_, awaiting) => {
                &&& call_ensures(Client::accepts, (&*old(told), &awaiting, &metadata), true)
                &&& call_ensures(Client::resume, (told, awaiting, metadata), step)
            },
            _ => step == asked,
        },
    ensures
        res is Ok,
        step matches Step::Sign(job) && {
            &&& job.transaction.to@ == address@
            &&& job.transaction.data@ == hex_bytes(encode_utf8(code@))
            &&& quota matches Some(given) ==> job.transaction.quota == given
            &&& quota is None ==> job.transaction.quota == 1_000_000
            &&& value matches Some(given) ==> job.transaction.value == given
            &&& value is None ==> job.transaction.value == 0
            &&& current_height matches Some(given) ==> job.transaction.valid_until_block == given + 88
            &&& current_height is None ==> job.transaction.valid_until_block == prefixed_quantity(text@)->0 + 88
            &&& old(client)@.chain_id matches Some(known) ==> job.transaction.chain_id == known
            &&& !blake2b ==> job.key == SigningKey::Sha3(old(client)@.sha3_private_key->0)
            &&& blake2b ==> job.key == SigningKey::Blake2b(old(client)@.blake2b_private_key->0)
            &&& job.url@ == url@
            &&& job.purpose is Submit
        },
{
    lemma_drafted(
        old(client)@,
        url@,
        code@,
        address@,
        current_height,
        quota,
        value,
        chosen_scheme(blake2b),
        Purpose::Submit,
        final(client)@,
        res,
    );
    let draft = res->Ok_0->Send_1->DraftHeight_0;
    law_height_sets_the_last_block(started, draft, text, heights, asked);
    if let Step::Send(_, Awaiting::DraftChainId(kept, last)) = asked {
        law_metadata_sets_the_chain(told, kept, last, metadata, step);
    }
}

/// What a call for a transaction gives: it starts exactly where its code is hexadecimal, asks the node
/// for its height, and keeps what was asked for. Otherwise the client stays as it is.
proof fn lemma_drafted(
    client: ClientState,
    url: Seq<char>,
    code: Seq<char>,
    address: Seq<char>,
    current_height: Option<u64>,
    quota: Option<u64>,
    value: Option<u64>,
    scheme: Scheme,
    purpose: Purpose,
    after: ClientState,
    res: Result<Step, ToolError>,
)
    requires
        is_transaction_started(
            client,
            code,
            draft_of(url, code, address, current_height, quota, value, scheme, purpose),
            after,
            res,
        ),
    ensures
        res is Ok <==> is_hex_form(encode_utf8(code)),
        res is Err ==> after == client,
        res is Ok ==> {
            &&& has_counted_on(client, after, 1)
            &&& res->Ok_0 matches Step::Send(batch, Awaiting::DraftHeight(draft)) && {
                &&& batch.requests@.len() == 1
                &&& batch.requests@[0].url@ == url
                &&& batch.requests@[0].params@ == map![
                    "jsonrpc"@ => Json::Str("2.0"@),
                    "method"@ => Json::Str("cita_blockNumber"@),
                    "id"@ => Json::Int(after.id),
                ]
                &&& draft.url@ == url
                &&& draft.data@ == hex_bytes(encode_utf8(code))
                &&& draft.to@ == address
                &&& draft.current_height == current_height
                &&& draft.quota == quota
                &&& draft.value == value
                &&& draft.scheme == scheme
                &&& draft.purpose == purpose
            }
        },
{
    law_transaction_is_drafted_as_asked_for(
        client,
        url,
        code,
        address,
        current_height,
        quota,
        value,
        scheme,
        purpose,
        after,
        res,
    );
}

/// A transaction that is sent is drafted as it was asked for, and is to be submitted. The flag chooses the
/// scheme.
pub proof fn law_send_transaction(
    client: &mut Client,
    url: &str,
    code: &str,
    address: &str,
    current_height: Option<u64>,
    quota: Option<u64>,
    value: Option<u64>,
    blake2b: bool,
    res: Result<Step, ToolError>,
)
    requires
        call_ensures(<Client as ClientExt>::send_transaction, (client, url, code, address, current_height, quota, value, blake2b), res),
    ensures
        res is Ok <==> is_hex_form(encode_utf8(code@)),
        res is Err ==> final(client)@ == old(client)@,
        res is Ok ==> {
            &&& has_counted_on(old(client)@, final(client)@, 1)
            &&& res->Ok_0 matches Step::Send(batch, Awaiting::DraftHeight(draft)) && {
                &&& batch.requests@.len() == 1
                &&& batch.requests@[0].url@ == url@
                &&& batch.requests@[0].params@ == map![
                    "jsonrpc"@ => Json::Str("2.0"@),
                    "method"@ => Json::Str("cita_blockNumber"@),
                    "id"@ => Json::Int(final(client)@.id),
                ]
                &&& draft.url@ == url@
                &&& draft.data@ == hex_bytes(encode_utf8(code@))
                &&& draft.to@ == address@
                &&& draft.current_height == current_height
                &&& draft.quota == quota
                &&& draft.value == value
                &&& draft.scheme is Blake2b <==> blake2b
                &&& draft.scheme is Sha3 <==> !blake2b
                &&& draft.purpose is Submit
            }
        },
{
    lemma_drafted(
        old(client)@,
        url@,
        code@,
        address@,
        current_height,
        quota,
        value,
        chosen_scheme(blake2b),
        Purpose::Submit,
        final(client)@,
        res,
    );
}

/// A transaction that is generated is drafted as it was asked for, and is to be handed back, signed over
/// its SHA-3 hash.
pub proof fn law_generate_transaction(
    client: &mut Client,
    url: &str,
    code: &str,
    address: &str,
    current_height: Option<u64>,
    quota: Option<u64>,
    value: Option<u64>,
    res: Result<Step, ToolError>,
)
    requires
        call_ensures(Client::generate_transaction, (client, url, code, address, current_height, quota, value), res),
    ensures
        res is Ok <==> is_hex_form(encode_utf8(code@)),
        res is Err ==> final(client)@ == old(client)@,
        res is Ok ==> {
            &&& has_counted_on(old(client)@, final(client)@, 1)
            &&& res->Ok_0 matches Step::Send(batch, Awaiting::DraftHeight(draft)) && {
                &&& batch.requests@.len() == 1
                &&& batch.requests@[0].url@ == url@
                &&& batch.requests@[0].params@ == map![
                    "jsonrpc"@ => Json::Str("2.0"@),
                    "method"@ => Json::Str("cita_blockNumber"@),
                    "id"@ => Json::Int(final(client)@.id),
                ]
                &&& draft.url@ == url@
                &&& draft.data@ == hex_bytes(encode_utf8(code@))
                &&& draft.to@ == address@
                &&& draft.current_height == current_height
                &&& draft.quota == quota
                &&& draft.value == value
                &&& draft.scheme is Sha3
                &&& draft.purpose is Generate
            }
        },
{
    lemma_drafted(
        old(client)@,
        url@,
        code@,
        address@,
        current_height,
        quota,
        value,
        Scheme::Sha3,
        Purpose::Generate,
        final(client)@,
        res,
    );
}

/// A transaction that is generated is drafted as it was asked for, and is to be handed back, signed over
/// its BLAKE2b hash.
pub proof fn law_generate_transaction_by_blake2b(
    client: &mut Client,
    url: &str,
    code: &str,
    address: &str,
    current_height: Option<u64>,
    quota: Option<u64>,
    value: Option<u64>,
    res: Result<Step, ToolError>,
)
    requires
        call_ensures(Client::generate_transaction_by_blake2b, (client, url, code, address, current_height, quota, value), res),
    ensures
        res is Ok <==> is_hex_form(encode_utf8(code@)),
        res is Err ==> final(client)@ == old(client)@,
        res is Ok ==> {
            &&& has_counted_on(old(client)@, final(client)@, 1)
            &&& res->Ok_0 matches Step::Send(batch, Awaiting::DraftHeight(draft)) && {
                &&& batch.requests@.len() == 1
                &&& batch.requests@[0].url@ == url@
                &&& batch.requests@[0].params@ == map![
                    "jsonrpc"@ => Json::Str("2.0"@),
                    "method"@ => Json::Str("cita_blockNumber"@),
                    "id"@ => Json::Int(final(client)@.id),
                ]
                &&& draft.url@ == url@
                &&& draft.data@ == hex_bytes(encode_utf8(code@))
                &&& draft.to@ == address@
                &&& draft.current_height == current_height
                &&& draft.quota == quota
                &&& draft.value == value
                &&& draft.scheme is Blake2b
                &&& draft.purpose is Generate
            }
        },
{
    lemma_drafted(
        old(client)@,
        url@,
        code@,
        address@,
        current_height,
        quota,
        value,
        Scheme::Blake2b,
        Purpose::Generate,
        final(client)@,
        res,
    );
}

/// A transfer always starts. It drafts a transaction without data that carries exactly the value to the
/// address.
pub proof fn law_transfer_carries_the_value(
    client: &mut Client,
    url: &str,
    value: u64,
    address: &str,
    quota: Option<u64>,
    blake2b: bool,
    res: Result<Step, ToolError>,
)
    requires
        call_ensures(Client::transfer, (client, url, value, address, quota, blake2b), res),
    ensures
        res is Ok,
        res is Ok ==> {
            &&& has_counted_on(old(client)@, final(client)@, 1)
            &&& res->Ok_0 matches Step::Send(batch, Awaiting::DraftHeight(draft)) && {
                &&& batch.requests@.len() == 1
                &&& batch.requests@[0].url@ == url@
                &&& batch.requests@[0].params@ == map![
                    "jsonrpc"@ => Json::Str("2.0"@),
                    "method"@ => Json::Str("cita_blockNumber"@),
                    "id"@ => Json::Int(final(client)@.id),
                ]
                &&& draft.url@ == url@
                &&& draft.data@ == Seq::<u8>::empty()
                &&& draft.to@ == address@
                &&& draft.current_height is None
                &&& draft.quota == quota
                &&& draft.value == Some(value)
                &&& draft.scheme is Blake2b <==> blake2b
                &&& draft.scheme is Sha3 <==> !blake2b
                &&& draft.purpose is Submit
            }
        },
{
    reveal_strlit("");
    assert(encode_utf8(""@).len() == 0);
    assert(hex_bytes(encode_utf8(""@)) =~= Seq::<u8>::empty());
    lemma_drafted(
        old(client)@,
        url@,
        ""@,
        address@,
        None,
        quota,
        Some(value),
        chosen_scheme(blake2b),
        Purpose::Submit,
        final(client)@,
        res,
    );
}

/// A node is downgraded by the contract that manages the nodes: the data calls its function with the
/// node, with a quota of a thousand. The address of the node has to be hexadecimal.
pub proof fn law_downgrade_transaction(
    client: &mut Client,
    url: &str,
    address: &str,
    digits: Seq<char>,
    blake2b: bool,
    res: Result<Step, ToolError>,
)
    requires
        call_ensures(<Client as ContractExt>::downgrade_consensus_node, (client, url, address, blake2b), res),
        is_spelled(address@, digits),
    ensures
        res is Ok <==> is_hex_form(encode_utf8(digits)),
        res is Err ==> final(client)@ == old(client)@,
        res is Ok ==> {
            &&& has_counted_on(old(client)@, final(client)@, 1)
            &&& res->Ok_0 matches Step::Send(batch, Awaiting::DraftHeight(draft)) && {
                &&& batch.requests@.len() == 1
                &&& batch.requests@[0].url@ == url@
                &&& batch.requests@[0].params@ == map![
                    "jsonrpc"@ => Json::Str("2.0"@),
                    "method"@ => Json::Str("cita_blockNumber"@),
                    "id"@ => Json::Int(final(client)@.id),
                ]
                &&& draft.url@ == url@
                &&& draft.data@ == seq![0x2du8, 0x4e, 0xde, 0x93] + Seq::new(12, |i: int| 0u8) + hex_bytes(
                    encode_utf8(digits),
                )
                &&& draft.to@ == "00000000000000000000000000000000013241a2"@
                &&& draft.current_height is None
                &&& draft.quota == Some(1000u64)
                &&& draft.value is None
                &&& draft.scheme is Blake2b <==> blake2b
                &&& draft.scheme is Sha3 <==> !blake2b
                &&& draft.purpose is Submit
            }
        },
{
    reveal_strlit("2d4ede93");
    let selector = seq![0x2du8, 0x4e, 0xde, 0x93];
    let code = address_call("2d4ede93"@, address@);
    assert("2d4ede93"@ =~= hex_text(selector));
    law_decoding_undoes_encoding(selector);
    lemma_spelled(address@, digits);
    law_address_call_data("2d4ede93"@, address@);
    lemma_drafted(
        old(client)@,
        url@,
        code,
        NODE_MANAGER_ADDRESS@,
        None,
        Some(1000),
        None,
        chosen_scheme(blake2b),
        Purpose::Submit,
        final(client)@,
        res,
    );
}

/// A node applies for promotion by a transaction to its own address, as it was given: the data calls
/// the function for it with the node, with a quota of three thousand.
pub proof fn law_new_consensus_node_transaction(
    client: &mut Client,
    url: &str,
    address: &str,
    digits: Seq<char>,
    blake2b: bool,
    res: Result<Step, ToolError>,
)
    requires
        call_ensures(<Client as ContractExt>::new_consensus_node, (client, url, address, blake2b), res),
        is_spelled(address@, digits),
    ensures
        res is Ok <==> is_hex_form(encode_utf8(digits)),
        res is Err ==> final(client)@ == old(client)@,
        res is Ok ==> {
            &&& has_counted_on(old(client)@, final(client)@, 1)
            &&& res->Ok_0 matches Step::Send(batch, Awaiting::DraftHeight(draft)) && {
                &&& batch.requests@.len() == 1
                &&& batch.requests@[0].url@ == url@
                &&& batch.requests@[0].params@ == map![
                    "jsonrpc"@ => Json::Str("2.0"@),
                    "method"@ => Json::Str("cita_blockNumber"@),
                    "id"@ => Json::Int(final(client)@.id),
                ]
                &&& draft.url@ == url@
                &&& draft.data@ == seq![0xddu8, 0xad, 0x2f, 0xfe] + Seq::new(12, |i: int| 0u8) + hex_bytes(
                    encode_utf8(digits),
                )
                &&& draft.to@ == address@
                &&& draft.current_height is None
                &&& draft.quota == Some(3000u64)
                &&& draft.value is None
                &&& draft.scheme is Blake2b <==> blake2b
                &&& draft.scheme is Sha3 <==> !blake2b
                &&& draft.purpose is Submit
            }
        },
{
    reveal_strlit("ddad2ffe");
    let selector = seq![0xddu8, 0xad, 0x2f, 0xfe];
    let code = address_call("ddad2ffe"@, address@);
    assert("ddad2ffe"@ =~= hex_text(selector));
    law_decoding_undoes_encoding(selector);
    lemma_spelled(address@, digits);
    law_address_call_data("ddad2ffe"@, address@);
    lemma_drafted(
        old(client)@,
        url@,
        code,
        address@,
        None,
        Some(3000),
        None,
        chosen_scheme(blake2b),
        Purpose::Submit,
        final(client)@,
        res,
    );
}

/// A node is approved by a transaction to its own address, as it was given: the data calls the
/// function for it with the node, with a quota of three thousand.
pub proof fn law_approve_node_transaction(
    client: &mut Client,
    url: &str,
    address: &str,
    digits: Seq<char>,
    blake2b: bool,
    res: Result<Step, ToolError>,
)
    requires
        call_ensures(<Client as ContractExt>::approve_node, (client, url, address, blake2b), res),
        is_spelled(address@, digits),
    ensures
        res is Ok <==> is_hex_form(encode_utf8(digits)),
        res is Err ==> final(client)@ == old(client)@,
        res is Ok ==> {
            &&& has_counted_on(old(client)@, final(client)@, 1)
            &&& res->Ok_0 matches Step::Send(batch, Awaiting::DraftHeight(draft)) && {
                &&& batch.requests@.len() == 1
                &&& batch.requests@[0].url@ == url@
                &&& batch.requests@[0].params@ == map![
                    "jsonrpc"@ => Json::Str("2.0"@),
                    "method"@ => Json::Str("cita_blockNumber"@),
                    "id"@ => Json::Int(final(client)@.id),
                ]
                &&& draft.url@ == url@
                &&& draft.data@ == seq![0xddu8, 0x4c, 0x97, 0xa0] + Seq::new(12, |i: int| 0u8) + hex_bytes(
                    encode_utf8(digits),
                )
                &&& draft.to@ == address@
                &&& draft.current_height is None
                &&& draft.quota == Some(3000u64)
                &&& draft.value is None
                &&& draft.scheme is Blake2b <==> blake2b
                &&& draft.scheme is Sha3 <==> !blake2b
                &&& draft.purpose is Submit
            }
        },
{
    reveal_strlit("dd4c97a0");
    let selector = seq![0xddu8, 0x4c, 0x97, 0xa0];
    let code = address_call("dd4c97a0"@, address@);
    assert("dd4c97a0"@ =~= hex_text(selector));
    law_decoding_undoes_encoding(selector);
    lemma_spelled(address@, digits);
    law_address_call_data("dd4c97a0"@, address@);
    lemma_drafted(
        old(client)@,
        url@,
        code,
        address@,
        None,
        Some(3000),
        None,
        chosen_scheme(blake2b),
        Purpose::Submit,
        final(client)@,
        res,
    );
}

/// Data is stored by a transaction to the address for it, which carries exactly the data.
pub proof fn law_store_data_transaction(
    client: &mut Client,
    url: &str,
    content: &str,
    digits: Seq<char>,
    quota: Option<u64>,
    blake2b: bool,
    res: Result<Step, ToolError>,
)
    requires
        call_ensures(<Client as StoreExt>::store_data, (client, url, content, quota, blake2b), res),
        is_spelled(content@, digits),
    ensures
        res is Ok <==> is_hex_form(encode_utf8(digits)),
        res is Err ==> final(client)@ == old(client)@,
        res is Ok ==> {
            &&& has_counted_on(old(client)@, final(client)@, 1)
            &&& res->Ok_0 matches Step::Send(batch, Awaiting::DraftHeight(draft)) && {
                &&& batch.requests@.len() == 1
                &&& batch.requests@[0].url@ == url@
                &&& batch.requests@[0].params@ == map![
                    "jsonrpc"@ => Json::Str("2.0"@),
                    "method"@ => Json::Str("cita_blockNumber"@),
                    "id"@ => Json::Int(final(client)@.id),
                ]
                &&& draft.url@ == url@
                &&& draft.data@ == hex_bytes(encode_utf8(digits))
                &&& draft.to@ == "ffffffffffffffffffffffffffffffffffffffff"@
                &&& draft.current_height is None
                &&& draft.quota == quota
                &&& draft.value is None
                &&& draft.scheme is Blake2b <==> blake2b
                &&& draft.scheme is Sha3 <==> !blake2b
                &&& draft.purpose is Submit
            }
        },
{
    lemma_spelled(content@, digits);
    lemma_drafted(
        old(client)@,
        url@,
        digits,
        STORE_ADDRESS@,
        None,
        quota,
        None,
        chosen_scheme(blake2b),
        Purpose::Submit,
        final(client)@,
        res,
    );
}

/// The bytes of a word count from the highest: a byte more makes 256 times the number and that byte.
pub proof fn law_words_are_numbers(word: Seq<u8>, byte: u8)
    ensures
        word_value(Seq::empty()) == 0,
        word_value(word.push(byte)) == 256 * word_value(word) + byte,
{
    assert(word.push(byte).drop_last() =~= word);
}

/// The ABI form of a text: whole words; where the text starts, how long it is, its bytes, and zeros
/// up to the end of the last word, no more than that.
pub proof fn law_abi_form(bytes: Seq<u8>, i: int)
    requires
        bytes.len() <= u64::MAX,
    ensures
        abi_string(bytes).len() % 32 == 0,
        64 + bytes.len() <= abi_string(bytes).len() < 64 + bytes.len() + 32,
        word_value(abi_string(bytes).subrange(0, 32)) == 32,
        word_value(abi_string(bytes).subrange(32, 64)) == bytes.len(),
        abi_string(bytes).subrange(64, 64 + bytes.len() as int) == bytes,
        64 + bytes.len() <= i < abi_string(bytes).len() ==> abi_string(bytes)[i] == 0,
{
    law_abi_layout(bytes);
    lemma_big_endian_len(32, 32);
    lemma_big_endian_len(bytes.len(), 32);
    assert(abi_string(bytes).len() == 64 + padded(bytes).len());
    if 64 + bytes.len() <= i < abi_string(bytes).len() {
        assert(abi_string(bytes)[i] == padded(bytes)[i - 64]);
    }
}

/// An ABI is stored by a transaction to the address for it, with the bytes of the contract and the
/// ABI form of the text. The address of the contract has to be hexadecimal, the text can be any.
pub proof fn law_store_abi_transaction(
    client: &mut Client,
    url: &str,
    address: &str,
    digits: Seq<char>,
    content: String,
    quota: Option<u64>,
    blake2b: bool,
    res: Result<Step, ToolError>,
)
    requires
        call_ensures(<Client as StoreExt>::store_abi, (client, url, address, content, quota, blake2b), res),
        is_spelled(address@, digits),
    ensures
        res is Ok <==> is_hex_form(encode_utf8(digits)),
        res is Err ==> final(client)@ == old(client)@,
        res is Ok ==> {
            &&& has_counted_on(old(client)@, final(client)@, 1)
            &&& res->Ok_0 matches Step::Send(batch, Awaiting::DraftHeight(draft)) && {
                &&& batch.requests@.len() == 1
                &&& batch.requests@[0].url@ == url@
                &&& batch.requests@[0].params@ == map![
                    "jsonrpc"@ => Json::Str("2.0"@),
                    "method"@ => Json::Str("cita_blockNumber"@),
                    "id"@ => Json::Int(final(client)@.id),
                ]
                &&& draft.url@ == url@
                &&& draft.data@ == hex_bytes(encode_utf8(digits)) + abi_string(encode_utf8(content@))
                &&& draft.to@ == "aaaaaaaaaaaaaaaaaaaaaaaaaaaaaaaaaaaaaaaa"@
                &&& draft.current_height is None
                &&& draft.quota == quota
                &&& draft.value is None
                &&& draft.scheme is Blake2b <==> blake2b
                &&& draft.scheme is Sha3 <==> !blake2b
                &&& draft.purpose is Submit
            }
        },
{
    lemma_spelled(address@, digits);
    law_abi_code_data(address@, content@);
    lemma_drafted(
        old(client)@,
        url@,
        abi_code(address@, content@),
        ABI_ADDRESS@,
        None,
        quota,
        None,
        chosen_scheme(blake2b),
        Purpose::Submit,
        final(client)@,
        res,
    );
}

/// An ABI is amended by a transaction to the address for amendments with the value one: the bytes of
/// the contract and the ABI form of the text.
pub proof fn law_amend_abi_transaction(
    client: &mut Client,
    url: &str,
    address: &str,
    digits: Seq<char>,
    content: String,
    quota: Option<u64>,
    blake2b: bool,
    res: Result<Step, ToolError>,
)
    requires
        call_ensures(<Client as AmendExt>::amend_abi, (client, url, address, content, quota, blake2b), res),
        is_spelled(address@, digits),
    ensures
        res is Ok <==> is_hex_form(encode_utf8(digits)),
        res is Err ==> final(client)@ == old(client)@,
        res is Ok ==> {
            &&& has_counted_on(old(client)@, final(client)@, 1)
            &&& res->Ok_0 matches Step::Send(batch, Awaiting::DraftHeight(draft)) && {
                &&& batch.requests@.len() == 1
                &&& batch.requests@[0].url@ == url@
                &&& batch.requests@[0].params@ == map![
                    "jsonrpc"@ => Json::Str("2.0"@),
                    "method"@ => Json::Str("cita_blockNumber"@),
                    "id"@ => Json::Int(final(client)@.id),
                ]
                &&& draft.url@ == url@
                &&& draft.data@ == hex_bytes(encode_utf8(digits)) + abi_string(encode_utf8(content@))
                &&& draft.to@ == "cccccccccccccccccccccccccccccccccccccccc"@
                &&& draft.current_height is None
                &&& draft.quota == quota
                &&& draft.value == Some(1u64)
                &&& draft.scheme is Blake2b <==> blake2b
                &&& draft.scheme is Sha3 <==> !blake2b
                &&& draft.purpose is Submit
            }
        },
{
    lemma_spelled(address@, digits);
    law_abi_code_data(address@, content@);
    lemma_drafted(
        old(client)@,
        url@,
        abi_code(address@, content@),
        AMEND_ADDRESS@,
        None,
        quota,
        Some(AMEND_ABI as u64),
        chosen_scheme(blake2b),
        Purpose::Submit,
        final(client)@,
        res,
    );
}

/// Code is amended by a transaction to the address for amendments with the value two: the bytes of
/// the contract, then the code.
pub proof fn law_amend_code_transaction(
    client: &mut Client,
    url: &str,
    address: &str,
    digits: Seq<char>,
    content: &str,
    code: Seq<char>,
    quota: Option<u64>,
    blake2b: bool,
    res: Result<Step, ToolError>,
)
    requires
        call_ensures(<Client as AmendExt>::amend_code, (client, url, address, content, quota, blake2b), res),
        is_spelled(address@, digits),
        is_spelled(content@, code),
    ensures
        res is Ok <==> is_hex_form(encode_utf8(digits + code)),
        res is Err ==> final(client)@ == old(client)@,
        res is Ok ==> {
            &&& has_counted_on(old(client)@, final(client)@, 1)
            &&& res->Ok_0 matches Step::Send(batch, Awaiting::DraftHeight(draft)) && {
                &&& batch.requests@.len() == 1
                &&& batch.requests@[0].url@ == url@
                &&& batch.requests@[0].params@ == map![
                    "jsonrpc"@ => Json::Str("2.0"@),
                    "method"@ => Json::Str("cita_blockNumber"@),
                    "id"@ => Json::Int(final(client)@.id),
                ]
                &&& draft.url@ == url@
                &&& draft.data@ == hex_bytes(encode_utf8(digits + code))
                &&& is_hex_form(encode_utf8(digits)) ==> draft.data@ == hex_bytes(encode_utf8(digits)) + hex_bytes(
                    encode_utf8(code),
                )
                &&& draft.to@ == "cccccccccccccccccccccccccccccccccccccccc"@
                &&& draft.current_height is None
                &&& draft.quota == quota
                &&& draft.value == Some(2u64)
                &&& draft.scheme is Blake2b <==> blake2b
                &&& draft.scheme is Sha3 <==> !blake2b
                &&& draft.purpose is Submit
            }
        },
{
    lemma_spelled(address@, digits);
    lemma_spelled(content@, code);
    if is_hex_form(encode_utf8(digits)) {
        law_joined_codes(digits, code);
    }
    lemma_drafted(
        old(client)@,
        url@,
        digits + code,
        AMEND_ADDRESS@,
        None,
        quota,
        Some(AMEND_CODE as u64),
        chosen_scheme(blake2b),
        Purpose::Submit,
        final(client)@,
        res,
    );
}

/// A stored value is amended by a transaction to the address for amendments with the value three:
/// the bytes of the contract, of the key, and of the value.
pub proof fn law_amend_h256kv_transaction(
    client: &mut Client,
    url: &str,
    address: &str,
    digits: Seq<char>,
    h256_key: &str,
    key: Seq<char>,
    h256_value: &str,
    stored: Seq<char>,
    quota: Option<u64>,
    blake2b: bool,
    res: Result<Step, ToolError>,
)
    requires
        call_ensures(<Client as AmendExt>::amend_h256kv, (client, url, address, h256_key, h256_value, quota, blake2b), res),
        is_spelled(address@, digits),
        is_spelled(h256_key@, key),
        is_spelled(h256_value@, stored),
    ensures
        res is Ok <==> is_hex_form(encode_utf8(digits + key + stored)),
        res is Err ==> final(client)@ == old(client)@,
        res is Ok ==> {
            &&& has_counted_on(old(client)@, final(client)@, 1)
            &&& res->Ok_0 matches Step::Send(batch, Awaiting::DraftHeight(draft)) && {
                &&& batch.requests@.len() == 1
                &&& batch.requests@[0].url@ == url@
                &&& batch.requests@[0].params@ == map![
                    "jsonrpc"@ => Json::Str("2.0"@),
                    "method"@ => Json::Str("cita_blockNumber"@),
                    "id"@ => Json::Int(final(client)@.id),
                ]
                &&& draft.url@ == url@
                &&& draft.data@ == hex_bytes(encode_utf8(digits + key + stored))
                &&& is_hex_form(encode_utf8(digits)) && is_hex_form(encode_utf8(key)) ==> draft.data@ == hex_bytes(
                    encode_utf8(digits),
                ) + hex_bytes(encode_utf8(key)) + hex_bytes(encode_utf8(stored))
                &&& draft.to@ == "cccccccccccccccccccccccccccccccccccccccc"@
                &&& draft.current_height is None
                &&& draft.quota == quota
                &&& draft.value == Some(3u64)
                &&& draft.scheme is Blake2b <==> blake2b
                &&& draft.scheme is Sha3 <==> !blake2b
                &&& draft.purpose is Submit
            }
        },
{
    lemma_spelled(address@, digits);
    lemma_spelled(h256_key@, key);
    lemma_spelled(h256_value@, stored);
    if is_hex_form(encode_utf8(digits)) && is_hex_form(encode_utf8(key)) {
        law_amended_value_data(address@, h256_key@, h256_value@);
    }
    lemma_drafted(
        old(client)@,
        url@,
        digits + key + stored,
        AMEND_ADDRESS@,
        None,
        quota,
        Some(AMEND_KV_H256 as u64),
        chosen_scheme(blake2b),
        Purpose::Submit,
        final(client)@,
        res,
    );
}

}
