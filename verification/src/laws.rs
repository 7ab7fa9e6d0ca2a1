//! What holds of the library as a whole.

use crate::abi::{abi_string, abi_text, big_endian, lemma_hex_text_concat};
use crate::contract_ext::{address_call, ADDRESS_PADDING};
use crate::digits::{
    all_hex_digits, byte_len, digit_value, digits_value, hex_bytes, hex_text, high_half, is_hex_digit, is_hex_fault, is_hex_form,
    low_half, lower_digit, quantity, quantity_digits, without_prefix, DecodeError,
};
use crate::reply::{
    are_authorities_readable_in, authorities_in, authority, authority_bytes, authority_count, chain_id_of, chunk_end,
    is_authority_readable, prefixed_quantity,
};
use crate::rpc::{request, request_with, with_id, Members, ResponseView};
use crate::step::{
    after_metadata, after_request, after_requests, after_signed, ask, base_height, broadcast_batch, is_acceptable,
    is_resumed, key_for, next_id, nth_id, series_batch, signed_step, told_chain_id, transaction_request, AwaitingView,
    ClientState, OutcomeView, StepView,
};
use crate::store_ext::abi_code;
use crate::transaction::{
    is_nonce, is_random_uuid, signing_job_of, transaction_of, DraftView, Purpose, Scheme, SigningKey, VALID_BLOCKS,
};
use crate::value::Json;
use vstd::arithmetic::power::{lemma_pow_increases, pow};
use vstd::prelude::*;
use vstd::utf8::*;

verus! {

/// A prefix `0x` or `0X` is removed, whatever follows it, and nothing else is.
pub proof fn law_prefix_is_removed(text: Seq<char>)
    ensures
        without_prefix("0x"@ + text) == text,
        without_prefix("0X"@ + text) == text,
        byte_len("0x"@ + text) >= 2,
        byte_len("0X"@ + text) >= 2,
        without_prefix(text) != text ==> text == "0x"@ + without_prefix(text) || text == "0X"@
            + without_prefix(text),
{
    reveal_strlit("0x");
    reveal_strlit("0X");
    assert(("0x"@ + text).skip(2) =~= text);
    assert(("0X"@ + text).skip(2) =~= text);
    lemma_chars_need_bytes("0x"@ + text);
    lemma_chars_need_bytes("0X"@ + text);
    if without_prefix(text) != text {
        if text[1] == 'x' {
            assert(text =~= "0x"@ + text.skip(2));
        } else {
            assert(text =~= "0X"@ + text.skip(2));
        }
    }
}

/// A text has at least as many bytes as characters.
proof fn lemma_chars_need_bytes(text: Seq<char>)
    ensures
        byte_len(text) >= text.len(),
    decreases text.len(),
{
    if text.len() > 0 {
        lemma_chars_need_bytes(text.drop_first());
        char_is_scalar(text[0]);
        assert(encode_scalar(text[0] as u32).len() >= 1);
    }
}

/// A lower-case digit is the digit of its value.
proof fn lemma_lower_digit(n: int)
    requires
        0 <= n < 16,
    ensures
        is_hex_digit(lower_digit(n) as u8),
        digit_value(lower_digit(n) as u8) == n,
        '\0' <= lower_digit(n) <= '\u{7f}',
{
}

/// The digits of bytes take one byte each.
proof fn lemma_hex_text_bytes(bytes: Seq<u8>)
    ensures
        is_ascii_chars(hex_text(bytes)),
        encode_utf8(hex_text(bytes)).len() == 2 * bytes.len(),
        forall|i: int|
            0 <= i < bytes.len() ==> {
                &&& #[trigger] encode_utf8(hex_text(bytes))[2 * i] == lower_digit(high_half(bytes[i])) as u8
                &&& encode_utf8(hex_text(bytes))[2 * i + 1] == lower_digit(low_half(bytes[i])) as u8
            },
{
    let text = hex_text(bytes);
    assert(is_ascii_chars(text)) by {
        assert forall|i: int| 0 <= i < text.len() implies '\0' <= #[trigger] text[i] <= '\u{7f}' by {
            lemma_lower_digit(high_half(bytes[i / 2]));
            lemma_lower_digit(low_half(bytes[i / 2]));
        }
    }
    is_ascii_chars_encode_utf8(text);
    assert forall|i: int| 0 <= i < bytes.len() implies {
        &&& #[trigger] encode_utf8(text)[2 * i] == lower_digit(high_half(bytes[i])) as u8
        &&& encode_utf8(text)[2 * i + 1] == lower_digit(low_half(bytes[i])) as u8
    } by {
        assert(text[2 * i] == lower_digit(high_half(bytes[i])));
        assert(text[2 * i + 1] == lower_digit(low_half(bytes[i])));
    }
}

/// The digits of bytes are a hexadecimal form, and it stands for those bytes.
pub proof fn law_decoding_undoes_encoding(bytes: Seq<u8>)
    ensures
        is_hex_form(encode_utf8(hex_text(bytes))),
        hex_bytes(encode_utf8(hex_text(bytes))) == bytes,
{
    let text = encode_utf8(hex_text(bytes));
    lemma_hex_text_bytes(bytes);
    assert forall|i: int| 0 <= i < text.len() implies is_hex_digit(#[trigger] text[i]) by {
        let k = i / 2;
        lemma_lower_digit(high_half(bytes[k]));
        lemma_lower_digit(low_half(bytes[k]));
        assert(text[2 * k] == lower_digit(high_half(bytes[k])) as u8);
        assert(i == 2 * k || i == 2 * k + 1);
    }
    assert forall|i: int| 0 <= i < bytes.len() implies hex_bytes(text)[i] == bytes[i] by {
        lemma_lower_digit(high_half(bytes[i]));
        lemma_lower_digit(low_half(bytes[i]));
        assert(text[2 * i] == lower_digit(high_half(bytes[i])) as u8);
    }
    assert(hex_bytes(text) =~= bytes);
}

/// The digits before `end` are all fine, or one of them is the first that is not.
proof fn lemma_first_fault(text: Seq<u8>, end: int) -> (index: int)
    requires
        0 <= end <= text.len(),
    ensures
        0 <= index <= end,
        all_hex_digits(text.take(index)),
        index < end ==> !is_hex_digit(text[index]),
    decreases end,
{
    if end == 0 {
        0
    } else {
        let index = lemma_first_fault(text, end - 1);
        if index == end - 1 && is_hex_digit(text[index]) {
            assert forall|i: int| 0 <= i < end implies is_hex_digit(#[trigger] text.take(end)[i]) by {
                if i < end - 1 {
                    assert(text.take(end - 1)[i] == text[i]);
                }
            }
            end
        } else {
            index
        }
    }
}

/// A text is refused exactly where it is no hexadecimal form, and there is one reason to give.
pub proof fn law_refusal_has_one_reason(text: Seq<u8>)
    requires
        text.len() <= usize::MAX,
    ensures
        is_hex_form(text) <==> forall|error: DecodeError| !#[trigger] is_hex_fault(text, error),
        forall|first: DecodeError, second: DecodeError| #[trigger]
            is_hex_fault(text, first) && #[trigger] is_hex_fault(text, second) ==> first == second,
{
    if !is_hex_form(text) {
        if text.len() % 2 != 0 {
            assert(is_hex_fault(text, DecodeError::OddLength));
        } else {
            let index = lemma_first_fault(text, text.len() as int);
            assert(text.take(text.len() as int) =~= text);
            assert(is_hex_fault(
                text,
                DecodeError::InvalidHexCharacter { c: text[index] as char, index: index as usize },
            ));
        }
    }
    assert forall|first: DecodeError, second: DecodeError| #[trigger]
        is_hex_fault(text, first) && #[trigger] is_hex_fault(text, second) implies first == second by {
        if let DecodeError::InvalidHexCharacter { index: i, .. } = first {
            if let DecodeError::InvalidHexCharacter { index: j, .. } = second {
                if i < j {
                    assert(text.take(j as int)[i as int] == text[i as int]);
                } else if j < i {
                    assert(text.take(i as int)[j as int] == text[j as int]);
                }
            }
        }
    }
}

/// Identifiers count up by one and start again from zero behind the last.
pub proof fn law_ids_count_up(id: u64, n: nat)
    ensures
        nth_id(id, n) == (id + n) % 0x1_0000_0000_0000_0000,
    decreases n,
{
    if n > 0 {
        law_ids_count_up(id, (n - 1) as nat);
    }
}

/// No identifier comes back before all others were used.
pub proof fn law_ids_are_distinct(id: u64, i: nat, j: nat)
    requires
        i < j,
        j - i < 0x1_0000_0000_0000_0000,
    ensures
        nth_id(id, i) != nth_id(id, j),
{
    law_ids_count_up(id, i);
    law_ids_count_up(id, j);
}

/// A series of requests to one node says what the same requests, sent one at a time, would say, and
/// leaves the client as they would.
pub proof fn law_series_is_one_request_at_a_time(
    client: ClientState,
    url: Seq<char>,
    params: Seq<Members>,
    i: int,
)
    requires
        0 <= i < params.len(),
    ensures
        series_batch(client, url, params).requests[i] == broadcast_batch(
            after_requests(client, i as nat),
            seq![url],
            params[i],
        ).requests[0],
        after_requests(client, (i + 1) as nat) == after_request(after_requests(client, i as nat)),
{
}

/// The requests of a series all have different identifiers.
pub proof fn law_series_ids_are_distinct(
    client: ClientState,
    url: Seq<char>,
    params: Seq<Members>,
    i: int,
    j: int,
)
    requires
        0 <= i < j < params.len(),
        params.len() <= usize::MAX,
    ensures
        series_batch(client, url, params).requests[i].params["id"@] != series_batch(
            client,
            url,
            params,
        ).requests[j].params["id"@],
{
    law_ids_are_distinct(client.id, (i + 1) as nat, (j + 1) as nat);
}

/// Every node that a request goes to gets the same members, once for each time that its URL is
/// given.
pub proof fn law_broadcast_says_the_same_to_all(
    client: ClientState,
    urls: Seq<Seq<char>>,
    params: Members,
    i: int,
)
    requires
        0 <= i < urls.len(),
    ensures
        broadcast_batch(client, urls, params).requests.len() == urls.len(),
        broadcast_batch(client, urls, params).requests[i].url == urls[i],
        broadcast_batch(client, urls, params).requests[i].params == with_id(params, next_id(client.id)),
{
}

/// Debug mode adds a trace and changes nothing that is sent.
pub proof fn law_debug_mode_only_traces(
    client: ClientState,
    urls: Seq<Seq<char>>,
    params: Members,
    mode: bool,
)
    ensures
        broadcast_batch(ClientState { debug: mode, ..client }, urls, params).requests == broadcast_batch(
            client,
            urls,
            params,
        ).requests,
        broadcast_batch(ClientState { debug: mode, ..client }, urls, params).trace is Some <==> mode,
{
}

/// The names of the members of a request are four different ones.
pub(crate) proof fn lemma_member_names()
    ensures
        "jsonrpc"@ != "method"@,
        "jsonrpc"@ != "params"@,
        "jsonrpc"@ != "id"@,
        "method"@ != "params"@,
        "method"@ != "id"@,
        "params"@ != "id"@,
{
    reveal_strlit("jsonrpc");
    reveal_strlit("method");
    reveal_strlit("params");
    reveal_strlit("id");
    assert("jsonrpc"@.len() == 7 && "method"@.len() == 6 && "params"@.len() == 6 && "id"@.len() == 2);
    assert("method"@[0] != "params"@[0]);
}

/// What goes out is a request of JSON-RPC 2.0: version, method and identifier, parameters where the
/// method takes any, and nothing else.
pub proof fn law_request_members(method: Seq<char>, params: Seq<Json>, id: u64)
    ensures
        with_id(request(method), id) == map![
            "jsonrpc"@ => Json::Str("2.0"@),
            "method"@ => Json::Str(method),
            "id"@ => Json::Int(id),
        ],
        with_id(request_with(method, params), id) == map![
            "jsonrpc"@ => Json::Str("2.0"@),
            "method"@ => Json::Str(method),
            "params"@ => Json::List(params),
            "id"@ => Json::Int(id),
        ],
{
    lemma_member_names();
    assert(with_id(request(method), id) =~= map![
        "jsonrpc"@ => Json::Str("2.0"@),
        "method"@ => Json::Str(method),
        "id"@ => Json::Int(id),
    ]);
    assert(with_id(request_with(method, params), id) =~= map![
        "jsonrpc"@ => Json::Str("2.0"@),
        "method"@ => Json::Str(method),
        "params"@ => Json::List(params),
        "id"@ => Json::Int(id),
    ]);
}

/// An identifier replaces the one that a request had, and keeps its other members.
pub proof fn law_identifier_is_stamped(params: Members, id: u64, key: Seq<char>)
    ensures
        with_id(params, id)["id"@] == Json::Int(id),
        key != "id"@ ==> with_id(params, id).contains_key(key) == params.contains_key(key),
        key != "id"@ && params.contains_key(key) ==> with_id(params, id)[key] == params[key],
        forall|before: u64| #[trigger] with_id(with_id(params, before), id) == with_id(params, id),
{
    assert forall|before: u64| #[trigger] with_id(with_id(params, before), id) == with_id(params, id) by {
        assert(with_id(with_id(params, before), id) =~= with_id(params, id));
    }
}

/// Going on with a call changes no key and no mode, and uses up one identifier where it sends
/// something, none where it does not.
pub proof fn law_resuming_keeps_the_settings(
    client: ClientState,
    awaiting: AwaitingView,
    response: ResponseView,
    after: ClientState,
    step: StepView,
)
    requires
        is_resumed(client, awaiting, response, after, step),
    ensures
        after.sha3_private_key == client.sha3_private_key,
        after.blake2b_private_key == client.blake2b_private_key,
        after.debug == client.debug,
        after.id == if step is Send {
            next_id(client.id)
        } else {
            client.id
        },
{
}

/// A client that has read the identifier of its chain knows it from then on, and knows the one that
/// the call got.
pub proof fn law_chain_id_is_kept(client: ClientState, response: ResponseView)
    requires
        chain_id_of(response) is Some,
    ensures
        after_metadata(client, response).chain_id == Some(told_chain_id(response)),
{
}

/// A client that could not read the identifier of its chain still does not know it, and the call
/// gets zero.
pub proof fn law_unreadable_chain_id_is_not_kept(client: ClientState, response: ResponseView)
    requires
        chain_id_of(response) is None,
    ensures
        after_metadata(client, response) == client,
        told_chain_id(response) == 0,
{
}

/// A client that knows its chain does not ask for it: once the height is there, the transaction is
/// ready to be signed for that chain.
pub proof fn law_known_chain_is_not_asked_for(
    client: ClientState,
    draft: DraftView,
    response: ResponseView,
    after: ClientState,
    step: StepView,
)
    requires
        client.chain_id is Some,
        is_resumed(client, AwaitingView::DraftHeight(draft), response, after, step),
    ensures
        after == client,
        step matches StepView::Sign(job) && job.transaction.chain_id == client.chain_id->0,
{
}

/// The whole call for a transaction. Whatever the node answers, the transaction that is signed is
/// the draft with a fresh nonce, valid for 88 blocks behind the height that was asked for or told, for the chain that the client knew or was told, with the key of the
/// scheme that was asked for. What is signed is handed back as digits, or goes to the node of the
/// draft.
pub proof fn law_transaction_call(
    client: ClientState,
    draft: DraftView,
    height: ResponseView,
    metadata: ResponseView,
    waiting: ClientState,
    asked: StepView,
    after: ClientState,
    step: StepView,
    signed: Seq<u8>,
)
    requires
        is_acceptable(client, AwaitingView::DraftHeight(draft), height),
        is_resumed(client, AwaitingView::DraftHeight(draft), height, waiting, asked),
        match asked {
            StepView::Send(_, awaiting) => {
                &&& is_acceptable(waiting, awaiting, metadata)
                &&& is_resumed(waiting, awaiting, metadata, after, step)
            },
            _ => after == waiting && step == asked,
        },
    ensures
        step is Sign,
        ({
            let job = step->Sign_0;
            let chain_id = match client.chain_id {
                Some(chain_id) => chain_id,
                None => told_chain_id(metadata),
            };
            &&& is_nonce(job.transaction.nonce)
            &&& job.transaction == transaction_of(
                draft,
                (base_height(draft, height) + VALID_BLOCKS) as u64,
                chain_id,
                job.transaction.nonce,
            )
            &&& Some(job.key) == key_for(client, draft.scheme)
            &&& signed_step(after, job, signed) == match draft.purpose {
                Purpose::Generate => StepView::Done(OutcomeView::Transaction(hex_text(signed))),
                Purpose::Submit => ask(
                    after,
                    draft.url,
                    transaction_request(hex_text(signed)),
                    AwaitingView::Answer,
                ),
            }
            &&& after_signed(after, job).id == nth_id(
                client.id,
                (if client.chain_id is Some {
                    0nat
                } else {
                    1nat
                }) + (if draft.purpose is Submit {
                    1nat
                } else {
                    0nat
                }),
            )
        }),
{
    reveal_with_fuel(nth_id, 3);
}

/// The two schemes sign the same transaction; only the key differs.
pub proof fn law_schemes_sign_the_same_transaction(
    draft: DraftView,
    valid_until_block: u64,
    chain_id: u32,
    sha3: SigningKey,
    blake2b: SigningKey,
    nonce: Seq<char>,
)
    ensures
        signing_job_of(
            DraftView { scheme: Scheme::Sha3, ..draft },
            valid_until_block,
            chain_id,
            sha3,
            nonce,
        ).transaction == signing_job_of(
            DraftView { scheme: Scheme::Blake2b, ..draft },
            valid_until_block,
            chain_id,
            blake2b,
            nonce,
        ).transaction,
{
}

/// A nonce has 32 lower-case digits, and stands for 16 bytes.
pub proof fn law_nonce_has_32_digits(nonce: Seq<char>)
    requires
        is_nonce(nonce),
    ensures
        nonce.len() == 32,
        is_hex_form(encode_utf8(nonce)),
        is_random_uuid(hex_bytes(encode_utf8(nonce))),
        nonce[12] == '4',
{
    let bytes = choose|bytes: Seq<u8>| is_random_uuid(bytes) && nonce == #[trigger] hex_text(bytes);
    law_decoding_undoes_encoding(bytes);
    assert(nonce[12] == lower_digit(high_half(bytes[6])));
}

/// The bytes of two texts in a row are those of the first, then those of the second.
pub(crate) proof fn lemma_encode_concat(first: Seq<char>, second: Seq<char>)
    ensures
        encode_utf8(first + second) == encode_utf8(first) + encode_utf8(second),
    decreases first.len(),
{
    if first.len() == 0 {
        assert(first + second =~= second);
        assert(encode_utf8(first) + encode_utf8(second) =~= encode_utf8(second));
    } else {
        lemma_encode_concat(first.drop_first(), second);
        assert((first + second).drop_first() =~= first.drop_first() + second);
        assert(encode_utf8(first + second) =~= encode_utf8(first) + encode_utf8(second));
    }
}

/// A hexadecimal form in front of a text is read as its own bytes, in front of those of the text.
/// The text decides whether the whole is hexadecimal.
pub proof fn law_joined_codes(first: Seq<char>, second: Seq<char>)
    requires
        is_hex_form(encode_utf8(first)),
    ensures
        is_hex_form(encode_utf8(first + second)) <==> is_hex_form(encode_utf8(second)),
        hex_bytes(encode_utf8(first + second)) == hex_bytes(encode_utf8(first)) + hex_bytes(
            encode_utf8(second),
        ),
{
    lemma_encode_concat(first, second);
    let a = encode_utf8(first);
    let b = encode_utf8(second);
    let whole = a + b;
    assert(all_hex_digits(whole) ==> all_hex_digits(b)) by {
        if all_hex_digits(whole) {
            assert forall|i: int| 0 <= i < b.len() implies is_hex_digit(#[trigger] b[i]) by {
                assert(whole[a.len() + i] == b[i]);
            }
        }
    }
    assert(hex_bytes(whole) =~= hex_bytes(a) + hex_bytes(b)) by {
        assert forall|i: int| 0 <= i < whole.len() / 2 implies hex_bytes(whole)[i] == (hex_bytes(a) + hex_bytes(
            b,
        ))[i] by {
            if 2 * i >= a.len() {
                assert(2 * (i - a.len() / 2) == 2 * i - a.len());
            }
        }
    }
}

/// The padding in front of an address is twelve bytes of zero.
proof fn lemma_address_padding()
    ensures
        ADDRESS_PADDING@.len() == 24,
        is_ascii_chars(ADDRESS_PADDING@),
        is_hex_form(encode_utf8(ADDRESS_PADDING@)),
        hex_bytes(encode_utf8(ADDRESS_PADDING@)) == Seq::new(12, |i: int| 0u8),
{
    reveal_strlit("000000000000000000000000");
    assert(forall|i: int| 0 <= i < 24 ==> ADDRESS_PADDING@[i] == '0');
    is_ascii_chars_encode_utf8(ADDRESS_PADDING@);
    let bytes = encode_utf8(ADDRESS_PADDING@);
    assert forall|i: int| 0 <= i < 24 implies bytes[i] == 0x30 by {
        assert(ADDRESS_PADDING@[i] as u8 == bytes[i]);
    }
    assert(hex_bytes(bytes) =~= Seq::new(12, |i: int| 0u8));
}

/// The code that calls a contract with an address is refused exactly where the address is not
/// hexadecimal. Its data is the selector, twelve bytes of zero, and the bytes of the address.
pub proof fn law_address_call_data(selector: Seq<char>, address: Seq<char>)
    requires
        is_hex_form(encode_utf8(selector)),
    ensures
        is_hex_form(encode_utf8(address_call(selector, address))) <==> is_hex_form(
            encode_utf8(without_prefix(address)),
        ),
        hex_bytes(encode_utf8(address_call(selector, address))) == hex_bytes(encode_utf8(selector)) + Seq::new(
            12,
            |i: int| 0u8,
        ) + hex_bytes(encode_utf8(without_prefix(address))),
{
    lemma_address_padding();
    law_joined_codes(selector, ADDRESS_PADDING@);
    law_joined_codes(selector + ADDRESS_PADDING@, without_prefix(address));
}

/// The code that stores an ABI is refused exactly where the address is not hexadecimal, whatever
/// the ABI is. Its data is the bytes of the address and the ABI form of the text.
pub proof fn law_abi_code_data(address: Seq<char>, content: Seq<char>)
    ensures
        is_hex_form(encode_utf8(abi_code(address, content))) <==> is_hex_form(
            encode_utf8(without_prefix(address)),
        ),
        is_hex_form(encode_utf8(without_prefix(address))) ==> hex_bytes(encode_utf8(abi_code(address, content)))
            == hex_bytes(encode_utf8(without_prefix(address))) + abi_string(encode_utf8(content)),
{
    let digits = without_prefix(address);
    law_decoding_undoes_encoding(abi_string(encode_utf8(content)));
    if is_hex_form(encode_utf8(digits)) {
        law_joined_codes(digits, abi_text(content));
    } else {
        lemma_encode_concat(digits, abi_text(content));
        let a = encode_utf8(digits);
        let whole = encode_utf8(abi_code(address, content));
        if all_hex_digits(whole) {
            assert forall|i: int| 0 <= i < a.len() implies is_hex_digit(#[trigger] a[i]) by {
                assert(whole[i] == a[i]);
            }
        }
    }
}

/// An address, code, key or value means the same with a prefix `0x` as without.
pub proof fn law_prefix_makes_no_difference(selector: Seq<char>, text: Seq<char>, content: Seq<char>)
    requires
        without_prefix(text) == text,
    ensures
        without_prefix("0x"@ + text) == without_prefix(text),
        address_call(selector, "0x"@ + text) == address_call(selector, text),
        abi_code("0x"@ + text, content) == abi_code(text, content),
{
    law_prefix_is_removed(text);
}

/// Bytes that are stored as digits, with a prefix or without, are the data of the transaction that
/// stores them.
pub proof fn law_stored_data_is_the_content(bytes: Seq<u8>)
    ensures
        is_hex_form(encode_utf8(without_prefix("0x"@ + hex_text(bytes)))),
        hex_bytes(encode_utf8(without_prefix("0x"@ + hex_text(bytes)))) == bytes,
        is_hex_form(encode_utf8(without_prefix(hex_text(bytes)))),
        hex_bytes(encode_utf8(without_prefix(hex_text(bytes)))) == bytes,
{
    let text = hex_text(bytes);
    law_prefix_is_removed(text);
    law_decoding_undoes_encoding(bytes);
    if text.len() >= 2 {
        lemma_lower_digit(low_half(bytes[0]));
        assert(text[1] == lower_digit(low_half(bytes[0])));
    }
}

/// The data of an amended value is the address, the key and the value, in this order.
pub proof fn law_amended_value_data(address: Seq<char>, key: Seq<char>, value: Seq<char>)
    requires
        is_hex_form(encode_utf8(without_prefix(address))),
        is_hex_form(encode_utf8(without_prefix(key))),
    ensures
        is_hex_form(
            encode_utf8(without_prefix(address) + without_prefix(key) + without_prefix(value)),
        ) <==> is_hex_form(encode_utf8(without_prefix(value))),
        hex_bytes(encode_utf8(without_prefix(address) + without_prefix(key) + without_prefix(value)))
            == hex_bytes(encode_utf8(without_prefix(address))) + hex_bytes(encode_utf8(without_prefix(key)))
            + hex_bytes(encode_utf8(without_prefix(value))),
{
    law_joined_codes(without_prefix(address), without_prefix(key));
    law_joined_codes(without_prefix(address) + without_prefix(key), without_prefix(value));
}

/// The number that the bytes of a word stand for, the highest first.
pub open spec fn word_value(word: Seq<u8>) -> nat
    decreases word.len(),
{
    if word.len() == 0 {
        0
    } else {
        256 * word_value(word.drop_last()) + word.last() as nat
    }
}

/// A number that fits is read back from its bytes.
proof fn lemma_word_value(n: nat, width: nat)
    requires
        n < pow(256, width),
    ensures
        big_endian(n, width).len() == width,
        word_value(big_endian(n, width)) == n,
    decreases width,
{
    reveal(pow);
    if width > 0 {
        let front = big_endian(n / 256, (width - 1) as nat);
        assert(n / 256 < pow(256, (width - 1) as nat)) by {
            assert(pow(256, width) == 256 * pow(256, (width - 1) as nat));
        }
        lemma_word_value(n / 256, (width - 1) as nat);
        assert(big_endian(n, width).drop_last() =~= front);
    }
}

/// A length of 64 bits fits into a word.
proof fn lemma_length_fits(n: nat)
    requires
        n <= u64::MAX,
    ensures
        n < pow(256, 32),
{
    assert(pow(256, 8) == 0x1_0000_0000_0000_0000) by {
        reveal(pow);
        reveal_with_fuel(pow, 9);
    }
    lemma_pow_increases(256, 8, 32);
}

/// The ABI form of a string fills whole words: its start, its length, then its bytes.
pub proof fn law_abi_layout(bytes: Seq<u8>)
    requires
        bytes.len() <= u64::MAX,
    ensures
        abi_string(bytes).len() % 32 == 0,
        word_value(abi_string(bytes).subrange(0, 32)) == 32,
        word_value(abi_string(bytes).subrange(32, 64)) == bytes.len(),
        abi_string(bytes).subrange(64, 64 + bytes.len() as int) == bytes,
{
    lemma_length_fits(32);
    lemma_length_fits(bytes.len());
    lemma_word_value(32, 32);
    lemma_word_value(bytes.len(), 32);
    assert(abi_string(bytes).subrange(0, 32) =~= big_endian(32, 32));
    assert(abi_string(bytes).subrange(32, 64) =~= big_endian(bytes.len(), 32));
    assert(abi_string(bytes).subrange(64, 64 + bytes.len() as int) =~= bytes);
}

/// Different texts are stored as different digits: what was stored can be told from its ABI form.
pub proof fn law_abi_text_tells_the_content(first: Seq<char>, second: Seq<char>)
    requires
        byte_len(first) <= u64::MAX,
        byte_len(second) <= u64::MAX,
        abi_text(first) == abi_text(second),
    ensures
        first == second,
{
    law_decoding_undoes_encoding(abi_string(encode_utf8(first)));
    law_decoding_undoes_encoding(abi_string(encode_utf8(second)));
    law_abi_layout(encode_utf8(first));
    law_abi_layout(encode_utf8(second));
    encode_utf8_decode_utf8(first);
    encode_utf8_decode_utf8(second);
}

/// The digits of bytes stand for the same number as the bytes.
proof fn lemma_digits_of_bytes(bytes: Seq<u8>)
    ensures
        digits_value(encode_utf8(hex_text(bytes))) == word_value(bytes),
    decreases bytes.len(),
{
    let text = encode_utf8(hex_text(bytes));
    lemma_hex_text_bytes(bytes);
    if bytes.len() > 0 {
        let front = bytes.drop_last();
        let last = bytes.last();
        let n = front.len() as int;
        lemma_digits_of_bytes(front);
        lemma_hex_text_bytes(front);
        lemma_hex_text_concat(front, seq![last]);
        assert(front + seq![last] =~= bytes);
        lemma_encode_concat(hex_text(front), hex_text(seq![last]));
        assert(text.drop_last().drop_last() =~= encode_utf8(hex_text(front)));
        assert(text[2 * n] == lower_digit(high_half(bytes[n])) as u8);
        lemma_lower_digit(high_half(last));
        lemma_lower_digit(low_half(last));
        assert(text.last() == lower_digit(low_half(last)) as u8);
        assert(text.drop_last().last() == lower_digit(high_half(last)) as u8);
        reveal_with_fuel(digits_value, 3);
    }
}

/// A height that a node tells in hexadecimal, behind a prefix, is read as that height.
pub proof fn law_height_is_read(height: u64)
    ensures
        prefixed_quantity("0x"@ + hex_text(big_endian(height as nat, 8))) == Some(height),
{
    let bytes = big_endian(height as nat, 8);
    let text = encode_utf8(hex_text(bytes));
    assert(pow(256, 8) == 0x1_0000_0000_0000_0000) by {
        reveal(pow);
        reveal_with_fuel(pow, 9);
    }
    lemma_word_value(height as nat, 8);
    lemma_digits_of_bytes(bytes);
    lemma_hex_text_bytes(bytes);
    law_decoding_undoes_encoding(bytes);
    law_prefix_is_removed(hex_text(bytes));
    assert(is_hex_digit(text[0]));
    assert(quantity_digits(text) == text);
    assert(quantity(text) == Some(height));
}

/// The words of some addresses, each with its padding.
pub open spec fn address_words(addresses: Seq<Seq<char>>) -> Seq<char>
    decreases addresses.len(),
{
    if addresses.len() == 0 {
        Seq::empty()
    } else {
        address_words(addresses.drop_last()) + ADDRESS_PADDING@ + addresses.last()
    }
}

/// Forty characters, each of one byte.
pub open spec fn is_plain_address(address: Seq<char>) -> bool {
    address.len() == 40 && is_ascii_chars(address)
}

/// The words of addresses take 64 characters each, of which the last 40 are the address.
proof fn lemma_address_words(addresses: Seq<Seq<char>>, i: int)
    requires
        forall|k: int| 0 <= k < addresses.len() ==> is_plain_address(#[trigger] addresses[k]),
        0 <= i < addresses.len(),
    ensures
        address_words(addresses).len() == 64 * addresses.len(),
        is_ascii_chars(address_words(addresses)),
        address_words(addresses).subrange(64 * i + 24, 64 * i + 64) == addresses[i],
    decreases addresses.len(),
{
    lemma_address_padding();
    let front = addresses.drop_last();
    let words = address_words(addresses);
    let before = address_words(front);
    assert(is_plain_address(addresses[addresses.len() - 1]));
    assert(forall|k: int| 0 <= k < front.len() ==> front[k] == addresses[k]);
    if front.len() > 0 {
        let j = if i < front.len() {
            i
        } else {
            0
        };
        lemma_address_words(front, j);
        if i < front.len() {
            assert(words.subrange(64 * i + 24, 64 * i + 64) =~= before.subrange(64 * i + 24, 64 * i + 64));
        }
    }
    assert(before.len() == 64 * front.len());
    assert(is_ascii_chars(before));
    if i == front.len() {
        assert(words.subrange(64 * i + 24, 64 * i + 64) =~= addresses[i]);
    }
}

/// The answer of the contract that manages the consensus nodes is read as the addresses that it
/// lists: behind two words of any content, each address comes in a word of its own.
pub proof fn law_authorities_are_read(head: Seq<char>, addresses: Seq<Seq<char>>)
    requires
        head.len() == 128,
        is_ascii_chars(head),
        forall|k: int| 0 <= k < addresses.len() ==> is_plain_address(#[trigger] addresses[k]),
    ensures
        are_authorities_readable_in("0x"@ + (head + address_words(addresses))),
        authorities_in("0x"@ + (head + address_words(addresses))) == Seq::new(
            addresses.len(),
            |i: int| "0x"@ + addresses[i],
        ),
{
    let digits = head + address_words(addresses);
    let text = "0x"@ + digits;
    let bytes = authority_bytes(text);
    let n = addresses.len();
    law_prefix_is_removed(digits);
    if n > 0 {
        lemma_address_words(addresses, 0);
    }
    assert(is_ascii_chars(digits));
    is_ascii_chars_encode_utf8(digits);
    encode_utf8_valid_utf8(digits);
    assert(bytes.len() == 128 + 64 * n);
    assert(authority_count(bytes.len() as int) == n);
    assert forall|i: int| 0 <= i < n implies #[trigger] is_authority_readable(bytes, i) && authority(bytes, i)
        == "0x"@ + addresses[i] by {
        let start = 128 + 64 * i;
        let end = chunk_end(bytes.len() as int, start);
        assert(end == start + 64);
        lemma_ascii_boundary(digits, start + 24);
        lemma_ascii_boundary(digits, end);
        lemma_address_words(addresses, i);
        let address = addresses[i];
        assert(is_plain_address(address));
        is_ascii_chars_encode_utf8(address);
        assert(bytes.subrange(start + 24, end) =~= encode_utf8(address)) by {
            assert forall|k: int| 0 <= k < 40 implies bytes.subrange(start + 24, end)[k] == encode_utf8(
                address,
            )[k] by {
                assert(address[k] as u8 == encode_utf8(address)[k]);
                assert(digits[start + 24 + k] as u8 == bytes[start + 24 + k]);
                assert(address_words(addresses).subrange(64 * i + 24, 64 * i + 64)[k] == address[k]);
            }
        }
        encode_utf8_decode_utf8(address);
    }
    let found = authorities_in(text);
    assert forall|i: int| 0 <= i < n implies #[trigger] found[i] == "0x"@ + addresses[i] by {
        assert(is_authority_readable(bytes, i));
    }
    assert(found =~= Seq::new(n, |i: int| "0x"@ + addresses[i]));
}

/// In a text of characters of one byte each, every place is a boundary.
proof fn lemma_ascii_boundary(text: Seq<char>, at: int)
    requires
        is_ascii_chars(text),
        0 <= at <= text.len(),
    ensures
        is_char_boundary(encode_utf8(text), at),
{
    let bytes = encode_utf8(text);
    is_ascii_chars_encode_utf8(text);
    encode_utf8_valid_utf8(text);
    if at == text.len() {
        is_char_boundary_start_end_of_seq(bytes);
    } else {
        assert(text[at] as u8 == bytes[at]);
        is_char_boundary_iff_not_is_continuation_byte(bytes, at);
    }
}

}
