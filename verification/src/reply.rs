//! What replies say: the height of the chain, its identifier, and the consensus nodes.

use crate::digits::{byte_len, parse_quantity, quantity, remove_0x, without_prefix};
use crate::rpc::{JsonRpcResponse, ResponseView};
use crate::value::{Json, ParamsValue, Reply, ResponseValue};
use vstd::prelude::*;
use vstd::string::*;
use vstd::utf8::*;

verus! {

/// The text in a response whose result is one string.
pub open spec fn text_of(response: ResponseView) -> Option<Seq<char>> {
    match response.result {
        Some(Reply::Single(Json::Str(text))) => Some(text),
        _ => None,
    }
}

/// The text in a response whose result is one string.
pub fn reply_text(response: &JsonRpcResponse) -> (res: Option<&String>)
    ensures
        match res {
            Some(text) => text_of(response@) == Some(text@),
            None => text_of(response@) is None,
        },
{
    match &response.result {
        Some(ResponseValue::Singe(ParamsValue::String(text))) => Some(text),
        _ => None,
    }
}

/// The number in a text, behind an optional hexadecimal prefix.
pub open spec fn prefixed_quantity(text: Seq<char>) -> Option<u64> {
    quantity(encode_utf8(without_prefix(text)))
}

/// The height that a response tells; `None` where its result is no string.
pub open spec fn height_of(response: ResponseView) -> Option<u64> {
    match text_of(response) {
        Some(text) => prefixed_quantity(text),
        None => None,
    }
}

/// A string in the response is at least two bytes long and tells a height.
pub open spec fn has_readable_height(response: ResponseView) -> bool {
    text_of(response) matches Some(text) ==> byte_len(text) >= 2 && prefixed_quantity(text) is Some
}

/// Whether the height in a response can be read.
pub fn is_height_readable(response: &JsonRpcResponse) -> (res: bool)
    ensures
        res == has_readable_height(response@),
{
    match reply_text(response) {
        Some(text) => text.as_str().as_bytes().len() >= 2 && parse_quantity(remove_0x(text.as_str())).is_some(),
        None => true,
    }
}

/// Reads the height of the chain from the response to `cita_blockNumber`.
pub fn read_height(response: &JsonRpcResponse) -> (res: Option<u64>)
    requires
        has_readable_height(response@),
    ensures
        res == height_of(response@),
{
    match reply_text(response) {
        Some(text) => parse_quantity(remove_0x(text.as_str())),
        None => None,
    }
}

/// The identifier of the chain in the metadata: the low 32 bits of the number `chainId`. `None`
/// where the result is no object or `chainId` is no number.
pub open spec fn chain_id_of(response: ResponseView) -> Option<u32> {
    match response.result {
        Some(Reply::Object(members)) => match members["chainId"@] {
            Json::Int(number) => Some((number % 0x1_0000_0000) as u32),
            _ => None,
        },
        _ => None,
    }
}

/// An object in the response has the member `chainId`.
pub open spec fn has_readable_chain_id(response: ResponseView) -> bool {
    response.result matches Some(Reply::Object(members)) ==> members.contains_key("chainId"@)
}

/// Whether the identifier of the chain in a response can be read.
pub fn is_chain_id_readable(response: &JsonRpcResponse) -> (res: bool)
    ensures
        res == has_readable_chain_id(response@),
{
    match &response.result {
        Some(ResponseValue::Object(members)) => members.get("chainId").is_some(),
        _ => true,
    }
}

/// Reads the identifier of the chain from the response to `cita_getMetaData`.
pub fn read_chain_id(response: &JsonRpcResponse) -> (res: Option<u32>)
    requires
        has_readable_chain_id(response@),
    ensures
        res == chain_id_of(response@),
{
    match &response.result {
        Some(ResponseValue::Object(members)) => match members.get("chainId") {
            Some(ParamsValue::Int(number)) => {
                let n: u64 = *number;
                assert(n as u32 == n % 0x1_0000_0000) by (bit_vector);
                Some(n as u32)
            },
            _ => None,
        },
        _ => None,
    }
}

/// Where the chunk that starts at byte `start` ends: 64 bytes on, or with the text.
pub open spec fn chunk_end(len: int, start: int) -> int {
    if len - start > 64 {
        start + 64
    } else {
        len
    }
}

/// How many chunks follow the first two.
pub open spec fn authority_count(len: int) -> int {
    if len <= 128 {
        0
    } else {
        (len - 128 + 63) / 64
    }
}

/// Chunk `i` of those that follow the first two has its 24 bytes of padding, and what comes behind
/// them neither starts nor ends inside a character.
pub open spec fn is_authority_readable(bytes: Seq<u8>, i: int) -> bool {
    let start = 128 + 64 * i;
    let end = chunk_end(bytes.len() as int, start);
    &&& start + 24 <= end
    &&& is_char_boundary(bytes, start + 24)
    &&& is_char_boundary(bytes, end)
}

/// The address in chunk `i` of those that follow the first two: what comes behind the padding,
/// with the prefix `0x`.
pub open spec fn authority(bytes: Seq<u8>, i: int) -> Seq<char> {
    let start = 128 + 64 * i;
    "0x"@ + decode_utf8(bytes.subrange(start + 24, chunk_end(bytes.len() as int, start)))
}

/// The digits of an encoded list of addresses.
pub open spec fn authority_bytes(text: Seq<char>) -> Seq<u8> {
    encode_utf8(without_prefix(text))
}

/// The addresses in an encoded list: one in each chunk behind the first two, which hold where the
/// list starts and how long it is.
pub open spec fn authorities_in(text: Seq<char>) -> Seq<Seq<char>> {
    Seq::new(
        authority_count(authority_bytes(text).len() as int) as nat,
        |i: int| authority(authority_bytes(text), i),
    )
}

/// The text is at least two bytes long and every address in it can be read.
pub open spec fn are_authorities_readable_in(text: Seq<char>) -> bool {
    &&& byte_len(text) >= 2
    &&& forall|i: int|
        0 <= i < authority_count(authority_bytes(text).len() as int)
            ==> #[trigger] is_authority_readable(authority_bytes(text), i)
}

/// The addresses that a response tells; none where its result is no string.
pub open spec fn authorities_of(response: ResponseView) -> Seq<Seq<char>> {
    match text_of(response) {
        Some(text) => authorities_in(text),
        None => Seq::empty(),
    }
}

/// A string in the response holds addresses that can all be read.
pub open spec fn has_readable_authorities(response: ResponseView) -> bool {
    text_of(response) matches Some(text) ==> are_authorities_readable_in(text)
}

/// A boundary between characters stays one in the rest of the text from an earlier boundary on.
pub(crate) proof fn lemma_boundary_in_rest(bytes: Seq<u8>, from: int, at: int)
    requires
        valid_utf8(bytes),
        is_char_boundary(bytes, from),
        is_char_boundary(bytes, at),
        0 <= from <= at <= bytes.len(),
    ensures
        valid_utf8(bytes.subrange(from, bytes.len() as int)),
        is_char_boundary(bytes.subrange(from, bytes.len() as int), at - from),
{
    let rest = bytes.subrange(from, bytes.len() as int);
    valid_utf8_split(bytes, from);
    if at == bytes.len() {
        is_char_boundary_start_end_of_seq(rest);
    } else {
        assert(rest[at - from] == bytes[at]);
        is_char_boundary_iff_not_is_continuation_byte(bytes, at);
        is_char_boundary_iff_not_is_continuation_byte(rest, at - from);
    }
}

/// The text between two boundaries.
fn text_between(text: &str, from: usize, to: usize) -> (res: &str)
    requires
        from <= to <= encode_utf8(text@).len(),
        is_char_boundary(encode_utf8(text@), from as int),
        is_char_boundary(encode_utf8(text@), to as int),
    ensures
        res@ == decode_utf8(encode_utf8(text@).subrange(from as int, to as int)),
{
    let ghost bytes = encode_utf8(text@);
    proof {
        encode_utf8_valid_utf8(text@);
        lemma_boundary_in_rest(bytes, from as int, to as int);
    }
    let (_, rest) = text.split_at(from);
    assert(rest.spec_bytes() == bytes.subrange(from as int, bytes.len() as int));
    let (middle, _) = rest.split_at(to - from);
    proof {
        assert(middle.spec_bytes() =~= bytes.subrange(from as int, to as int));
        encode_utf8_decode_utf8(middle@);
    }
    middle
}

/// Whether every address in a text can be read.
fn are_text_authorities_readable(text: &str) -> (res: bool)
    ensures
        res == are_authorities_readable_in(text@),
{
    if text.as_bytes().len() < 2 {
        return false;
    }
    let digits = remove_0x(text);
    let n: usize = digits.as_bytes().len();
    let ghost bytes = authority_bytes(text@);
    let mut start: usize = 128;
    let ghost mut i: int = 0;
    while start < n
        invariant
            n == bytes.len(),
            bytes == authority_bytes(text@),
            bytes == encode_utf8(digits@),
            byte_len(text@) >= 2,
            0 <= i,
            start == 128 + 64 * i || (start == n && 128 + 64 * i >= n),
            i <= authority_count(n as int),
            forall|j: int| 0 <= j < i ==> #[trigger] is_authority_readable(bytes, j),
        decreases n - start,
    {
        let end: usize = if n - start > 64 { start + 64 } else { n };
        if end - start < 24 || !digits.is_char_boundary(start + 24) || !digits.is_char_boundary(end) {
            assert(!is_authority_readable(bytes, i));
            return false;
        }
        start = end;
        proof {
            i = i + 1;
        }
    }
    assert(i >= authority_count(n as int));
    true
}

/// Reads the addresses from an encoded list.
pub fn read_authorities(text: &str) -> (res: Vec<String>)
    requires
        are_authorities_readable_in(text@),
    ensures
        res@.len() == authorities_in(text@).len(),
        forall|i: int| 0 <= i < res@.len() ==> (#[trigger] res@[i])@ == authorities_in(text@)[i],
{
    let digits = remove_0x(text);
    let n: usize = digits.as_bytes().len();
    let ghost bytes = authority_bytes(text@);
    let mut found: Vec<String> = Vec::new();
    let mut start: usize = 128;
    while start < n
        invariant
            n == bytes.len(),
            bytes == authority_bytes(text@),
            bytes == encode_utf8(digits@),
            are_authorities_readable_in(text@),
            start == 128 + 64 * found@.len() || (start == n && 128 + 64 * found@.len() >= n),
            found@.len() <= authority_count(n as int),
            forall|j: int| 0 <= j < found@.len() ==> (#[trigger] found@[j])@ == authority(bytes, j),
        decreases n - start,
    {
        let ghost i = found@.len() as int;
        assert(is_authority_readable(bytes, i));
        let end: usize = if n - start > 64 { start + 64 } else { n };
        let mut address: String = "0x".to_string();
        address.append(text_between(digits, start + 24, end));
        assert(address@ == authority(bytes, i));
        found.push(address);
        start = end;
    }
    found
}

/// Whether the addresses in a response can be read.
pub fn are_authorities_readable(response: &JsonRpcResponse) -> (res: bool)
    ensures
        res == has_readable_authorities(response@),
{
    match reply_text(response) {
        Some(text) => are_text_authorities_readable(text.as_str()),
        None => true,
    }
}

}
