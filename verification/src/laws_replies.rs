//! What each call makes of its reply, in terms of what the reply holds.

use crate::client::Client;
use crate::contract_ext::ADDRESS_PADDING;
use crate::digits::{
    all_hex_digits, digit_value, digits_value, is_hex_digit, lower_digit, quantity, quantity_digits, without_prefix,
};
use crate::laws::{address_words, is_plain_address, law_authorities_are_read, law_prefix_is_removed, lemma_encode_concat};
use crate::reply::{
    authority, authority_bytes, authority_count, is_authority_readable, lemma_boundary_in_rest, prefixed_quantity,
};
use crate::rpc::JsonRpcResponse;
use crate::step::{texts, Awaiting, Outcome, Step};
use crate::value::{Json, ParamsValue, ResponseValue};
use vstd::prelude::*;
use vstd::utf8::*;

verus! {

/// There are sixteen digits, the letters in either case; a digit stands for its place among them,
/// and nothing else is a digit.
pub proof fn law_digits_stand_for_their_places(n: int)
    requires
        0 <= n < 16,
    ensures
        lower_digit(n) == "0123456789abcdef"@[n],
        is_hex_digit("0123456789abcdef"@[n] as u8),
        is_hex_digit("0123456789ABCDEF"@[n] as u8),
        digit_value("0123456789abcdef"@[n] as u8) == n,
        digit_value("0123456789ABCDEF"@[n] as u8) == n,
        forall|b: u8| #[trigger]
            is_hex_digit(b) ==> exists|k: int|
                0 <= k < 16 && (b == #[trigger] "0123456789abcdef"@[k] as u8 || b
                    == "0123456789ABCDEF"@[k] as u8),
{
    reveal_strlit("0123456789abcdef");
    reveal_strlit("0123456789ABCDEF");
    let lower = "0123456789abcdef"@;
    let upper = "0123456789ABCDEF"@;
    assert(lower[0] == '0' && lower[1] == '1' && lower[2] == '2' && lower[3] == '3' && lower[4] == '4' && lower[5]
        == '5' && lower[6] == '6' && lower[7] == '7' && lower[8] == '8' && lower[9] == '9' && lower[10] == 'a'
        && lower[11] == 'b' && lower[12] == 'c' && lower[13] == 'd' && lower[14] == 'e' && lower[15] == 'f');
    assert(upper[0] == '0' && upper[1] == '1' && upper[2] == '2' && upper[3] == '3' && upper[4] == '4' && upper[5]
        == '5' && upper[6] == '6' && upper[7] == '7' && upper[8] == '8' && upper[9] == '9' && upper[10] == 'A'
        && upper[11] == 'B' && upper[12] == 'C' && upper[13] == 'D' && upper[14] == 'E' && upper[15] == 'F');
    assert forall|b: u8| #[trigger] is_hex_digit(b) implies exists|k: int|
        0 <= k < 16 && (b == #[trigger] "0123456789abcdef"@[k] as u8 || b == "0123456789ABCDEF"@[k] as u8) by {
        let k = digit_value(b);
        assert(b == lower[k] as u8 || b == upper[k] as u8);
    }
}

/// How a quantity is read, one digit after the other: one digit is its value; a digit more makes
/// sixteen times the number and that digit, as long as 64 bits hold it; what is no quantity does not
/// become one by more behind it; one `+` in front changes nothing.
pub proof fn law_quantities_are_read_digit_by_digit(text: Seq<u8>, digit: u8)
    ensures
        quantity(Seq::<u8>::empty()) is None,
        is_hex_digit(digit) ==> quantity(seq![digit]) == Some(digit_value(digit) as u64),
        !is_hex_digit(digit) ==> quantity(seq![digit]) is None,
        text.len() > 0 && text != seq![0x2bu8] ==> match quantity(text) {
            Some(number) => quantity(text.push(digit)) == if is_hex_digit(digit) && 16 * number + digit_value(
                digit,
            ) <= u64::MAX {
                Some((16 * number + digit_value(digit)) as u64)
            } else {
                None
            },
            None => quantity(text.push(digit)) is None,
        },
        quantity(seq![0x2bu8] + text) == if text.len() > 0 && text[0] == 0x2b {
            None
        } else {
            quantity(text)
        },
{
    // one digit
    let one = seq![digit];
    assert(one.drop_last() =~= Seq::<u8>::empty());
    reveal_with_fuel(digits_value, 2);
    if is_hex_digit(digit) {
        assert(all_hex_digits(one));
        assert(quantity_digits(one) == one);
    } else if digit != 0x2b {
        assert(!is_hex_digit(one[0]));
    } else {
        assert(one.skip(1) =~= Seq::<u8>::empty());
    }
    // one digit more
    let longer = text.push(digit);
    if text.len() > 0 && text != seq![0x2bu8] {
        let digits = quantity_digits(text);
        let more = quantity_digits(longer);
        if text.len() == 1 {
            assert(text =~= seq![text[0]]);
        }
        assert(digits.len() > 0);
        assert(more =~= digits.push(digit));
        assert(more.drop_last() =~= digits);
        assert(more.last() == digit);
        if all_hex_digits(digits) && is_hex_digit(digit) {
            assert(all_hex_digits(more));
        }
        if all_hex_digits(more) {
            assert forall|i: int| 0 <= i < digits.len() implies is_hex_digit(#[trigger] digits[i]) by {
                assert(more[i] == digits[i]);
            }
            assert(is_hex_digit(more[digits.len() as int]));
        }
        assert(digits_value(more) == 16 * digits_value(digits) + digit_value(digit) as nat);
    }
    // a sign
    let signed = seq![0x2bu8] + text;
    assert(signed.skip(1) =~= text);
    if text.len() > 0 && text[0] == 0x2b {
        assert(!is_hex_digit(text[0]));
    }
}

/// A prefix `0x` or `0X` does not count for a quantity.
pub proof fn law_prefixed_quantities(digits: Seq<char>)
    ensures
        prefixed_quantity("0x"@ + digits) == quantity(encode_utf8(digits)),
        prefixed_quantity("0X"@ + digits) == quantity(encode_utf8(digits)),
        !("0x"@.is_prefix_of(digits)) && !("0X"@.is_prefix_of(digits)) ==> prefixed_quantity(digits) == quantity(
            encode_utf8(digits),
        ),
{
    reveal_strlit("0x");
    reveal_strlit("0X");
    law_prefix_is_removed(digits);
    if without_prefix(digits) != digits {
        if digits == "0x"@ + without_prefix(digits) {
            assert("0x"@ =~= digits.subrange(0, 2));
        } else {
            assert("0X"@ =~= digits.subrange(0, 2));
        }
    }
}

/// The response to a plain call is its result, as it came, and the client stays as it is. Of several
/// responses it is the last.
pub proof fn law_answer_is_handed_back(client: &mut Client, replies: Vec<JsonRpcResponse>, step: Step)
    requires
        call_ensures(Client::resume, (client, Awaiting::Answer, replies), step),
    ensures
        final(client)@ == old(client)@,
        step matches Step::Done(Outcome::Response(answer)) && {
            let response = replies@.last();
            &&& answer.jsonrpc@ == response.jsonrpc@
            &&& answer.id == response.id
            &&& answer.result is Some <==> response.result is Some
            &&& answer.result is Some ==> answer.result->0@ == response.result->0@
            &&& answer.error is Some <==> response.error is Some
            &&& answer.error is Some ==> answer.error->0.code == response.error->0.code
            &&& answer.error is Some ==> answer.error->0.message@ == response.error->0.message@
        },
{
}

/// The height that a call tells is the number in the text of the last response; there is none where
/// the result is no text.
pub proof fn law_height_is_told(client: &mut Client, replies: Vec<JsonRpcResponse>, step: Step)
    requires
        call_ensures(Client::resume, (client, Awaiting::Height, replies), step),
    ensures
        final(client)@ == old(client)@,
        step matches Step::Done(Outcome::Height(height)) && match replies@.last().result {
            Some(ResponseValue::Singe(ParamsValue::String(text))) => height == prefixed_quantity(text@),
            _ => height is None,
        },
{
}

/// The identifier of the chain that a call tells, and that the client keeps, is the number `chainId`
/// in the object of the last response, cut to 32 bits. Where there is no object or no number, the call
/// tells zero and the client keeps nothing new.
pub proof fn law_chain_id_is_told(client: &mut Client, replies: Vec<JsonRpcResponse>, step: Step)
    requires
        call_ensures(Client::resume, (client, Awaiting::ChainId, replies), step),
    ensures
        final(client)@.id == old(client)@.id,
        final(client)@.sha3_private_key == old(client)@.sha3_private_key,
        final(client)@.blake2b_private_key == old(client)@.blake2b_private_key,
        final(client)@.debug == old(client)@.debug,
        step matches Step::Done(Outcome::ChainId(told)) && match replies@.last().result {
            Some(ResponseValue::Object(object)) => match object@["chainId"@] {
                Json::Int(number) => told == number as int % 0x1_0000_0000 && final(client)@.chain_id == Some(told),
                _ => told == 0 && final(client)@.chain_id == old(client)@.chain_id,
            },
            _ => told == 0 && final(client)@.chain_id == old(client)@.chain_id,
        },
{
}

/// Which replies a call can go on with. There has to be one, and the last one counts. For a plain
/// answer any will do. A height in a text needs two bytes at least and a number. An object with the
/// identifier of the chain needs that member.
pub proof fn law_accepted_replies(
    client: Client,
    replies: Vec<JsonRpcResponse>,
    answer: bool,
    height: bool,
    chain_id: bool,
)
    requires
        call_ensures(Client::accepts, (&client, &Awaiting::Answer, &replies), answer),
        call_ensures(Client::accepts, (&client, &Awaiting::Height, &replies), height),
        call_ensures(Client::accepts, (&client, &Awaiting::ChainId, &replies), chain_id),
    ensures
        answer <==> replies@.len() > 0,
        height <==> replies@.len() > 0 && match replies@.last().result {
            Some(ResponseValue::Singe(ParamsValue::String(text))) => encode_utf8(text@).len() >= 2
                && prefixed_quantity(text@) is Some,
            _ => true,
        },
        chain_id <==> replies@.len() > 0 && match replies@.last().result {
            Some(ResponseValue::Object(object)) => object@.contains_key("chainId"@),
            _ => true,
        },
{
}

/// The nodes that a call tells are all those that the contract lists, in order: behind two words of
/// any content, each address comes in a word of its own. Such a reply is always accepted.
pub proof fn law_listed_authorities_are_told(
    client: &mut Client,
    head: Seq<char>,
    addresses: Seq<Seq<char>>,
    text: String,
    replies: Vec<JsonRpcResponse>,
    accepted: bool,
    step: Step,
)
    requires
        replies@.len() > 0,
        call_ensures(Client::accepts, (&*old(client), &Awaiting::Authorities, &replies), accepted),
        call_ensures(Client::resume, (client, Awaiting::Authorities, replies), step),
        head.len() == 128,
        is_ascii_chars(head),
        forall|k: int|
            0 <= k < addresses.len() ==> (#[trigger] addresses[k]).len() == 40 && is_ascii_chars(addresses[k]),
        text@ == "0x"@ + (head + address_words(addresses)),
        replies@.last().result == Some(ResponseValue::Singe(ParamsValue::String(text))),
    ensures
        accepted,
        final(client)@ == old(client)@,
        step matches Step::Done(Outcome::Authorities(found)) && {
            &&& found@.len() == addresses.len()
            &&& forall|i: int| 0 <= i < addresses.len() ==> (#[trigger] found@[i])@ == "0x"@ + addresses[i]
        },
{
    assert forall|k: int| 0 <= k < addresses.len() implies is_plain_address(#[trigger] addresses[k]) by {}
    law_authorities_are_read(head, addresses);
    let found = step->Done_0->Authorities_0;
    assert(texts(found@).len() == addresses.len());
    assert forall|i: int| 0 <= i < addresses.len() implies (#[trigger] found@[i])@ == "0x"@ + addresses[i] by {
        assert(texts(found@)[i] == found@[i]@);
    }
}

/// The words of listed addresses: twenty-four zeros and the address, one behind the other.
pub proof fn law_address_words(addresses: Seq<Seq<char>>, address: Seq<char>)
    ensures
        address_words(Seq::empty()) == Seq::<char>::empty(),
        address_words(addresses.push(address)) == address_words(addresses) + Seq::new(24, |i: int| '0')
            + address,
{
    reveal_strlit("000000000000000000000000");
    assert(ADDRESS_PADDING@ =~= Seq::new(24, |i: int| '0'));
    assert(addresses.push(address).drop_last() =~= addresses);
}

/// The bytes of a text that starts with `0x` are those two, then those of the rest.
proof fn lemma_prefixed_bytes(rest: Seq<char>)
    ensures
        encode_utf8("0x"@ + rest) == seq![0x30u8, 0x78u8] + encode_utf8(rest),
{
    reveal_strlit("0x");
    lemma_encode_concat("0x"@, rest);
    assert(is_ascii_chars("0x"@));
    is_ascii_chars_encode_utf8("0x"@);
    assert("0x"@[0] as u8 == encode_utf8("0x"@)[0]);
    assert("0x"@[1] as u8 == encode_utf8("0x"@)[1]);
    assert(encode_utf8("0x"@) =~= seq![0x30u8, 0x78u8]);
}

/// The nodes that a call tells, for any text: without its prefix, the text is cut every 64 bytes;
/// the first two pieces are left out, and of each other piece, a shorter one at the end too, all but
/// the first 24 bytes is told, behind `0x`. Nothing is told where the result is no text.
pub proof fn law_authorities_are_cut_from_the_text(
    client: &mut Client,
    replies: Vec<JsonRpcResponse>,
    step: Step,
)
    requires
        call_ensures(Client::accepts, (&*old(client), &Awaiting::Authorities, &replies), true),
        call_ensures(Client::resume, (client, Awaiting::Authorities, replies), step),
    ensures
        final(client)@ == old(client)@,
        step matches Step::Done(Outcome::Authorities(found)) && match replies@.last().result {
            Some(ResponseValue::Singe(ParamsValue::String(text))) => {
                let bytes = encode_utf8(without_prefix(text@));
                &&& bytes.len() <= 128 <==> found@.len() == 0
                &&& bytes.len() > 128 ==> 128 + 64 * (found@.len() - 1) < bytes.len() <= 128 + 64 * found@.len()
                &&& forall|i: int|
                    0 <= i < found@.len() ==> encode_utf8((#[trigger] found@[i])@) == seq![0x30u8, 0x78u8]
                        + bytes.subrange(
                        152 + 64 * i,
                        if 192 + 64 * i <= bytes.len() {
                            192 + 64 * i
                        } else {
                            bytes.len() as int
                        },
                    )
            },
            _ => found@.len() == 0,
        },
{
    let found = step->Done_0->Authorities_0;
    assert(texts(found@).len() == found@.len());
    if let Some(ResponseValue::Singe(ParamsValue::String(text))) = replies@.last().result {
        let bytes = authority_bytes(text@);
        encode_utf8_valid_utf8(without_prefix(text@));
        assert forall|i: int| 0 <= i < found@.len() implies encode_utf8((#[trigger] found@[i])@) == seq![
            0x30u8,
            0x78u8,
        ] + bytes.subrange(
            152 + 64 * i,
            if 192 + 64 * i <= bytes.len() {
                192 + 64 * i
            } else {
                bytes.len() as int
            },
        ) by {
            assert(texts(found@)[i] == found@[i]@);
            assert(is_authority_readable(bytes, i));
            let end = if 192 + 64 * i <= bytes.len() {
                192 + 64 * i
            } else {
                bytes.len() as int
            };
            let piece = bytes.subrange(152 + 64 * i, end);
            lemma_boundary_in_rest(bytes, 152 + 64 * i, end);
            let rest = bytes.subrange(152 + 64 * i, bytes.len() as int);
            valid_utf8_split(rest, end - (152 + 64 * i));
            assert(rest.subrange(0, end - (152 + 64 * i)) =~= piece);
            decode_utf8_encode_utf8(piece);
            lemma_prefixed_bytes(decode_utf8(piece));
            assert(authority(bytes, i) == "0x"@ + decode_utf8(piece));
        }
    }
}

/// Where the pieces of a text start that come behind the first two.
pub open spec fn piece_start(i: int) -> int {
    128 + 64 * i
}

/// Which replies the nodes can be read from, the last one counting: any result that is no text; and a
/// text of two bytes at least, where each piece behind the first two has 24 bytes and what follows them is whole
/// characters.
pub proof fn law_readable_authorities(client: Client, replies: Vec<JsonRpcResponse>, accepted: bool)
    requires
        call_ensures(Client::accepts, (&client, &Awaiting::Authorities, &replies), accepted),
    ensures
        accepted <==> replies@.len() > 0 && match replies@.last().result {
            Some(ResponseValue::Singe(ParamsValue::String(text))) => {
                let bytes = encode_utf8(without_prefix(text@));
                &&& encode_utf8(text@).len() >= 2
                &&& forall|i: int|
                    0 <= i && #[trigger] piece_start(i) < bytes.len() ==> {
                        &&& piece_start(i) + 24 <= bytes.len()
                        &&& is_char_boundary(bytes, piece_start(i) + 24)
                        &&& piece_start(i) + 64 <= bytes.len() ==> is_char_boundary(bytes, piece_start(i) + 64)
                    }
            },
            _ => true,
        },
{
    if let Some(ResponseValue::Singe(ParamsValue::String(text))) = replies@.last().result {
        let bytes = authority_bytes(text@);
        encode_utf8_valid_utf8(without_prefix(text@));
        is_char_boundary_start_end_of_seq(bytes);
        if accepted {
            assert forall|i: int| 0 <= i && #[trigger] piece_start(i) < bytes.len() implies {
                &&& piece_start(i) + 24 <= bytes.len()
                &&& is_char_boundary(bytes, piece_start(i) + 24)
                &&& piece_start(i) + 64 <= bytes.len() ==> is_char_boundary(bytes, piece_start(i) + 64)
            } by {
                assert(is_authority_readable(bytes, i));
            }
        } else if replies@.len() > 0 && encode_utf8(text@).len() >= 2 {
            let i = choose|i: int|
                0 <= i < authority_count(bytes.len() as int) && !#[trigger] is_authority_readable(bytes, i);
            assert(piece_start(i) < bytes.len());
        }
    }
}

}
