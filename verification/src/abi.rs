//! The contract ABI form of a single string.

use crate::digits::{hex_encode, hex_text};
use vstd::prelude::*;
use vstd::string::*;
use vstd::utf8::encode_utf8;

verus! {

/// The last `width` bytes of a number, the highest first.
pub open spec fn big_endian(n: nat, width: nat) -> Seq<u8>
    decreases width,
{
    if width == 0 {
        Seq::empty()
    } else {
        big_endian(n / 256, (width - 1) as nat).push((n % 256) as u8)
    }
}

/// The bytes with zeros behind them up to the end of the last word; a word has 32 bytes.
pub open spec fn padded(bytes: Seq<u8>) -> Seq<u8> {
    Seq::new(
        (bytes.len() + 31) / 32 * 32,
        |i: int|
            if i < bytes.len() {
                bytes[i]
            } else {
                0
            },
    )
}

/// The ABI form of one string as the only parameter: the word for where it starts, the word for its
/// length in bytes, and its bytes, padded.
pub open spec fn abi_string(bytes: Seq<u8>) -> Seq<u8> {
    big_endian(32, 32) + big_endian(bytes.len(), 32) + padded(bytes)
}

/// The digits of the ABI form of a text.
pub open spec fn abi_text(content: Seq<char>) -> Seq<char> {
    hex_text(abi_string(encode_utf8(content)))
}

/// The digits of two byte strings in a row are those of the first, then those of the second.
pub proof fn lemma_hex_text_concat(first: Seq<u8>, second: Seq<u8>)
    ensures
        hex_text(first + second) == hex_text(first) + hex_text(second),
{
    assert forall|i: int| 0 <= i < 2 * (first.len() + second.len()) implies hex_text(first + second)[i] == (
    hex_text(first) + hex_text(second))[i] by {
        if i >= 2 * first.len() {
            assert((i - 2 * first.len()) / 2 == i / 2 - first.len());
            assert((i - 2 * first.len()) % 2 == i % 2);
        }
    }
    assert(hex_text(first + second) =~= hex_text(first) + hex_text(second));
}

/// A number takes as many bytes as it is given.
pub(crate) proof fn lemma_big_endian_len(n: nat, width: nat)
    ensures
        big_endian(n, width).len() == width,
    decreases width,
{
    if width > 0 {
        lemma_big_endian_len(n / 256, (width - 1) as nat);
    }
}

/// Appends the last `width` bytes of a number, the highest first.
fn push_big_endian(out: &mut Vec<u8>, n: u64, width: u8)
    ensures
        final(out)@ == old(out)@ + big_endian(n as nat, width as nat),
    decreases width,
{
    if width > 0 {
        push_big_endian(out, n / 256, width - 1);
        out.push((n % 256) as u8);
    }
}

/// The digits of the word that holds a number.
fn word_text(n: u64) -> (res: String)
    ensures
        res@ == hex_text(big_endian(n as nat, 32)),
{
    let mut word: Vec<u8> = Vec::new();
    push_big_endian(&mut word, n, 32);
    proof {
        lemma_big_endian_len(n as nat, 32);
    }
    assert(word@ =~= big_endian(n as nat, 32));
    hex_encode(word.as_slice())
}

/// The digits of the ABI form of a text.
pub fn encode_string_param(content: &str) -> (res: String)
    ensures
        res@ == abi_text(content@),
{
    let bytes = content.as_bytes();
    let n: usize = bytes.len();
    let ghost all = padded(bytes@);
    let ghost head = big_endian(32, 32) + big_endian(n as nat, 32);
    let mut out: String = word_text(32);
    let length = word_text(n as u64);
    out.append(length.as_str());
    proof {
        lemma_hex_text_concat(big_endian(32, 32), big_endian(n as nat, 32));
        assert(head + all.take(0) =~= head);
    }
    let mut start: usize = 0;
    let ghost mut done: int = 0;
    while start < n
        invariant
            n == bytes@.len(),
            all == padded(bytes@),
            head == big_endian(32, 32) + big_endian(n as nat, 32),
            start == done || (start == n && done == all.len()),
            done % 32 == 0,
            0 <= done <= all.len(),
            start <= n,
            start < n ==> done + 32 <= all.len(),
            start == n ==> done == all.len(),
            out@ == hex_text(head + all.take(done)),
        decreases n - start,
    {
        let mut word: Vec<u8> = Vec::new();
        let ghost next = all.subrange(done, done + 32);
        while word.len() < 32
            invariant
                n == bytes@.len(),
                start < n,
                start == done,
                all == padded(bytes@),
                next == all.subrange(done, done + 32),
                0 <= done,
                done + 32 <= all.len(),
                word@.len() <= 32,
                word@ =~= next.take(word@.len() as int),
            decreases 32 - word@.len(),
        {
            let i: usize = word.len();
            let byte: u8 = if i < n - start { bytes[start + i] } else { 0 };
            assert(byte == next[i as int]);
            word.push(byte);
        }
        let digits = hex_encode(word.as_slice());
        out.append(digits.as_str());
        proof {
            assert(word@ =~= next);
            lemma_hex_text_concat(head + all.take(done), next);
            assert(head + all.take(done) + next =~= head + all.take(done + 32));
            done = done + 32;
        }
        start = if n - start > 32 { start + 32 } else { n };
    }
    assert(all.take(done) =~= all);
    out
}

}
