//! Transactions, the keys that sign them, and what goes into one before it is signed.

use crate::digits::{hex_encode, hex_text};
use vstd::prelude::*;

verus! {

/// How far ahead of the current height a transaction stays valid.
pub const VALID_BLOCKS: u64 = 88;

/// The quota of a transaction for which none is asked.
pub const DEFAULT_QUOTA: u64 = 1_000_000;

/// A private key for signatures over SHA-3 hashes.
#[derive(Debug, Clone, Copy, PartialEq, Eq)]
pub struct Sha3PrivKey(pub [u8; 32]);

/// A private key for signatures over BLAKE2b hashes.
#[derive(Debug, Clone, Copy, PartialEq, Eq)]
pub struct Blake2bPrivKey(pub [u8; 64]);

/// A private key of either kind, or none.
#[derive(Debug, Clone, Copy)]
pub enum PrivateKey {
    /// SHA-3
    Sha3(Sha3PrivKey),
    /// BLAKE2b
    Blake2b(Blake2bPrivKey),
    /// No key
    Null,
}

/// Which of the two kinds of signature a transaction gets.
#[derive(Debug, Clone, Copy)]
pub enum Scheme {
    Sha3,
    Blake2b,
}

/// The key that a transaction is signed with.
#[derive(Debug, Clone, Copy)]
pub enum SigningKey {
    Sha3(Sha3PrivKey),
    Blake2b(Blake2bPrivKey),
}

/// What a signed transaction is for.
#[derive(Debug, Clone, Copy)]
pub enum Purpose {
    /// It is handed back as text.
    Generate,
    /// It is sent to the node.
    Submit,
}

/// The model of a transaction.
pub struct TransactionView {
    pub to: Seq<char>,
    pub nonce: Seq<char>,
    pub quota: u64,
    pub valid_until_block: u64,
    pub data: Seq<u8>,
    pub value: u64,
    pub chain_id: u32,
}

/// A transaction, not signed yet.
#[derive(Debug)]
pub struct Transaction {
    /// The target address; empty where a contract is created
    pub to: String,
    pub nonce: String,
    pub quota: u64,
    pub valid_until_block: u64,
    pub data: Vec<u8>,
    pub value: u64,
    pub chain_id: u32,
}

impl View for Transaction {
    type V = TransactionView;

    open spec fn view(&self) -> TransactionView {
        TransactionView {
            to: self.to@,
            nonce: self.nonce@,
            quota: self.quota,
            valid_until_block: self.valid_until_block,
            data: self.data@,
            value: self.value,
            chain_id: self.chain_id,
        }
    }
}

/// The model of a draft.
pub struct DraftView {
    pub url: Seq<char>,
    pub data: Seq<u8>,
    pub to: Seq<char>,
    pub current_height: Option<u64>,
    pub quota: Option<u64>,
    pub value: Option<u64>,
    pub scheme: Scheme,
    pub purpose: Purpose,
}

/// What was asked for of a transaction; the node still has to tell the rest.
#[derive(Debug)]
pub struct Draft {
    /// The node
    pub url: String,
    pub data: Vec<u8>,
    pub to: String,
    pub current_height: Option<u64>,
    pub quota: Option<u64>,
    pub value: Option<u64>,
    pub scheme: Scheme,
    pub purpose: Purpose,
}

impl View for Draft {
    type V = DraftView;

    open spec fn view(&self) -> DraftView {
        DraftView {
            url: self.url@,
            data: self.data@,
            to: self.to@,
            current_height: self.current_height,
            quota: self.quota,
            value: self.value,
            scheme: self.scheme,
            purpose: self.purpose,
        }
    }
}

/// The transaction that a draft becomes.
pub open spec fn transaction_of(
    draft: DraftView,
    valid_until_block: u64,
    chain_id: u32,
    nonce: Seq<char>,
) -> TransactionView {
    TransactionView {
        to: draft.to,
        nonce,
        quota: match draft.quota {
            Some(quota) => quota,
            None => DEFAULT_QUOTA,
        },
        valid_until_block,
        data: draft.data,
        value: match draft.value {
            Some(value) => value,
            None => 0,
        },
        chain_id,
    }
}

/// The model of a signing job.
pub struct SigningJobView {
    pub transaction: TransactionView,
    pub key: SigningKey,
    pub url: Seq<char>,
    pub purpose: Purpose,
}

/// A transaction that waits for its signature.
#[derive(Debug)]
pub struct SigningJob {
    pub transaction: Transaction,
    pub key: SigningKey,
    /// The node
    pub url: String,
    pub purpose: Purpose,
}

impl View for SigningJob {
    type V = SigningJobView;

    open spec fn view(&self) -> SigningJobView {
        SigningJobView {
            transaction: self.transaction@,
            key: self.key,
            url: self.url@,
            purpose: self.purpose,
        }
    }
}

/// The signing job that a draft becomes.
pub open spec fn signing_job_of(
    draft: DraftView,
    valid_until_block: u64,
    chain_id: u32,
    key: SigningKey,
    nonce: Seq<char>,
) -> SigningJobView {
    SigningJobView {
        transaction: transaction_of(draft, valid_until_block, chain_id, nonce),
        key,
        url: draft.url,
        purpose: draft.purpose,
    }
}

/// Sixteen bytes in the form of a random UUID: version 4, variant of RFC 4122.
pub open spec fn is_random_uuid(bytes: Seq<u8>) -> bool {
    &&& bytes.len() == 16
    &&& 0x40 <= bytes[6] <= 0x4f
    &&& 0x80 <= bytes[8] <= 0xbf
}

/// The digits of a random UUID.
pub open spec fn is_nonce(text: Seq<char>) -> bool {
    exists|bytes: Seq<u8>| is_random_uuid(bytes) && text == #[trigger] hex_text(bytes)
}

/// Calls `uuid::Uuid::new_v4` and takes the bytes of the UUID. They are random but for the version
/// in the high half of byte 6 and the variant in the two high bits of byte 8.
#[verifier::external_body]
fn random_uuid() -> (res: [u8; 16])
    ensures
        is_random_uuid(res@),
{
    *uuid::Uuid::new_v4().as_bytes()
}

/// Completes a draft to a transaction, with the digits of the given bytes as its nonce.
pub fn complete_draft(
    draft: Draft,
    valid_until_block: u64,
    chain_id: u32,
    key: SigningKey,
    nonce: &[u8],
) -> (res: SigningJob)
    requires
        2 * nonce@.len() <= isize::MAX,
    ensures
        res@ == signing_job_of(draft@, valid_until_block, chain_id, key, hex_text(nonce@)),
{
    SigningJob {
        transaction: Transaction {
            to: draft.to,
            nonce: hex_encode(nonce),
            quota: match draft.quota {
                Some(quota) => quota,
                None => DEFAULT_QUOTA,
            },
            valid_until_block,
            data: draft.data,
            value: match draft.value {
                Some(value) => value,
                None => 0,
            },
            chain_id,
        },
        key,
        url: draft.url,
        purpose: draft.purpose,
    }
}

/// Completes a draft to a transaction with a fresh nonce.
pub fn prepare_signing(
    draft: Draft,
    valid_until_block: u64,
    chain_id: u32,
    key: SigningKey,
) -> (res: SigningJob)
    ensures
        is_nonce(res@.transaction.nonce),
        res@ == signing_job_of(draft@, valid_until_block, chain_id, key, res@.transaction.nonce),
{
    let nonce = random_uuid();
    let job = complete_draft(draft, valid_until_block, chain_id, key, nonce.as_slice());
    assert(job@.transaction.nonce == hex_text(nonce@));
    job
}

}
