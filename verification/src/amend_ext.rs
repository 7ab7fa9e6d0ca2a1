//! Amendments: code, ABI and stored values that replace what the chain holds.

use crate::client::Client;
use crate::client_ext::{chosen_scheme, ClientExt};
use crate::digits::{byte_len, remove_0x, without_prefix};
use crate::step::{draft_of, is_transaction_started, Step, ToolError};
use crate::store_ext::{abi_code, abi_data};
use crate::transaction::Purpose;
use vstd::prelude::*;
use vstd::string::*;

verus! {

/// Amend action target address
pub const AMEND_ADDRESS: &'static str = "cccccccccccccccccccccccccccccccccccccccc";

/// Amend the abi data
pub const AMEND_ABI: u32 = 1;

/// Amend the account code
pub const AMEND_CODE: u32 = 2;

/// Amend the kv of db
pub const AMEND_KV_H256: u32 = 3;

/// Amend(Update) ABI/contract code/H256KV. Every address, code, key and value has at least two
/// bytes.
pub trait AmendExt: ClientExt {
    /// Amend contract code
    fn amend_code(
        &mut self,
        url: &str,
        address: &str,
        content: &str,
        quota: Option<u64>,
        blake2b: bool,
    ) -> Self::RpcResult
        requires
            byte_len(address@) >= 2,
            byte_len(content@) >= 2,
    ;

    /// Amend contract ABI
    fn amend_abi(
        &mut self,
        url: &str,
        address: &str,
        content: String,
        quota: Option<u64>,
        blake2b: bool,
    ) -> Self::RpcResult
        requires
            byte_len(address@) >= 2,
    ;

    /// Amend H256KV
    fn amend_h256kv(
        &mut self,
        url: &str,
        address: &str,
        h256_key: &str,
        h256_value: &str,
        quota: Option<u64>,
        blake2b: bool,
    ) -> Self::RpcResult
        requires
            byte_len(address@) >= 2,
            byte_len(h256_key@) >= 2,
            byte_len(h256_value@) >= 2,
    ;
}

impl AmendExt for Client {
    fn amend_code(
        &mut self,
        url: &str,
        address: &str,
        content: &str,
        quota: Option<u64>,
        blake2b: bool,
    ) -> (res: Result<Step, ToolError>)
        ensures
            is_transaction_started(
                old(self)@,
                without_prefix(address@) + without_prefix(content@),
                draft_of(
                    url@,
                    without_prefix(address@) + without_prefix(content@),
                    AMEND_ADDRESS@,
                    None,
                    quota,
                    Some(AMEND_CODE as u64),
                    chosen_scheme(blake2b),
                    Purpose::Submit,
                ),
                final(self)@,
                res,
            ),
    {
        let mut data: String = remove_0x(address).to_string();
        data.append(remove_0x(content));
        let value: u64 = AMEND_CODE as u64;
        self.send_transaction(url, data.as_str(), AMEND_ADDRESS, None, quota, Some(value), blake2b)
    }

    fn amend_abi(
        &mut self,
        url: &str,
        address: &str,
        content: String,
        quota: Option<u64>,
        blake2b: bool,
    ) -> (res: Result<Step, ToolError>)
        ensures
            is_transaction_started(
                old(self)@,
                abi_code(address@, content@),
                draft_of(
                    url@,
                    abi_code(address@, content@),
                    AMEND_ADDRESS@,
                    None,
                    quota,
                    Some(AMEND_ABI as u64),
                    chosen_scheme(blake2b),
                    Purpose::Submit,
                ),
                final(self)@,
                res,
            ),
    {
        let data = abi_data(address, content.as_str());
        let value: u64 = AMEND_ABI as u64;
        self.send_transaction(url, data.as_str(), AMEND_ADDRESS, None, quota, Some(value), blake2b)
    }

    fn amend_h256kv(
        &mut self,
        url: &str,
        address: &str,
        h256_key: &str,
        h256_value: &str,
        quota: Option<u64>,
        blake2b: bool,
    ) -> (res: Result<Step, ToolError>)
        ensures
            is_transaction_started(
                old(self)@,
                without_prefix(address@) + without_prefix(h256_key@) + without_prefix(h256_value@),
                draft_of(
                    url@,
                    without_prefix(address@) + without_prefix(h256_key@) + without_prefix(h256_value@),
                    AMEND_ADDRESS@,
                    None,
                    quota,
                    Some(AMEND_KV_H256 as u64),
                    chosen_scheme(blake2b),
                    Purpose::Submit,
                ),
                final(self)@,
                res,
            ),
    {
        let mut data: String = remove_0x(address).to_string();
        data.append(remove_0x(h256_key));
        data.append(remove_0x(h256_value));
        let value: u64 = AMEND_KV_H256 as u64;
        self.send_transaction(url, data.as_str(), AMEND_ADDRESS, None, quota, Some(value), blake2b)
    }
}

}
