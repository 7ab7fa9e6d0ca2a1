//! Data and contract ABIs on the chain.

use crate::abi::{abi_text, encode_string_param};
use crate::client::Client;
use crate::client_ext::{chosen_scheme, ClientExt};
use crate::digits::{byte_len, remove_0x, without_prefix};
use crate::step::{draft_of, is_transaction_started, Step, ToolError};
use crate::transaction::Purpose;
use vstd::prelude::*;
use vstd::string::*;

verus! {

/// Store action target address
pub const STORE_ADDRESS: &'static str = "ffffffffffffffffffffffffffffffffffffffff";

/// StoreAbi action target address
pub const ABI_ADDRESS: &'static str = "aaaaaaaaaaaaaaaaaaaaaaaaaaaaaaaaaaaaaaaa";

/// The digits of an address, then those of the ABI form of a text.
pub open spec fn abi_code(address: Seq<char>, content: Seq<char>) -> Seq<char> {
    without_prefix(address) + abi_text(content)
}

/// The digits of an address, then those of the ABI form of a text.
pub fn abi_data(address: &str, content: &str) -> (res: String)
    requires
        byte_len(address@) >= 2,
    ensures
        res@ == abi_code(address@, content@),
{
    let mut data: String = remove_0x(address).to_string();
    let content_abi = encode_string_param(content);
    data.append(content_abi.as_str());
    data
}

/// Store data or contract ABI to chain. Every address, and the data, has at least two bytes.
pub trait StoreExt: ClientExt {
    /// Store data to chain, data can be get back by `cita_getTransaction` rpc call
    fn store_data(&mut self, url: &str, content: &str, quota: Option<u64>, blake2b: bool) -> Self::RpcResult
        requires
            byte_len(content@) >= 2,
    ;

    /// Store contract ABI to chain, ABI can be get back by `eth_getAbi` rpc call
    fn store_abi(
        &mut self,
        url: &str,
        address: &str,
        content: String,
        quota: Option<u64>,
        blake2b: bool,
    ) -> Self::RpcResult
        requires
            byte_len(address@) >= 2,
    ;
}

impl StoreExt for Client {
    fn store_data(
        &mut self,
        url: &str,
        content: &str,
        quota: Option<u64>,
        blake2b: bool,
    ) -> (res: Result<Step, ToolError>)
        ensures
            is_transaction_started(
                old(self)@,
                without_prefix(content@),
                draft_of(
                    url@,
                    without_prefix(content@),
                    STORE_ADDRESS@,
                    None,
                    quota,
                    None,
                    chosen_scheme(blake2b),
                    Purpose::Submit,
                ),
                final(self)@,
                res,
            ),
    {
        let content = remove_0x(content);
        self.send_transaction(url, content, STORE_ADDRESS, None, quota, None, blake2b)
    }

    fn store_abi(
        &mut self,
        url: &str,
        address: &str,
        content: String,
        quota: Option<u64>,
        blake2b: bool,
    ) -> (res: Result<Step, ToolError>)
        ensures
            is_transaction_started(
                old(self)@,
                abi_code(address@, content@),
                draft_of(
                    url@,
                    abi_code(address@, content@),
                    ABI_ADDRESS@,
                    None,
                    quota,
                    None,
                    chosen_scheme(blake2b),
                    Purpose::Submit,
                ),
                final(self)@,
                res,
            ),
    {
        let data = abi_data(address, content.as_str());
        self.send_transaction(url, data.as_str(), ABI_ADDRESS, None, quota, None, blake2b)
    }
}

}
