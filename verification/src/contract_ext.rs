//! The system contract that manages the consensus nodes.

use crate::client::Client;
use crate::client_ext::{call_params, call_request, chosen_scheme, ClientExt};
use crate::digits::{byte_len, remove_0x, without_prefix};
use crate::step::{draft_of, is_asked, is_transaction_started, Awaiting, AwaitingView, Step, ToolError};
use crate::transaction::Purpose;
use vstd::prelude::*;
use vstd::string::*;

verus! {

/// The address of the contract that manages the consensus nodes
pub const NODE_MANAGER_ADDRESS: &'static str = "00000000000000000000000000000000013241a2";

/// What fills the word of an address in front of its digits
pub const ADDRESS_PADDING: &'static str = "000000000000000000000000";

/// The digits that call the function `selector` with one address.
pub open spec fn address_call(selector: Seq<char>, address: Seq<char>) -> Seq<char> {
    selector + ADDRESS_PADDING@ + without_prefix(address)
}

/// The digits that call the function `selector` with one address.
pub fn address_call_code(selector: &str, address: &str) -> (res: String)
    requires
        byte_len(address@) >= 2,
    ensures
        res@ == address_call(selector@, address@),
{
    let mut code: String = selector.to_string();
    code.append(ADDRESS_PADDING);
    code.append(remove_0x(address));
    code
}

/// High degree of encapsulation of system contract operation. Every address has at least two bytes.
pub trait ContractExt: ClientExt {
    /// Downgrade consensus node to ordinary node
    fn downgrade_consensus_node(&mut self, url: &str, address: &str, blake2b: bool) -> Self::RpcResult
        requires
            byte_len(address@) >= 2,
    ;

    /// Get node status
    fn node_status(&mut self, url: &str, address: &str) -> Self::RpcResult
        requires
            byte_len(address@) >= 2,
    ;

    /// Get authorities
    fn get_authorities(&mut self, url: &str) -> Self::RpcResult;

    /// Applying to promote nodes as consensus nodes
    fn new_consensus_node(&mut self, url: &str, address: &str, blake2b: bool) -> Self::RpcResult
        requires
            byte_len(address@) >= 2,
    ;

    /// Approve node upgrades to consensus nodes
    fn approve_node(&mut self, url: &str, address: &str, blake2b: bool) -> Self::RpcResult
        requires
            byte_len(address@) >= 2,
    ;
}

impl ContractExt for Client {
    fn downgrade_consensus_node(
        &mut self,
        url: &str,
        address: &str,
        blake2b: bool,
    ) -> (res: Result<Step, ToolError>)
        ensures
            is_transaction_started(
                old(self)@,
                address_call("2d4ede93"@, address@),
                draft_of(
                    url@,
                    address_call("2d4ede93"@, address@),
                    NODE_MANAGER_ADDRESS@,
                    None,
                    Some(1000),
                    None,
                    chosen_scheme(blake2b),
                    Purpose::Submit,
                ),
                final(self)@,
                res,
            ),
    {
        let code = address_call_code("2d4ede93", address);
        self.send_transaction(url, code.as_str(), NODE_MANAGER_ADDRESS, None, Some(1000), None, blake2b)
    }

    fn node_status(&mut self, url: &str, address: &str) -> (res: Result<Step, ToolError>)
        ensures
            is_asked(
                old(self)@,
                url@,
                call_request(
                    None,
                    NODE_MANAGER_ADDRESS@,
                    Some(address_call("0x645b8b1b"@, address@)),
                    "latest"@,
                ),
                AwaitingView::Answer,
                final(self)@,
                res,
            ),
    {
        let code = address_call_code("0x645b8b1b", address);
        self.call(url, None, NODE_MANAGER_ADDRESS, Some(code.as_str()), "latest")
    }

    fn get_authorities(&mut self, url: &str) -> (res: Result<Step, ToolError>)
        ensures
            is_asked(
                old(self)@,
                url@,
                call_request(None, NODE_MANAGER_ADDRESS@, Some("0x609df32f"@), "latest"@),
                AwaitingView::Authorities,
                final(self)@,
                res,
            ),
    {
        let params = call_params(None, NODE_MANAGER_ADDRESS, Some("0x609df32f"), "latest");
        Ok(self.ask(url, params, Awaiting::Authorities))
    }

    fn new_consensus_node(&mut self, url: &str, address: &str, blake2b: bool) -> (res: Result<Step, ToolError>)
        ensures
            is_transaction_started(
                old(self)@,
                address_call("ddad2ffe"@, address@),
                draft_of(
                    url@,
                    address_call("ddad2ffe"@, address@),
                    address@,
                    None,
                    Some(3000),
                    None,
                    chosen_scheme(blake2b),
                    Purpose::Submit,
                ),
                final(self)@,
                res,
            ),
    {
        let code = address_call_code("ddad2ffe", address);
        self.send_transaction(url, code.as_str(), address, None, Some(3000), None, blake2b)
    }

    fn approve_node(&mut self, url: &str, address: &str, blake2b: bool) -> (res: Result<Step, ToolError>)
        ensures
            is_transaction_started(
                old(self)@,
                address_call("dd4c97a0"@, address@),
                draft_of(
                    url@,
                    address_call("dd4c97a0"@, address@),
                    address@,
                    None,
                    Some(3000),
                    None,
                    chosen_scheme(blake2b),
                    Purpose::Submit,
                ),
                final(self)@,
                res,
            ),
    {
        let code = address_call_code("dd4c97a0", address);
        self.send_transaction(url, code.as_str(), address, None, Some(3000), None, blake2b)
    }
}

}
