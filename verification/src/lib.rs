//! The core of a JSON-RPC client for CITA chains.
//!
//! The crate decides what a client says to a node and what it makes of the answers. It opens no
//! connection and holds no signing code: a call runs in steps (see [`step`]), and whoever drives it
//! sends the requests, signs the transactions, and hands back what came of it.
//!
//! - [`client`]: the client, its settings, and the calls for transactions
//! - [`client_ext`], [`contract_ext`], [`store_ext`], [`amend_ext`]: the methods of a node, the
//!   system contract for consensus nodes, stored data, and amendments
//! - [`step`]: the steps of a call, and what each leads to
//! - [`rpc`], [`value`]: requests, responses and JSON values
//! - [`reply`]: what responses say
//! - [`transaction`]: transactions and keys
//! - [`abi`], [`digits`]: the ABI form of a string, and hexadecimal text
//! - [`laws`], [`laws_calls`], [`laws_requests`], [`laws_replies`], [`laws_transactions`]: what holds of
//!   all of this together; what calls send, what they make of replies, and what becomes of a
//!   transaction

pub mod abi;
pub mod amend_ext;
pub mod client;
pub mod client_ext;
pub mod contract_ext;
pub mod digits;
pub mod laws;
pub mod laws_calls;
pub mod laws_replies;
pub mod laws_requests;
pub mod laws_transactions;
pub mod reply;
pub mod rpc;
pub mod step;
pub mod store_ext;
pub mod transaction;
pub mod value;

pub use amend_ext::{AmendExt, AMEND_ABI, AMEND_ADDRESS, AMEND_CODE, AMEND_KV_H256};
pub use client::Client;
pub use client_ext::ClientExt;
pub use contract_ext::ContractExt;
pub use digits::{remove_0x, DecodeError};
pub use rpc::{Batch, ErrorResponse, JsonRpcParams, JsonRpcResponse, Outgoing};
pub use step::{Awaiting, Outcome, Step, ToolError};
pub use store_ext::{StoreExt, ABI_ADDRESS, STORE_ADDRESS};
pub use transaction::{
    Blake2bPrivKey, PrivateKey, Purpose, Scheme, Sha3PrivKey, SigningJob, SigningKey, Transaction,
};
pub use value::{JsonObject, ParamsValue, ResponseValue};
