//! The steps of a call: what is to be done next, and what the result of doing it leads to.
//!
//! A call runs in steps. Each names one piece of outside work: requests to send, or a transaction
//! to sign. The client takes the result of that work and answers with the next step, until the
//! call is done.

use crate::digits::{hex_bytes, hex_text, is_hex_fault, is_hex_form, DecodeError};
use crate::reply::{
    authorities_of, chain_id_of, has_readable_authorities, has_readable_chain_id, has_readable_height, height_of,
    text_of,
};
use crate::rpc::{
    request, request_with, with_id, Batch, BatchView, JsonRpcResponse, Members, OutgoingView, ResponseView,
    CITA_BLOCK_NUMBER, CITA_GET_META_DATA, CITA_SEND_TRANSACTION,
};
use crate::transaction::{
    is_nonce, signing_job_of, Blake2bPrivKey, Draft, DraftView, Purpose, Scheme, Sha3PrivKey, SigningJob,
    SigningJobView, SigningKey, VALID_BLOCKS,
};
use crate::value::Json;
use vstd::prelude::*;
use vstd::utf8::encode_utf8;

verus! {

/// Why a call did not start.
#[derive(Debug, Clone, Copy, PartialEq, Eq, Structural)]
pub enum ToolError {
    /// The code of a transaction is not hexadecimal.
    Decode(DecodeError),
}

/// The model of what a reply is waited for.
pub enum AwaitingView {
    Answer,
    Height,
    ChainId,
    Authorities,
    DraftHeight(DraftView),
    DraftChainId(DraftView, u64),
}

/// What the reply to a batch is waited for.
#[derive(Debug)]
pub enum Awaiting {
    /// It is the result of the call.
    Answer,
    /// It tells the height of the chain, which is the result.
    Height,
    /// It tells the identifier of the chain, which is the result.
    ChainId,
    /// It tells the consensus nodes, which are the result.
    Authorities,
    /// It tells the height that a draft needs.
    DraftHeight(Draft),
    /// It tells the identifier of the chain that a draft needs; the number is the last block in
    /// which the transaction will be valid.
    DraftChainId(Draft, u64),
}

impl View for Awaiting {
    type V = AwaitingView;

    open spec fn view(&self) -> AwaitingView {
        match self {
            Awaiting::Answer => AwaitingView::Answer,
            Awaiting::Height => AwaitingView::Height,
            Awaiting::ChainId => AwaitingView::ChainId,
            Awaiting::Authorities => AwaitingView::Authorities,
            Awaiting::DraftHeight(draft) => AwaitingView::DraftHeight(draft@),
            Awaiting::DraftChainId(draft, valid_until) => AwaitingView::DraftChainId(draft@, *valid_until),
        }
    }
}

/// The model of the result of a call.
pub enum OutcomeView {
    Response(ResponseView),
    Height(Option<u64>),
    ChainId(u32),
    Authorities(Seq<Seq<char>>),
    Transaction(Seq<char>),
}

/// The result of a call.
#[derive(Debug)]
pub enum Outcome {
    /// The response of the node
    Response(JsonRpcResponse),
    /// The height of the chain, where the node told one
    Height(Option<u64>),
    /// The identifier of the chain
    ChainId(u32),
    /// The addresses of the consensus nodes
    Authorities(Vec<String>),
    /// The hexadecimal form of a signed transaction
    Transaction(String),
}

/// The model of a list of texts.
pub open spec fn texts(items: Seq<String>) -> Seq<Seq<char>> {
    Seq::new(items.len(), |i: int| items[i]@)
}

impl View for Outcome {
    type V = OutcomeView;

    open spec fn view(&self) -> OutcomeView {
        match self {
            Outcome::Response(response) => OutcomeView::Response(response@),
            Outcome::Height(height) => OutcomeView::Height(*height),
            Outcome::ChainId(chain_id) => OutcomeView::ChainId(*chain_id),
            Outcome::Authorities(addresses) => OutcomeView::Authorities(texts(addresses@)),
            Outcome::Transaction(text) => OutcomeView::Transaction(text@),
        }
    }
}

/// The model of a step.
pub enum StepView {
    Send(BatchView, AwaitingView),
    Sign(SigningJobView),
    Done(OutcomeView),
}

/// The next step of a call.
#[derive(Debug)]
pub enum Step {
    /// Send the batch; the replies go to `Client::resume`.
    Send(Batch, Awaiting),
    /// Sign the transaction; the signed transaction, serialised, goes to `Client::resume_signed`.
    Sign(SigningJob),
    /// The call is done.
    Done(Outcome),
}

impl View for Step {
    type V = StepView;

    open spec fn view(&self) -> StepView {
        match self {
            Step::Send(batch, awaiting) => StepView::Send(batch@, awaiting@),
            Step::Sign(job) => StepView::Sign(job@),
            Step::Done(outcome) => StepView::Done(outcome@),
        }
    }
}

/// The model of a client.
pub struct ClientState {
    /// The identifier of the last request
    pub id: u64,
    pub chain_id: Option<u32>,
    pub sha3_private_key: Option<Sha3PrivKey>,
    pub blake2b_private_key: Option<Blake2bPrivKey>,
    pub debug: bool,
}

/// The identifier behind `id`; the last one is followed by zero.
pub open spec fn next_id(id: u64) -> u64 {
    if id == u64::MAX {
        0
    } else {
        (id + 1) as u64
    }
}

/// The identifier `n` places behind `id`.
pub open spec fn nth_id(id: u64, n: nat) -> u64
    decreases n,
{
    if n == 0 {
        id
    } else {
        next_id(nth_id(id, (n - 1) as nat))
    }
}

/// The client once it has used up `n` identifiers.
pub open spec fn after_requests(client: ClientState, n: nat) -> ClientState {
    ClientState { id: nth_id(client.id, n), ..client }
}

/// The client once it has used up one identifier.
pub open spec fn after_request(client: ClientState) -> ClientState {
    ClientState { id: next_id(client.id), ..client }
}

/// One request to each URL, all with the same members and the same identifier. In debug mode the
/// members are traced as they were handed in.
pub open spec fn broadcast_batch(client: ClientState, urls: Seq<Seq<char>>, params: Members) -> BatchView {
    BatchView {
        trace: if client.debug {
            Some(params)
        } else {
            None
        },
        requests: Seq::new(
            urls.len(),
            |i: int| OutgoingView { url: urls[i], params: with_id(params, next_id(client.id)) },
        ),
    }
}

/// All requests to one URL, each with an identifier of its own.
pub open spec fn series_batch(client: ClientState, url: Seq<char>, params: Seq<Members>) -> BatchView {
    BatchView {
        trace: None,
        requests: Seq::new(
            params.len(),
            |i: int| OutgoingView { url, params: with_id(params[i], nth_id(client.id, (i + 1) as nat)) },
        ),
    }
}

/// The step that sends one request to one node.
pub open spec fn ask(client: ClientState, url: Seq<char>, params: Members, awaiting: AwaitingView) -> StepView {
    StepView::Send(broadcast_batch(client, seq![url], params), awaiting)
}

/// The request for the metadata of the chain at some height.
pub open spec fn metadata_request(height: Seq<char>) -> Members {
    request_with(CITA_GET_META_DATA@, seq![Json::Str(height)])
}

/// The request that sends a signed transaction.
pub open spec fn transaction_request(transaction: Seq<char>) -> Members {
    request_with(CITA_SEND_TRANSACTION@, seq![Json::Str(transaction)])
}

/// The call starts with one request to one node.
pub open spec fn is_asked(
    client: ClientState,
    url: Seq<char>,
    params: Members,
    awaiting: AwaitingView,
    after: ClientState,
    res: Result<Step, ToolError>,
) -> bool {
    &&& after == after_request(client)
    &&& res matches Ok(step)
    &&& step@ == ask(client, url, params, awaiting)
}

/// The call for a transaction starts: a code that is not hexadecimal is refused, with nothing
/// sent; for any other the node is asked for its height, even where a height was asked for.
pub open spec fn is_transaction_started(
    client: ClientState,
    code: Seq<char>,
    draft: DraftView,
    after: ClientState,
    res: Result<Step, ToolError>,
) -> bool {
    match res {
        Err(ToolError::Decode(error)) => after == client && is_hex_fault(encode_utf8(code), error),
        Ok(step) => {
            &&& is_hex_form(encode_utf8(code))
            &&& is_asked(
                client,
                draft.url,
                request(CITA_BLOCK_NUMBER@),
                AwaitingView::DraftHeight(draft),
                after,
                res,
            )
        },
    }
}

/// The draft of a transaction to `address` with the bytes of `code` as its data.
pub open spec fn draft_of(
    url: Seq<char>,
    code: Seq<char>,
    address: Seq<char>,
    current_height: Option<u64>,
    quota: Option<u64>,
    value: Option<u64>,
    scheme: Scheme,
    purpose: Purpose,
) -> DraftView {
    DraftView {
        url,
        data: hex_bytes(encode_utf8(code)),
        to: address,
        current_height,
        quota,
        value,
        scheme,
        purpose,
    }
}

/// The key that the client has for a scheme.
pub open spec fn key_for(client: ClientState, scheme: Scheme) -> Option<SigningKey> {
    match scheme {
        Scheme::Sha3 => match client.sha3_private_key {
            Some(key) => Some(SigningKey::Sha3(key)),
            None => None,
        },
        Scheme::Blake2b => match client.blake2b_private_key {
            Some(key) => Some(SigningKey::Blake2b(key)),
            None => None,
        },
    }
}

/// The height that a draft counts from: the one that was asked for, before the one that the node
/// told.
pub open spec fn base_height(draft: DraftView, response: ResponseView) -> u64 {
    match draft.current_height {
        Some(height) => height,
        None => height_of(response)->0,
    }
}

/// The client once it has read the metadata: it keeps an identifier of the chain that it could
/// read.
pub open spec fn after_metadata(client: ClientState, response: ResponseView) -> ClientState {
    match chain_id_of(response) {
        Some(chain_id) => ClientState { chain_id: Some(chain_id), ..client },
        None => client,
    }
}

/// The identifier of the chain that the metadata gives a call: zero where it could not be read.
pub open spec fn told_chain_id(response: ResponseView) -> u32 {
    match chain_id_of(response) {
        Some(chain_id) => chain_id,
        None => 0,
    }
}

/// What a response has to hold for the call to go on.
pub open spec fn is_acceptable(client: ClientState, awaiting: AwaitingView, response: ResponseView) -> bool {
    match awaiting {
        AwaitingView::Answer => true,
        AwaitingView::Height => has_readable_height(response),
        AwaitingView::ChainId => has_readable_chain_id(response),
        AwaitingView::Authorities => has_readable_authorities(response),
        AwaitingView::DraftHeight(draft) => {
            &&& text_of(response) is Some
            &&& has_readable_height(response)
            &&& base_height(draft, response) + VALID_BLOCKS <= u64::MAX
            &&& client.chain_id is Some ==> key_for(client, draft.scheme) is Some
        },
        AwaitingView::DraftChainId(draft, _) => {
            &&& has_readable_chain_id(response)
            &&& key_for(client, draft.scheme) is Some
        },
    }
}

/// The step asks for the signature of the transaction that the draft becomes, with some fresh
/// nonce.
pub open spec fn is_signing(
    client: ClientState,
    draft: DraftView,
    valid_until_block: u64,
    chain_id: u32,
    step: StepView,
) -> bool {
    &&& step matches StepView::Sign(job)
    &&& is_nonce(job.transaction.nonce)
    &&& job == signing_job_of(
        draft,
        valid_until_block,
        chain_id,
        key_for(client, draft.scheme)->0,
        job.transaction.nonce,
    )
}

/// What a response leads to: the client after it, and the next step.
pub open spec fn is_resumed(
    client: ClientState,
    awaiting: AwaitingView,
    response: ResponseView,
    after: ClientState,
    step: StepView,
) -> bool {
    match awaiting {
        AwaitingView::Answer => after == client && step == StepView::Done(OutcomeView::Response(response)),
        AwaitingView::Height => {
            after == client && step == StepView::Done(OutcomeView::Height(height_of(response)))
        },
        AwaitingView::ChainId => {
            &&& after == after_metadata(client, response)
            &&& step == StepView::Done(OutcomeView::ChainId(told_chain_id(response)))
        },
        AwaitingView::Authorities => {
            after == client && step == StepView::Done(OutcomeView::Authorities(authorities_of(response)))
        },
        AwaitingView::DraftHeight(draft) => {
            let valid_until = (base_height(draft, response) + VALID_BLOCKS) as u64;
            match client.chain_id {
                Some(chain_id) => after == client && is_signing(client, draft, valid_until, chain_id, step),
                None => {
                    &&& after == after_request(client)
                    &&& step == ask(
                        client,
                        draft.url,
                        metadata_request("latest"@),
                        AwaitingView::DraftChainId(draft, valid_until),
                    )
                },
            }
        },
        AwaitingView::DraftChainId(draft, valid_until) => {
            &&& after == after_metadata(client, response)
            &&& is_signing(client, draft, valid_until, told_chain_id(response), step)
        },
    }
}

/// What a signed transaction leads to: the step that hands its digits back, or the one that sends
/// them.
pub open spec fn signed_step(client: ClientState, job: SigningJobView, signed: Seq<u8>) -> StepView {
    match job.purpose {
        Purpose::Generate => StepView::Done(OutcomeView::Transaction(hex_text(signed))),
        Purpose::Submit => ask(client, job.url, transaction_request(hex_text(signed)), AwaitingView::Answer),
    }
}

/// The client once it has gone on with a signed transaction.
pub open spec fn after_signed(client: ClientState, job: SigningJobView) -> ClientState {
    match job.purpose {
        Purpose::Generate => client,
        Purpose::Submit => after_request(client),
    }
}

}
