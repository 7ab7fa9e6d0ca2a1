//! The client: the state that calls share, and the calls for transactions.

use crate::digits::{hex_decode, hex_encode, is_hex_form};
use crate::reply::{
    are_authorities_readable, authorities_of, has_readable_chain_id, is_chain_id_readable, is_height_readable, read_authorities, read_chain_id, read_height,
    reply_text,
};
use crate::rpc::{
    method_request, method_request_with, request, Batch, JsonRpcParams, JsonRpcResponse, Members, Outgoing,
    CITA_BLOCK_NUMBER, CITA_GET_META_DATA, CITA_SEND_TRANSACTION,
};
use crate::step::{
    after_metadata, after_request, after_requests, after_signed, ask, broadcast_batch, draft_of, is_acceptable, is_resumed, is_signing,
    is_transaction_started, key_for, metadata_request, nth_id, series_batch, signed_step, texts,
    told_chain_id, Awaiting, AwaitingView, ClientState, Outcome, OutcomeView, Step, StepView, ToolError,
};
use crate::transaction::{
    prepare_signing, Blake2bPrivKey, Draft, PrivateKey, Purpose, Scheme, Sha3PrivKey, SigningJob, SigningKey,
    VALID_BLOCKS,
};
use crate::value::{json_list, Json, ParamsValue};
use vstd::prelude::*;
use vstd::utf8::encode_utf8;

verus! {

/// A JSON-RPC client for one chain.
#[derive(Debug)]
pub struct Client {
    id: u64,
    chain_id: Option<u32>,
    sha3_private_key: Option<Sha3PrivKey>,
    blake2b_private_key: Option<Blake2bPrivKey>,
    debug: bool,
}

impl View for Client {
    type V = ClientState;

    closed spec fn view(&self) -> ClientState {
        ClientState {
            id: self.id,
            chain_id: self.chain_id,
            sha3_private_key: self.sha3_private_key,
            blake2b_private_key: self.blake2b_private_key,
            debug: self.debug,
        }
    }
}

/// The model of a list of borrowed texts.
pub open spec fn borrowed_texts(items: Seq<&str>) -> Seq<Seq<char>> {
    Seq::new(items.len(), |i: int| items[i]@)
}

/// The models of a list of requests.
pub open spec fn members_of(params: Seq<JsonRpcParams>) -> Seq<Members> {
    Seq::new(params.len(), |i: int| params[i]@)
}

/// The client with a private key taken in.
pub open spec fn with_private_key(client: ClientState, private_key: PrivateKey) -> ClientState {
    match private_key {
        PrivateKey::Sha3(key) => ClientState { sha3_private_key: Some(key), ..client },
        PrivateKey::Blake2b(key) => ClientState { blake2b_private_key: Some(key), ..client },
        PrivateKey::Null => client,
    }
}

impl Client {
    /// A client that has sent nothing and knows neither its chain nor a key.
    pub fn new() -> (res: Client)
        ensures
            res@ == (ClientState {
                id: 0,
                chain_id: None,
                sha3_private_key: None,
                blake2b_private_key: None,
                debug: false,
            }),
    {
        Client { id: 0, chain_id: None, sha3_private_key: None, blake2b_private_key: None, debug: false }
    }

    /// Sets the identifier of the chain.
    pub fn set_chain_id(&mut self, chain_id: u32) -> (res: &mut Self)
        ensures
            res@ == (ClientState { chain_id: Some(chain_id), ..old(self)@ }),
            *final(self) == *final(res),
    {
        self.chain_id = Some(chain_id);
        self
    }

    /// Sets the private key of the kind that is given; no key leaves both as they are.
    pub fn set_private_key(&mut self, private_key: PrivateKey) -> (res: &mut Self)
        ensures
            res@ == with_private_key(old(self)@, private_key),
            *final(self) == *final(res),
    {
        match private_key {
            PrivateKey::Sha3(sha3_private_key) => {
                self.sha3_private_key = Some(sha3_private_key);
            },
            PrivateKey::Blake2b(blake2b_private_key) => {
                self.blake2b_private_key = Some(blake2b_private_key);
            },
            PrivateKey::Null => {},
        }
        self
    }

    /// The private key for BLAKE2b.
    pub fn blake2b_private_key(&self) -> (res: Option<&Blake2bPrivKey>)
        ensures
            match res {
                Some(key) => self@.blake2b_private_key == Some(*key),
                None => self@.blake2b_private_key is None,
            },
    {
        self.blake2b_private_key.as_ref()
    }

    /// The private key for SHA-3.
    pub fn sha3_private_key(&self) -> (res: Option<&Sha3PrivKey>)
        ensures
            match res {
                Some(key) => self@.sha3_private_key == Some(*key),
                None => self@.sha3_private_key is None,
            },
    {
        self.sha3_private_key.as_ref()
    }

    /// Whether requests are traced.
    pub fn debug(&self) -> (res: bool)
        ensures
            res == self@.debug,
    {
        self.debug
    }

    /// Sets whether requests are traced.
    pub fn set_debug(self, mode: bool) -> (res: Self)
        ensures
            res@ == (ClientState { debug: mode, ..self@ }),
    {
        let mut client = self;
        client.debug = mode;
        client
    }

    /// One request to each URL, all with the same members and one fresh identifier. In debug mode
    /// the members are traced as they were handed in.
    pub fn send_request(&mut self, urls: Vec<&str>, params: JsonRpcParams) -> (res: Batch)
        ensures
            final(self)@ == after_request(old(self)@),
            res@ == broadcast_batch(old(self)@, borrowed_texts(urls@), params@),
    {
        let ghost client = self@;
        let trace: Option<JsonRpcParams> = if self.debug { Some(params.clone()) } else { None };
        self.id = self.id.wrapping_add(1);
        let stamped = params.insert("id", ParamsValue::Int(self.id));
        let n: usize = urls.len();
        let mut requests: Vec<Outgoing> = Vec::new();
        let mut i: usize = 0;
        while i < n
            invariant
                n == urls@.len(),
                i <= n,
                requests@.len() == i,
                forall|j: int|
                    0 <= j < i ==> (#[trigger] requests@[j]).url@ == urls@[j]@ && requests@[j].params@
                        == stamped@,
            decreases n - i,
        {
            requests.push(Outgoing { url: urls[i].to_string(), params: stamped.clone() });
            i = i + 1;
        }
        let batch = Batch { trace, requests };
        assert(batch@ =~= broadcast_batch(client, borrowed_texts(urls@), params@)) by {
            assert forall|j: int| 0 <= j < n implies batch@.requests[j] == broadcast_batch(
                client,
                borrowed_texts(urls@),
                params@,
            ).requests[j] by {
                assert(requests@[j].url@ == urls@[j]@);
            }
        }
        batch
    }

    /// All requests to one node, each with a fresh identifier of its own.
    pub fn send_request_with_multiple_params(&mut self, url: &str, params: Vec<JsonRpcParams>) -> (res: Batch)
        ensures
            final(self)@ == after_requests(old(self)@, params@.len()),
            res@ == series_batch(old(self)@, url@, members_of(params@)),
    {
        let ghost client = self@;
        let n: usize = params.len();
        let mut requests: Vec<Outgoing> = Vec::new();
        let mut i: usize = 0;
        while i < n
            invariant
                n == params@.len(),
                i <= n,
                self@ == after_requests(client, i as nat),
                requests@.len() == i,
                forall|j: int|
                    0 <= j < i ==> (#[trigger] requests@[j])@ == series_batch(
                        client,
                        url@,
                        members_of(params@),
                    ).requests[j],
            decreases n - i,
        {
            self.id = self.id.wrapping_add(1);
            assert(self.id == nth_id(client.id, (i + 1) as nat));
            requests.push(
                Outgoing { url: url.to_string(), params: params[i].clone().insert("id", ParamsValue::Int(self.id)) },
            );
            i = i + 1;
        }
        let batch = Batch { trace: None, requests };
        assert(batch@ =~= series_batch(client, url@, members_of(params@)));
        batch
    }

    /// The step that sends one request to one node.
    pub(crate) fn ask(&mut self, url: &str, params: JsonRpcParams, awaiting: Awaiting) -> (res: Step)
        ensures
            final(self)@ == after_request(old(self)@),
            res@ == ask(old(self)@, url@, params@, awaiting@),
    {
        let urls: Vec<&str> = vec![url];
        assert(borrowed_texts(urls@) =~= seq![url@]);
        Step::Send(self.send_request(urls, params), awaiting)
    }

    /// Starts the call for a transaction.
    pub(crate) fn start_transaction(
        &mut self,
        url: &str,
        code: &str,
        address: &str,
        current_height: Option<u64>,
        quota: Option<u64>,
        value: Option<u64>,
        scheme: Scheme,
        purpose: Purpose,
    ) -> (res: Result<Step, ToolError>)
        ensures
            is_transaction_started(
                old(self)@,
                code@,
                draft_of(url@, code@, address@, current_height, quota, value, scheme, purpose),
                final(self)@,
                res,
            ),
    {
        match hex_decode(code) {
            Ok(data) => {
                let draft = Draft {
                    url: url.to_string(),
                    data,
                    to: address.to_string(),
                    current_height,
                    quota,
                    value,
                    scheme,
                    purpose,
                };
                Ok(self.ask(url, method_request(CITA_BLOCK_NUMBER), Awaiting::DraftHeight(draft)))
            },
            Err(error) => Err(ToolError::Decode(error)),
        }
    }

    /// Starts the call for the hexadecimal form of a transaction, signed over its SHA-3 hash. An
    /// empty address creates a contract.
    pub fn generate_transaction(
        &mut self,
        url: &str,
        code: &str,
        address: &str,
        current_height: Option<u64>,
        quota: Option<u64>,
        value: Option<u64>,
    ) -> (res: Result<Step, ToolError>)
        ensures
            is_transaction_started(
                old(self)@,
                code@,
                draft_of(url@, code@, address@, current_height, quota, value, Scheme::Sha3, Purpose::Generate),
                final(self)@,
                res,
            ),
    {
        self.start_transaction(url, code, address, current_height, quota, value, Scheme::Sha3, Purpose::Generate)
    }

    /// Starts the call for the hexadecimal form of a transaction, signed over its BLAKE2b hash. An
    /// empty address creates a contract.
    pub fn generate_transaction_by_blake2b(
        &mut self,
        url: &str,
        code: &str,
        address: &str,
        current_height: Option<u64>,
        quota: Option<u64>,
        value: Option<u64>,
    ) -> (res: Result<Step, ToolError>)
        ensures
            is_transaction_started(
                old(self)@,
                code@,
                draft_of(url@, code@, address@, current_height, quota, value, Scheme::Blake2b, Purpose::Generate),
                final(self)@,
                res,
            ),
    {
        self.start_transaction(url, code, address, current_height, quota, value, Scheme::Blake2b, Purpose::Generate)
    }

    /// Starts the call for the identifier of the chain. Where the client knows it, the call is done
    /// at once; otherwise the node is asked for its latest metadata.
    pub fn get_chain_id(&mut self, url: &str) -> (res: Step)
        ensures
            match old(self)@.chain_id {
                Some(chain_id) => {
                    &&& final(self)@ == old(self)@
                    &&& res@ == StepView::Done(OutcomeView::ChainId(chain_id))
                },
                None => {
                    &&& final(self)@ == after_request(old(self)@)
                    &&& res@ == ask(old(self)@, url@, metadata_request("latest"@), AwaitingView::ChainId)
                },
            },
    {
        match self.chain_id {
            Some(chain_id) => Step::Done(Outcome::ChainId(chain_id)),
            None => self.ask_metadata(url, "latest", Awaiting::ChainId),
        }
    }

    /// The step that asks for the metadata of the chain at some height.
    pub(crate) fn ask_metadata(&mut self, url: &str, height: &str, awaiting: Awaiting) -> (res: Step)
        ensures
            final(self)@ == after_request(old(self)@),
            res@ == ask(old(self)@, url@, metadata_request(height@), awaiting@),
    {
        let params: Vec<ParamsValue> = vec![ParamsValue::String(height.to_string())];
        assert(json_list(params@) =~= seq![Json::Str(height@)]);
        self.ask(url, method_request_with(CITA_GET_META_DATA, params), awaiting)
    }

    /// Starts the call for the height of the chain.
    pub fn get_current_height(&mut self, url: &str) -> (res: Step)
        ensures
            final(self)@ == after_request(old(self)@),
            res@ == ask(old(self)@, url@, request(CITA_BLOCK_NUMBER@), AwaitingView::Height),
    {
        self.ask(url, method_request(CITA_BLOCK_NUMBER), Awaiting::Height)
    }

    /// Starts the transfer of `value` to `address`, a transaction without code.
    pub fn transfer(
        &mut self,
        url: &str,
        value: u64,
        address: &str,
        quota: Option<u64>,
        blake2b: bool,
    ) -> (res: Result<Step, ToolError>)
        ensures
            is_transaction_started(
                old(self)@,
                ""@,
                draft_of(
                    url@,
                    ""@,
                    address@,
                    None,
                    quota,
                    Some(value),
                    if blake2b {
                        Scheme::Blake2b
                    } else {
                        Scheme::Sha3
                    },
                    Purpose::Submit,
                ),
                final(self)@,
                res,
            ),
            res is Ok,
    {
        assert(is_hex_form(encode_utf8(""@))) by {
            reveal_strlit("");
            assert(encode_utf8(""@).len() == 0);
        }
        let scheme = if blake2b { Scheme::Blake2b } else { Scheme::Sha3 };
        self.start_transaction(url, "", address, None, quota, Some(value), scheme, Purpose::Submit)
    }

    /// The key that the client has for a scheme.
    fn signing_key(&self, scheme: Scheme) -> (res: Option<SigningKey>)
        ensures
            res == key_for(self@, scheme),
    {
        match scheme {
            Scheme::Sha3 => match self.sha3_private_key {
                Some(key) => Some(SigningKey::Sha3(key)),
                None => None,
            },
            Scheme::Blake2b => match self.blake2b_private_key {
                Some(key) => Some(SigningKey::Blake2b(key)),
                None => None,
            },
        }
    }

    /// Whether a call can go on with the last of the replies.
    pub fn accepts(&self, awaiting: &Awaiting, replies: &Vec<JsonRpcResponse>) -> (res: bool)
        ensures
            res == (replies@.len() > 0 && is_acceptable(self@, awaiting@, replies@.last()@)),
    {
        let n: usize = replies.len();
        if n == 0 {
            return false;
        }
        let response = &replies[n - 1];
        match awaiting {
            Awaiting::Answer => true,
            Awaiting::Height => is_height_readable(response),
            Awaiting::ChainId => is_chain_id_readable(response),
            Awaiting::Authorities => are_authorities_readable(response),
            Awaiting::DraftHeight(draft) => {
                if reply_text(response).is_none() || !is_height_readable(response) {
                    return false;
                }
                let height: u64 = match draft.current_height {
                    Some(height) => height,
                    None => read_height(response).unwrap(),
                };
                height <= u64::MAX - VALID_BLOCKS && (self.chain_id.is_none() || self.signing_key(
                    draft.scheme,
                ).is_some())
            },
            Awaiting::DraftChainId(draft, _) => {
                is_chain_id_readable(response) && self.signing_key(draft.scheme).is_some()
            },
        }
    }

    /// Reads the identifier of the chain from its metadata and keeps it; zero where it is not
    /// there.
    fn learn_chain_id(&mut self, response: &JsonRpcResponse) -> (res: u32)
        requires
            has_readable_chain_id(response@),
        ensures
            final(self)@ == after_metadata(old(self)@, response@),
            res == told_chain_id(response@),
    {
        match read_chain_id(response) {
            Some(chain_id) => {
                self.chain_id = Some(chain_id);
                chain_id
            },
            None => 0,
        }
    }

    /// Takes the replies to a batch and goes on with the last of them.
    pub fn resume(&mut self, awaiting: Awaiting, replies: Vec<JsonRpcResponse>) -> (res: Step)
        requires
            replies@.len() > 0,
            is_acceptable(old(self)@, awaiting@, replies@.last()@),
        ensures
            is_resumed(old(self)@, awaiting@, replies@.last()@, final(self)@, res@),
    {
        let mut replies = replies;
        let response = replies.pop().unwrap();
        match awaiting {
            Awaiting::Answer => Step::Done(Outcome::Response(response)),
            Awaiting::Height => Step::Done(Outcome::Height(read_height(&response))),
            Awaiting::ChainId => Step::Done(Outcome::ChainId(self.learn_chain_id(&response))),
            Awaiting::Authorities => {
                let addresses: Vec<String> = match reply_text(&response) {
                    Some(text) => read_authorities(text.as_str()),
                    None => Vec::new(),
                };
                assert(texts(addresses@) =~= authorities_of(response@));
                Step::Done(Outcome::Authorities(addresses))
            },
            Awaiting::DraftHeight(draft) => {
                let height: u64 = match draft.current_height {
                    Some(height) => height,
                    None => read_height(&response).unwrap(),
                };
                let valid_until: u64 = height + VALID_BLOCKS;
                match self.chain_id {
                    Some(chain_id) => self.sign(draft, valid_until, chain_id),
                    None => {
                        let url = draft.url.clone();
                        self.ask_metadata(url.as_str(), "latest", Awaiting::DraftChainId(draft, valid_until))
                    },
                }
            },
            Awaiting::DraftChainId(draft, valid_until) => {
                let chain_id: u32 = self.learn_chain_id(&response);
                self.sign(draft, valid_until, chain_id)
            },
        }
    }

    /// The step that has a draft signed.
    fn sign(&self, draft: Draft, valid_until: u64, chain_id: u32) -> (res: Step)
        requires
            key_for(self@, draft.scheme) is Some,
        ensures
            is_signing(self@, draft@, valid_until, chain_id, res@),
    {
        let key = self.signing_key(draft.scheme).unwrap();
        Step::Sign(prepare_signing(draft, valid_until, chain_id, key))
    }

    /// Takes a signed transaction, serialised, and goes on with its hexadecimal form: it is handed
    /// back, or sent to the node.
    pub fn resume_signed(&mut self, job: SigningJob, signed: Vec<u8>) -> (res: Step)
        requires
            2 * signed@.len() <= isize::MAX,
        ensures
            final(self)@ == after_signed(old(self)@, job@),
            res@ == signed_step(old(self)@, job@, signed@),
    {
        let text = hex_encode(signed.as_slice());
        match job.purpose {
            Purpose::Generate => Step::Done(Outcome::Transaction(text)),
            Purpose::Submit => {
                let ghost digits = text@;
                let params: Vec<ParamsValue> = vec![ParamsValue::String(text)];
                assert(json_list(params@) =~= seq![Json::Str(digits)]);
                self.ask(
                    job.url.as_str(),
                    method_request_with(CITA_SEND_TRANSACTION, params),
                    Awaiting::Answer,
                )
            },
        }
    }
}

}
