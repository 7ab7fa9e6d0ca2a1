use cita_client::reply::{are_authorities_readable, read_authorities};
use cita_client::transaction::{complete_draft, Draft};
use cita_client::{
    Awaiting, Blake2bPrivKey, Client, ClientExt, ContractExt, DecodeError, ErrorResponse, JsonObject,
    JsonRpcResponse, Outcome, ParamsValue, PrivateKey, Purpose, ResponseValue, Scheme, Sha3PrivKey, SigningJob,
    SigningKey, Step, ToolError,
};

const URL: &str = "http://127.0.0.1:1337";

fn response(result: Option<ResponseValue>) -> JsonRpcResponse {
    JsonRpcResponse { jsonrpc: "2.0".to_string(), id: 1, result, error: None }
}

fn text_response(text: &str) -> JsonRpcResponse {
    response(Some(ResponseValue::Singe(ParamsValue::String(text.to_string()))))
}

fn metadata(chain_id: ParamsValue) -> JsonRpcResponse {
    response(Some(ResponseValue::Object(
        JsonObject::new().insert("chainName", ParamsValue::String("test".to_string())).insert("chainId", chain_id),
    )))
}

fn resume(client: &mut Client, awaiting: Awaiting, reply: JsonRpcResponse) -> Step {
    let replies = vec![reply];
    assert!(client.accepts(&awaiting, &replies));
    client.resume(awaiting, replies)
}

fn refuses(client: &Client, awaiting: &Awaiting, reply: JsonRpcResponse) -> bool {
    !client.accepts(awaiting, &vec![reply])
}

fn awaiting(step: Step) -> (Awaiting, String, u64) {
    match step {
        Step::Send(mut batch, awaiting) => {
            assert_eq!(batch.requests.len(), 1);
            let request = batch.requests.pop().unwrap();
            assert_eq!(request.url, URL);
            let method = match request.params.get("method") {
                Some(ParamsValue::String(method)) => method.clone(),
                other => panic!("{:?}", other),
            };
            let id = match request.params.get("id") {
                Some(ParamsValue::Int(id)) => *id,
                other => panic!("{:?}", other),
            };
            (awaiting, method, id)
        }
        other => panic!("{:?}", other),
    }
}

fn job(step: Step) -> SigningJob {
    match step {
        Step::Sign(job) => job,
        other => panic!("{:?}", other),
    }
}

fn sha3_key() -> Sha3PrivKey {
    Sha3PrivKey([7; 32])
}

fn blake2b_key() -> Blake2bPrivKey {
    Blake2bPrivKey([9; 64])
}

#[test]
fn settings_are_kept() {
    let mut client = Client::new();
    assert!(client.sha3_private_key().is_none());
    assert!(client.blake2b_private_key().is_none());
    assert!(!client.debug());
    client.set_private_key(PrivateKey::Sha3(sha3_key())).set_private_key(PrivateKey::Blake2b(blake2b_key()));
    assert_eq!(client.sha3_private_key(), Some(&sha3_key()));
    assert_eq!(client.blake2b_private_key(), Some(&blake2b_key()));
    client.set_private_key(PrivateKey::Null);
    assert_eq!(client.sha3_private_key(), Some(&sha3_key()));
    assert_eq!(client.blake2b_private_key(), Some(&blake2b_key()));
    client.set_private_key(PrivateKey::Sha3(Sha3PrivKey([8; 32])));
    assert_eq!(client.sha3_private_key(), Some(&Sha3PrivKey([8; 32])));
}

#[test]
fn a_known_chain_is_not_asked_for() {
    let mut client = Client::new();
    client.set_chain_id(12);
    assert!(matches!(client.get_chain_id(URL), Step::Done(Outcome::ChainId(12))));
    let (_, _, id) = awaiting(client.get_current_height(URL));
    assert_eq!(id, 1);
}

#[test]
fn the_chain_is_asked_for_once() {
    let mut client = Client::new();
    let (waiting, method, id) = awaiting(client.get_chain_id(URL));
    assert_eq!((method.as_str(), id), ("cita_getMetaData", 1));
    let step = resume(&mut client, waiting, metadata(ParamsValue::Int(5)));
    assert!(matches!(step, Step::Done(Outcome::ChainId(5))));
    assert!(matches!(client.get_chain_id(URL), Step::Done(Outcome::ChainId(5))));
}

#[test]
fn chain_identifiers_keep_their_low_bits() {
    let mut client = Client::new();
    let (waiting, _, _) = awaiting(client.get_chain_id(URL));
    let step = resume(&mut client, waiting, metadata(ParamsValue::Int(0x3_0000_0007)));
    assert!(matches!(step, Step::Done(Outcome::ChainId(7))));
}

#[test]
fn a_chain_that_is_not_told_is_zero_and_asked_for_again() {
    let mut client = Client::new();
    for reply in [
        metadata(ParamsValue::String("5".to_string())),
        response(None),
        response(Some(ResponseValue::Singe(ParamsValue::Int(5)))),
    ] {
        let (waiting, _, _) = awaiting(client.get_chain_id(URL));
        let step = resume(&mut client, waiting, reply);
        assert!(matches!(step, Step::Done(Outcome::ChainId(0))));
    }
    assert!(matches!(client.get_chain_id(URL), Step::Send(_, Awaiting::ChainId)));
}

#[test]
fn metadata_without_a_chain_is_not_accepted() {
    let client = Client::new();
    let empty = response(Some(ResponseValue::Object(JsonObject::new())));
    assert!(refuses(&client, &Awaiting::ChainId, empty));
}

#[test]
fn heights_are_read() {
    let mut client = Client::new();
    for (told, height) in [("0x1b4", 0x1b4), ("0X10", 16), ("ff", 255), ("0x0", 0), ("0x00000000000001b4", 0x1b4)] {
        let (waiting, method, _) = awaiting(client.get_current_height(URL));
        assert_eq!(method, "cita_blockNumber");
        match resume(&mut client, waiting, text_response(told)) {
            Step::Done(Outcome::Height(found)) => assert_eq!(found, Some(height)),
            other => panic!("{:?}", other),
        }
    }
    let (waiting, _, _) = awaiting(client.get_current_height(URL));
    let step = resume(&mut client, waiting, response(None));
    assert!(matches!(step, Step::Done(Outcome::Height(None))));
}

#[test]
fn unreadable_heights_are_not_accepted() {
    let client = Client::new();
    for told in ["", "5", "0x", "0xzz", "0x10000000000000000"] {
        assert!(refuses(&client, &Awaiting::Height, text_response(told)));
    }
    assert!(!client.accepts(&Awaiting::Height, &vec![]));
}

#[test]
fn answers_are_handed_back() {
    let mut client = Client::new();
    let (waiting, _, _) = awaiting(client.get_block_number(URL).unwrap());
    let failed = JsonRpcResponse {
        jsonrpc: "2.0".to_string(),
        id: 1,
        result: None,
        error: Some(ErrorResponse { code: -32700, message: "parse error".to_string() }),
    };
    let step = client.resume(waiting, vec![text_response("0x1"), failed]);
    match step {
        Step::Done(Outcome::Response(answer)) => {
            let error = answer.error.unwrap();
            assert_eq!((error.code, error.message.as_str()), (-32700, "parse error"));
        }
        other => panic!("{:?}", other),
    }
}

#[test]
fn codes_that_are_not_hexadecimal_are_refused() {
    let mut client = Client::new();
    let refused = client.generate_transaction(URL, "abc", "", None, None, None);
    assert!(matches!(refused, Err(ToolError::Decode(DecodeError::OddLength))));
    let refused = client.send_transaction(URL, "ab0gzz", "", None, None, None, false);
    assert!(matches!(
        refused,
        Err(ToolError::Decode(DecodeError::InvalidHexCharacter { c: 'g', index: 3 }))
    ));
    let refused = client.generate_transaction_by_blake2b(URL, "0x12", "", None, None, None);
    assert!(matches!(
        refused,
        Err(ToolError::Decode(DecodeError::InvalidHexCharacter { c: 'x', index: 1 }))
    ));
    let refused = client.generate_transaction(URL, "aé1", "", None, None, None);
    assert!(matches!(
        refused,
        Err(ToolError::Decode(DecodeError::InvalidHexCharacter { c: '\u{c3}', index: 1 }))
    ));
    let (_, _, id) = awaiting(client.get_current_height(URL));
    assert_eq!(id, 1);
}

#[test]
fn a_transaction_is_generated_in_steps() {
    let mut client = Client::new();
    client.set_private_key(PrivateKey::Sha3(sha3_key()));
    let (waiting, method, id) =
        awaiting(client.generate_transaction(URL, "6060Ff", "", None, None, None).unwrap());
    assert_eq!((method.as_str(), id), ("cita_blockNumber", 1));
    let (waiting, method, id) = awaiting(resume(&mut client, waiting, text_response("0x64")));
    assert_eq!((method.as_str(), id), ("cita_getMetaData", 2));
    let job = job(resume(&mut client, waiting, metadata(ParamsValue::Int(3))));
    assert!(matches!(job.key, SigningKey::Sha3(Sha3PrivKey([7, ..]))));
    assert_eq!(job.transaction.data, [0x60, 0x60, 0xff]);
    assert_eq!(job.transaction.to, "");
    assert_eq!(job.transaction.quota, 1_000_000);
    assert_eq!(job.transaction.value, 0);
    assert_eq!(job.transaction.valid_until_block, 188);
    assert_eq!(job.transaction.chain_id, 3);
    let nonce = &job.transaction.nonce;
    assert_eq!(nonce.len(), 32);
    assert!(nonce.bytes().all(|digit| matches!(digit, b'0'..=b'9' | b'a'..=b'f')));
    assert_eq!(&nonce[12..13], "4");
    assert!(matches!(&nonce[16..17], "8" | "9" | "a" | "b"));
    match client.resume_signed(job, vec![0x0a, 0xff, 0x00]) {
        Step::Done(Outcome::Transaction(text)) => assert_eq!(text, "0aff00"),
        other => panic!("{:?}", other),
    }
    assert!(matches!(client.get_chain_id(URL), Step::Done(Outcome::ChainId(3))));
}

#[test]
fn a_transaction_is_sent_in_steps() {
    let mut client = Client::new();
    client.set_chain_id(1).set_private_key(PrivateKey::Blake2b(blake2b_key()));
    let (waiting, _, id) = awaiting(
        client.send_transaction(URL, "", "0xto", Some(7), Some(30), Some(2), true).unwrap(),
    );
    assert_eq!(id, 1);
    let job = job(resume(&mut client, waiting, text_response("0x64")));
    assert!(matches!(job.key, SigningKey::Blake2b(_)));
    assert_eq!(job.transaction.to, "0xto");
    assert_eq!(job.transaction.quota, 30);
    assert_eq!(job.transaction.value, 2);
    assert_eq!(job.transaction.valid_until_block, 95);
    assert_eq!(job.transaction.chain_id, 1);
    match client.resume_signed(job, vec![0xab]) {
        Step::Send(batch, Awaiting::Answer) => {
            let params = &batch.requests[0].params;
            assert!(matches!(params.get("id"), Some(ParamsValue::Int(2))));
            match (params.get("method"), params.get("params")) {
                (Some(ParamsValue::String(method)), Some(ParamsValue::List(items))) => {
                    assert_eq!(method, "cita_sendTransaction");
                    assert_eq!(items.len(), 1);
                    assert!(matches!(&items[0], ParamsValue::String(text) if text == "ab"));
                }
                other => panic!("{:?}", other),
            }
        }
        other => panic!("{:?}", other),
    }
}

#[test]
fn a_transfer_is_a_transaction_without_code() {
    let mut client = Client::new();
    client.set_chain_id(1).set_private_key(PrivateKey::Sha3(sha3_key()));
    let (waiting, _, _) = awaiting(client.transfer(URL, 50, "to", None, false).unwrap());
    let job = job(resume(&mut client, waiting, text_response("0x00")));
    assert!(job.transaction.data.is_empty());
    assert_eq!(job.transaction.value, 50);
    assert_eq!(job.transaction.to, "to");
    assert_eq!(job.transaction.valid_until_block, 88);
    assert!(matches!(job.purpose, Purpose::Submit));
}

#[test]
fn nonces_are_fresh() {
    let mut client = Client::new();
    client.set_chain_id(1).set_private_key(PrivateKey::Sha3(sha3_key()));
    let mut nonces: Vec<String> = Vec::new();
    for _ in 0..2 {
        let (waiting, _, _) = awaiting(client.transfer(URL, 1, "to", None, false).unwrap());
        nonces.push(job(resume(&mut client, waiting, text_response("0x01"))).transaction.nonce);
    }
    assert_ne!(nonces[0], nonces[1]);
}

#[test]
fn a_transaction_needs_its_height_and_its_key() {
    let mut client = Client::new();
    let (waiting, _, _) =
        awaiting(client.send_transaction(URL, "", "to", Some(1), None, None, false).unwrap());
    assert!(refuses(&client, &waiting, response(None)));
    assert!(refuses(&client, &waiting, text_response("height")));
    assert!(client.accepts(&waiting, &vec![text_response("0x1f")]));
    client.set_chain_id(1);
    assert!(refuses(&client, &waiting, text_response("0x1f")));
    client.set_private_key(PrivateKey::Blake2b(blake2b_key()));
    assert!(refuses(&client, &waiting, text_response("0x1f")));
    client.set_private_key(PrivateKey::Sha3(sha3_key()));
    assert!(client.accepts(&waiting, &vec![text_response("0x1f")]));
}

#[test]
fn the_last_block_of_a_transaction_has_64_bits() {
    let mut client = Client::new();
    let (waiting, _, _) = awaiting(client.transfer(URL, 1, "to", None, false).unwrap());
    assert!(client.accepts(&waiting, &vec![text_response("0xffffffffffffffa7")]));
    assert!(refuses(&client, &waiting, text_response("0xffffffffffffffa8")));
}

#[test]
fn both_schemes_sign_the_same_transaction() {
    let draft = |scheme: Scheme| Draft {
        url: URL.to_string(),
        data: vec![1, 2],
        to: "to".to_string(),
        current_height: None,
        quota: None,
        value: Some(4),
        scheme,
        purpose: Purpose::Generate,
    };
    let nonce: Vec<u8> = (0..16).collect();
    let first = complete_draft(draft(Scheme::Sha3), 90, 2, SigningKey::Sha3(sha3_key()), &nonce);
    let second = complete_draft(draft(Scheme::Blake2b), 90, 2, SigningKey::Blake2b(blake2b_key()), &nonce);
    assert_eq!(first.transaction.nonce, "000102030405060708090a0b0c0d0e0f");
    assert_eq!(format!("{:?}", first.transaction), format!("{:?}", second.transaction));
}

fn authorities(addresses: &[&str]) -> String {
    let mut text = format!("0x{:064x}{:064x}", 32, addresses.len());
    for address in addresses {
        text.push_str(&format!("{:0>64}", address));
    }
    text
}

#[test]
fn authorities_are_read_from_their_words() {
    let first = "4b5ae4567ad5d9fb92bc9afd6a657e6fa13a2523";
    let second = "185e7072f53574666cf8ed8ec080e09b7e39c98f";
    assert_eq!(
        read_authorities(&authorities(&[first, second])),
        [format!("0x{}", first), format!("0x{}", second)]
    );
    assert!(read_authorities(&authorities(&[])).is_empty());
    assert!(read_authorities("0x").is_empty());
    assert!(read_authorities("abcd").is_empty());
}

#[test]
fn the_last_word_may_be_short() {
    let text = format!("{}{}{}", "0".repeat(128), "0".repeat(24), "abc");
    assert_eq!(read_authorities(&text), ["0xabc"]);
    let text = "0".repeat(152);
    assert_eq!(read_authorities(&text), ["0x"]);
}

#[test]
fn unreadable_authorities_are_not_accepted() {
    let client = Client::new();
    assert!(refuses(&client, &Awaiting::Authorities, text_response("0")));
    assert!(refuses(&client, &Awaiting::Authorities, text_response(&"0".repeat(140))));
    let cut = format!("{}{}{}", "0".repeat(128 + 23), "é", "0".repeat(39));
    assert!(!are_authorities_readable(&text_response(&cut)));
    let whole = format!("{}{}{}", "0".repeat(128 + 24), "é", "0".repeat(38));
    assert!(are_authorities_readable(&text_response(&whole)));
}

#[test]
fn authorities_are_the_result_of_their_call() {
    let mut client = Client::new();
    let address = "4b5ae4567ad5d9fb92bc9afd6a657e6fa13a2523";
    let (waiting, method, _) = awaiting(client.get_authorities(URL).unwrap());
    assert_eq!(method, "eth_call");
    match resume(&mut client, waiting, text_response(&authorities(&[address]))) {
        Step::Done(Outcome::Authorities(found)) => assert_eq!(found, [format!("0x{}", address)]),
        other => panic!("{:?}", other),
    }
    let (waiting, _, _) = awaiting(client.get_authorities(URL).unwrap());
    match resume(&mut client, waiting, response(None)) {
        Step::Done(Outcome::Authorities(found)) => assert!(found.is_empty()),
        other => panic!("{:?}", other),
    }
}
