# cita_client

The core of a JSON-RPC client for CITA chains, written and verified in Verus.

`src/` decides what the client says and what it makes of the answers: the requests of every method,
their identifiers, the transactions for contracts, stored data and amendments, and the reading of
replies. It does no input or output. A call runs in steps: a step names requests to send or a
transaction to sign, and the client takes the result and answers with the next step. Every function
states what it returns; `src/laws.rs` states what holds of them together.

Three calls go to other crates: `hex::decode`, `hex::encode` and `uuid::Uuid::new_v4`. What is taken
for granted of each stands above the function that makes the call.

`app/` drives the steps over HTTP. It sends the requests with `hyper`, turns them into JSON with
`serde`, and has transactions signed by a `Signer` that its user provides.

`tests/` runs the library on concrete values.
