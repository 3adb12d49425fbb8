//! The JSON-RPC 1.0 envelope used to talk to the ledger node, and the plain
//! records that its answers carry.

use crate::confidential::AssetId;
use vstd::prelude::*;

verus! {

/// A JSON-RPC request: a method name with its parameters.
#[derive(Clone, Debug)]
pub struct Request<T> {
    pub id: String,
    pub jsonrpc: String,
    pub method: String,
    pub params: T,
}

impl<T> Request<T> {
    /// A request for `method` with `params`, under the fixed id "1".
    pub fn new(method: &str, params: T, jsonrpc: String) -> (r: Self)
        ensures
            r.id@ == seq!['1'],
            r.jsonrpc@ == jsonrpc@,
            r.method@ == method@,
            r.params == params,
    {
        let id = "1".to_owned();
        proof {
            reveal_strlit("1");
        }
        Request { id, jsonrpc, method: method.to_owned(), params }
    }
}

/// The error object of a failed JSON-RPC call.
#[derive(Clone, Debug, PartialEq, Eq)]
pub struct JsonRpcError {
    pub code: i64,
    pub message: String,
}

impl JsonRpcError {
    pub fn new(code: i64, message: String) -> (r: Self)
        ensures
            r.code == code,
            r.message@ == message@,
    {
        JsonRpcError { code, message }
    }
}

/// What a JSON-RPC answer carries: a result or an error.
#[derive(Debug)]
pub enum ResponsePayload<R> {
    Result(R),
    Error(JsonRpcError),
}

impl<R> ResponsePayload<R> {
    /// The result, or the error that the node reported.
    pub fn into_result(self) -> (r: Result<R, JsonRpcError>)
        ensures
            match self {
                ResponsePayload::Result(v) => r == Ok::<R, JsonRpcError>(v),
                ResponsePayload::Error(e) => r == Err::<R, JsonRpcError>(e),
            },
    {
        match self {
            ResponsePayload::Result(result) => Ok(result),
            ResponsePayload::Error(e) => Err(e),
        }
    }
}

/// A JSON-RPC answer.
#[derive(Debug)]
pub struct Response<R> {
    pub payload: ResponsePayload<R>,
}

impl<R> Response<R> {
    /// The result of the answer, or its error.
    pub fn into_result(self) -> (r: Result<R, JsonRpcError>)
        ensures
            match self.payload {
                ResponsePayload::Result(v) => r == Ok::<R, JsonRpcError>(v),
                ResponsePayload::Error(e) => r == Err::<R, JsonRpcError>(e),
            },
    {
        self.payload.into_result()
    }
}

/// The answer to `unblindrawtransaction`: the transaction, hex-encoded.
#[derive(Clone, Debug, PartialEq, Eq)]
pub struct UnblindRawTransactionResponse {
    pub hex: String,
}

/// The answer to `signrawtransactionwithwallet`: the transaction, hex-encoded.
#[derive(Clone, Debug, PartialEq, Eq)]
pub struct SignRawTransactionWithWalletResponse {
    pub hex: String,
}

/// The answer to `issueasset`.
#[derive(Clone, Debug, PartialEq, Eq)]
pub struct IssueAssetResponse {
    pub txid: [u8; 32],
    pub vin: u8,
    pub entropy: String,
    pub asset: AssetId,
    pub token: String,
}

/// The answer to `reissueasset`.
#[derive(Clone, Copy, Debug, PartialEq, Eq)]
pub struct ReissueAssetResponse {
    pub txid: [u8; 32],
    pub vin: u8,
}

/// The part of `getblockchaininfo` that is read.
#[derive(Clone, Debug, PartialEq, Eq)]
pub struct BlockchainInfo {
    pub chain: String,
    pub mediantime: u32,
}

/// The query options of `listunspent`; none of them is set by default.
#[derive(Clone, Copy, Debug, PartialEq, Eq)]
pub struct ListUnspentOptions {
    pub minimum_amount: Option<u64>,
    pub max_amount: Option<u64>,
    pub maximum_count: Option<u64>,
    pub minimum_sum_amount: Option<u64>,
    pub asset: Option<AssetId>,
}

impl Default for ListUnspentOptions {
    fn default() -> (r: Self)
        ensures
            r.minimum_amount is None,
            r.max_amount is None,
            r.maximum_count is None,
            r.minimum_sum_amount is None,
            r.asset is None,
    {
        ListUnspentOptions {
            minimum_amount: None,
            max_amount: None,
            maximum_count: None,
            minimum_sum_amount: None,
            asset: None,
        }
    }
}

impl ListUnspentOptions {
    /// The options that select the outputs of one asset only.
    pub fn for_asset(asset: AssetId) -> (r: Self)
        ensures
            r.asset == Some(asset),
            r.minimum_amount is None,
            r.max_amount is None,
            r.maximum_count is None,
            r.minimum_sum_amount is None,
    {
        ListUnspentOptions {
            minimum_amount: None,
            max_amount: None,
            maximum_count: None,
            minimum_sum_amount: None,
            asset: Some(asset),
        }
    }
}

} // verus!
