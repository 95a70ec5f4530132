//! Failure taxonomy of the workflow. Every fallible public function of the
//! crate returns one of these categories; the underlying cause reported by an
//! outside library is not distinguished further.

use vstd::prelude::*;

verus! {

/// One failure category per rejection condition of the workflow:
/// malformed signing material, malformed address text, malformed structured
/// metadata or proof material, a failed blockhash fetch, and a failed
/// submission or signing step.
#[derive(Clone, Copy, Debug, PartialEq, Eq, Structural)]
pub enum BridgeError {
    /// The supplied secret-key bytes do not form a valid signing key pair.
    InvalidKeypair,
    /// An address string is not a well-formed fixed-length encoding.
    InvalidPubkey,
    /// A structured metadata value is malformed, or a proof field does not
    /// have exactly 32 bytes.
    DecodeError,
    /// The network endpoint could not supply a recent blockhash.
    RpcError,
    /// The transaction could not be signed, or was rejected or not confirmed
    /// by the network.
    TransactionError,
}

impl BridgeError {
    /// A short stable label for the category, for callers that report errors
    /// as text.
    pub fn label(&self) -> (r: &'static str)
        ensures
            self is InvalidKeypair ==> r@ == "invalid_keypair"@,
            self is InvalidPubkey ==> r@ == "invalid_pubkey"@,
            self is DecodeError ==> r@ == "decode_error"@,
            self is RpcError ==> r@ == "rpc_error"@,
            self is TransactionError ==> r@ == "transaction_error"@,
    {
        match self {
            BridgeError::InvalidKeypair => "invalid_keypair",
            BridgeError::InvalidPubkey => "invalid_pubkey",
            BridgeError::DecodeError => "decode_error",
            BridgeError::RpcError => "rpc_error",
            BridgeError::TransactionError => "transaction_error",
        }
    }
}

} // verus!
