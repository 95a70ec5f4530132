//! Signing identities: asymmetric key pairs supplied by the caller as raw
//! secret-key bytes, validated on decode, and used only to sign one
//! transaction. The byte layout is the 32-byte secret followed by the
//! 32-byte public key.

use vstd::prelude::*;
use crate::address::Address;
use crate::errors::BridgeError;

verus! {

/// The number of bytes in a signing key pair: the secret half followed by
/// the public half.
pub const KEYPAIR_LEN: usize = 64;

/// Whether `solana_sdk::signature::Keypair::from_bytes` accepts a byte
/// sequence: it does exactly when the sequence has 64 bytes, the last 32 are
/// a valid public key, and that public key matches the one derived from the
/// first 32. The result depends on the bytes alone.
pub uninterp spec fn keypair_bytes_valid(b: Seq<u8>) -> bool;

/// A validated signing key pair, held as its 64 raw bytes; the view is the
/// byte sequence.
pub struct SigningIdentity {
    pub(crate) secret: Vec<u8>,
}

impl View for SigningIdentity {
    type V = Seq<u8>;

    closed spec fn view(&self) -> Seq<u8> {
        self.secret@
    }
}

impl SigningIdentity {
    /// A well-formed identity holds 64 bytes that form a valid key pair.
    pub open spec fn wf(&self) -> bool {
        self@.len() == KEYPAIR_LEN && keypair_bytes_valid(self@)
    }

    /// The public address of the identity: the second half of its bytes.
    pub open spec fn spec_address(&self) -> Seq<u8> {
        self@.subrange(32, 64)
    }

    /// Decode an identity from raw secret-key bytes. Fails with
    /// `InvalidKeypair` exactly on the byte sequences that are not a valid
    /// key pair; no other effect takes place on such input.
    pub fn from_bytes(bytes: &Vec<u8>) -> (r: Result<SigningIdentity, BridgeError>)
        ensures
            r is Ok <==> keypair_bytes_valid(bytes@),
            r matches Ok(id) ==> id@ == bytes@ && id.wf(),
            r matches Err(e) ==> e == BridgeError::InvalidKeypair,
    {
        if check_keypair_bytes(bytes) {
            Ok(SigningIdentity { secret: bytes.clone() })
        } else {
            Err(BridgeError::InvalidKeypair)
        }
    }

    /// The public address of the identity, when it is valid.
    pub fn address(&self) -> (r: Option<Address>)
        ensures
            r is Some <==> self.wf(),
            r matches Some(a) ==> a@ == self.spec_address() && a.wf(),
    {
        if check_keypair_bytes(&self.secret) {
            Some(self.address_internal())
        } else {
            None
        }
    }

    /// Whether the held bytes form a valid key pair, decided at run time.
    pub fn is_valid(&self) -> (r: bool)
        ensures
            r == self.wf(),
    {
        check_keypair_bytes(&self.secret)
    }

    /// A copy of the identity.
    pub(crate) fn duplicate(&self) -> (r: SigningIdentity)
        ensures
            r@ == self@,
    {
        SigningIdentity { secret: self.secret.clone() }
    }

    /// The public address of a valid identity.
    pub(crate) fn address_internal(&self) -> (r: Address)
        requires
            self.wf(),
        ensures
            r@ == self.spec_address(),
            r.wf(),
    {
        identity_address_call(self)
    }
}

/// Relies on `Keypair::from_bytes` of `solana-sdk`: it rejects every byte
/// sequence whose length is not 64 (too short directly, too long through the
/// public-key length check), and acceptance depends on the bytes alone.
#[verifier::external_body]
fn check_keypair_bytes(bytes: &Vec<u8>) -> (r: bool)
    ensures
        r == keypair_bytes_valid(bytes@),
        bytes@.len() != KEYPAIR_LEN ==> !r,
{
    solana_sdk::signature::Keypair::from_bytes(bytes.as_slice()).is_ok()
}

/// Relies on `Keypair::from_bytes` and `Signer::pubkey` of `solana-sdk`:
/// the key pair's public key is parsed from bytes 32..64 and returned
/// unchanged by `pubkey`.
#[verifier::external_body]
fn identity_address_call(id: &SigningIdentity) -> (r: Address)
    requires
        id.wf(),
    ensures
        r@ == id.spec_address(),
        r.wf(),
{
    let keypair = solana_sdk::signature::Keypair::from_bytes(id.secret.as_slice()).unwrap();
    let pk = solana_sdk::signer::Signer::pubkey(&keypair);
    Address::from_raw_bytes(pk.to_bytes().to_vec())
}

/// Relies on `Keypair::new` of `solana-sdk`: a freshly generated key pair
/// whose 64 bytes round-trip through `Keypair::from_bytes`. Nothing is
/// promised about which key pair comes back.
#[verifier::external_body]
pub(crate) fn generate_identity() -> (r: SigningIdentity)
    ensures
        r.wf(),
{
    let keypair = solana_sdk::signature::Keypair::new();
    SigningIdentity { secret: keypair.to_bytes().to_vec() }
}

} // verus!
