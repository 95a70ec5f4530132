//! Public addresses: fixed-length on-chain account identifiers, parsed from
//! their textual (base58) form, plus the program-address derivation used for
//! tree authorities and the well-known program identifiers of the workflow.

use vstd::prelude::*;
use crate::errors::BridgeError;

verus! {

/// The number of bytes in a public address.
pub const ADDRESS_LEN: usize = 32;

/// What `solana_program::pubkey::Pubkey::from_str` yields for a given string:
/// `Some` of the 32 decoded bytes when the string is a well-formed base58
/// encoding of exactly 32 bytes, `None` otherwise. The result depends on the
/// characters alone.
pub uninterp spec fn parsed_address(s: Seq<char>) -> Option<Seq<u8>>;

/// What `Pubkey::try_find_program_address` yields for a single seed and a
/// program identifier: `Some` of the derived 32-byte address when some bump
/// seed yields a valid derivation, `None` otherwise. The result depends on
/// the seed and program bytes alone.
pub uninterp spec fn derived_address(seed: Seq<u8>, program: Seq<u8>) -> Option<Seq<u8>>;

/// The compressed-token program identifier, as its documented base58 text.
pub open spec fn bubblegum_program_address() -> Seq<u8> {
    parsed_address("BGUMAp9Gq7iTEuizy4pqaxsTyUCBK68MDfK752saRPUY"@)->0
}

/// The logging helper program identifier.
pub open spec fn noop_program_address() -> Seq<u8> {
    parsed_address("noopb9bkMVfRPU8AsbpTUg8AQkHtKwMYZiFUjNRtMmV"@)->0
}

/// The account-compression helper program identifier.
pub open spec fn compression_program_address() -> Seq<u8> {
    parsed_address("cmtDvXumGCrqC1Age74AVPhSRVXJMd8PJS91L8KbNCK"@)->0
}

/// The system program identifier.
pub open spec fn system_program_address() -> Seq<u8> {
    parsed_address("11111111111111111111111111111111"@)->0
}

/// A fixed-length account identifier, held as its 32 raw bytes.
pub struct Address {
    bytes: Vec<u8>,
}

impl View for Address {
    type V = Seq<u8>;

    closed spec fn view(&self) -> Seq<u8> {
        self.bytes@
    }
}

impl Address {
    /// A well-formed address holds exactly 32 bytes.
    pub open spec fn wf(&self) -> bool {
        self@.len() == ADDRESS_LEN
    }

    /// Decode an address from its textual form. Fails with `InvalidPubkey`
    /// exactly on the strings that are not well-formed fixed-length
    /// encodings.
    pub fn parse(s: &str) -> (r: Result<Address, BridgeError>)
        ensures
            r is Ok <==> parsed_address(s@) is Some,
            r matches Ok(a) ==> Some(a@) == parsed_address(s@) && a.wf(),
            r matches Err(e) ==> e == BridgeError::InvalidPubkey,
    {
        match parse_address_call(s) {
            Some(a) => Ok(a),
            None => Err(BridgeError::InvalidPubkey),
        }
    }

    /// The raw bytes of the address.
    pub fn as_slice(&self) -> (r: &[u8])
        ensures
            r@ == self@,
    {
        self.bytes.as_slice()
    }

    /// Wrap raw bytes as an address value.
    pub(crate) fn from_raw_bytes(bytes: Vec<u8>) -> (r: Address)
        ensures
            r@ == bytes@,
    {
        Address { bytes }
    }
}

/// Relies on `Pubkey::from_str` of `solana-program`: a deterministic base58
/// decode that succeeds exactly when the text is at most 44 characters and
/// decodes to exactly 32 bytes, and on `Pubkey::to_bytes`, which returns
/// those 32 bytes.
#[verifier::external_body]
fn parse_address_call(s: &str) -> (r: Option<Address>)
    ensures
        r is Some <==> parsed_address(s@) is Some,
        r matches Some(a) ==> Some(a@) == parsed_address(s@) && a@.len() == ADDRESS_LEN,
        s@.len() > 44 ==> r is None,
{
    match <solana_program::pubkey::Pubkey as core::str::FromStr>::from_str(s) {
        Ok(pk) => Some(Address { bytes: pk.to_bytes().to_vec() }),
        Err(_) => None,
    }
}

/// Relies on `Pubkey::try_find_program_address` of `solana-program`: a
/// deterministic, one-way derivation from the seed bytes and the program
/// identifier to a 32-byte address, returning `None` when no bump seed
/// yields a valid address.
#[verifier::external_body]
pub(crate) fn derive_address_call(seed: &Address, program: &Address) -> (r: Option<Address>)
    requires
        seed.wf(),
        program.wf(),
    ensures
        r is Some <==> derived_address(seed@, program@) is Some,
        r matches Some(a) ==> Some(a@) == derived_address(seed@, program@) && a@.len() == ADDRESS_LEN,
{
    let mut arr = [0u8; 32];
    arr.copy_from_slice(program.bytes.as_slice());
    let program_id = solana_program::pubkey::Pubkey::new_from_array(arr);
    let (pk, _bump) = solana_program::pubkey::Pubkey::try_find_program_address(
        &[seed.bytes.as_slice()],
        &program_id,
    )?;
    Some(Address { bytes: pk.to_bytes().to_vec() })
}

/// Relies on `mpl_bubblegum::ID`: the constant program identifier declared in
/// the client as the base58 text named in `bubblegum_program_address`.
#[verifier::external_body]
pub(crate) fn bubblegum_program_id() -> (r: Address)
    ensures
        r@ == bubblegum_program_address(),
        r.wf(),
{
    Address { bytes: mpl_bubblegum::ID.to_bytes().to_vec() }
}

/// Relies on `spl_noop::id()`: the constant program identifier declared as
/// the base58 text named in `noop_program_address`.
#[verifier::external_body]
pub(crate) fn noop_program_id() -> (r: Address)
    ensures
        r@ == noop_program_address(),
        r.wf(),
{
    Address { bytes: spl_noop::id().to_bytes().to_vec() }
}

/// Relies on `spl_account_compression::id()`: the constant program
/// identifier declared as the base58 text named in
/// `compression_program_address`.
#[verifier::external_body]
pub(crate) fn compression_program_id() -> (r: Address)
    ensures
        r@ == compression_program_address(),
        r.wf(),
{
    Address { bytes: spl_account_compression::id().to_bytes().to_vec() }
}

/// Relies on `solana_program::system_program::id()`: the constant program
/// identifier whose base58 text is named in `system_program_address`.
#[verifier::external_body]
pub(crate) fn system_program_id() -> (r: Address)
    ensures
        r@ == system_program_address(),
        r.wf(),
{
    Address { bytes: solana_program::system_program::id().to_bytes().to_vec() }
}

} // verus!
