//! Transaction assembly and signing: one instruction is bound to a recent
//! network checkpoint and signed locally by the fee payer and by every
//! supplied identity that the instruction marks as requiring authorization.
//! Submission is the caller's I/O step and happens outside the library.

use vstd::prelude::*;
use solana_sdk::instruction::AccountMeta;
use solana_sdk::instruction::Instruction;
use solana_sdk::message::Message;
use solana_sdk::signature::Keypair;
use solana_sdk::signer::Signer;
use solana_sdk::transaction::Transaction;
use crate::address::Address;
use crate::identity::SigningIdentity;
use crate::instruction::UnsignedInstruction;
use crate::instruction::to_pubkey;

verus! {

#[verifier::external_type_specification]
#[verifier::external_body]
pub struct ExTransaction(solana_sdk::transaction::Transaction);

/// A transaction once signed, ready for submission. The embedded value is
/// opaque to the library; the caller hands it to its network client.
pub struct SignedTransaction {
    pub inner: solana_sdk::transaction::Transaction,
}

/// Whether the instruction marks the given address as requiring a
/// signature.
pub open spec fn signer_required(ix: UnsignedInstruction, addr: Seq<u8>) -> bool {
    exists|i: int|
        0 <= i < ix.accounts@.len() && (#[trigger] ix.accounts@[i]).signer
            && ix.accounts@[i].address@ == addr
}

/// Whether the given identities cover every signature the instruction
/// requires: each address the instruction marks as a required signer is the
/// fee payer's (the first identity's) or belongs to one of the others.
pub open spec fn signers_cover(ix: UnsignedInstruction, signers: Seq<SigningIdentity>) -> bool {
    forall|a: Seq<u8>|
        #[trigger] signer_required(ix, a) ==> a == signers[0].spec_address() || exists|i: int|
            1 <= i < signers.len() && signers[i].spec_address() == a
}

/// Whether two byte slices hold the same bytes.
pub fn bytes_equal(a: &[u8], b: &[u8]) -> (r: bool)
    ensures
        r == (a@ == b@),
{
    if a.len() != b.len() {
        return false;
    }
    let n = a.len();
    let mut i: usize = 0;
    while i < n
        invariant
            i <= n,
            n == a@.len(),
            n == b@.len(),
            forall|j: int| 0 <= j < i ==> a@[j] == b@[j],
        decreases n - i,
    {
        if a[i] != b[i] {
            return false;
        }
        i = i + 1;
    }
    proof {
        assert(a@ =~= b@);
    }
    true
}

/// Whether the instruction marks the address as a required signer, decided
/// at run time.
pub fn is_required_signer(ix: &UnsignedInstruction, addr: &Address) -> (r: bool)
    ensures
        r == signer_required(*ix, addr@),
{
    let n = ix.accounts.len();
    let mut i: usize = 0;
    while i < n
        invariant
            i <= n,
            n == ix.accounts@.len(),
            forall|j: int| 0 <= j < i ==> !((#[trigger] ix.accounts@[j]).signer
                && ix.accounts@[j].address@ == addr@),
        decreases n - i,
    {
        if ix.accounts[i].signer && bytes_equal(ix.accounts[i].address.as_slice(), addr.as_slice()) {
            return true;
        }
        i = i + 1;
    }
    false
}

/// Whether the instruction's model is well formed, decided at run time.
pub fn check_instruction_wf(ix: &UnsignedInstruction) -> (r: bool)
    ensures
        r == ix.wf(),
{
    if ix.program.as_slice().len() != 32 {
        return false;
    }
    let n = ix.accounts.len();
    let mut i: usize = 0;
    while i < n
        invariant
            i <= n,
            n == ix.accounts@.len(),
            ix.program.wf(),
            forall|j: int| 0 <= j < i ==> (#[trigger] ix.accounts@[j]).address.wf(),
        decreases n - i,
    {
        if ix.accounts[i].address.as_slice().len() != 32 {
            return false;
        }
        i = i + 1;
    }
    true
}

/// Converts the instruction model back into the network client's type,
/// field for field: each account keeps its address and flags, and the
/// payload bytes stay unchanged.
#[verifier::external_body]
fn to_solana_instruction(ix: &UnsignedInstruction) -> (r: Instruction)
    requires
        ix.wf(),
{
    let metas = ix.accounts.iter().map(
        |a| AccountMeta { pubkey: to_pubkey(&a.address), is_signer: a.signer, is_writable: a.writable },
    ).collect();
    Instruction { program_id: to_pubkey(&ix.program), accounts: metas, data: ix.data.clone() }
}

/// Relies on `Message::new`, `Transaction::new_unsigned` and
/// `Transaction::try_sign` of `solana-sdk`. The message's required signers
/// are the first identity's address (the designated fee payer) and every
/// account the instruction marks as a signer; the account bound keeps the
/// compiled key count within the message's one-byte limits, and the payload
/// bound keeps its length within the message's short-vector length prefix,
/// which signing serializes. `try_sign` fails exactly when a given identity
/// is not among the required signers (a keypair/pubkey mismatch) or some
/// required signature slot stays unfilled (not enough signers); ed25519
/// signing itself cannot fail for a valid key pair. The returned
/// transaction holds exactly the given instruction and is bound to the
/// given blockhash.
#[verifier::external_body]
pub(crate) fn sign_call(
    ix: &UnsignedInstruction,
    signers: &Vec<SigningIdentity>,
    blockhash: &Vec<u8>,
) -> (r: Option<SignedTransaction>)
    requires
        ix.wf(),
        ix.accounts@.len() <= 253,
        ix.data@.len() <= 65535,
        signers@.len() >= 1,
        forall|i: int| 0 <= i < signers@.len() ==> (#[trigger] signers@[i]).wf(),
        blockhash@.len() == 32,
    ensures
        r is Some <==> ({
            &&& forall|i: int|
                0 <= i < signers@.len() ==> (#[trigger] signers@[i]).spec_address()
                    == signers@[0].spec_address() || signer_required(
                    *ix,
                    signers@[i].spec_address(),
                )
            &&& signers_cover(*ix, signers@)
        }),
{
    let one = to_solana_instruction(ix);
    let mut keypairs: Vec<Keypair> = Vec::new();
    for s in signers.iter() {
        keypairs.push(Keypair::from_bytes(s.secret.as_slice()).ok()?);
    }
    let message = Message::new(&[one], Some(&Signer::pubkey(&keypairs[0])));
    let mut tx = Transaction::new_unsigned(message);
    let hash = solana_sdk::hash::Hash::new_from_array(blockhash.as_slice().try_into().ok()?);
    tx.try_sign(&keypairs.iter().collect::<Vec<&Keypair>>(), hash).ok()?;
    Some(SignedTransaction { inner: tx })
}

} // verus!
