//! The four operation entry points. Each decodes its parameters, builds
//! exactly one unsigned instruction through the client, and returns it with
//! the identities that may sign; the caller then fetches a blockhash, signs
//! through `sign_operation`, and submits the result itself. No entry point
//! performs any network step, and a rejected input is reported before any
//! instruction is built.

use vstd::prelude::*;
use crate::address::Address;
use crate::address::bubblegum_program_address;
use crate::address::bubblegum_program_id;
use crate::address::compression_program_address;
use crate::address::compression_program_id;
use crate::address::derive_address_call;
use crate::address::derived_address;
use crate::address::noop_program_address;
use crate::address::noop_program_id;
use crate::address::parsed_address;
use crate::address::system_program_address;
use crate::address::system_program_id;
use crate::errors::BridgeError;
use crate::identity::SigningIdentity;
use crate::identity::keypair_bytes_valid;
use crate::input::InputValue;
use crate::instruction::UnsignedInstruction;
use crate::instruction::burn_call;
use crate::instruction::create_tree_call;
use crate::instruction::is_burn_instruction;
use crate::instruction::is_create_tree_instruction;
use crate::instruction::is_mint_instruction;
use crate::instruction::is_transfer_instruction;
use crate::instruction::mint_call;
use crate::instruction::transfer_call;
use crate::metadata::MetadataRecord;
use crate::metadata::decode_metadata;
use crate::metadata::metadata_addresses_ok;
use crate::metadata::metadata_decoded;
use crate::metadata::metadata_shape_ok;
use crate::transaction::SignedTransaction;
use crate::transaction::check_instruction_wf;
use crate::transaction::is_required_signer;
use crate::transaction::sign_call;
use crate::transaction::signer_required;
use crate::transaction::signers_cover;

verus! {

/// One operation, decoded and built but not yet signed: the single
/// instruction, and the identities supplied for it, the fee payer first.
pub struct PreparedOperation {
    pub instruction: UnsignedInstruction,
    pub signers: Vec<SigningIdentity>,
}

impl PreparedOperation {
    pub open spec fn wf(&self) -> bool {
        &&& self.instruction.wf()
        &&& self.signers@.len() >= 1
        &&& forall|i: int| 0 <= i < self.signers@.len() ==> (#[trigger] self.signers@[i]).wf()
    }
}

/// The tree-authority address for a tree: the canonical derivation from the
/// tree's own address and the compressed-token program identifier. Repeated
/// derivations for one tree return one address.
pub fn tree_authority(tree: &Address) -> (r: Result<Address, BridgeError>)
    requires
        tree.wf(),
    ensures
        r is Ok <==> derived_address(tree@, bubblegum_program_address()) is Some,
        r matches Ok(a) ==> Some(a@) == derived_address(tree@, bubblegum_program_address())
            && a.wf(),
        r matches Err(e) ==> e == BridgeError::InvalidPubkey,
{
    let program = bubblegum_program_id();
    match derive_address_call(tree, &program) {
        Some(a) => Ok(a),
        None => Err(BridgeError::InvalidPubkey),
    }
}

/// Create a compressed-NFT Merkle tree: decode the two identities, generate
/// a fresh tree identity, derive its authority, and build the one
/// tree-creation instruction. Fails with `InvalidKeypair` exactly when
/// either secret is malformed, before anything else happens; the only other
/// failure is a tree address that admits no authority derivation.
pub fn create_tree(
    payer_secret: &Vec<u8>,
    tree_creator_secret: &Vec<u8>,
    max_depth: u32,
    max_buffer_size: u32,
    public: bool,
) -> (r: Result<PreparedOperation, BridgeError>)
    ensures
        (r matches Err(e) && e == BridgeError::InvalidKeypair) <==> !(keypair_bytes_valid(
            payer_secret@,
        ) && keypair_bytes_valid(tree_creator_secret@)),
        r matches Err(e) ==> e == BridgeError::InvalidKeypair || e == BridgeError::InvalidPubkey,
        keypair_bytes_valid(payer_secret@) && keypair_bytes_valid(tree_creator_secret@) && r is Err
            ==> exists|t: Seq<u8>|
            t.len() == 32 && derived_address(t, bubblegum_program_address()) is None,
        r matches Ok(op) ==> {
            &&& op.wf()
            &&& op.signers@.len() == 3
            &&& op.signers@[0]@ == payer_secret@
            &&& op.signers@[1]@ == tree_creator_secret@
            &&& op.signers@[2].wf()
            &&& derived_address(op.signers@[2].spec_address(), bubblegum_program_address())
                is Some
            &&& is_create_tree_instruction(
                op.instruction,
                derived_address(op.signers@[2].spec_address(), bubblegum_program_address())->0,
                op.signers@[2].spec_address(),
                payer_secret@.subrange(32, 64),
                tree_creator_secret@.subrange(32, 64),
                noop_program_address(),
                compression_program_address(),
                system_program_address(),
                max_depth,
                max_buffer_size,
                public,
            )
        },
{
    let payer = match SigningIdentity::from_bytes(payer_secret) {
        Ok(id) => id,
        Err(e) => {
            return Err(e);
        },
    };
    let tree_creator = match SigningIdentity::from_bytes(tree_creator_secret) {
        Ok(id) => id,
        Err(e) => {
            return Err(e);
        },
    };
    let tree = crate::identity::generate_identity();
    let tree_address = tree.address_internal();
    let program = bubblegum_program_id();
    let authority = match derive_address_call(&tree_address, &program) {
        Some(a) => a,
        None => {
            proof {
                assert(tree_address@.len() == 32 && derived_address(
                    tree_address@,
                    bubblegum_program_address(),
                ) is None);
            }
            return Err(BridgeError::InvalidPubkey);
        },
    };
    let payer_address = payer.address_internal();
    let creator_address = tree_creator.address_internal();
    let log_wrapper = noop_program_id();
    let compression = compression_program_id();
    let system = system_program_id();
    let instruction = create_tree_call(
        &authority,
        &tree_address,
        &payer_address,
        &creator_address,
        &log_wrapper,
        &compression,
        &system,
        max_depth,
        max_buffer_size,
        public,
    );
    let mut signers: Vec<SigningIdentity> = Vec::new();
    signers.push(payer);
    signers.push(tree_creator);
    signers.push(tree);
    Ok(PreparedOperation { instruction, signers })
}

/// Whether the three address strings of a mint call parse.
pub open spec fn mint_pubkeys_ok(
    tree_authority: Seq<char>,
    leaf_owner: Seq<char>,
    merkle_tree: Seq<char>,
) -> bool {
    &&& parsed_address(tree_authority) is Some
    &&& parsed_address(leaf_owner) is Some
    &&& parsed_address(merkle_tree) is Some
}

/// Mint a compressed NFT: decode the payer identity, the three addresses
/// and the metadata, and build the one mint instruction. Each rejection
/// condition maps to exactly one error: malformed secret to
/// `InvalidKeypair`, a malformed address string or nested metadata address
/// to `InvalidPubkey`, and a malformed metadata shape to `DecodeError`.
pub fn mint_v1(
    payer_secret: &Vec<u8>,
    tree_authority: &str,
    leaf_owner: &str,
    merkle_tree: &str,
    metadata: &InputValue,
) -> (r: Result<PreparedOperation, BridgeError>)
    ensures
        r is Ok <==> keypair_bytes_valid(payer_secret@) && mint_pubkeys_ok(
            tree_authority@,
            leaf_owner@,
            merkle_tree@,
        ) && metadata_shape_ok(*metadata) && metadata_addresses_ok(*metadata),
        (r matches Err(e) && e == BridgeError::InvalidKeypair) <==> !keypair_bytes_valid(
            payer_secret@,
        ),
        (r matches Err(e) && e == BridgeError::DecodeError) <==> keypair_bytes_valid(payer_secret@)
            && mint_pubkeys_ok(tree_authority@, leaf_owner@, merkle_tree@) && !metadata_shape_ok(
            *metadata,
        ),
        (r matches Err(e) && e == BridgeError::InvalidPubkey) <==> keypair_bytes_valid(
            payer_secret@,
        ) && (!mint_pubkeys_ok(tree_authority@, leaf_owner@, merkle_tree@) || (metadata_shape_ok(
            *metadata,
        ) && !metadata_addresses_ok(*metadata))),
        r matches Ok(op) ==> {
            &&& op.wf()
            &&& op.signers@.len() == 1
            &&& op.signers@[0]@ == payer_secret@
            &&& exists|m: MetadataRecord|
                #[trigger] metadata_decoded(*metadata, m) && is_mint_instruction(
                    op.instruction,
                    parsed_address(tree_authority@)->0,
                    parsed_address(leaf_owner@)->0,
                    parsed_address(merkle_tree@)->0,
                    payer_secret@.subrange(32, 64),
                    noop_program_address(),
                    compression_program_address(),
                    system_program_address(),
                    m,
                )
        },
{
    let payer = match SigningIdentity::from_bytes(payer_secret) {
        Ok(id) => id,
        Err(e) => {
            return Err(e);
        },
    };
    let authority = match Address::parse(tree_authority) {
        Ok(a) => a,
        Err(e) => {
            return Err(e);
        },
    };
    let owner = match Address::parse(leaf_owner) {
        Ok(a) => a,
        Err(e) => {
            return Err(e);
        },
    };
    let tree = match Address::parse(merkle_tree) {
        Ok(a) => a,
        Err(e) => {
            return Err(e);
        },
    };
    let record = match decode_metadata(metadata) {
        Ok(m) => m,
        Err(e) => {
            return Err(e);
        },
    };
    let payer_address = payer.address_internal();
    let log_wrapper = noop_program_id();
    let compression = compression_program_id();
    let system = system_program_id();
    let instruction = mint_call(
        &authority,
        &owner,
        &tree,
        &payer_address,
        &log_wrapper,
        &compression,
        &system,
        &record,
    );
    proof {
        assert(metadata_decoded(*metadata, record));
    }
    let mut signers: Vec<SigningIdentity> = Vec::new();
    signers.push(payer);
    Ok(PreparedOperation { instruction, signers })
}

/// Whether the three proof fields of a transfer or burn call have exactly 32
/// bytes each.
pub open spec fn proof_lens_ok(root: Seq<u8>, data_hash: Seq<u8>, creator_hash: Seq<u8>) -> bool {
    root.len() == 32 && data_hash.len() == 32 && creator_hash.len() == 32
}

/// Whether the three address strings of a transfer call parse.
pub open spec fn transfer_pubkeys_ok(
    tree_authority: Seq<char>,
    new_leaf_owner: Seq<char>,
    merkle_tree: Seq<char>,
) -> bool {
    &&& parsed_address(tree_authority) is Some
    &&& parsed_address(new_leaf_owner) is Some
    &&& parsed_address(merkle_tree) is Some
}

/// Transfer a compressed NFT: decode the payer and leaf-owner identities,
/// the three addresses and the proof material, and build the one transfer
/// instruction. No local check compares the leaf owner against the on-chain
/// leaf; a mismatch surfaces only at submission. A proof field that is not
/// exactly 32 bytes is a `DecodeError`, before any network step can happen.
pub fn transfer(
    payer_secret: &Vec<u8>,
    tree_authority: &str,
    leaf_owner_secret: &Vec<u8>,
    new_leaf_owner: &str,
    merkle_tree: &str,
    root: &Vec<u8>,
    data_hash: &Vec<u8>,
    creator_hash: &Vec<u8>,
    nonce: u64,
    index: u32,
) -> (r: Result<PreparedOperation, BridgeError>)
    ensures
        r is Ok <==> keypair_bytes_valid(payer_secret@) && keypair_bytes_valid(leaf_owner_secret@)
            && transfer_pubkeys_ok(tree_authority@, new_leaf_owner@, merkle_tree@)
            && proof_lens_ok(root@, data_hash@, creator_hash@),
        (r matches Err(e) && e == BridgeError::InvalidKeypair) <==> !(keypair_bytes_valid(
            payer_secret@,
        ) && keypair_bytes_valid(leaf_owner_secret@)),
        (r matches Err(e) && e == BridgeError::InvalidPubkey) <==> keypair_bytes_valid(
            payer_secret@,
        ) && keypair_bytes_valid(leaf_owner_secret@) && !transfer_pubkeys_ok(
            tree_authority@,
            new_leaf_owner@,
            merkle_tree@,
        ),
        (r matches Err(e) && e == BridgeError::DecodeError) <==> keypair_bytes_valid(payer_secret@)
            && keypair_bytes_valid(leaf_owner_secret@) && transfer_pubkeys_ok(
            tree_authority@,
            new_leaf_owner@,
            merkle_tree@,
        ) && !proof_lens_ok(root@, data_hash@, creator_hash@),
        r matches Ok(op) ==> {
            &&& op.wf()
            &&& op.signers@.len() == 2
            &&& op.signers@[0]@ == payer_secret@
            &&& op.signers@[1]@ == leaf_owner_secret@
            &&& is_transfer_instruction(
                op.instruction,
                parsed_address(tree_authority@)->0,
                leaf_owner_secret@.subrange(32, 64),
                parsed_address(new_leaf_owner@)->0,
                parsed_address(merkle_tree@)->0,
                noop_program_address(),
                compression_program_address(),
                system_program_address(),
                root@,
                data_hash@,
                creator_hash@,
                nonce,
                index,
            )
        },
{
    let payer = match SigningIdentity::from_bytes(payer_secret) {
        Ok(id) => id,
        Err(e) => {
            return Err(e);
        },
    };
    let owner = match SigningIdentity::from_bytes(leaf_owner_secret) {
        Ok(id) => id,
        Err(e) => {
            return Err(e);
        },
    };
    let authority = match Address::parse(tree_authority) {
        Ok(a) => a,
        Err(e) => {
            return Err(e);
        },
    };
    let new_owner = match Address::parse(new_leaf_owner) {
        Ok(a) => a,
        Err(e) => {
            return Err(e);
        },
    };
    let tree = match Address::parse(merkle_tree) {
        Ok(a) => a,
        Err(e) => {
            return Err(e);
        },
    };
    if root.len() != 32 || data_hash.len() != 32 || creator_hash.len() != 32 {
        return Err(BridgeError::DecodeError);
    }
    let owner_address = owner.address_internal();
    let log_wrapper = noop_program_id();
    let compression = compression_program_id();
    let system = system_program_id();
    let instruction = transfer_call(
        &authority,
        &owner_address,
        &new_owner,
        &tree,
        &log_wrapper,
        &compression,
        &system,
        root,
        data_hash,
        creator_hash,
        nonce,
        index,
    );
    let mut signers: Vec<SigningIdentity> = Vec::new();
    signers.push(payer);
    signers.push(owner);
    Ok(PreparedOperation { instruction, signers })
}

/// Whether the two address strings of a burn call parse.
pub open spec fn burn_pubkeys_ok(tree_authority: Seq<char>, merkle_tree: Seq<char>) -> bool {
    &&& parsed_address(tree_authority) is Some
    &&& parsed_address(merkle_tree) is Some
}

/// Burn a compressed NFT: decode the payer and leaf-owner identities, the
/// two addresses and the proof material, and build the one burn
/// instruction. A proof field that is not exactly 32 bytes is a
/// `DecodeError`, before any network step can happen.
pub fn burn(
    payer_secret: &Vec<u8>,
    tree_authority: &str,
    leaf_owner_secret: &Vec<u8>,
    merkle_tree: &str,
    root: &Vec<u8>,
    data_hash: &Vec<u8>,
    creator_hash: &Vec<u8>,
    nonce: u64,
    index: u32,
) -> (r: Result<PreparedOperation, BridgeError>)
    ensures
        r is Ok <==> keypair_bytes_valid(payer_secret@) && keypair_bytes_valid(leaf_owner_secret@)
            && burn_pubkeys_ok(tree_authority@, merkle_tree@) && proof_lens_ok(
            root@,
            data_hash@,
            creator_hash@,
        ),
        (r matches Err(e) && e == BridgeError::InvalidKeypair) <==> !(keypair_bytes_valid(
            payer_secret@,
        ) && keypair_bytes_valid(leaf_owner_secret@)),
        (r matches Err(e) && e == BridgeError::InvalidPubkey) <==> keypair_bytes_valid(
            payer_secret@,
        ) && keypair_bytes_valid(leaf_owner_secret@) && !burn_pubkeys_ok(
            tree_authority@,
            merkle_tree@,
        ),
        (r matches Err(e) && e == BridgeError::DecodeError) <==> keypair_bytes_valid(payer_secret@)
            && keypair_bytes_valid(leaf_owner_secret@) && burn_pubkeys_ok(
            tree_authority@,
            merkle_tree@,
        ) && !proof_lens_ok(root@, data_hash@, creator_hash@),
        r matches Ok(op) ==> {
            &&& op.wf()
            &&& op.signers@.len() == 2
            &&& op.signers@[0]@ == payer_secret@
            &&& op.signers@[1]@ == leaf_owner_secret@
            &&& is_burn_instruction(
                op.instruction,
                parsed_address(tree_authority@)->0,
                leaf_owner_secret@.subrange(32, 64),
                parsed_address(merkle_tree@)->0,
                noop_program_address(),
                compression_program_address(),
                system_program_address(),
                root@,
                data_hash@,
                creator_hash@,
                nonce,
                index,
            )
        },
{
    let payer = match SigningIdentity::from_bytes(payer_secret) {
        Ok(id) => id,
        Err(e) => {
            return Err(e);
        },
    };
    let owner = match SigningIdentity::from_bytes(leaf_owner_secret) {
        Ok(id) => id,
        Err(e) => {
            return Err(e);
        },
    };
    let authority = match Address::parse(tree_authority) {
        Ok(a) => a,
        Err(e) => {
            return Err(e);
        },
    };
    let tree = match Address::parse(merkle_tree) {
        Ok(a) => a,
        Err(e) => {
            return Err(e);
        },
    };
    if root.len() != 32 || data_hash.len() != 32 || creator_hash.len() != 32 {
        return Err(BridgeError::DecodeError);
    }
    let owner_address = owner.address_internal();
    let log_wrapper = noop_program_id();
    let compression = compression_program_id();
    let system = system_program_id();
    let instruction = burn_call(
        &authority,
        &owner_address,
        &tree,
        &log_wrapper,
        &compression,
        &system,
        root,
        data_hash,
        creator_hash,
        nonce,
        index,
    );
    let mut signers: Vec<SigningIdentity> = Vec::new();
    signers.push(payer);
    signers.push(owner);
    Ok(PreparedOperation { instruction, signers })
}

/// Sign a prepared operation against a recent 32-byte blockhash. The fee
/// payer is the first supplied identity; of the remaining identities,
/// exactly those whose address the instruction marks as requiring a
/// signature take part, so that every required signature is present and no
/// extra one is offered. Signing succeeds exactly when the operation is
/// well formed, the blockhash has 32 bytes, the account list and payload
/// fit a transaction message, and the supplied identities cover every
/// required signer; every failure is a `TransactionError`.
pub fn sign_operation(op: &PreparedOperation, blockhash: &Vec<u8>) -> (r: Result<
    SignedTransaction,
    BridgeError,
>)
    ensures
        r is Ok <==> op.wf() && blockhash@.len() == 32 && op.instruction.accounts@.len() <= 253
            && op.instruction.data@.len() <= 65535 && signers_cover(op.instruction, op.signers@),
        r matches Err(e) ==> e == BridgeError::TransactionError,
{
    if blockhash.len() != 32 {
        return Err(BridgeError::TransactionError);
    }
    let n = op.signers.len();
    if n == 0 {
        return Err(BridgeError::TransactionError);
    }
    if !check_instruction_wf(&op.instruction) {
        return Err(BridgeError::TransactionError);
    }
    if op.instruction.accounts.len() > 253 {
        return Err(BridgeError::TransactionError);
    }
    if op.instruction.data.len() > 65535 {
        return Err(BridgeError::TransactionError);
    }
    let mut i: usize = 0;
    while i < n
        invariant
            i <= n,
            n == op.signers@.len(),
            forall|j: int| 0 <= j < i ==> (#[trigger] op.signers@[j]).wf(),
        decreases n - i,
    {
        if !op.signers[i].is_valid() {
            return Err(BridgeError::TransactionError);
        }
        i = i + 1;
    }
    let mut selected: Vec<SigningIdentity> = Vec::new();
    selected.push(op.signers[0].duplicate());
    let mut i: usize = 1;
    while i < n
        invariant
            1 <= i <= n,
            n == op.signers@.len(),
            forall|j: int| 0 <= j < n ==> (#[trigger] op.signers@[j]).wf(),
            selected@.len() >= 1,
            selected@[0]@ == op.signers@[0]@,
            forall|j: int| 0 <= j < selected@.len() ==> (#[trigger] selected@[j]).wf(),
            forall|j: int|
                0 <= j < selected@.len() ==> (#[trigger] selected@[j]).spec_address()
                    == op.signers@[0].spec_address() || signer_required(
                    op.instruction,
                    selected@[j].spec_address(),
                ),
            forall|j: int|
                #![trigger selected@[j]]
                1 <= j < selected@.len() ==> exists|k: int|
                    1 <= k < n && selected@[j]@ == (#[trigger] op.signers@[k])@,
            forall|k: int|
                #![trigger op.signers@[k]]
                1 <= k < i && signer_required(op.instruction, op.signers@[k].spec_address())
                    ==> exists|j: int|
                    0 <= j < selected@.len() && (#[trigger] selected@[j]).spec_address()
                        == op.signers@[k].spec_address(),
        decreases n - i,
    {
        let candidate = op.signers[i].address_internal();
        if is_required_signer(&op.instruction, &candidate) {
            let dup = op.signers[i].duplicate();
            let ghost prev = selected@;
            selected.push(dup);
            proof {
                assert forall|k: int|
                    #![trigger op.signers@[k]]
                    1 <= k < i + 1 && signer_required(
                        op.instruction,
                        op.signers@[k].spec_address(),
                    ) implies exists|j: int|
                    0 <= j < selected@.len() && (#[trigger] selected@[j]).spec_address()
                        == op.signers@[k].spec_address() by {
                    if k == i as int {
                        assert(selected@[prev.len() as int].spec_address()
                            == op.signers@[k].spec_address());
                    } else {
                        let j = choose|j: int|
                            0 <= j < prev.len() && (#[trigger] prev[j]).spec_address()
                                == op.signers@[k].spec_address();
                        assert(selected@[j] == prev[j]);
                        assert(selected@[j].spec_address() == op.signers@[k].spec_address());
                    }
                }
            }
        } else {
            proof {
                assert(!signer_required(op.instruction, op.signers@[i as int].spec_address()));
            }
        }
        i = i + 1;
    }
    match sign_call(&op.instruction, &selected, blockhash) {
        Some(t) => {
            proof {
                assert forall|a: Seq<u8>|
                    #[trigger] signer_required(op.instruction, a) implies a
                    == op.signers@[0].spec_address() || exists|k: int|
                    1 <= k < op.signers@.len() && op.signers@[k].spec_address() == a by {
                    if a != selected@[0].spec_address() {
                        let j = choose|j: int|
                            1 <= j < selected@.len() && selected@[j].spec_address() == a;
                        let k = choose|k: int|
                            1 <= k < op.signers@.len() && selected@[j]@ == op.signers@[k]@;
                        assert(op.signers@[k].spec_address() == a);
                    }
                }
            }
            Ok(t)
        },
        None => {
            proof {
                if signers_cover(op.instruction, op.signers@) {
                    assert forall|a: Seq<u8>|
                        #[trigger] signer_required(op.instruction, a) implies a
                        == selected@[0].spec_address() || exists|j: int|
                        1 <= j < selected@.len() && selected@[j].spec_address() == a by {
                        if a != op.signers@[0].spec_address() {
                            let k = choose|k: int|
                                1 <= k < op.signers@.len() && op.signers@[k].spec_address() == a;
                            let j = choose|j: int|
                                0 <= j < selected@.len() && selected@[j].spec_address()
                                    == op.signers@[k].spec_address();
                            if j >= 1 {
                                assert(selected@[j].spec_address() == a);
                            }
                        }
                    }
                    assert(signers_cover(op.instruction, selected@));
                    assert(forall|j: int|
                        0 <= j < selected@.len() ==> (#[trigger] selected@[j]).spec_address()
                            == selected@[0].spec_address() || signer_required(
                            op.instruction,
                            selected@[j].spec_address(),
                        ));
                    assert(false);
                }
            }
            Err(BridgeError::TransactionError)
        },
    }
}

} // verus!
