//! The library's general guarantees, stated over the same models that the
//! operation contracts use: the tree-authority derivation is deterministic,
//! metadata decoding is functional, and building an instruction is
//! deterministic given identical decoded inputs.

use vstd::prelude::*;
use crate::address::bubblegum_program_address;
use crate::address::derived_address;
use crate::instruction::UnsignedInstruction;
use crate::instruction::account_model;
use crate::instruction::collection_model;
use crate::instruction::creators_model;
use crate::instruction::is_burn_instruction;
use crate::instruction::is_create_tree_instruction;
use crate::instruction::is_mint_instruction;
use crate::instruction::is_transfer_instruction;
use crate::instruction::uses_model;
use crate::metadata::MetadataRecord;
use crate::metadata::creators_list;
use crate::metadata::metadata_decoded;

verus! {

/// The tree authority derived for a given tree address is identical across
/// repeated derivations.
pub proof fn lemma_tree_authority_deterministic(tree: Seq<u8>, a: Seq<u8>, b: Seq<u8>)
    requires
        Some(a) == derived_address(tree, bubblegum_program_address()),
        Some(b) == derived_address(tree, bubblegum_program_address()),
    ensures
        a == b,
{
}

/// Building a tree-creation instruction is deterministic: two instructions
/// built for the same decoded inputs have the same program, account list,
/// and payload.
pub proof fn lemma_create_tree_deterministic(
    a: UnsignedInstruction,
    b: UnsignedInstruction,
    tree_config: Seq<u8>,
    merkle_tree: Seq<u8>,
    payer: Seq<u8>,
    tree_creator: Seq<u8>,
    log_wrapper: Seq<u8>,
    compression_program: Seq<u8>,
    system_program: Seq<u8>,
    max_depth: u32,
    max_buffer_size: u32,
    public: bool,
)
    requires
        is_create_tree_instruction(
            a,
            tree_config,
            merkle_tree,
            payer,
            tree_creator,
            log_wrapper,
            compression_program,
            system_program,
            max_depth,
            max_buffer_size,
            public,
        ),
        is_create_tree_instruction(
            b,
            tree_config,
            merkle_tree,
            payer,
            tree_creator,
            log_wrapper,
            compression_program,
            system_program,
            max_depth,
            max_buffer_size,
            public,
        ),
    ensures
        a.program@ == b.program@,
        a.data@ == b.data@,
        a.accounts@.len() == b.accounts@.len(),
        forall|i: int|
            0 <= i < a.accounts@.len() ==> account_model(#[trigger] a.accounts@[i])
                == account_model(b.accounts@[i]),
{
}

/// Metadata decoding is functional: two records decoded from one input
/// value agree on every field that the mint payload uses.
pub proof fn lemma_metadata_decode_unique(v: crate::input::InputValue, m1: MetadataRecord, m2: MetadataRecord)
    requires
        metadata_decoded(v, m1),
        metadata_decoded(v, m2),
    ensures
        m1.name@ == m2.name@,
        m1.symbol@ == m2.symbol@,
        m1.uri@ == m2.uri@,
        m1.seller_fee_basis_points == m2.seller_fee_basis_points,
        m1.primary_sale_happened == m2.primary_sale_happened,
        m1.is_mutable == m2.is_mutable,
        m1.edition_nonce == m2.edition_nonce,
        m1.token_standard == m2.token_standard,
        m1.token_program_version == m2.token_program_version,
        creators_model(m1.creators@) == creators_model(m2.creators@),
        collection_model(m1.collection) == collection_model(m2.collection),
        uses_model(m1.uses) == uses_model(m2.uses),
{
    assert(creators_model(m1.creators@) =~= creators_model(m2.creators@)) by {
        assert forall|i: int|
            0 <= i < creators_model(m1.creators@).len() implies creators_model(m1.creators@)[i]
            == creators_model(m2.creators@)[i] by {
            let c1 = m1.creators@[i];
            let c2 = m2.creators@[i];
            assert(crate::metadata::creator_decoded(creators_list(v)[i], c1));
            assert(crate::metadata::creator_decoded(creators_list(v)[i], c2));
            assert(c1.share as u64 == c2.share as u64);
            assert(creators_model(m1.creators@)[i] == (c1.address@, c1.verified, c1.share));
            assert(creators_model(m2.creators@)[i] == (c2.address@, c2.verified, c2.share));
        }
    }
}

/// Building a mint instruction is deterministic: two instructions built for
/// the same decoded inputs, with records decoded from one metadata value,
/// have the same program, account list, and payload.
pub proof fn lemma_mint_deterministic(
    a: UnsignedInstruction,
    b: UnsignedInstruction,
    v: crate::input::InputValue,
    m1: MetadataRecord,
    m2: MetadataRecord,
    tree_config: Seq<u8>,
    leaf_owner: Seq<u8>,
    merkle_tree: Seq<u8>,
    payer: Seq<u8>,
    log_wrapper: Seq<u8>,
    compression_program: Seq<u8>,
    system_program: Seq<u8>,
)
    requires
        metadata_decoded(v, m1),
        metadata_decoded(v, m2),
        is_mint_instruction(
            a,
            tree_config,
            leaf_owner,
            merkle_tree,
            payer,
            log_wrapper,
            compression_program,
            system_program,
            m1,
        ),
        is_mint_instruction(
            b,
            tree_config,
            leaf_owner,
            merkle_tree,
            payer,
            log_wrapper,
            compression_program,
            system_program,
            m2,
        ),
    ensures
        a.program@ == b.program@,
        a.data@ == b.data@,
        a.accounts@.len() == b.accounts@.len(),
        forall|i: int|
            0 <= i < a.accounts@.len() ==> account_model(#[trigger] a.accounts@[i])
                == account_model(b.accounts@[i]),
{
    lemma_metadata_decode_unique(v, m1, m2);
}

/// Building a transfer instruction is deterministic.
pub proof fn lemma_transfer_deterministic(
    a: UnsignedInstruction,
    b: UnsignedInstruction,
    tree_config: Seq<u8>,
    leaf_owner: Seq<u8>,
    new_leaf_owner: Seq<u8>,
    merkle_tree: Seq<u8>,
    log_wrapper: Seq<u8>,
    compression_program: Seq<u8>,
    system_program: Seq<u8>,
    root: Seq<u8>,
    data_hash: Seq<u8>,
    creator_hash: Seq<u8>,
    nonce: u64,
    index: u32,
)
    requires
        is_transfer_instruction(
            a,
            tree_config,
            leaf_owner,
            new_leaf_owner,
            merkle_tree,
            log_wrapper,
            compression_program,
            system_program,
            root,
            data_hash,
            creator_hash,
            nonce,
            index,
        ),
        is_transfer_instruction(
            b,
            tree_config,
            leaf_owner,
            new_leaf_owner,
            merkle_tree,
            log_wrapper,
            compression_program,
            system_program,
            root,
            data_hash,
            creator_hash,
            nonce,
            index,
        ),
    ensures
        a.program@ == b.program@,
        a.data@ == b.data@,
        a.accounts@.len() == b.accounts@.len(),
        forall|i: int|
            0 <= i < a.accounts@.len() ==> account_model(#[trigger] a.accounts@[i])
                == account_model(b.accounts@[i]),
{
}

/// Building a burn instruction is deterministic.
pub proof fn lemma_burn_deterministic(
    a: UnsignedInstruction,
    b: UnsignedInstruction,
    tree_config: Seq<u8>,
    leaf_owner: Seq<u8>,
    merkle_tree: Seq<u8>,
    log_wrapper: Seq<u8>,
    compression_program: Seq<u8>,
    system_program: Seq<u8>,
    root: Seq<u8>,
    data_hash: Seq<u8>,
    creator_hash: Seq<u8>,
    nonce: u64,
    index: u32,
)
    requires
        is_burn_instruction(
            a,
            tree_config,
            leaf_owner,
            merkle_tree,
            log_wrapper,
            compression_program,
            system_program,
            root,
            data_hash,
            creator_hash,
            nonce,
            index,
        ),
        is_burn_instruction(
            b,
            tree_config,
            leaf_owner,
            merkle_tree,
            log_wrapper,
            compression_program,
            system_program,
            root,
            data_hash,
            creator_hash,
            nonce,
            index,
        ),
    ensures
        a.program@ == b.program@,
        a.data@ == b.data@,
        a.accounts@.len() == b.accounts@.len(),
        forall|i: int|
            0 <= i < a.accounts@.len() ==> account_model(#[trigger] a.accounts@[i])
                == account_model(b.accounts@[i]),
{
}

} // verus!
