//! Unsigned instructions: the account lists and argument payloads that the
//! four operations hand to the network, built by the `mpl-bubblegum` client
//! and modelled here as plain values. Each builder fixes its account list
//! and serializes an 8-byte discriminator followed by the borsh encoding of
//! its arguments.

use vstd::prelude::*;
use mpl_bubblegum::instructions::Burn;
use mpl_bubblegum::instructions::BurnInstructionArgs;
use mpl_bubblegum::instructions::CreateTreeConfig;
use mpl_bubblegum::instructions::CreateTreeConfigInstructionArgs;
use mpl_bubblegum::instructions::MintV1;
use mpl_bubblegum::instructions::MintV1InstructionArgs;
use mpl_bubblegum::instructions::Transfer;
use mpl_bubblegum::instructions::TransferInstructionArgs;
use mpl_bubblegum::types::MetadataArgs;
use mpl_bubblegum::types::TokenProgramVersion;
use mpl_bubblegum::types::TokenStandard;
use mpl_bubblegum::types::UseMethod;
use crate::address::Address;
use crate::address::bubblegum_program_address;
use crate::metadata::CreatorRecord;
use crate::metadata::CollectionRecord;
use crate::metadata::MetadataRecord;
use crate::metadata::UsesRecord;

verus! {

/// One account referenced by an instruction: its address, whether it must
/// sign, and whether it may be written.
pub struct AccountUse {
    pub address: Address,
    pub signer: bool,
    pub writable: bool,
}

/// An instruction once built: the program that runs it, the accounts it
/// names in order, and its serialized argument payload. Immutable once
/// built.
pub struct UnsignedInstruction {
    pub program: Address,
    pub accounts: Vec<AccountUse>,
    pub data: Vec<u8>,
}

impl UnsignedInstruction {
    pub open spec fn wf(&self) -> bool {
        &&& self.program.wf()
        &&& forall|i: int| 0 <= i < self.accounts@.len() ==> (
        #[trigger] self.accounts@[i]).address.wf()
    }
}

/// The little-endian bytes of a 32-bit integer.
pub open spec fn le_bytes_u32(x: u32) -> Seq<u8> {
    seq![
        (x & 0xff) as u8,
        ((x >> 8) & 0xff) as u8,
        ((x >> 16) & 0xff) as u8,
        ((x >> 24) & 0xff) as u8,
    ]
}

/// The little-endian bytes of a 64-bit integer.
pub open spec fn le_bytes_u64(x: u64) -> Seq<u8> {
    seq![
        (x & 0xff) as u8,
        ((x >> 8) & 0xff) as u8,
        ((x >> 16) & 0xff) as u8,
        ((x >> 24) & 0xff) as u8,
        ((x >> 32) & 0xff) as u8,
        ((x >> 40) & 0xff) as u8,
        ((x >> 48) & 0xff) as u8,
        ((x >> 56) & 0xff) as u8,
    ]
}

/// The payload of a tree-creation instruction: its discriminator, the two
/// capacity parameters, and the visibility flag as a present borsh option.
pub open spec fn create_tree_data(max_depth: u32, max_buffer_size: u32, public: bool) -> Seq<u8> {
    seq![165u8, 83u8, 136u8, 142u8, 89u8, 202u8, 47u8, 220u8] + le_bytes_u32(max_depth)
        + le_bytes_u32(max_buffer_size) + seq![1u8, if public { 1u8 } else { 0u8 }]
}

/// The payload of a transfer instruction: its discriminator and the proof
/// material.
pub open spec fn transfer_data(
    root: Seq<u8>,
    data_hash: Seq<u8>,
    creator_hash: Seq<u8>,
    nonce: u64,
    index: u32,
) -> Seq<u8> {
    seq![163u8, 52u8, 200u8, 231u8, 140u8, 3u8, 69u8, 186u8] + root + data_hash + creator_hash
        + le_bytes_u64(nonce) + le_bytes_u32(index)
}

/// The payload of a burn instruction: its discriminator and the proof
/// material.
pub open spec fn burn_data(
    root: Seq<u8>,
    data_hash: Seq<u8>,
    creator_hash: Seq<u8>,
    nonce: u64,
    index: u32,
) -> Seq<u8> {
    seq![116u8, 110u8, 29u8, 56u8, 107u8, 219u8, 42u8, 93u8] + root + data_hash + creator_hash
        + le_bytes_u64(nonce) + le_bytes_u32(index)
}

/// The discriminator that opens a mint payload.
pub open spec fn mint_discriminator() -> Seq<u8> {
    seq![145u8, 98u8, 192u8, 118u8, 184u8, 147u8, 118u8, 104u8]
}

/// What the client serializes for a mint call after the discriminator: the
/// borsh encoding of the full metadata record. The bytes depend on the
/// listed fields alone.
pub uninterp spec fn mint_data(
    name: Seq<char>,
    symbol: Seq<char>,
    uri: Seq<char>,
    seller_fee_basis_points: u16,
    primary_sale_happened: bool,
    is_mutable: bool,
    edition_nonce: Option<u8>,
    token_standard: u8,
    token_program_version: u8,
    creators: Seq<(Seq<u8>, bool, u8)>,
    collection: Option<(bool, Seq<u8>)>,
    uses: Option<(u8, u64, u64)>,
) -> Seq<u8>;

/// The creator list of a metadata record as plain values.
pub open spec fn creators_model(cs: Seq<CreatorRecord>) -> Seq<(Seq<u8>, bool, u8)> {
    cs.map(|i: int, c: CreatorRecord| (c.address@, c.verified, c.share))
}

/// The collection reference of a metadata record as plain values.
pub open spec fn collection_model(c: Option<CollectionRecord>) -> Option<(bool, Seq<u8>)> {
    match c {
        Some(cr) => Some((cr.verified, cr.key@)),
        None => None,
    }
}

/// The usage-limit descriptor of a metadata record as plain values.
pub open spec fn uses_model(u: Option<UsesRecord>) -> Option<(u8, u64, u64)> {
    match u {
        Some(ur) => Some((ur.use_method, ur.remaining, ur.total)),
        None => None,
    }
}

/// The whole mint payload for a metadata record.
pub open spec fn mint_data_of(m: MetadataRecord) -> Seq<u8> {
    mint_discriminator() + mint_data(
        m.name@,
        m.symbol@,
        m.uri@,
        m.seller_fee_basis_points,
        m.primary_sale_happened,
        m.is_mutable,
        m.edition_nonce,
        m.token_standard,
        m.token_program_version,
        creators_model(m.creators@),
        collection_model(m.collection),
        uses_model(m.uses),
    )
}

/// One account entry with the given address and flags.
pub open spec fn account_is(a: AccountUse, address: Seq<u8>, signer: bool, writable: bool) -> bool {
    a.address@ == address && a.signer == signer && a.writable == writable
}

/// The plain model of one account entry.
pub open spec fn account_model(a: AccountUse) -> (Seq<u8>, bool, bool) {
    (a.address@, a.signer, a.writable)
}

/// The shape of a tree-creation instruction: the seven accounts the client
/// fixes, in order, and the exact payload.
pub open spec fn is_create_tree_instruction(
    ix: UnsignedInstruction,
    tree_config: Seq<u8>,
    merkle_tree: Seq<u8>,
    payer: Seq<u8>,
    tree_creator: Seq<u8>,
    log_wrapper: Seq<u8>,
    compression_program: Seq<u8>,
    system_program: Seq<u8>,
    max_depth: u32,
    max_buffer_size: u32,
    public: bool,
) -> bool {
    &&& ix.program@ == bubblegum_program_address()
    &&& ix.accounts@.len() == 7
    &&& account_is(ix.accounts@[0], tree_config, false, true)
    &&& account_is(ix.accounts@[1], merkle_tree, false, true)
    &&& account_is(ix.accounts@[2], payer, true, true)
    &&& account_is(ix.accounts@[3], tree_creator, true, false)
    &&& account_is(ix.accounts@[4], log_wrapper, false, false)
    &&& account_is(ix.accounts@[5], compression_program, false, false)
    &&& account_is(ix.accounts@[6], system_program, false, false)
    &&& ix.data@ == create_tree_data(max_depth, max_buffer_size, public)
}

/// The shape of a mint instruction: the nine accounts the client fixes, the
/// leaf owner doubling as its own delegate and the payer as the tree
/// delegate, and the exact payload for the metadata record.
pub open spec fn is_mint_instruction(
    ix: UnsignedInstruction,
    tree_config: Seq<u8>,
    leaf_owner: Seq<u8>,
    merkle_tree: Seq<u8>,
    payer: Seq<u8>,
    log_wrapper: Seq<u8>,
    compression_program: Seq<u8>,
    system_program: Seq<u8>,
    m: MetadataRecord,
) -> bool {
    &&& ix.program@ == bubblegum_program_address()
    &&& ix.accounts@.len() == 9
    &&& account_is(ix.accounts@[0], tree_config, false, true)
    &&& account_is(ix.accounts@[1], leaf_owner, false, false)
    &&& account_is(ix.accounts@[2], leaf_owner, false, false)
    &&& account_is(ix.accounts@[3], merkle_tree, false, true)
    &&& account_is(ix.accounts@[4], payer, true, false)
    &&& account_is(ix.accounts@[5], payer, true, false)
    &&& account_is(ix.accounts@[6], log_wrapper, false, false)
    &&& account_is(ix.accounts@[7], compression_program, false, false)
    &&& account_is(ix.accounts@[8], system_program, false, false)
    &&& ix.data@ == mint_data_of(m)
}

/// The shape of a transfer instruction: the eight accounts the client
/// fixes, the leaf owner signing as owner and as its own delegate, and the
/// exact payload.
pub open spec fn is_transfer_instruction(
    ix: UnsignedInstruction,
    tree_config: Seq<u8>,
    leaf_owner: Seq<u8>,
    new_leaf_owner: Seq<u8>,
    merkle_tree: Seq<u8>,
    log_wrapper: Seq<u8>,
    compression_program: Seq<u8>,
    system_program: Seq<u8>,
    root: Seq<u8>,
    data_hash: Seq<u8>,
    creator_hash: Seq<u8>,
    nonce: u64,
    index: u32,
) -> bool {
    &&& ix.program@ == bubblegum_program_address()
    &&& ix.accounts@.len() == 8
    &&& account_is(ix.accounts@[0], tree_config, false, false)
    &&& account_is(ix.accounts@[1], leaf_owner, true, false)
    &&& account_is(ix.accounts@[2], leaf_owner, true, false)
    &&& account_is(ix.accounts@[3], new_leaf_owner, false, false)
    &&& account_is(ix.accounts@[4], merkle_tree, false, true)
    &&& account_is(ix.accounts@[5], log_wrapper, false, false)
    &&& account_is(ix.accounts@[6], compression_program, false, false)
    &&& account_is(ix.accounts@[7], system_program, false, false)
    &&& ix.data@ == transfer_data(root, data_hash, creator_hash, nonce, index)
}

/// The shape of a burn instruction: the seven accounts the client fixes,
/// the leaf owner signing as owner and as its own delegate, and the exact
/// payload.
pub open spec fn is_burn_instruction(
    ix: UnsignedInstruction,
    tree_config: Seq<u8>,
    leaf_owner: Seq<u8>,
    merkle_tree: Seq<u8>,
    log_wrapper: Seq<u8>,
    compression_program: Seq<u8>,
    system_program: Seq<u8>,
    root: Seq<u8>,
    data_hash: Seq<u8>,
    creator_hash: Seq<u8>,
    nonce: u64,
    index: u32,
) -> bool {
    &&& ix.program@ == bubblegum_program_address()
    &&& ix.accounts@.len() == 7
    &&& account_is(ix.accounts@[0], tree_config, false, false)
    &&& account_is(ix.accounts@[1], leaf_owner, true, false)
    &&& account_is(ix.accounts@[2], leaf_owner, true, false)
    &&& account_is(ix.accounts@[3], merkle_tree, false, true)
    &&& account_is(ix.accounts@[4], log_wrapper, false, false)
    &&& account_is(ix.accounts@[5], compression_program, false, false)
    &&& account_is(ix.accounts@[6], system_program, false, false)
    &&& ix.data@ == burn_data(root, data_hash, creator_hash, nonce, index)
}

#[verifier::external_type_specification]
#[verifier::external_body]
pub struct ExPubkey(solana_program::pubkey::Pubkey);

#[verifier::external_type_specification]
#[verifier::external_body]
pub struct ExInstruction(solana_program::instruction::Instruction);

#[verifier::external_type_specification]
#[verifier::external_body]
pub struct ExMetadataArgs(mpl_bubblegum::types::MetadataArgs);

#[verifier::external_type_specification]
#[verifier::external_body]
pub struct ExUseMethod(mpl_bubblegum::types::UseMethod);

#[verifier::external_type_specification]
#[verifier::external_body]
pub struct ExCreator(mpl_bubblegum::types::Creator);

#[verifier::external_type_specification]
#[verifier::external_body]
pub struct ExCollection(mpl_bubblegum::types::Collection);

#[verifier::external_type_specification]
#[verifier::external_body]
pub struct ExUses(mpl_bubblegum::types::Uses);

#[verifier::external_type_specification]
#[verifier::external_body]
pub struct ExTokenStandard(mpl_bubblegum::types::TokenStandard);

#[verifier::external_type_specification]
#[verifier::external_body]
pub struct ExTokenProgramVersion(mpl_bubblegum::types::TokenProgramVersion);

/// Relies on `Pubkey::new_from_array`: wraps 32 bytes as an address value.
#[verifier::external_body]
pub(crate) fn to_pubkey(a: &Address) -> (r: solana_program::pubkey::Pubkey)
    requires
        a.wf(),
{
    let mut arr = [0u8; 32];
    arr.copy_from_slice(a.as_slice());
    solana_program::pubkey::Pubkey::new_from_array(arr)
}

/// Converts a built instruction into its plain model, field for field:
/// `Pubkey::to_bytes` for each address, the two flags of each account meta,
/// and the payload bytes unchanged.
#[verifier::external_body]
fn from_solana_instruction(ix: solana_program::instruction::Instruction) -> (r:
    UnsignedInstruction)
{
    UnsignedInstruction {
        program: Address::from_raw_bytes(ix.program_id.to_bytes().to_vec()),
        accounts: ix.accounts.into_iter().map(
            |a| AccountUse {
                address: Address::from_raw_bytes(a.pubkey.to_bytes().to_vec()),
                signer: a.is_signer,
                writable: a.is_writable,
            },
        ).collect(),
        data: ix.data,
    }
}

/// Maps a use-method code to the client's enum: burn, multiple, or single
/// use, in that order.
#[verifier::external_body]
fn to_use_method(code: u8) -> (r: mpl_bubblegum::types::UseMethod)
    requires
        code < 3,
{
    match code {
        0 => UseMethod::Burn,
        1 => UseMethod::Multiple,
        _ => UseMethod::Single,
    }
}

/// Maps a token-standard code to the client's enum: non-fungible, fungible
/// asset, fungible, or non-fungible edition, in that order.
#[verifier::external_body]
fn to_token_standard(code: u8) -> (r: TokenStandard)
    requires
        code < 4,
{
    match code {
        0 => TokenStandard::NonFungible,
        1 => TokenStandard::FungibleAsset,
        2 => TokenStandard::Fungible,
        _ => TokenStandard::NonFungibleEdition,
    }
}

/// Maps a token-program-version code to the client's enum: original or the
/// successor token program, in that order.
#[verifier::external_body]
fn to_token_program_version(code: u8) -> (r: TokenProgramVersion)
    requires
        code < 2,
{
    match code {
        0 => TokenProgramVersion::Original,
        _ => TokenProgramVersion::Token2022,
    }
}

/// Converts one decoded creator into the client's type, field for field.
#[verifier::external_body]
fn to_creator(c: &CreatorRecord) -> (r: mpl_bubblegum::types::Creator)
    requires
        c.wf(),
{
    mpl_bubblegum::types::Creator {
        address: to_pubkey(&c.address),
        verified: c.verified,
        share: c.share,
    }
}

/// Converts the decoded collection reference into the client's type, field
/// for field.
#[verifier::external_body]
fn to_collection(c: &CollectionRecord) -> (r: mpl_bubblegum::types::Collection)
    requires
        c.wf(),
{
    mpl_bubblegum::types::Collection { verified: c.verified, key: to_pubkey(&c.key) }
}

/// Converts the decoded usage-limit descriptor into the client's type, field
/// for field.
#[verifier::external_body]
fn to_uses(u: &UsesRecord) -> (r: mpl_bubblegum::types::Uses)
    requires
        u.wf(),
{
    mpl_bubblegum::types::Uses {
        use_method: to_use_method(u.use_method),
        remaining: u.remaining,
        total: u.total,
    }
}

/// Converts a decoded metadata record into the client's argument type, field
/// for field; the token standard is always present in the argument type.
#[verifier::external_body]
fn to_metadata_args(m: &MetadataRecord) -> (r: MetadataArgs)
    requires
        m.wf(),
{
    MetadataArgs {
        name: m.name.clone(), symbol: m.symbol.clone(), uri: m.uri.clone(),
        seller_fee_basis_points: m.seller_fee_basis_points,
        primary_sale_happened: m.primary_sale_happened, is_mutable: m.is_mutable,
        edition_nonce: m.edition_nonce, token_standard: Some(to_token_standard(m.token_standard)),
        collection: m.collection.as_ref().map(to_collection),
        uses: m.uses.as_ref().map(to_uses),
        token_program_version: to_token_program_version(m.token_program_version),
        creators: m.creators.iter().map(to_creator).collect(),
    }
}

/// Relies on `CreateTreeConfig::instruction` of `mpl-bubblegum`: the account
/// list and flags shown in the generated client, and a payload of the
/// 8-byte discriminator, the two capacity parameters little-endian, and the
/// visibility flag as a present borsh option.
#[verifier::external_body]
pub(crate) fn create_tree_call(
    tree_config: &Address,
    merkle_tree: &Address,
    payer: &Address,
    tree_creator: &Address,
    log_wrapper: &Address,
    compression_program: &Address,
    system_program: &Address,
    max_depth: u32,
    max_buffer_size: u32,
    public: bool,
) -> (r: UnsignedInstruction)
    requires
        tree_config.wf(),
        merkle_tree.wf(),
        payer.wf(),
        tree_creator.wf(),
        log_wrapper.wf(),
        compression_program.wf(),
        system_program.wf(),
    ensures
        is_create_tree_instruction(
            r,
            tree_config@,
            merkle_tree@,
            payer@,
            tree_creator@,
            log_wrapper@,
            compression_program@,
            system_program@,
            max_depth,
            max_buffer_size,
            public,
        ),
        r.wf(),
{
    let ix = CreateTreeConfig {
        tree_config: to_pubkey(tree_config), merkle_tree: to_pubkey(merkle_tree),
        payer: to_pubkey(payer), tree_creator: to_pubkey(tree_creator),
        log_wrapper: to_pubkey(log_wrapper), compression_program: to_pubkey(compression_program),
        system_program: to_pubkey(system_program),
    }.instruction(
        CreateTreeConfigInstructionArgs { max_depth, max_buffer_size, public: Some(public) },
    );
    from_solana_instruction(ix)
}

/// Relies on `MintV1::instruction` of `mpl-bubblegum`: the account list and
/// flags shown in the generated client, and a payload of the 8-byte mint
/// discriminator followed by the borsh encoding of the metadata, which
/// depends on the record alone. The record's well-formedness bounds keep
/// every string's byte count and the creator count within borsh's 32-bit
/// length prefix, so the builder's serialization cannot fail.
#[verifier::external_body]
pub(crate) fn mint_call(
    tree_config: &Address,
    leaf_owner: &Address,
    merkle_tree: &Address,
    payer: &Address,
    log_wrapper: &Address,
    compression_program: &Address,
    system_program: &Address,
    m: &MetadataRecord,
) -> (r: UnsignedInstruction)
    requires
        tree_config.wf(),
        leaf_owner.wf(),
        merkle_tree.wf(),
        payer.wf(),
        log_wrapper.wf(),
        compression_program.wf(),
        system_program.wf(),
        m.wf(),
    ensures
        is_mint_instruction(
            r,
            tree_config@,
            leaf_owner@,
            merkle_tree@,
            payer@,
            log_wrapper@,
            compression_program@,
            system_program@,
            *m,
        ),
        r.data@ == mint_discriminator() + mint_data(
            m.name@,
            m.symbol@,
            m.uri@,
            m.seller_fee_basis_points,
            m.primary_sale_happened,
            m.is_mutable,
            m.edition_nonce,
            m.token_standard,
            m.token_program_version,
            creators_model(m.creators@),
            collection_model(m.collection),
            uses_model(m.uses),
        ),
        r.wf(),
{
    let ix = MintV1 {
        tree_config: to_pubkey(tree_config), leaf_owner: to_pubkey(leaf_owner),
        leaf_delegate: to_pubkey(leaf_owner), merkle_tree: to_pubkey(merkle_tree),
        payer: to_pubkey(payer), tree_creator_or_delegate: to_pubkey(payer),
        log_wrapper: to_pubkey(log_wrapper), compression_program: to_pubkey(compression_program),
        system_program: to_pubkey(system_program),
    }.instruction(MintV1InstructionArgs { metadata: to_metadata_args(m) });
    from_solana_instruction(ix)
}

/// Relies on `Transfer::instruction` of `mpl-bubblegum`: the account list
/// and flags shown in the generated client, with the leaf owner marked as a
/// signer in both owner and delegate positions, and a payload of the 8-byte
/// discriminator followed by the proof material.
#[verifier::external_body]
pub(crate) fn transfer_call(
    tree_config: &Address,
    leaf_owner: &Address,
    new_leaf_owner: &Address,
    merkle_tree: &Address,
    log_wrapper: &Address,
    compression_program: &Address,
    system_program: &Address,
    root: &Vec<u8>,
    data_hash: &Vec<u8>,
    creator_hash: &Vec<u8>,
    nonce: u64,
    index: u32,
) -> (r: UnsignedInstruction)
    requires
        tree_config.wf(),
        leaf_owner.wf(),
        new_leaf_owner.wf(),
        merkle_tree.wf(),
        log_wrapper.wf(),
        compression_program.wf(),
        system_program.wf(),
        root@.len() == 32,
        data_hash@.len() == 32,
        creator_hash@.len() == 32,
    ensures
        is_transfer_instruction(
            r,
            tree_config@,
            leaf_owner@,
            new_leaf_owner@,
            merkle_tree@,
            log_wrapper@,
            compression_program@,
            system_program@,
            root@,
            data_hash@,
            creator_hash@,
            nonce,
            index,
        ),
        r.wf(),
{
    let ix = Transfer {
        tree_config: to_pubkey(tree_config), leaf_owner: (to_pubkey(leaf_owner), true),
        leaf_delegate: (to_pubkey(leaf_owner), true), new_leaf_owner: to_pubkey(new_leaf_owner),
        merkle_tree: to_pubkey(merkle_tree), log_wrapper: to_pubkey(log_wrapper),
        compression_program: to_pubkey(compression_program), system_program: to_pubkey(system_program),
    }.instruction(TransferInstructionArgs {
        root: root.as_slice().try_into().unwrap(),
        data_hash: data_hash.as_slice().try_into().unwrap(),
        creator_hash: creator_hash.as_slice().try_into().unwrap(),
        nonce, index,
    });
    from_solana_instruction(ix)
}

/// Relies on `Burn::instruction` of `mpl-bubblegum`: the account list and
/// flags shown in the generated client, with the leaf owner marked as a
/// signer in both owner and delegate positions, and a payload of the 8-byte
/// discriminator followed by the proof material.
#[verifier::external_body]
pub(crate) fn burn_call(
    tree_config: &Address,
    leaf_owner: &Address,
    merkle_tree: &Address,
    log_wrapper: &Address,
    compression_program: &Address,
    system_program: &Address,
    root: &Vec<u8>,
    data_hash: &Vec<u8>,
    creator_hash: &Vec<u8>,
    nonce: u64,
    index: u32,
) -> (r: UnsignedInstruction)
    requires
        tree_config.wf(),
        leaf_owner.wf(),
        merkle_tree.wf(),
        log_wrapper.wf(),
        compression_program.wf(),
        system_program.wf(),
        root@.len() == 32,
        data_hash@.len() == 32,
        creator_hash@.len() == 32,
    ensures
        is_burn_instruction(
            r,
            tree_config@,
            leaf_owner@,
            merkle_tree@,
            log_wrapper@,
            compression_program@,
            system_program@,
            root@,
            data_hash@,
            creator_hash@,
            nonce,
            index,
        ),
        r.wf(),
{
    let ix = Burn {
        tree_config: to_pubkey(tree_config), leaf_owner: (to_pubkey(leaf_owner), true),
        leaf_delegate: (to_pubkey(leaf_owner), true), merkle_tree: to_pubkey(merkle_tree),
        log_wrapper: to_pubkey(log_wrapper), compression_program: to_pubkey(compression_program),
        system_program: to_pubkey(system_program),
    }.instruction(BurnInstructionArgs {
        root: root.as_slice().try_into().unwrap(),
        data_hash: data_hash.as_slice().try_into().unwrap(),
        creator_hash: creator_hash.as_slice().try_into().unwrap(),
        nonce, index,
    });
    from_solana_instruction(ix)
}

} // verus!
