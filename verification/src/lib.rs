//! Workflow library for four compressed-NFT operations on a Solana-style
//! network: create a Merkle tree, mint, transfer, and burn. Each operation
//! decodes caller-supplied parameters, builds exactly one instruction through
//! the `mpl-bubblegum` client, and assembles the signer set; the caller
//! fetches a blockhash, signs, and submits the transaction.

mod address;
mod errors;
mod identity;
mod input;
mod instruction;
mod laws;
mod metadata;
mod ops;
mod transaction;

pub use address::Address;
pub use address::bubblegum_program_address;
pub use address::compression_program_address;
pub use address::derived_address;
pub use address::noop_program_address;
pub use address::parsed_address;
pub use address::system_program_address;
pub use errors::BridgeError;
pub use identity::SigningIdentity;
pub use identity::keypair_bytes_valid;
pub use input::InputValue;
pub use instruction::AccountUse;
pub use instruction::UnsignedInstruction;
pub use instruction::burn_data;
pub use instruction::create_tree_data;
pub use instruction::is_burn_instruction;
pub use instruction::is_create_tree_instruction;
pub use instruction::is_mint_instruction;
pub use instruction::is_transfer_instruction;
pub use instruction::mint_data_of;
pub use instruction::transfer_data;
pub use laws::lemma_burn_deterministic;
pub use laws::lemma_create_tree_deterministic;
pub use laws::lemma_metadata_decode_unique;
pub use laws::lemma_mint_deterministic;
pub use laws::lemma_transfer_deterministic;
pub use laws::lemma_tree_authority_deterministic;
pub use metadata::CollectionRecord;
pub use metadata::CreatorRecord;
pub use metadata::MetadataRecord;
pub use metadata::UsesRecord;
pub use metadata::decode_metadata;
pub use metadata::metadata_addresses_ok;
pub use metadata::metadata_decoded;
pub use metadata::metadata_shape_ok;
pub use ops::PreparedOperation;
pub use ops::burn;
pub use ops::create_tree;
pub use ops::mint_v1;
pub use ops::sign_operation;
pub use ops::transfer;
pub use ops::tree_authority;
pub use transaction::SignedTransaction;
pub use transaction::bytes_equal;
pub use transaction::check_instruction_wf;
pub use transaction::is_required_signer;
pub use transaction::signer_required;
pub use transaction::signers_cover;
