use bubblegum_bridge::Address;
use bubblegum_bridge::BridgeError;
use bubblegum_bridge::InputValue;
use bubblegum_bridge::SigningIdentity;
use bubblegum_bridge::burn;
use bubblegum_bridge::create_tree;
use bubblegum_bridge::mint_v1;
use bubblegum_bridge::sign_operation;
use bubblegum_bridge::transfer;
use bubblegum_bridge::tree_authority;

use solana_sdk::signature::Keypair;
use solana_sdk::signer::Signer;

fn pk(s: &str) -> solana_sdk::pubkey::Pubkey {
    <solana_sdk::pubkey::Pubkey as std::str::FromStr>::from_str(s).unwrap()
}

fn fresh_secret() -> Vec<u8> {
    Keypair::new().to_bytes().to_vec()
}

fn fresh_address_text() -> String {
    Keypair::new().pubkey().to_string()
}

fn text(s: &str) -> InputValue {
    InputValue::Text(s.to_string())
}

fn entry(k: &str, v: InputValue) -> (String, InputValue) {
    (k.to_string(), v)
}

fn sample_metadata() -> InputValue {
    InputValue::Record(vec![
        entry("name", text("Sample")),
        entry("symbol", text("SMP")),
        entry("uri", text("https://example.invalid/meta.json")),
        entry("seller_fee_basis_points", InputValue::Int(500)),
        entry(
            "creators",
            InputValue::List(vec![
                InputValue::Record(vec![
                    entry("address", text(&fresh_address_text())),
                    entry("verified", InputValue::Bool(false)),
                    entry("share", InputValue::Int(60)),
                ]),
                InputValue::Record(vec![
                    entry("address", text(&fresh_address_text())),
                    entry("verified", InputValue::Bool(false)),
                    entry("share", InputValue::Int(40)),
                ]),
            ]),
        ),
    ])
}

#[test]
fn malformed_secret_is_invalid_keypair() {
    let bad = vec![7u8; 63];
    assert_eq!(
        SigningIdentity::from_bytes(&bad).err(),
        Some(BridgeError::InvalidKeypair)
    );
    let r = create_tree(&bad, &fresh_secret(), 14, 64, false);
    assert_eq!(r.err(), Some(BridgeError::InvalidKeypair));
    let r = transfer(
        &fresh_secret(),
        &fresh_address_text(),
        &vec![1u8; 64],
        &fresh_address_text(),
        &fresh_address_text(),
        &vec![0u8; 32],
        &vec![0u8; 32],
        &vec![0u8; 32],
        0,
        0,
    );
    assert_eq!(r.err(), Some(BridgeError::InvalidKeypair));
}

#[test]
fn mismatched_keypair_halves_are_invalid() {
    let mut bytes = Keypair::new().to_bytes().to_vec();
    let other = Keypair::new().to_bytes();
    bytes[32..64].copy_from_slice(&other[32..64]);
    assert_eq!(
        SigningIdentity::from_bytes(&bytes).err(),
        Some(BridgeError::InvalidKeypair)
    );
}

#[test]
fn malformed_address_is_invalid_pubkey() {
    assert_eq!(Address::parse("").err(), Some(BridgeError::InvalidPubkey));
    assert_eq!(
        Address::parse("not base58 0OIl").err(),
        Some(BridgeError::InvalidPubkey)
    );
    let r = mint_v1(
        &fresh_secret(),
        "***",
        &fresh_address_text(),
        &fresh_address_text(),
        &sample_metadata(),
    );
    assert_eq!(r.err(), Some(BridgeError::InvalidPubkey));
}

#[test]
fn address_parse_matches_base58_decoding() {
    let keypair = Keypair::new();
    let expected = keypair.pubkey().to_bytes();
    let parsed = Address::parse(&keypair.pubkey().to_string()).unwrap();
    assert_eq!(parsed.as_slice(), &expected[..]);
}

#[test]
fn tree_authority_is_deterministic() {
    let tree_text = fresh_address_text();
    let tree = Address::parse(&tree_text).unwrap();
    let a = tree_authority(&tree).unwrap();
    let b = tree_authority(&tree).unwrap();
    assert_eq!(a.as_slice(), b.as_slice());

    let tree_pk = solana_sdk::pubkey::Pubkey::try_from(tree.as_slice()).unwrap();
    let (expected, _bump) = solana_sdk::pubkey::Pubkey::find_program_address(
        &[tree_pk.as_ref()],
        &mpl_bubblegum::ID,
    );
    assert_eq!(a.as_slice(), &expected.to_bytes()[..]);
}

#[test]
fn create_tree_builds_one_matching_instruction() {
    let payer = fresh_secret();
    let creator = fresh_secret();
    let op = create_tree(&payer, &creator, 14, 64, false).unwrap();
    assert_eq!(op.signers.len(), 3);
    assert_eq!(op.instruction.accounts.len(), 7);

    let pk = |a: &bubblegum_bridge::Address| {
        solana_sdk::pubkey::Pubkey::try_from(a.as_slice()).unwrap()
    };
    let tree_address = op.signers[2].address().unwrap();
    let expected = mpl_bubblegum::instructions::CreateTreeConfig {
        tree_config: pk(&op.instruction.accounts[0].address),
        merkle_tree: pk(&tree_address),
        payer: Keypair::from_bytes(&payer).unwrap().pubkey(),
        tree_creator: Keypair::from_bytes(&creator).unwrap().pubkey(),
        log_wrapper: spl_noop::id(),
        compression_program: spl_account_compression::id(),
        system_program: solana_program::system_program::id(),
    }
    .instruction(mpl_bubblegum::instructions::CreateTreeConfigInstructionArgs {
        max_depth: 14,
        max_buffer_size: 64,
        public: Some(false),
    });

    assert_eq!(op.instruction.data, expected.data);
    assert_eq!(
        pk(&op.instruction.program),
        mpl_bubblegum::ID
    );
    for (got, want) in op.instruction.accounts.iter().zip(expected.accounts.iter()) {
        assert_eq!(pk(&got.address), want.pubkey);
        assert_eq!(got.signer, want.is_signer);
        assert_eq!(got.writable, want.is_writable);
    }
}

#[test]
fn create_tree_payload_is_borsh_of_arguments() {
    let op = create_tree(&fresh_secret(), &fresh_secret(), 5, 8, true).unwrap();
    let args = mpl_bubblegum::instructions::CreateTreeConfigInstructionArgs {
        max_depth: 5,
        max_buffer_size: 8,
        public: Some(true),
    };
    let mut expected = vec![165u8, 83, 136, 142, 89, 202, 47, 220];
    expected.extend(borsh::BorshSerialize::try_to_vec(&args).unwrap());
    assert_eq!(op.instruction.data, expected);
}

#[test]
fn create_tree_generates_fresh_tree_identities() {
    let payer = fresh_secret();
    let creator = fresh_secret();
    let a = create_tree(&payer, &creator, 14, 64, false).unwrap();
    let b = create_tree(&payer, &creator, 14, 64, false).unwrap();
    assert_ne!(
        a.signers[2].address().unwrap().as_slice(),
        b.signers[2].address().unwrap().as_slice()
    );
}

#[test]
fn mint_metadata_is_reflected_exactly() {
    let payer = fresh_secret();
    let authority = fresh_address_text();
    let owner = fresh_address_text();
    let tree = fresh_address_text();
    let creator_one = fresh_address_text();
    let creator_two = fresh_address_text();
    let metadata = InputValue::Record(vec![
        entry("name", text("Two Creators")),
        entry("symbol", text("TWO")),
        entry("uri", text("https://example.invalid/two.json")),
        entry("seller_fee_basis_points", InputValue::Int(500)),
        entry(
            "creators",
            InputValue::List(vec![
                InputValue::Record(vec![
                    entry("address", text(&creator_one)),
                    entry("verified", InputValue::Bool(false)),
                    entry("share", InputValue::Int(50)),
                ]),
                InputValue::Record(vec![
                    entry("address", text(&creator_two)),
                    entry("verified", InputValue::Bool(true)),
                    entry("share", InputValue::Int(50)),
                ]),
            ]),
        ),
    ]);
    let op = mint_v1(&payer, &authority, &owner, &tree, &metadata).unwrap();
    assert_eq!(op.instruction.accounts.len(), 9);

    let payer_pk = Keypair::from_bytes(&payer).unwrap().pubkey();
    let expected_args = mpl_bubblegum::types::MetadataArgs {
        name: "Two Creators".to_string(),
        symbol: "TWO".to_string(),
        uri: "https://example.invalid/two.json".to_string(),
        seller_fee_basis_points: 500,
        primary_sale_happened: false,
        is_mutable: true,
        edition_nonce: None,
        token_standard: Some(mpl_bubblegum::types::TokenStandard::NonFungible),
        collection: None,
        uses: None,
        token_program_version: mpl_bubblegum::types::TokenProgramVersion::Original,
        creators: vec![
            mpl_bubblegum::types::Creator {
                address: pk(&creator_one),
                verified: false,
                share: 50,
            },
            mpl_bubblegum::types::Creator {
                address: pk(&creator_two),
                verified: true,
                share: 50,
            },
        ],
    };
    let expected = mpl_bubblegum::instructions::MintV1 {
        tree_config: pk(&authority),
        leaf_owner: pk(&owner),
        leaf_delegate: pk(&owner),
        merkle_tree: pk(&tree),
        payer: payer_pk,
        tree_creator_or_delegate: payer_pk,
        log_wrapper: spl_noop::id(),
        compression_program: spl_account_compression::id(),
        system_program: solana_program::system_program::id(),
    }
    .instruction(mpl_bubblegum::instructions::MintV1InstructionArgs {
        metadata: expected_args,
    });
    assert_eq!(op.instruction.data, expected.data);
    for (got, want) in op.instruction.accounts.iter().zip(expected.accounts.iter()) {
        assert_eq!(got.address.as_slice(), &want.pubkey.to_bytes()[..]);
        assert_eq!(got.signer, want.is_signer);
        assert_eq!(got.writable, want.is_writable);
    }
}

#[test]
fn mint_rejects_malformed_metadata_shape() {
    let metadata = InputValue::Record(vec![
        entry("symbol", text("SMP")),
        entry("uri", text("u")),
        entry("seller_fee_basis_points", InputValue::Int(1)),
    ]);
    let r = mint_v1(
        &fresh_secret(),
        &fresh_address_text(),
        &fresh_address_text(),
        &fresh_address_text(),
        &metadata,
    );
    assert_eq!(r.err(), Some(BridgeError::DecodeError));

    let fee_too_big = InputValue::Record(vec![
        entry("name", text("n")),
        entry("symbol", text("s")),
        entry("uri", text("u")),
        entry("seller_fee_basis_points", InputValue::Int(70000)),
    ]);
    let r = mint_v1(
        &fresh_secret(),
        &fresh_address_text(),
        &fresh_address_text(),
        &fresh_address_text(),
        &fee_too_big,
    );
    assert_eq!(r.err(), Some(BridgeError::DecodeError));
}

#[test]
fn mint_rejects_malformed_nested_creator_address() {
    let metadata = InputValue::Record(vec![
        entry("name", text("n")),
        entry("symbol", text("s")),
        entry("uri", text("u")),
        entry("seller_fee_basis_points", InputValue::Int(0)),
        entry(
            "creators",
            InputValue::List(vec![InputValue::Record(vec![
                entry("address", text("this is no address")),
                entry("verified", InputValue::Bool(false)),
                entry("share", InputValue::Int(100)),
            ])]),
        ),
    ]);
    let r = mint_v1(
        &fresh_secret(),
        &fresh_address_text(),
        &fresh_address_text(),
        &fresh_address_text(),
        &metadata,
    );
    assert_eq!(r.err(), Some(BridgeError::InvalidPubkey));
}

#[test]
fn mint_accepts_collection_and_uses() {
    let collection_key = fresh_address_text();
    let metadata = InputValue::Record(vec![
        entry("name", text("n")),
        entry("symbol", text("s")),
        entry("uri", text("u")),
        entry("seller_fee_basis_points", InputValue::Int(250)),
        entry(
            "collection",
            InputValue::Record(vec![
                entry("verified", InputValue::Bool(false)),
                entry("key", text(&collection_key)),
            ]),
        ),
        entry(
            "uses",
            InputValue::Record(vec![
                entry("use_method", InputValue::Int(1)),
                entry("remaining", InputValue::Int(10)),
                entry("total", InputValue::Int(10)),
            ]),
        ),
    ]);
    let op = mint_v1(
        &fresh_secret(),
        &fresh_address_text(),
        &fresh_address_text(),
        &fresh_address_text(),
        &metadata,
    )
    .unwrap();
    assert_eq!(op.instruction.accounts.len(), 9);

    let bad_method = InputValue::Record(vec![
        entry("name", text("n")),
        entry("symbol", text("s")),
        entry("uri", text("u")),
        entry("seller_fee_basis_points", InputValue::Int(250)),
        entry(
            "uses",
            InputValue::Record(vec![
                entry("use_method", InputValue::Int(9)),
                entry("remaining", InputValue::Int(10)),
                entry("total", InputValue::Int(10)),
            ]),
        ),
    ]);
    let r = mint_v1(
        &fresh_secret(),
        &fresh_address_text(),
        &fresh_address_text(),
        &fresh_address_text(),
        &bad_method,
    );
    assert_eq!(r.err(), Some(BridgeError::DecodeError));
}

#[test]
fn transfer_rejects_wrong_length_proof_fields() {
    let payer = fresh_secret();
    let owner = fresh_secret();
    for bad_index in 0..3 {
        let mut root = vec![0u8; 32];
        let mut data_hash = vec![0u8; 32];
        let mut creator_hash = vec![0u8; 32];
        match bad_index {
            0 => root = vec![0u8; 31],
            1 => data_hash = vec![0u8; 33],
            _ => creator_hash = vec![],
        }
        let r = transfer(
            &payer,
            &fresh_address_text(),
            &owner,
            &fresh_address_text(),
            &fresh_address_text(),
            &root,
            &data_hash,
            &creator_hash,
            1,
            2,
        );
        assert_eq!(r.err(), Some(BridgeError::DecodeError));
    }
}

#[test]
fn burn_rejects_wrong_length_proof_fields() {
    let r = burn(
        &fresh_secret(),
        &fresh_address_text(),
        &fresh_secret(),
        &fresh_address_text(),
        &vec![0u8; 16],
        &vec![0u8; 32],
        &vec![0u8; 32],
        0,
        0,
    );
    assert_eq!(r.err(), Some(BridgeError::DecodeError));
}

#[test]
fn transfer_builds_matching_instruction_without_owner_check() {
    // The supplied leaf owner never matches any on-chain leaf here; building
    // still succeeds, and only submission to a network could reject it.
    let payer = fresh_secret();
    let owner = fresh_secret();
    let authority = fresh_address_text();
    let new_owner = fresh_address_text();
    let tree = fresh_address_text();
    let root = (0u8..32).collect::<Vec<u8>>();
    let data_hash = vec![9u8; 32];
    let creator_hash = vec![7u8; 32];
    let op = transfer(
        &payer, &authority, &owner, &new_owner, &tree, &root, &data_hash, &creator_hash, 5, 6,
    )
    .unwrap();
    assert_eq!(op.instruction.accounts.len(), 8);
    assert_eq!(op.signers.len(), 2);

    let owner_pk = Keypair::from_bytes(&owner).unwrap().pubkey();
    let expected = mpl_bubblegum::instructions::Transfer {
        tree_config: pk(&authority),
        leaf_owner: (owner_pk, true),
        leaf_delegate: (owner_pk, true),
        new_leaf_owner: pk(&new_owner),
        merkle_tree: pk(&tree),
        log_wrapper: spl_noop::id(),
        compression_program: spl_account_compression::id(),
        system_program: solana_program::system_program::id(),
    }
    .instruction(mpl_bubblegum::instructions::TransferInstructionArgs {
        root: root.clone().try_into().unwrap(),
        data_hash: data_hash.clone().try_into().unwrap(),
        creator_hash: creator_hash.clone().try_into().unwrap(),
        nonce: 5,
        index: 6,
    });
    assert_eq!(op.instruction.data, expected.data);
    for (got, want) in op.instruction.accounts.iter().zip(expected.accounts.iter()) {
        assert_eq!(got.address.as_slice(), &want.pubkey.to_bytes()[..]);
        assert_eq!(got.signer, want.is_signer);
        assert_eq!(got.writable, want.is_writable);
    }
}

#[test]
fn burn_builds_matching_instruction() {
    let payer = fresh_secret();
    let owner = fresh_secret();
    let authority = fresh_address_text();
    let tree = fresh_address_text();
    let root = vec![1u8; 32];
    let data_hash = vec![2u8; 32];
    let creator_hash = vec![3u8; 32];
    let op = burn(
        &payer, &authority, &owner, &tree, &root, &data_hash, &creator_hash, 11, 12,
    )
    .unwrap();
    assert_eq!(op.instruction.accounts.len(), 7);

    let owner_pk = Keypair::from_bytes(&owner).unwrap().pubkey();
    let expected = mpl_bubblegum::instructions::Burn {
        tree_config: pk(&authority),
        leaf_owner: (owner_pk, true),
        leaf_delegate: (owner_pk, true),
        merkle_tree: pk(&tree),
        log_wrapper: spl_noop::id(),
        compression_program: spl_account_compression::id(),
        system_program: solana_program::system_program::id(),
    }
    .instruction(mpl_bubblegum::instructions::BurnInstructionArgs {
        root: root.clone().try_into().unwrap(),
        data_hash: data_hash.clone().try_into().unwrap(),
        creator_hash: creator_hash.clone().try_into().unwrap(),
        nonce: 11,
        index: 12,
    });
    assert_eq!(op.instruction.data, expected.data);
    for (got, want) in op.instruction.accounts.iter().zip(expected.accounts.iter()) {
        assert_eq!(got.address.as_slice(), &want.pubkey.to_bytes()[..]);
        assert_eq!(got.signer, want.is_signer);
        assert_eq!(got.writable, want.is_writable);
    }
}

#[test]
fn sign_operation_signs_required_signers() {
    let op = create_tree(&fresh_secret(), &fresh_secret(), 14, 64, false).unwrap();
    let blockhash = vec![4u8; 32];
    let signed = sign_operation(&op, &blockhash).unwrap();
    assert_eq!(signed.inner.message.instructions.len(), 1);
    assert!(signed.inner.is_signed());
    // payer and tree creator sign; the fresh tree account is not a required
    // signer of this instruction
    assert_eq!(signed.inner.signatures.len(), 2);
}

#[test]
fn sign_operation_rejects_short_blockhash() {
    let op = create_tree(&fresh_secret(), &fresh_secret(), 14, 64, false).unwrap();
    let r = sign_operation(&op, &vec![4u8; 31]);
    assert_eq!(r.err(), Some(BridgeError::TransactionError));
}

#[test]
fn transfer_signing_includes_leaf_owner() {
    let op = transfer(
        &fresh_secret(),
        &fresh_address_text(),
        &fresh_secret(),
        &fresh_address_text(),
        &fresh_address_text(),
        &vec![0u8; 32],
        &vec![0u8; 32],
        &vec![0u8; 32],
        0,
        0,
    )
    .unwrap();
    let signed = sign_operation(&op, &vec![8u8; 32]).unwrap();
    assert!(signed.inner.is_signed());
    assert_eq!(signed.inner.signatures.len(), 2);
}

#[test]
fn identity_address_is_public_half() {
    let keypair = Keypair::new();
    let id = SigningIdentity::from_bytes(&keypair.to_bytes().to_vec()).unwrap();
    let addr = id.address().unwrap();
    assert_eq!(addr.as_slice(), &keypair.pubkey().to_bytes()[..]);
    assert_eq!(addr.as_slice(), &keypair.to_bytes()[32..]);
}

#[test]
fn required_signers_follow_instruction_flags() {
    let payer = fresh_secret();
    let owner = fresh_secret();
    let op = transfer(
        &payer,
        &fresh_address_text(),
        &owner,
        &fresh_address_text(),
        &fresh_address_text(),
        &vec![0u8; 32],
        &vec![0u8; 32],
        &vec![0u8; 32],
        0,
        0,
    )
    .unwrap();
    let owner_addr = SigningIdentity::from_bytes(&owner).unwrap().address().unwrap();
    let payer_addr = SigningIdentity::from_bytes(&payer).unwrap().address().unwrap();
    assert!(bubblegum_bridge::is_required_signer(&op.instruction, &owner_addr));
    assert!(!bubblegum_bridge::is_required_signer(&op.instruction, &payer_addr));
}

#[test]
fn sign_operation_rejects_missing_required_signer() {
    let payer = fresh_secret();
    let owner = fresh_secret();
    let op = transfer(
        &payer,
        &fresh_address_text(),
        &owner,
        &fresh_address_text(),
        &fresh_address_text(),
        &vec![0u8; 32],
        &vec![0u8; 32],
        &vec![0u8; 32],
        0,
        0,
    )
    .unwrap();
    // drop the leaf owner, whose signature the instruction requires
    let mut signers = op.signers;
    signers.truncate(1);
    let stripped = bubblegum_bridge::PreparedOperation {
        instruction: op.instruction,
        signers,
    };
    let r = sign_operation(&stripped, &vec![8u8; 32]);
    assert_eq!(r.err(), Some(BridgeError::TransactionError));
}

#[test]
fn sign_operation_rejects_oversized_account_list() {
    let op = create_tree(&fresh_secret(), &fresh_secret(), 14, 64, false).unwrap();
    let filler = op.instruction.accounts[0].address.as_slice().to_vec();
    let mut accounts = op.instruction.accounts;
    while accounts.len() <= 253 {
        let address = Address::parse(
            &solana_sdk::pubkey::Pubkey::try_from(&filler[..]).unwrap().to_string(),
        )
        .unwrap();
        accounts.push(bubblegum_bridge::AccountUse {
            address,
            signer: false,
            writable: false,
        });
    }
    let oversized = bubblegum_bridge::PreparedOperation {
        instruction: bubblegum_bridge::UnsignedInstruction {
            program: op.instruction.program,
            accounts,
            data: op.instruction.data,
        },
        signers: op.signers,
    };
    let r = sign_operation(&oversized, &vec![8u8; 32]);
    assert_eq!(r.err(), Some(BridgeError::TransactionError));
}

#[test]
fn sign_operation_rejects_oversized_payload() {
    let payer = fresh_secret();
    let authority = fresh_address_text();
    let owner = fresh_address_text();
    let tree = fresh_address_text();
    let metadata = InputValue::Record(vec![
        entry("name", text("n")),
        entry("symbol", text("s")),
        entry("uri", InputValue::Text("u".repeat(70000))),
        entry("seller_fee_basis_points", InputValue::Int(0)),
    ]);
    let op = mint_v1(&payer, &authority, &owner, &tree, &metadata).unwrap();
    assert!(op.instruction.data.len() > 65535);
    let r = sign_operation(&op, &vec![8u8; 32]);
    assert_eq!(r.err(), Some(BridgeError::TransactionError));
}

#[test]
fn error_labels_are_stable() {
    assert_eq!(BridgeError::InvalidKeypair.label(), "invalid_keypair");
    assert_eq!(BridgeError::InvalidPubkey.label(), "invalid_pubkey");
    assert_eq!(BridgeError::DecodeError.label(), "decode_error");
    assert_eq!(BridgeError::RpcError.label(), "rpc_error");
    assert_eq!(BridgeError::TransactionError.label(), "transaction_error");
}
