//! End-to-end tests of the reserve-minting builder against the real SDK.

use chaincash_offchain::boxes::MintedToken;
use chaincash_offchain::transactions::reserves::mint_reserve_transaction;
use chaincash_offchain::transactions::reserves::reserve_nft;
use chaincash_offchain::transactions::reserves::MintReserveRequest;
use chaincash_offchain::transactions::InputSelection;
use chaincash_offchain::transactions::TransactionError;
use chaincash_offchain::transactions::TxContext;

use ergo_lib::ergo_chain_types::EcPoint;
use ergo_lib::ergotree_ir::chain::address::Address;
use ergo_lib::ergotree_ir::chain::address::NetworkAddress;
use ergo_lib::ergotree_ir::chain::address::NetworkPrefix;
use ergo_lib::ergotree_ir::chain::ergo_box::box_value::BoxValue;
use ergo_lib::ergotree_ir::chain::ergo_box::ErgoBox;
use ergo_lib::ergotree_ir::chain::ergo_box::NonMandatoryRegisterId;
use ergo_lib::ergotree_ir::chain::ergo_box::NonMandatoryRegisters;
use ergo_lib::ergotree_ir::chain::token::TokenId;
use ergo_lib::ergotree_ir::chain::tx_id::TxId;
use ergo_lib::ergotree_ir::ergo_tree::ErgoTree;
use ergo_lib::ergotree_ir::mir::constant::Constant;
use ergo_lib::ergotree_ir::sigma_protocol::sigma_boolean::ProveDlog;
use ergo_lib::wallet::box_selector::ErgoBoxAssetsData;

/// A valid compressed secp256k1 point (the generator), 66 hex characters.
const OWNER_HEX: &str = "0279be667ef9dcbbac55a06295ce870b07029bfcdb2dce28d959f2815b16f81798";

const AMOUNT: u64 = 1_000_000;
const FEE: u64 = 1_100_000;
const HEIGHT: u32 = 500_000;

fn owner_point() -> EcPoint {
    EcPoint::try_from(OWNER_HEX.to_string()).unwrap()
}

fn p2pk_tree() -> ErgoTree {
    Address::P2Pk(ProveDlog::new(owner_point())).script().unwrap()
}

fn change_address() -> String {
    NetworkAddress::new(
        NetworkPrefix::Mainnet,
        &Address::P2Pk(ProveDlog::new(owner_point())),
    )
    .to_base58()
}

fn input_box(value: u64, index: u16) -> ErgoBox {
    ErgoBox::new(
        BoxValue::try_from(value).unwrap(),
        p2pk_tree(),
        None,
        NonMandatoryRegisters::empty(),
        100,
        TxId::zero(),
        index,
    )
    .unwrap()
}

fn request(amount: u64) -> MintReserveRequest {
    MintReserveRequest {
        public_key_hex: OWNER_HEX.to_string(),
        amount,
    }
}

fn context(fee: u64) -> TxContext {
    TxContext {
        current_height: HEIGHT,
        change_address: change_address(),
        fee,
    }
}

fn selection(boxes: Vec<ErgoBox>) -> InputSelection {
    InputSelection {
        boxes,
        change_boxes: vec![],
    }
}

#[test]
fn mint_succeeds_and_anchors_nft_to_first_input() {
    let funding = input_box(AMOUNT + FEE, 0);
    let expected_id = funding.box_id();
    let resp = mint_reserve_transaction(
        request(AMOUNT),
        p2pk_tree(),
        selection(vec![funding]),
        context(FEE),
    )
    .unwrap();

    assert_eq!(resp.reserve_box.value, AMOUNT);
    assert_eq!(resp.reserve_box.owner_key_hex, OWNER_HEX);
    assert_eq!(resp.reserve_box.nft.amount, 1);
    assert_eq!(resp.reserve_box.nft.token_id, expected_id.as_ref().to_vec());

    // The transaction itself spends exactly the funding box and its first
    // output is the reserve box carrying the minted NFT.
    assert_eq!(resp.transaction.inputs.len(), 1);
    assert_eq!(resp.transaction.inputs.first().box_id, expected_id);
    let reserve_output = resp.transaction.output_candidates.first();
    assert_eq!(u64::from(reserve_output.value), AMOUNT);
    assert_eq!(reserve_output.creation_height, HEIGHT);
    let tokens = reserve_output.tokens.as_ref().unwrap();
    assert_eq!(tokens.len(), 1);
    assert_eq!(tokens.first().token_id, TokenId::from(expected_id));
    assert_eq!(u64::from(tokens.first().amount), 1u64);
}

#[test]
fn mint_writes_owner_key_into_register_r4() {
    let funding = input_box(AMOUNT + FEE, 0);
    let resp = mint_reserve_transaction(
        request(AMOUNT),
        p2pk_tree(),
        selection(vec![funding]),
        context(FEE),
    )
    .unwrap();
    let reserve_output = resp.transaction.output_candidates.first();
    let r4 = reserve_output
        .additional_registers
        .get_constant(NonMandatoryRegisterId::R4)
        .unwrap()
        .unwrap();
    assert_eq!(r4, Constant::from(owner_point()));
}

#[test]
fn mint_ignores_later_inputs_for_identity() {
    let first = input_box(AMOUNT + FEE, 0);
    let second = input_box(500_000, 1);
    let first_id = first.box_id();
    let second_id = second.box_id();
    let inputs = InputSelection {
        boxes: vec![first, second],
        change_boxes: vec![ErgoBoxAssetsData {
            value: BoxValue::try_from(500_000u64).unwrap(),
            tokens: None,
        }],
    };
    let resp =
        mint_reserve_transaction(request(AMOUNT), p2pk_tree(), inputs, context(FEE)).unwrap();
    assert_eq!(resp.reserve_box.nft.token_id, first_id.as_ref().to_vec());
    assert_ne!(resp.reserve_box.nft.token_id, second_id.as_ref().to_vec());
    assert_eq!(resp.transaction.inputs.len(), 2);
}

#[test]
fn mint_is_deterministic_in_token_identity() {
    let funding = input_box(AMOUNT + FEE, 0);
    let r1 = mint_reserve_transaction(
        request(AMOUNT),
        p2pk_tree(),
        selection(vec![funding.clone()]),
        context(FEE),
    )
    .unwrap();
    let r2 = mint_reserve_transaction(
        request(AMOUNT),
        p2pk_tree(),
        selection(vec![funding]),
        context(FEE),
    )
    .unwrap();
    assert_eq!(r1.reserve_box.nft.token_id, r2.reserve_box.nft.token_id);
}

#[test]
fn mint_fails_on_empty_selection() {
    let r = mint_reserve_transaction(request(AMOUNT), p2pk_tree(), selection(vec![]), context(FEE));
    assert!(matches!(r, Err(TransactionError::MissingBox(_))));
}

#[test]
fn mint_fails_on_wrong_length_key() {
    let mut req = request(AMOUNT);
    req.public_key_hex = "02abcd".to_string();
    let r = mint_reserve_transaction(
        req,
        p2pk_tree(),
        selection(vec![input_box(AMOUNT + FEE, 0)]),
        context(FEE),
    );
    assert!(matches!(r, Err(TransactionError::Parsing(_))));
}

#[test]
fn mint_fails_on_non_hex_key() {
    let mut req = request(AMOUNT);
    req.public_key_hex = "zz".repeat(33);
    let r = mint_reserve_transaction(
        req,
        p2pk_tree(),
        selection(vec![input_box(AMOUNT + FEE, 0)]),
        context(FEE),
    );
    assert!(matches!(r, Err(TransactionError::Parsing(_))));
}

#[test]
fn mint_fails_on_invalid_point_encoding() {
    // Right length, but 0x04 is not a valid tag for a compressed point.
    let mut req = request(AMOUNT);
    req.public_key_hex = format!("04{}", "00".repeat(32));
    let r = mint_reserve_transaction(
        req,
        p2pk_tree(),
        selection(vec![input_box(AMOUNT + FEE, 0)]),
        context(FEE),
    );
    assert!(matches!(r, Err(TransactionError::Parsing(_))));
}

#[test]
fn mint_fails_on_amount_above_max_box_value() {
    let r = mint_reserve_transaction(
        request(u64::MAX),
        p2pk_tree(),
        selection(vec![input_box(AMOUNT + FEE, 0)]),
        context(FEE),
    );
    assert!(matches!(r, Err(TransactionError::ValueRange)));
}

#[test]
fn mint_fails_on_zero_amount() {
    let r = mint_reserve_transaction(
        request(0),
        p2pk_tree(),
        selection(vec![input_box(AMOUNT + FEE, 0)]),
        context(FEE),
    );
    assert!(matches!(r, Err(TransactionError::ValueRange)));
}

#[test]
fn mint_fails_on_zero_fee() {
    let r = mint_reserve_transaction(
        request(AMOUNT),
        p2pk_tree(),
        selection(vec![input_box(AMOUNT + FEE, 0)]),
        context(0),
    );
    assert!(matches!(r, Err(TransactionError::ValueRange)));
}

#[test]
fn mint_fails_on_invalid_change_address() {
    let mut ctx = context(FEE);
    ctx.change_address = "not a base58 network address".to_string();
    let r = mint_reserve_transaction(
        request(AMOUNT),
        p2pk_tree(),
        selection(vec![input_box(AMOUNT + FEE, 0)]),
        ctx,
    );
    assert!(matches!(r, Err(TransactionError::Address)));
}

#[test]
fn mint_fails_when_box_value_below_size_minimum() {
    // 10800 nanoERG clears the absolute lower bound but not the
    // size-dependent minimum of a box carrying a token and a register.
    let r = mint_reserve_transaction(
        request(10_800),
        p2pk_tree(),
        selection(vec![input_box(10_800 + FEE, 0)]),
        context(FEE),
    );
    assert!(matches!(r, Err(TransactionError::BoxConstruction)));
}

#[test]
fn mint_fails_when_values_are_not_preserved() {
    // The funding box holds more than amount + fee and no change assets
    // were supplied, so assembly rejects the imbalance.
    let r = mint_reserve_transaction(
        request(AMOUNT),
        p2pk_tree(),
        selection(vec![input_box(10_000_000, 0)]),
        context(FEE),
    );
    assert!(matches!(r, Err(TransactionError::BoxConstruction)));
}

#[test]
fn mint_fails_when_input_values_overflow_a_sum() {
    // Three boxes at the maximal box value sum past u64::MAX; the build
    // must refuse the selection instead of letting the SDK sum it.
    let max: u64 = i64::MAX as u64;
    let r = mint_reserve_transaction(
        request(AMOUNT),
        p2pk_tree(),
        selection(vec![input_box(max, 0), input_box(max, 1), input_box(max, 2)]),
        context(FEE),
    );
    assert!(matches!(r, Err(TransactionError::BoxConstruction)));
}

#[test]
fn mint_fails_when_output_values_overflow_a_sum() {
    // Two maximal change records leave no room for amount + fee in u64.
    let max: u64 = i64::MAX as u64;
    let inputs = InputSelection {
        boxes: vec![input_box(max, 0), input_box(max, 1)],
        change_boxes: vec![
            ErgoBoxAssetsData {
                value: BoxValue::try_from(max).unwrap(),
                tokens: None,
            },
            ErgoBoxAssetsData {
                value: BoxValue::try_from(max).unwrap(),
                tokens: None,
            },
        ],
    };
    let r = mint_reserve_transaction(request(AMOUNT), p2pk_tree(), inputs, context(FEE));
    assert!(matches!(r, Err(TransactionError::BoxConstruction)));
}

#[test]
fn reserve_nft_takes_identity_from_first_box() {
    let first = input_box(AMOUNT, 0);
    let second = input_box(AMOUNT, 1);
    let first_id = first.box_id();
    let boxes = vec![first, second];
    let nft: MintedToken = reserve_nft(&boxes).unwrap();
    assert_eq!(nft.token_id, first_id.as_ref().to_vec());
    assert_eq!(nft.amount, 1);
}

#[test]
fn reserve_nft_rejects_empty_selection() {
    let boxes: Vec<ErgoBox> = vec![];
    let r = reserve_nft(&boxes);
    assert!(matches!(r, Err(TransactionError::MissingBox(_))));
}
