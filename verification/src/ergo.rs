//! Trusted boundary to the Ergo SDK (`ergo_lib`).
//!
//! Everything the builder needs from the SDK stands here: declarations of
//! the SDK types that flow through the library, names for what the SDK's
//! pure functions return, and thin wrappers around the SDK calls. The
//! wrappers' contracts are believed, not proved; each doc comment names the
//! SDK items it relies on.

use vstd::prelude::*;

use ergo_lib::chain::ergo_box::box_builder::ErgoBoxCandidateBuilder;
use ergo_lib::chain::ergo_box::box_builder::ErgoBoxCandidateBuilderError;
use ergo_lib::chain::transaction::unsigned::UnsignedTransaction;
use ergo_lib::chain::transaction::Transaction;
use ergo_lib::ergo_chain_types::EcPoint;
use ergo_lib::ergotree_ir::chain::address::Address;
use ergo_lib::ergotree_ir::chain::address::AddressEncoderError;
use ergo_lib::ergotree_ir::chain::address::NetworkAddress;
use ergo_lib::ergotree_ir::chain::ergo_box::box_value::BoxValue;
use ergo_lib::ergotree_ir::chain::ergo_box::ErgoBox;
use ergo_lib::ergotree_ir::chain::ergo_box::ErgoBoxCandidate;
use ergo_lib::ergotree_ir::chain::ergo_box::NonMandatoryRegisterId;
use ergo_lib::ergotree_ir::chain::token::Token;
use ergo_lib::ergotree_ir::chain::token::TokenAmount;
use ergo_lib::ergotree_ir::chain::token::TokenId;
use ergo_lib::ergotree_ir::ergo_tree::ErgoTree;
use ergo_lib::ergotree_ir::serialization::SigmaSerializable;
use ergo_lib::wallet::box_selector::BoxSelection;
use ergo_lib::wallet::box_selector::ErgoBoxAssetsData;
use ergo_lib::wallet::box_selector::SelectedBoxes;
use ergo_lib::wallet::tx_builder::TxBuilder;
use ergo_lib::wallet::tx_builder::TxBuilderError;

use crate::boxes::MintedToken;

verus! {

// ---------------------------------------------------------------------------
// SDK types that flow through the library. They are opaque: the library
// carries their values and never looks inside.
// ---------------------------------------------------------------------------

#[verifier::external_type_specification]
#[verifier::external_body]
pub struct ExEcPoint(EcPoint);

#[verifier::external_type_specification]
#[verifier::external_body]
pub struct ExErgoTree(ErgoTree);

#[verifier::external_type_specification]
#[verifier::external_body]
pub struct ExErgoBox(ErgoBox);

#[verifier::external_type_specification]
#[verifier::external_body]
pub struct ExErgoBoxCandidate(ErgoBoxCandidate);

#[verifier::external_type_specification]
#[verifier::external_body]
pub struct ExErgoBoxAssetsData(ErgoBoxAssetsData);

#[verifier::external_type_specification]
#[verifier::external_body]
pub struct ExUnsignedTransaction(UnsignedTransaction);

#[verifier::external_type_specification]
#[verifier::external_body]
pub struct ExTransaction(Transaction);

#[verifier::external_type_specification]
#[verifier::external_body]
pub struct ExAddress(Address);

#[verifier::external_type_specification]
#[verifier::external_body]
pub struct ExAddressEncoderError(AddressEncoderError);

#[verifier::external_type_specification]
#[verifier::external_body]
pub struct ExErgoBoxCandidateBuilderError(ErgoBoxCandidateBuilderError);

#[verifier::external_type_specification]
#[verifier::external_body]
pub struct ExTxBuilderError(TxBuilderError);

// ---------------------------------------------------------------------------
// The ledger's numeric bounds. `BoxValue::try_from(u64)` accepts exactly the
// values between the minimal box value (360 nanoERG per byte times the
// 30-byte minimal box) and `i64::MAX`; `TokenAmount::try_from(u64)` accepts
// exactly 1 up to `i64::MAX`; a transaction spends at most `i16::MAX` boxes.
// ---------------------------------------------------------------------------

/// Smallest value (in nanoERG) the ledger's box-value type accepts.
pub const MIN_BOX_VALUE: u64 = 10800;

/// Largest value (in nanoERG) the ledger's box-value type accepts.
pub const MAX_BOX_VALUE: u64 = 9223372036854775807;

/// Largest token amount the ledger's token-amount type accepts.
pub const MAX_TOKEN_AMOUNT: u64 = 9223372036854775807;

/// Most input boxes one transaction can spend.
pub const MAX_TX_INPUTS: usize = 32767;

/// A quantity is representable as a ledger box value (of a box or of the
/// fee) iff it lies within the ledger's bounds; zero in particular is not.
pub open spec fn valid_box_value(v: u64) -> bool {
    MIN_BOX_VALUE <= v <= MAX_BOX_VALUE
}

/// Runtime test of `valid_box_value`.
pub fn check_box_value(v: u64) -> (ok: bool)
    ensures
        ok == valid_box_value(v),
{
    MIN_BOX_VALUE <= v && v <= MAX_BOX_VALUE
}

// ---------------------------------------------------------------------------
// Names for what the SDK's pure functions return. Each names one SDK
// function (or field) whose result depends on its arguments alone.
// ---------------------------------------------------------------------------

/// What `EcPoint::try_from(String)` returns for a text: the decoded curve
/// point, or nothing when the text is not the base16 form of a serialized
/// group element.
pub uninterp spec fn parsed_ec_point(s: Seq<char>) -> Option<EcPoint>;

/// Whether a text decodes to a curve point.
pub open spec fn is_ec_point_hex(s: Seq<char>) -> bool {
    parsed_ec_point(s) is Some
}

/// The 32-byte identifier of a box, as `ErgoBox::box_id` computes it: a
/// digest of the box's content, a function of the box alone.
pub uninterp spec fn box_id_of(b: ErgoBox) -> Seq<u8>;

/// The value a box holds in nanoERG, as its `value` field stores it.
pub uninterp spec fn box_value_of(b: ErgoBox) -> u64;

/// The value a change-assets record holds in nanoERG, as its `value` field
/// stores it.
pub uninterp spec fn change_value_of(b: ErgoBoxAssetsData) -> u64;

/// What `NetworkAddress::try_from(String)` returns for a text, taken to
/// its on-ledger address: the parsed address, or nothing when the text is
/// not a well-formed base58 network address.
pub uninterp spec fn parsed_address(s: Seq<char>) -> Option<Address>;

/// Whether a text is a well-formed base58 network address.
pub open spec fn is_network_address(s: Seq<char>) -> bool {
    parsed_address(s) is Some
}

/// What `ErgoBoxCandidateBuilder::build` returns for a candidate with the
/// given value, script, creation height, one token and R4 point: the
/// finished candidate, or nothing when the ledger's rules reject it
/// (chiefly a value below the size-dependent minimum of the serialized
/// box). A function of the arguments alone.
pub uninterp spec fn built_candidate(
    value: u64,
    script: ErgoTree,
    creation_height: u32,
    token_id: Seq<u8>,
    token_amount: u64,
    owner: EcPoint,
) -> Option<ErgoBoxCandidate>;

/// The value a box candidate holds in nanoERG, as its `value` field stores
/// it.
pub uninterp spec fn candidate_value_of(c: ErgoBoxCandidate) -> u64;

/// What `TxBuilder::build` returns for the given inputs, change assets,
/// single output candidate, height, fee and change address: the assembled
/// unsigned transaction, or nothing when the ledger's rules reject the
/// assembly (input and output value not equal, duplicate inputs, a change
/// or fee output below the minimal box value, among others). A function of
/// the arguments alone.
pub uninterp spec fn assembled_transaction(
    boxes: Seq<ErgoBox>,
    change_boxes: Seq<ErgoBoxAssetsData>,
    output: ErgoBoxCandidate,
    current_height: u32,
    fee: u64,
    change_address: Address,
) -> Option<UnsignedTransaction>;

/// The identifiers of the boxes a transaction spends, in order, as its
/// `inputs` field stores them.
pub uninterp spec fn tx_input_ids(t: UnsignedTransaction) -> Seq<Seq<u8>>;

/// The output candidates of a transaction, in order, as its
/// `output_candidates` field stores them.
pub uninterp spec fn tx_output_candidates(t: UnsignedTransaction) -> Seq<ErgoBoxCandidate>;

// ---------------------------------------------------------------------------
// Value sums. The SDK's assembly sums box values with unchecked `u64`
// arithmetic, so its wrapper below requires the sums to fit; these give
// the bound a spec form and the facts the runtime checks need.
// ---------------------------------------------------------------------------

/// Total value of a sequence of boxes, in nanoERG.
pub open spec fn sum_box_values(s: Seq<ErgoBox>) -> int
    decreases s.len(),
{
    if s.len() == 0 {
        0
    } else {
        sum_box_values(s.drop_last()) + box_value_of(s.last())
    }
}

/// Total value of a sequence of change-assets records, in nanoERG.
pub open spec fn sum_change_values(s: Seq<ErgoBoxAssetsData>) -> int
    decreases s.len(),
{
    if s.len() == 0 {
        0
    } else {
        sum_change_values(s.drop_last()) + change_value_of(s.last())
    }
}

/// A prefix of a sequence of boxes never sums to more than the whole.
pub proof fn lemma_sum_box_values_prefix(s: Seq<ErgoBox>, j: int)
    requires
        0 <= j <= s.len(),
    ensures
        sum_box_values(s.take(j)) <= sum_box_values(s),
    decreases s.len() - j,
{
    if j == s.len() {
        assert(s.take(j) =~= s);
    } else {
        assert(s.take(j + 1).drop_last() =~= s.take(j));
        assert(s.take(j + 1).last() == s[j]);
        lemma_sum_box_values_prefix(s, j + 1);
    }
}

/// A prefix of a sequence of change records never sums to more than the
/// whole.
pub proof fn lemma_sum_change_values_prefix(s: Seq<ErgoBoxAssetsData>, j: int)
    requires
        0 <= j <= s.len(),
    ensures
        sum_change_values(s.take(j)) <= sum_change_values(s),
    decreases s.len() - j,
{
    if j == s.len() {
        assert(s.take(j) =~= s);
    } else {
        assert(s.take(j + 1).drop_last() =~= s.take(j));
        assert(s.take(j + 1).last() == s[j]);
        lemma_sum_change_values_prefix(s, j + 1);
    }
}

// ---------------------------------------------------------------------------
// Wrappers around the SDK calls.
// ---------------------------------------------------------------------------

/// Relies on `EcPoint::try_from(String)`: the text parses to a curve point
/// iff it is the base16 form of a serialized group element, and the parsed
/// point depends on the text alone. On failure the SDK reports a message.
#[verifier::external_body]
pub(crate) fn parse_ec_point(s: &String) -> (r: Result<EcPoint, String>)
    ensures
        (r matches Ok(_)) <==> is_ec_point_hex(s@),
        r matches Ok(p) ==> parsed_ec_point(s@) == Some(p),
{
    EcPoint::try_from(s.clone())
}

/// Relies on `ErgoBox::box_id`: the identifier is a 32-byte digest computed
/// from the box's content alone.
#[verifier::external_body]
pub(crate) fn ergo_box_id(b: &ErgoBox) -> (r: Vec<u8>)
    ensures
        r@ == box_id_of(*b),
        r@.len() == 32,
{
    b.box_id().as_ref().to_vec()
}

/// Relies on the `value` field of `ErgoBox` and `BoxValue::as_u64`: the
/// value the box holds.
#[verifier::external_body]
pub(crate) fn ergo_box_value(b: &ErgoBox) -> (r: u64)
    ensures
        r == box_value_of(*b),
{
    *b.value.as_u64()
}

/// Relies on the `value` field of `ErgoBoxAssetsData` and
/// `BoxValue::as_u64`: the value the change record holds.
#[verifier::external_body]
pub(crate) fn change_box_value(b: &ErgoBoxAssetsData) -> (r: u64)
    ensures
        r == change_value_of(*b),
{
    *b.value.as_u64()
}

/// Relies on `ErgoBoxCandidateBuilder` (`new`, `add_token`,
/// `set_register_value`, `build`) and on the checked conversions
/// `BoxValue::try_from(u64)`, `TokenId::sigma_parse_bytes` and
/// `TokenAmount::try_from(u64)`, whose panics the `requires` rules out.
/// The candidate holds the given value, script and creation height,
/// carries the one given token, and stores the point in register R4;
/// success and result depend on the arguments alone.
#[verifier::external_body]
pub(crate) fn build_reserve_candidate(
    value: u64,
    script: &ErgoTree,
    creation_height: u32,
    nft: &MintedToken,
    owner: &EcPoint,
) -> (r: Result<ErgoBoxCandidate, ErgoBoxCandidateBuilderError>)
    requires
        valid_box_value(value),
        nft.token_id@.len() == 32,
        1 <= nft.amount <= MAX_TOKEN_AMOUNT,
    ensures
        (r matches Ok(_)) <==> built_candidate(
            value,
            *script,
            creation_height,
            nft.token_id@,
            nft.amount,
            *owner,
        ) is Some,
        r matches Ok(c) ==> built_candidate(
            value,
            *script,
            creation_height,
            nft.token_id@,
            nft.amount,
            *owner,
        ) == Some(c) && candidate_value_of(c) == value,
{
    let mut builder = ErgoBoxCandidateBuilder::new(
        BoxValue::try_from(value).unwrap(),
        script.clone(),
        creation_height,
    );
    builder.add_token(Token {
        token_id: TokenId::sigma_parse_bytes(&nft.token_id).unwrap(),
        amount: TokenAmount::try_from(nft.amount).unwrap(),
    });
    builder.set_register_value(NonMandatoryRegisterId::R4, owner.clone().into());
    builder.build()
}

/// Relies on `NetworkAddress::try_from(String)` and `NetworkAddress::address`:
/// the text parses iff it is a well-formed base58 network address, and the
/// parsed address depends on the text alone; on success the on-ledger
/// address is handed back.
#[verifier::external_body]
pub(crate) fn parse_change_address(s: &String) -> (r: Result<Address, AddressEncoderError>)
    ensures
        (r matches Ok(_)) <==> is_network_address(s@),
        r matches Ok(a) ==> parsed_address(s@) == Some(a),
{
    match NetworkAddress::try_from(s.clone()) {
        Ok(na) => Ok(na.address()),
        Err(e) => Err(e),
    }
}

/// Relies on `TxBuilder` (`new`, `build`) and on the checked conversions
/// `SelectedBoxes::try_from(Vec)` and `BoxValue::try_from(u64)`, whose
/// failures the `requires` rules out. The assembly sums the input values
/// and the output values (the candidate, the change records, the fee) with
/// unchecked `u64` arithmetic, so the `requires` also demands that both
/// sums fit. Success and result depend on the arguments alone: the
/// transaction spends exactly the given boxes in the given order, its
/// first output candidate is the given candidate, and the builder appends
/// one change output per change record (to the change address) and one fee
/// output. `build` fails when the ledger rejects the assembly: input and
/// output value not equal, duplicate inputs, a change or fee output below
/// the minimal box value, among others.
#[verifier::external_body]
pub(crate) fn assemble_transaction(
    boxes: Vec<ErgoBox>,
    change_boxes: Vec<ErgoBoxAssetsData>,
    output: ErgoBoxCandidate,
    current_height: u32,
    fee: u64,
    change_address: Address,
) -> (r: Result<UnsignedTransaction, TxBuilderError>)
    requires
        1 <= boxes@.len() <= MAX_TX_INPUTS,
        valid_box_value(fee),
        sum_box_values(boxes@) <= u64::MAX,
        candidate_value_of(output) + sum_change_values(change_boxes@) + fee <= u64::MAX,
    ensures
        (r matches Ok(_)) <==> assembled_transaction(
            boxes@,
            change_boxes@,
            output,
            current_height,
            fee,
            change_address,
        ) is Some,
        r matches Ok(t) ==> assembled_transaction(
            boxes@,
            change_boxes@,
            output,
            current_height,
            fee,
            change_address,
        ) == Some(t)
            && tx_input_ids(t) == Seq::new(boxes@.len(), |i: int| box_id_of(boxes@[i]))
            && tx_output_candidates(t).len() == change_boxes@.len() + 2
            && tx_output_candidates(t)[0] == output,
{
    let selection = BoxSelection {
        boxes: SelectedBoxes::try_from(boxes).unwrap(),
        change_boxes,
    };
    TxBuilder::new(
        selection,
        vec![output],
        current_height,
        BoxValue::try_from(fee).unwrap(),
        change_address,
    )
    .build()
}

} // verus!
