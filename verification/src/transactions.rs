//! Transaction building: chain context, input selection, and errors.

use vstd::prelude::*;

use ergo_lib::ergotree_ir::chain::ergo_box::ErgoBox;
use ergo_lib::wallet::box_selector::ErgoBoxAssetsData;

pub mod reserves;

verus! {

/// Chain context supplied by the caller; immutable for one build call.
pub struct TxContext {
    /// Current block height, set as the creation height of the new box and
    /// as the target height of the transaction.
    pub current_height: u32,
    /// Change destination, a base58 network address.
    pub change_address: String,
    /// Transaction fee in nanoERG.
    pub fee: u64,
}

/// The pre-selected unspent boxes that fund a transaction, in the order
/// they are to be consumed, together with the residual change assets the
/// selection left over. The first box anchors the minted token's identity.
pub struct InputSelection {
    /// Boxes to spend, in order.
    pub boxes: Vec<ErgoBox>,
    /// Assets to return to the change address.
    pub change_boxes: Vec<ErgoBoxAssetsData>,
}

/// Why a build failed. Every variant reports a caller-triggered condition;
/// an internal defect of the builder has no variant here, since the
/// reinterpretation of the built box as a reserve record is proved total.
#[derive(Debug)]
pub enum TransactionError {
    /// The request's public-key hex does not decode to a curve point; the
    /// message is the SDK's parsing report.
    Parsing(String),
    /// The requested amount or the fee is not representable as a ledger
    /// box value (zero, too small, or above the maximum).
    ValueRange,
    /// The input selection is empty, so no box identifier can anchor the
    /// minted token's identity; the message names the operation.
    MissingBox(String),
    /// The ledger's assembly rules rejected the built candidate or the
    /// assembled transaction (value below the size-dependent minimum,
    /// input and output value not equal, too many inputs, among others).
    BoxConstruction,
    /// The change address failed network or encoding validation.
    Address,
}

} // verus!
