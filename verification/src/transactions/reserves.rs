//! Building the unsigned transaction that mints a reserve.

use vstd::prelude::*;

use ergo_lib::chain::transaction::unsigned::UnsignedTransaction;
use ergo_lib::chain::transaction::Transaction;
use ergo_lib::ergotree_ir::chain::ergo_box::ErgoBox;
use ergo_lib::ergotree_ir::chain::ergo_box::ErgoBoxCandidate;
use ergo_lib::ergotree_ir::ergo_tree::ErgoTree;
use ergo_lib::wallet::box_selector::ErgoBoxAssetsData;

use crate::boxes::MintedToken;
use crate::boxes::ReserveBoxSpec;
use crate::ergo::assemble_transaction;
use crate::ergo::assembled_transaction;
use crate::ergo::box_id_of;
use crate::ergo::built_candidate;
use crate::ergo::build_reserve_candidate;
use crate::ergo::change_box_value;
use crate::ergo::check_box_value;
use crate::ergo::ergo_box_id;
use crate::ergo::ergo_box_value;
use crate::ergo::is_ec_point_hex;
use crate::ergo::is_network_address;
use crate::ergo::lemma_sum_box_values_prefix;
use crate::ergo::lemma_sum_change_values_prefix;
use crate::ergo::parse_change_address;
use crate::ergo::parse_ec_point;
use crate::ergo::parsed_address;
use crate::ergo::parsed_ec_point;
use crate::ergo::sum_box_values;
use crate::ergo::sum_change_values;
use crate::ergo::tx_input_ids;
use crate::ergo::tx_output_candidates;
use crate::ergo::valid_box_value;
use crate::ergo::MAX_TX_INPUTS;

use super::InputSelection;
use super::TransactionError;
use super::TxContext;

verus! {

/// What a caller asks for: the owner's public key in hex and the amount of
/// the native asset the new reserve box is to hold.
#[derive(Clone)]
pub struct MintReserveRequest {
    /// Hex-encoded elliptic-curve point identifying the reserve's owner.
    pub public_key_hex: String,
    /// Requested balance of the reserve box, in nanoERG.
    pub amount: u64,
}

/// What a successful build returns: the reserve record and the unsigned
/// transaction that creates the reserve box and mints the reserve NFT.
pub struct MintReserveResponse {
    /// Reserve box, read back as a typed record.
    pub reserve_box: ReserveBoxSpec,
    /// Unsigned transaction that creates the reserve box and mints the
    /// reserve NFT.
    pub transaction: UnsignedTransaction,
}

/// The same pair once a downstream signer has attached proofs; this
/// library only builds the unsigned form.
pub struct SignedMintReserveResponse {
    /// Reserve box, read back as a typed record.
    pub reserve_box: ReserveBoxSpec,
    /// The signed transaction.
    pub transaction: Transaction,
}

/// The candidate a build submits to the ledger: value = the requested
/// amount, script = the reserve contract, creation height = the context's
/// height, one token anchored to the first input box, R4 = the decoded
/// owner key. Nothing when the ledger's candidate rules reject it.
pub open spec fn reserve_candidate(
    request: MintReserveRequest,
    reserve_tree: ErgoTree,
    inputs: InputSelection,
    context: TxContext,
) -> Option<ErgoBoxCandidate> {
    built_candidate(
        request.amount,
        reserve_tree,
        context.current_height,
        box_id_of(inputs.boxes@[0]),
        1,
        parsed_ec_point(request.public_key_hex@)->0,
    )
}

/// The transaction a build assembles from the accepted candidate, the full
/// selection and the context. Nothing when the ledger's assembly rules
/// reject it.
pub open spec fn reserve_transaction(
    request: MintReserveRequest,
    reserve_tree: ErgoTree,
    inputs: InputSelection,
    context: TxContext,
) -> Option<UnsignedTransaction> {
    assembled_transaction(
        inputs.boxes@,
        inputs.change_boxes@,
        reserve_candidate(request, reserve_tree, inputs, context)->0,
        context.current_height,
        context.fee,
        parsed_address(context.change_address@)->0,
    )
}

/// The conditions of the build's first four steps: the key decodes, the
/// amount is representable, the selection is non-empty, and the ledger
/// accepts the candidate.
pub open spec fn candidate_stage_ok(
    request: MintReserveRequest,
    reserve_tree: ErgoTree,
    inputs: InputSelection,
    context: TxContext,
) -> bool {
    &&& is_ec_point_hex(request.public_key_hex@)
    &&& valid_box_value(request.amount)
    &&& inputs.boxes@.len() > 0
    &&& reserve_candidate(request, reserve_tree, inputs, context) is Some
}

/// The conditions of the assembly step: the selection is within the
/// transaction's input bound, neither the input values nor the output
/// values (amount, change, fee) overflow a `u64` sum, and the ledger
/// accepts the assembled transaction.
pub open spec fn assembly_ok(
    request: MintReserveRequest,
    reserve_tree: ErgoTree,
    inputs: InputSelection,
    context: TxContext,
) -> bool {
    &&& inputs.boxes@.len() <= MAX_TX_INPUTS
    &&& sum_box_values(inputs.boxes@) <= u64::MAX
    &&& request.amount + sum_change_values(inputs.change_boxes@) + context.fee <= u64::MAX
    &&& reserve_transaction(request, reserve_tree, inputs, context) is Some
}

/// Every validation and acceptance condition of a build, in the order the
/// steps run; the build returns a success exactly when all hold.
pub open spec fn mint_accepted(
    request: MintReserveRequest,
    reserve_tree: ErgoTree,
    inputs: InputSelection,
    context: TxContext,
) -> bool {
    &&& candidate_stage_ok(request, reserve_tree, inputs, context)
    &&& valid_box_value(context.fee)
    &&& is_network_address(context.change_address@)
    &&& assembly_ok(request, reserve_tree, inputs, context)
}

/// Everything a successful build guarantees. The returned record describes
/// the requested reserve — the owner key is the request's key, the balance
/// is the requested amount, the script is the supplied contract, and the
/// minted token is an NFT whose identity is the identifier of the first
/// consumed input box. The returned transaction is the one the ledger
/// assembled from exactly these arguments: it spends the selection's boxes
/// unmodified and in order, its first output is the reserve candidate, and
/// beyond it stand only the change outputs (one per change record) and the
/// fee output.
pub open spec fn mint_ok(
    resp: MintReserveResponse,
    request: MintReserveRequest,
    reserve_tree: ErgoTree,
    inputs: InputSelection,
    context: TxContext,
) -> bool {
    &&& mint_accepted(request, reserve_tree, inputs, context)
    &&& resp.reserve_box.owner_key_hex@ == request.public_key_hex@
    &&& resp.reserve_box.value == request.amount
    &&& resp.reserve_box.script == reserve_tree
    &&& resp.reserve_box.nft.token_id@ == box_id_of(inputs.boxes@[0])
    &&& resp.reserve_box.nft.amount == 1
    &&& resp.reserve_box.well_formed()
    &&& Some(resp.transaction) == reserve_transaction(request, reserve_tree, inputs, context)
    &&& tx_input_ids(resp.transaction) == Seq::new(
        inputs.boxes@.len(),
        |i: int| box_id_of(inputs.boxes@[i]),
    )
    &&& tx_output_candidates(resp.transaction).len() == inputs.change_boxes@.len() + 2
    &&& Some(tx_output_candidates(resp.transaction)[0]) == reserve_candidate(
        request,
        reserve_tree,
        inputs,
        context,
    )
}

/// Derives the reserve NFT from the selection: the identity is the
/// identifier of the first input box — which the transaction consumes, so
/// the identity can never be minted again — and the amount is exactly 1.
/// An empty selection leaves no box to anchor the identity and is refused.
pub fn reserve_nft(boxes: &Vec<ErgoBox>) -> (r: Result<MintedToken, TransactionError>)
    ensures
        boxes@.len() == 0 ==> (r matches Err(e) && e is MissingBox),
        boxes@.len() > 0 ==> (r matches Ok(t) && t.token_id@ == box_id_of(boxes@[0])
            && t.is_nft()),
{
    if boxes.len() == 0 {
        return Err(TransactionError::MissingBox(String::from_str(
            "mint_reserve_transaction: failed to find input box required to mint nft",
        )));
    }
    let token_id = ergo_box_id(&boxes[0]);
    Ok(MintedToken { token_id, amount: 1 })
}

/// Total value of the boxes, or nothing when the sum exceeds `u64::MAX` —
/// in which case the SDK's own unchecked summation must not be reached.
fn selection_value_total(boxes: &Vec<ErgoBox>) -> (r: Option<u64>)
    ensures
        r matches Some(t) ==> t == sum_box_values(boxes@),
        (r is Some) <==> sum_box_values(boxes@) <= u64::MAX,
{
    let mut total: u64 = 0;
    let mut i: usize = 0;
    while i < boxes.len()
        invariant
            i <= boxes@.len(),
            total == sum_box_values(boxes@.take(i as int)),
        decreases boxes@.len() - i,
    {
        let v = ergo_box_value(&boxes[i]);
        proof {
            assert(boxes@.take(i as int + 1).drop_last() =~= boxes@.take(i as int));
            assert(boxes@.take(i as int + 1).last() == boxes@[i as int]);
        }
        match total.checked_add(v) {
            Some(t) => {
                total = t;
            },
            None => {
                proof {
                    lemma_sum_box_values_prefix(boxes@, i as int + 1);
                }
                return None;
            },
        }
        i = i + 1;
    }
    proof {
        assert(boxes@.take(boxes@.len() as int) =~= boxes@);
    }
    Some(total)
}

/// Total value of the change records, or nothing when the sum exceeds
/// `u64::MAX`.
fn change_value_total(change_boxes: &Vec<ErgoBoxAssetsData>) -> (r: Option<u64>)
    ensures
        r matches Some(t) ==> t == sum_change_values(change_boxes@),
        (r is Some) <==> sum_change_values(change_boxes@) <= u64::MAX,
{
    let mut total: u64 = 0;
    let mut i: usize = 0;
    while i < change_boxes.len()
        invariant
            i <= change_boxes@.len(),
            total == sum_change_values(change_boxes@.take(i as int)),
        decreases change_boxes@.len() - i,
    {
        let v = change_box_value(&change_boxes[i]);
        proof {
            assert(change_boxes@.take(i as int + 1).drop_last() =~= change_boxes@.take(i as int));
            assert(change_boxes@.take(i as int + 1).last() == change_boxes@[i as int]);
        }
        match total.checked_add(v) {
            Some(t) => {
                total = t;
            },
            None => {
                proof {
                    lemma_sum_change_values_prefix(change_boxes@, i as int + 1);
                }
                return None;
            },
        }
        i = i + 1;
    }
    proof {
        assert(change_boxes@.take(change_boxes@.len() as int) =~= change_boxes@);
    }
    Some(total)
}

/// Builds the unsigned transaction that mints a reserve for `request`,
/// guarded by `reserve_tree`, funded by `inputs`, under `context`.
///
/// The build succeeds exactly when every step accepts, and each error
/// names the first step that refuses, in the order the steps run: a
/// malformed public key (`Parsing`), an unrepresentable amount
/// (`ValueRange`), an empty selection (`MissingBox`), a candidate the
/// ledger refuses (`BoxConstruction`), an unrepresentable fee
/// (`ValueRange`), a malformed change address (`Address`), an assembly the
/// ledger refuses — too many inputs, an overflowing value sum, or the
/// builder's own rejection (`BoxConstruction`). On success the returned
/// record is proved to describe the requested reserve, so reading it back
/// can never fail, and the transaction is the ledger's assembly of exactly
/// these arguments.
pub fn mint_reserve_transaction(
    request: MintReserveRequest,
    reserve_tree: ErgoTree,
    inputs: InputSelection,
    context: TxContext,
) -> (r: Result<MintReserveResponse, TransactionError>)
    ensures
        r matches Ok(resp) ==> mint_ok(resp, request, reserve_tree, inputs, context),
        (r matches Ok(_)) <==> mint_accepted(request, reserve_tree, inputs, context),
        (r matches Err(e) && e is Parsing) <==> !is_ec_point_hex(request.public_key_hex@),
        (r matches Err(e) && e is ValueRange) <==> ((is_ec_point_hex(request.public_key_hex@)
            && !valid_box_value(request.amount)) || (candidate_stage_ok(
            request,
            reserve_tree,
            inputs,
            context,
        ) && !valid_box_value(context.fee))),
        (r matches Err(e) && e is MissingBox) <==> (is_ec_point_hex(request.public_key_hex@)
            && valid_box_value(request.amount) && inputs.boxes@.len() == 0),
        (r matches Err(e) && e is Address) <==> (candidate_stage_ok(
            request,
            reserve_tree,
            inputs,
            context,
        ) && valid_box_value(context.fee) && !is_network_address(context.change_address@)),
        (r matches Err(e) && e is BoxConstruction) <==> ((is_ec_point_hex(
            request.public_key_hex@,
        ) && valid_box_value(request.amount) && inputs.boxes@.len() > 0 && reserve_candidate(
            request,
            reserve_tree,
            inputs,
            context,
        ) is None) || (candidate_stage_ok(request, reserve_tree, inputs, context)
            && valid_box_value(context.fee) && is_network_address(context.change_address@)
            && !assembly_ok(request, reserve_tree, inputs, context))),
{
    let owner = match parse_ec_point(&request.public_key_hex) {
        Ok(p) => p,
        Err(e) => {
            return Err(TransactionError::Parsing(e));
        },
    };
    if !check_box_value(request.amount) {
        return Err(TransactionError::ValueRange);
    }
    let nft = match reserve_nft(&inputs.boxes) {
        Ok(t) => t,
        Err(e) => {
            return Err(e);
        },
    };
    let candidate = match build_reserve_candidate(
        request.amount,
        &reserve_tree,
        context.current_height,
        &nft,
        &owner,
    ) {
        Ok(c) => c,
        Err(_) => {
            return Err(TransactionError::BoxConstruction);
        },
    };
    if !check_box_value(context.fee) {
        return Err(TransactionError::ValueRange);
    }
    let change_address = match parse_change_address(&context.change_address) {
        Ok(a) => a,
        Err(_) => {
            return Err(TransactionError::Address);
        },
    };
    if inputs.boxes.len() > MAX_TX_INPUTS {
        return Err(TransactionError::BoxConstruction);
    }
    if selection_value_total(&inputs.boxes).is_none() {
        return Err(TransactionError::BoxConstruction);
    }
    let change_total = match change_value_total(&inputs.change_boxes) {
        Some(t) => t,
        None => {
            return Err(TransactionError::BoxConstruction);
        },
    };
    let outputs_less_fee = match request.amount.checked_add(change_total) {
        Some(t) => t,
        None => {
            return Err(TransactionError::BoxConstruction);
        },
    };
    if outputs_less_fee.checked_add(context.fee).is_none() {
        return Err(TransactionError::BoxConstruction);
    }
    let transaction = match assemble_transaction(
        inputs.boxes,
        inputs.change_boxes,
        candidate,
        context.current_height,
        context.fee,
        change_address,
    ) {
        Ok(t) => t,
        Err(_) => {
            return Err(TransactionError::BoxConstruction);
        },
    };
    Ok(MintReserveResponse {
        reserve_box: ReserveBoxSpec {
            owner_key_hex: request.public_key_hex,
            script: reserve_tree,
            value: request.amount,
            nft,
        },
        transaction,
    })
}

/// The minted token's identity is determined by the first consumed input
/// box alone: two successful builds whose selections begin with the same
/// box mint the identical identity, whatever the other arguments and
/// whatever the rest of either selection. In particular, building twice
/// from the same arguments is deterministic in the minted identity.
pub proof fn lemma_minted_identity_deterministic(
    r1: MintReserveResponse,
    q1: MintReserveRequest,
    t1: ErgoTree,
    s1: InputSelection,
    c1: TxContext,
    r2: MintReserveResponse,
    q2: MintReserveRequest,
    t2: ErgoTree,
    s2: InputSelection,
    c2: TxContext,
)
    requires
        mint_ok(r1, q1, t1, s1, c1),
        mint_ok(r2, q2, t2, s2, c2),
        s1.boxes@[0] == s2.boxes@[0],
    ensures
        r1.reserve_box.nft.token_id@ == r2.reserve_box.nft.token_id@,
{
}

/// A build's whole outcome is a function of its arguments: two successful
/// builds from spec-equal arguments return the same transaction, and — as
/// `mint_reserve_transaction` states — whether a build succeeds at all is
/// the predicate `mint_accepted` of the arguments alone.
pub proof fn lemma_mint_deterministic(
    r1: MintReserveResponse,
    r2: MintReserveResponse,
    request: MintReserveRequest,
    reserve_tree: ErgoTree,
    inputs: InputSelection,
    context: TxContext,
)
    requires
        mint_ok(r1, request, reserve_tree, inputs, context),
        mint_ok(r2, request, reserve_tree, inputs, context),
    ensures
        r1.transaction == r2.transaction,
        r1.reserve_box.nft.token_id@ == r2.reserve_box.nft.token_id@,
{
}

} // verus!
