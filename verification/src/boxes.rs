//! Typed view of a reserve box: the record a caller keeps after the build.

use vstd::prelude::*;

use ergo_lib::ergotree_ir::ergo_tree::ErgoTree;

use crate::ergo::is_ec_point_hex;
use crate::ergo::valid_box_value;

verus! {

/// The token a reserve build mints: an identity (the 32-byte identifier of
/// the input box the mint is anchored to) and an amount.
pub struct MintedToken {
    /// Token identity: the box identifier of the first consumed input.
    pub token_id: Vec<u8>,
    /// Token amount; a reserve NFT carries exactly 1.
    pub amount: u64,
}

impl MintedToken {
    /// NFT shape: a well-formed identity and an amount of exactly one.
    pub open spec fn is_nft(self) -> bool {
        &&& self.token_id@.len() == 32
        &&& self.amount == 1
    }
}

/// The newly built box, read back as a typed reserve record: who owns it,
/// what script guards it, what it holds, and the NFT that marks it.
pub struct ReserveBoxSpec {
    /// Hex encoding of the owner's public key, as the request carried it
    /// and as register R4 of the box stores it in decoded form.
    pub owner_key_hex: String,
    /// The locking script guarding the box.
    pub script: ErgoTree,
    /// Balance of the box in nanoERG.
    pub value: u64,
    /// The reserve NFT minted into the box.
    pub nft: MintedToken,
}

impl ReserveBoxSpec {
    /// A reserve record is well formed when its owner key decodes to a
    /// curve point, its balance is a representable box value, and its
    /// token is an NFT.
    pub open spec fn well_formed(self) -> bool {
        &&& is_ec_point_hex(self.owner_key_hex@)
        &&& valid_box_value(self.value)
        &&& self.nft.is_nft()
    }
}

} // verus!
