//! The concrete types of this runtime.

use vstd::prelude::*;
use crate::runtime::RuntimeCall;

verus! {

/// Identifies an account.
pub type AccountId = String;

/// An amount of funds.
pub type Balance = u128;

/// The number of a block.
pub type BlockNumber = u32;

/// How many extrinsics an account has submitted.
pub type Nonce = u32;

/// An instruction to the runtime on behalf of an account.
pub type Extrinsic = crate::support::Extrinsic<AccountId, RuntimeCall>;

/// The header of a block of this runtime.
pub type Header = crate::support::Header<BlockNumber>;

/// A block of this runtime.
pub type Block = crate::support::Block<Header, Extrinsic>;

} // verus!
