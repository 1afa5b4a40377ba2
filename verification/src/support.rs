//! What the modules and the runtime share: blocks, extrinsics and the result
//! of a dispatched call.

use vstd::prelude::*;

verus! {

/// Why a call or a block was rejected.
#[derive(Debug, Clone, Copy, PartialEq, Eq, Structural)]
pub enum DispatchError {
    /// The source of a transfer holds less than the amount.
    InsufficientFunds,
    /// The destination of a transfer would exceed the range of a balance.
    Overflow,
    /// A block's declared number is not the number that follows the current one.
    InvalidBlockNumber,
}

/// The outcome of a dispatched call.
pub type DispatchResult = Result<(), DispatchError>;

impl DispatchError {
    /// A short description of the failure.
    pub fn message(&self) -> (text: &'static str)
        ensures
            text@ == (match *self {
                DispatchError::InsufficientFunds => "Not enough funds"@,
                DispatchError::Overflow => "Overflow - max fund limit reached"@,
                DispatchError::InvalidBlockNumber => "invalid block number"@,
            }),
    {
        match self {
            DispatchError::InsufficientFunds => "Not enough funds",
            DispatchError::Overflow => "Overflow - max fund limit reached",
            DispatchError::InvalidBlockNumber => "invalid block number",
        }
    }
}

/// The header of a block: the number that the block claims.
#[derive(Debug)]
pub struct Header<BlockNumber> {
    pub block_number: BlockNumber,
}

/// One submitted instruction: who submits it, and what is to be done.
#[derive(Debug)]
pub struct Extrinsic<Caller, Call> {
    pub caller: Caller,
    pub call: Call,
}

/// A header and the extrinsics to apply, in order.
#[derive(Debug)]
pub struct Block<Header, Extrinsic> {
    pub header: Header,
    pub extrinsics: Vec<Extrinsic>,
}

/// Routes a call, made on behalf of a caller, to the operation that handles it.
pub trait Dispatch {
    /// Who a call is made on behalf of.
    type Caller;

    /// The calls that can be routed.
    type Call;

    /// Performs `call` on behalf of `caller`.
    fn dispatch(&mut self, caller: Self::Caller, call: Self::Call) -> DispatchResult;
}

} // verus!
