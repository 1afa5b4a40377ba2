//! The runtime: the system and balances modules together, and the execution
//! of blocks on them.

use vstd::prelude::*;
use crate::balances::{transfer_outcome, Call};
use crate::support::{Dispatch, DispatchError, DispatchResult};
use crate::system::nonce_in;
use crate::types::{AccountId, Balance, Block, BlockNumber, Extrinsic, Nonce};

verus! {

/// Every call that can be made from outside, by the module that handles it.
#[derive(Debug)]
pub enum RuntimeCall {
    /// A call of the balances module.
    Balances(Call),
}

/// The state of the chain: each module's state.
#[derive(Debug)]
pub struct Runtime {
    pub system: crate::system::Pallet,
    pub balances: crate::balances::Pallet,
}

/// An extrinsic whose call was rejected, and where it stood.
#[derive(Debug, Clone, Copy, PartialEq, Eq, Structural)]
pub struct ExtrinsicFailure {
    /// The number of the block that holds the extrinsic.
    pub block_number: BlockNumber,
    /// The position of the extrinsic in its block, counted from zero.
    pub index: usize,
    /// Why the call was rejected.
    pub error: DispatchError,
}

/// What `call`, made on behalf of `caller`, makes of `balances`.
pub open spec fn call_outcome(
    balances: Map<Seq<char>, Balance>,
    caller: Seq<char>,
    call: RuntimeCall,
) -> Result<Map<Seq<char>, Balance>, DispatchError> {
    match call {
        RuntimeCall::Balances(Call::Transfer { to, amount }) => transfer_outcome(
            balances,
            caller,
            to@,
            amount,
        ),
    }
}

/// The balances after one extrinsic: changed as its call says where the call
/// succeeds, unchanged where it fails.
pub open spec fn balances_after(balances: Map<Seq<char>, Balance>, extrinsic: Extrinsic) -> Map<
    Seq<char>,
    Balance,
> {
    match call_outcome(balances, extrinsic.caller@, extrinsic.call) {
        Ok(after) => after,
        Err(_) => balances,
    }
}

/// The balances after the extrinsics of a block, applied in order.
pub open spec fn balances_after_all(
    balances: Map<Seq<char>, Balance>,
    extrinsics: Seq<Extrinsic>,
) -> Map<Seq<char>, Balance>
    decreases extrinsics.len(),
{
    if extrinsics.len() == 0 {
        balances
    } else {
        balances_after(balances_after_all(balances, extrinsics.drop_last()), extrinsics.last())
    }
}

/// How many of `extrinsics` were submitted by `who`.
pub open spec fn submissions(extrinsics: Seq<Extrinsic>, who: Seq<char>) -> nat
    decreases extrinsics.len(),
{
    if extrinsics.len() == 0 {
        0
    } else {
        let earlier = submissions(extrinsics.drop_last(), who);
        if extrinsics.last().caller@ == who {
            earlier + 1
        } else {
            earlier
        }
    }
}

/// The rejected extrinsics of a block numbered `number`, in order, when the
/// block is applied to `balances`.
pub open spec fn failures_among(
    balances: Map<Seq<char>, Balance>,
    extrinsics: Seq<Extrinsic>,
    number: BlockNumber,
) -> Seq<ExtrinsicFailure>
    decreases extrinsics.len(),
{
    if extrinsics.len() == 0 {
        Seq::empty()
    } else {
        let earlier = extrinsics.drop_last();
        let rejected = failures_among(balances, earlier, number);
        let last = extrinsics.last();
        match call_outcome(balances_after_all(balances, earlier), last.caller@, last.call) {
            Ok(_) => rejected,
            Err(error) => rejected.push(
                ExtrinsicFailure { block_number: number, index: earlier.len() as usize, error },
            ),
        }
    }
}

/// No account's nonce leaves the range of a nonce when `extrinsics` are applied.
pub open spec fn nonces_have_room(
    nonces: Map<Seq<char>, Nonce>,
    extrinsics: Seq<Extrinsic>,
) -> bool {
    forall|who: Seq<char>|
        nonce_in(nonces, who) + #[trigger] submissions(extrinsics, who)
            <= Nonce::MAX
}

/// The first `n + 1` extrinsics are the first `n` and the one at position `n`.
proof fn lemma_take_next(extrinsics: Seq<Extrinsic>, n: int)
    requires
        0 <= n < extrinsics.len(),
    ensures
        extrinsics.take(n + 1).drop_last() == extrinsics.take(n),
        extrinsics.take(n + 1).last() == extrinsics[n],
        extrinsics.take(n + 1).len() == n + 1,
{
    assert(extrinsics.take(n + 1).drop_last() =~= extrinsics.take(n));
}

/// A prefix of a block holds no more submissions of an account than the block.
proof fn lemma_submissions_grow(extrinsics: Seq<Extrinsic>, n: int, who: Seq<char>)
    requires
        0 <= n <= extrinsics.len(),
    ensures
        submissions(extrinsics.take(n), who) <= submissions(extrinsics, who),
    decreases extrinsics.len() - n,
{
    if n == extrinsics.len() {
        assert(extrinsics.take(n) =~= extrinsics);
    } else {
        lemma_take_next(extrinsics, n);
        lemma_submissions_grow(extrinsics, n + 1, who);
    }
}

/// An account that submitted none of `extrinsics` has no submissions among them.
pub proof fn lemma_no_submissions(extrinsics: Seq<Extrinsic>, who: Seq<char>)
    requires
        forall|j: int| 0 <= j < extrinsics.len() ==> (#[trigger] extrinsics[j]).caller@ != who,
    ensures
        submissions(extrinsics, who) == 0,
    decreases extrinsics.len(),
{
    if extrinsics.len() > 0 {
        let earlier = extrinsics.drop_last();
        assert forall|j: int| 0 <= j < earlier.len() implies (#[trigger] earlier[j]).caller@
            != who by {
            assert(earlier[j] == extrinsics[j]);
        }
        lemma_no_submissions(earlier, who);
    }
}

/// Counts the extrinsics that `who` submitted.
fn count_submissions(extrinsics: &Vec<Extrinsic>, who: &AccountId) -> (count: usize)
    ensures
        count == submissions(extrinsics@, who@),
{
    let mut count: usize = 0;
    let mut index: usize = 0;
    while index < extrinsics.len()
        invariant
            index <= extrinsics@.len(),
            count <= index,
            count == submissions(extrinsics@.take(index as int), who@),
        decreases extrinsics@.len() - index,
    {
        proof {
            lemma_take_next(extrinsics@, index as int);
        }
        if extrinsics[index].caller == *who {
            count += 1;
        }
        index += 1;
    }
    proof {
        assert(extrinsics@.take(index as int) =~= extrinsics@);
    }
    count
}

/// A copy of `call`.
fn copy_of_call(call: &RuntimeCall) -> (copy: RuntimeCall)
    ensures
        copy == *call,
{
    match call {
        RuntimeCall::Balances(Call::Transfer { to, amount }) => RuntimeCall::Balances(
            Call::Transfer { to: to.clone(), amount: *amount },
        ),
    }
}

impl Runtime {
    /// The state at genesis: block number zero, no nonce and no balance.
    pub fn new() -> (runtime: Self)
        ensures
            runtime.system.number() == 0,
            runtime.system.nonces() == Map::<Seq<char>, Nonce>::empty(),
            runtime.balances@ == Map::<Seq<char>, Balance>::empty(),
    {
        Self { system: crate::system::Pallet::new(), balances: crate::balances::Pallet::new() }
    }

    /// This state can take `block`: the block number can advance, and, where
    /// the block declares the number that follows, every caller's nonce can
    /// advance once for each of its extrinsics.
    pub open spec fn admits(&self, block: Block) -> bool {
        &&& self.system.number() < BlockNumber::MAX
        &&& block.header.block_number == self.system.number() + 1 ==> nonces_have_room(
            self.system.nonces(),
            block.extrinsics@,
        )
    }

    /// Whether this state can take `block`, so that `execute_block` may be
    /// called with it.
    pub fn can_execute(&self, block: &Block) -> (ok: bool)
        ensures
            ok == self.admits(*block),
    {
        let current = self.system.block_number();
        if current == BlockNumber::MAX {
            return false;
        }
        if block.header.block_number != current + 1 {
            return true;
        }
        let ghost extrinsics = block.extrinsics@;
        let ghost nonces = self.system.nonces();
        let mut index: usize = 0;
        while index < block.extrinsics.len()
            invariant
                index <= extrinsics.len(),
                extrinsics == block.extrinsics@,
                nonces == self.system.nonces(),
                self.system.number() < BlockNumber::MAX,
                block.header.block_number == self.system.number() + 1,
                forall|j: int|
                    0 <= j < index ==> nonce_in(
                        nonces,
                        (#[trigger] extrinsics[j]).caller@,
                    ) + submissions(extrinsics, extrinsics[j].caller@) <= Nonce::MAX,
            decreases extrinsics.len() - index,
        {
            let who = &block.extrinsics[index].caller;
            let count = count_submissions(&block.extrinsics, who);
            let room: Nonce = Nonce::MAX - self.system.nonce(who);
            if count > room as usize {
                assert(nonce_in(nonces, who@) + submissions(extrinsics, who@)
                    > Nonce::MAX);
                return false;
            }
            index += 1;
        }
        proof {
            assert forall|who: Seq<char>|
                nonce_in(nonces, who) + #[trigger] submissions(extrinsics, who)
                    <= Nonce::MAX by {
                if exists|j: int| 0 <= j < extrinsics.len() && (#[trigger] extrinsics[j]).caller@ == who {
                    let j = choose|j: int|
                        0 <= j < extrinsics.len() && (#[trigger] extrinsics[j]).caller@ == who;
                    assert(extrinsics[j].caller@ == who);
                } else {
                    lemma_no_submissions(extrinsics, who);
                }
            }
        }
        true
    }

    /// Executes `block` and returns the extrinsics whose calls were rejected.
    ///
    /// The block number advances first. A block that does not declare the
    /// advanced number is refused, and none of its extrinsics is applied. Each
    /// extrinsic of an accepted block advances its caller's nonce and is then
    /// dispatched; a rejected call changes no balance and does not stop the
    /// block.
    pub fn execute_block_reporting(&mut self, block: Block) -> (result: Result<
        Vec<ExtrinsicFailure>,
        DispatchError,
    >)
        requires
            old(self).admits(block),
        ensures
            final(self).system.number() == old(self).system.number() + 1,
            block.header.block_number != old(self).system.number() + 1 ==> {
                &&& result == Err::<Vec<ExtrinsicFailure>, DispatchError>(
                    DispatchError::InvalidBlockNumber,
                )
                &&& final(self).system.nonces() == old(self).system.nonces()
                &&& final(self).balances@ == old(self).balances@
            },
            block.header.block_number == old(self).system.number() + 1 ==> {
                &&& result.is_ok()
                &&& result.unwrap()@ == failures_among(
                    old(self).balances@,
                    block.extrinsics@,
                    block.header.block_number,
                )
                &&& final(self).balances@ == balances_after_all(
                    old(self).balances@,
                    block.extrinsics@,
                )
                &&& forall|who: Seq<char>|
                    final(self).system.nonce_of(who) == old(self).system.nonce_of(who)
                        + #[trigger] submissions(block.extrinsics@, who)
            },
    {
        self.system.inc_block_number();
        let number = block.header.block_number;
        if number != self.system.block_number() {
            return Err(DispatchError::InvalidBlockNumber);
        }
        let ghost extrinsics = block.extrinsics@;
        let ghost nonces_before = old(self).system.nonces();
        let ghost balances_before = old(self).balances@;
        let mut failures: Vec<ExtrinsicFailure> = Vec::new();
        let mut index: usize = 0;
        while index < block.extrinsics.len()
            invariant
                index <= extrinsics.len(),
                extrinsics == block.extrinsics@,
                number == block.header.block_number,
                nonces_have_room(nonces_before, extrinsics),
                self.system.number() == number,
                self.balances@ == balances_after_all(balances_before, extrinsics.take(index as int)),
                failures@ == failures_among(balances_before, extrinsics.take(index as int), number),
                forall|who: Seq<char>|
                    self.system.nonce_of(who) == nonce_in(nonces_before, who)
                        + #[trigger] submissions(extrinsics.take(index as int), who),
            decreases extrinsics.len() - index,
        {
            let extrinsic = &block.extrinsics[index];
            let ghost earlier = extrinsics.take(index as int);
            let ghost nonces_earlier = self.system.nonces();
            proof {
                let caller = extrinsic.caller@;
                lemma_take_next(extrinsics, index as int);
                lemma_submissions_grow(extrinsics, index as int + 1, caller);
                assert(submissions(extrinsics.take(index as int + 1), caller) == submissions(
                    earlier,
                    caller,
                ) + 1);
                assert(nonce_in(nonces_before, caller) + submissions(
                    extrinsics,
                    caller,
                ) <= Nonce::MAX);
            }
            self.system.inc_nonce(&extrinsic.caller);
            proof {
                assert forall|who: Seq<char>|
                    self.system.nonce_of(who) == nonce_in(nonces_before, who)
                        + #[trigger] submissions(extrinsics.take(index as int + 1), who) by {
                    assert(nonce_in(nonces_earlier, who) == nonce_in(
                        nonces_before,
                        who,
                    ) + submissions(earlier, who));
                }
            }
            let outcome = self.dispatch(extrinsic.caller.clone(), copy_of_call(&extrinsic.call));
            match outcome {
                Ok(()) => {},
                Err(error) => {
                    failures.push(ExtrinsicFailure { block_number: number, index, error });
                },
            }
            index += 1;
        }
        proof {
            assert(extrinsics.take(index as int) =~= extrinsics);
        }
        Ok(failures)
    }

    /// Executes `block`.
    ///
    /// As `execute_block_reporting`, without the account of rejected calls.
    pub fn execute_block(&mut self, block: Block) -> (result: DispatchResult)
        requires
            old(self).admits(block),
        ensures
            final(self).system.number() == old(self).system.number() + 1,
            block.header.block_number != old(self).system.number() + 1 ==> {
                &&& result == Err::<(), DispatchError>(DispatchError::InvalidBlockNumber)
                &&& final(self).system.nonces() == old(self).system.nonces()
                &&& final(self).balances@ == old(self).balances@
            },
            block.header.block_number == old(self).system.number() + 1 ==> {
                &&& result == Ok::<(), DispatchError>(())
                &&& final(self).balances@ == balances_after_all(
                    old(self).balances@,
                    block.extrinsics@,
                )
                &&& forall|who: Seq<char>|
                    final(self).system.nonce_of(who) == old(self).system.nonce_of(who)
                        + #[trigger] submissions(block.extrinsics@, who)
            },
    {
        match self.execute_block_reporting(block) {
            Ok(_) => Ok(()),
            Err(error) => Err(error),
        }
    }
}

impl Dispatch for Runtime {
    type Caller = AccountId;

    type Call = RuntimeCall;

    /// Routes `runtime_call` to the module that handles it.
    fn dispatch(&mut self, caller: AccountId, runtime_call: RuntimeCall) -> (result:
        DispatchResult)
        ensures
            final(self).system == old(self).system,
            match call_outcome(old(self).balances@, caller@, runtime_call) {
                Ok(after) => result == Ok::<(), DispatchError>(()) && final(self).balances@
                    == after,
                Err(e) => result == Err::<(), DispatchError>(e) && final(self).balances@ == old(
                    self,
                ).balances@,
            },
    {
        match runtime_call {
            RuntimeCall::Balances(call) => self.balances.dispatch(caller, call),
        }
    }
}

} // verus!
