use ledger_runtime::balances::Call;
use ledger_runtime::runtime::ExtrinsicFailure;
use ledger_runtime::support::{Dispatch, DispatchError};
use ledger_runtime::types::{Block, Extrinsic, Header};
use ledger_runtime::{Runtime, RuntimeCall};

fn transfer(caller: &str, to: &str, amount: u128) -> Extrinsic {
    Extrinsic {
        caller: caller.to_string(),
        call: RuntimeCall::Balances(Call::Transfer { to: to.to_string(), amount }),
    }
}

fn block(number: u32, extrinsics: Vec<Extrinsic>) -> Block {
    Block { header: Header { block_number: number }, extrinsics }
}

#[test]
fn new_runtime_is_empty() {
    let runtime = Runtime::new();
    assert_eq!(runtime.system.block_number(), 0);
    assert_eq!(runtime.system.nonce(&"alice".to_string()), 0);
    assert_eq!(runtime.balances.balance(&"alice".to_string()), 0);
}

#[test]
fn block_with_one_transfer() {
    let mut runtime = Runtime::new();
    let alice = "alice".to_string();
    let bob = "bob".to_string();
    runtime.balances.set_balance(&alice, 100);
    let block_1 = block(1, vec![transfer("alice", "bob", 69)]);
    assert!(runtime.can_execute(&block_1));
    assert_eq!(runtime.execute_block(block_1), Ok(()));
    assert_eq!(runtime.balances.balance(&alice), 31);
    assert_eq!(runtime.balances.balance(&bob), 69);
    assert_eq!(runtime.system.nonce(&alice), 1);
    assert_eq!(runtime.system.nonce(&bob), 0);
    assert_eq!(runtime.system.block_number(), 1);
}

#[test]
fn block_with_wrong_number_is_refused() {
    let mut runtime = Runtime::new();
    let alice = "alice".to_string();
    let bob = "bob".to_string();
    runtime.balances.set_balance(&alice, 100);
    let wrong = block(2, vec![transfer("alice", "bob", 69)]);
    assert!(runtime.can_execute(&wrong));
    assert_eq!(
        runtime.execute_block(wrong),
        Err(DispatchError::InvalidBlockNumber)
    );
    assert_eq!(runtime.balances.balance(&alice), 100);
    assert_eq!(runtime.balances.balance(&bob), 0);
    assert_eq!(runtime.system.nonce(&alice), 0);
    assert_eq!(runtime.system.block_number(), 1);
}

#[test]
fn block_number_zero_is_refused_at_genesis() {
    let mut runtime = Runtime::new();
    assert_eq!(
        runtime.execute_block(block(0, vec![])),
        Err(DispatchError::InvalidBlockNumber)
    );
    assert_eq!(runtime.system.block_number(), 1);
    assert_eq!(runtime.execute_block(block(2, vec![])), Ok(()));
    assert_eq!(runtime.system.block_number(), 2);
}

#[test]
fn rejected_extrinsic_does_not_stop_the_block() {
    let mut runtime = Runtime::new();
    let alice = "alice".to_string();
    let bob = "bob".to_string();
    let carol = "carol".to_string();
    runtime.balances.set_balance(&alice, 100);
    let extrinsics = vec![
        transfer("bob", "carol", 10),
        transfer("alice", "bob", 30),
        transfer("bob", "carol", 10),
        transfer("alice", "carol", 71),
    ];
    assert_eq!(runtime.execute_block(block(1, extrinsics)), Ok(()));
    assert_eq!(runtime.balances.balance(&alice), 70);
    assert_eq!(runtime.balances.balance(&bob), 20);
    assert_eq!(runtime.balances.balance(&carol), 10);
    assert_eq!(runtime.system.nonce(&alice), 2);
    assert_eq!(runtime.system.nonce(&bob), 2);
    assert_eq!(runtime.system.nonce(&carol), 0);
    assert_eq!(runtime.system.block_number(), 1);
}

#[test]
fn rejected_extrinsics_are_reported_in_order() {
    let mut runtime = Runtime::new();
    runtime.balances.set_balance(&"alice".to_string(), 100);
    runtime.balances.set_balance(&"dave".to_string(), u128::MAX);
    let extrinsics = vec![
        transfer("bob", "carol", 10),
        transfer("alice", "bob", 30),
        transfer("alice", "dave", 1),
        transfer("bob", "carol", 31),
    ];
    let failures = runtime.execute_block_reporting(block(1, extrinsics));
    assert_eq!(
        failures,
        Ok(vec![
            ExtrinsicFailure { block_number: 1, index: 0, error: DispatchError::InsufficientFunds },
            ExtrinsicFailure { block_number: 1, index: 2, error: DispatchError::Overflow },
            ExtrinsicFailure { block_number: 1, index: 3, error: DispatchError::InsufficientFunds },
        ])
    );
    assert_eq!(runtime.balances.balance(&"alice".to_string()), 70);
    assert_eq!(runtime.balances.balance(&"bob".to_string()), 30);
    assert_eq!(runtime.balances.balance(&"carol".to_string()), 0);
    assert_eq!(runtime.balances.balance(&"dave".to_string()), u128::MAX);
    assert_eq!(runtime.system.nonce(&"alice".to_string()), 2);
    assert_eq!(runtime.system.nonce(&"bob".to_string()), 2);
}

#[test]
fn refused_block_reports_the_mismatch() {
    let mut runtime = Runtime::new();
    let failures = runtime.execute_block_reporting(block(5, vec![transfer("a", "b", 1)]));
    assert_eq!(failures, Err(DispatchError::InvalidBlockNumber));
    assert_eq!(runtime.system.nonce(&"a".to_string()), 0);
}

#[test]
fn blocks_follow_one_another() {
    let mut runtime = Runtime::new();
    let alice = "alice".to_string();
    let bob = "bob".to_string();
    runtime.balances.set_balance(&alice, 10);
    assert_eq!(runtime.execute_block(block(1, vec![transfer("alice", "bob", 4)])), Ok(()));
    assert_eq!(runtime.execute_block(block(2, vec![transfer("bob", "alice", 1)])), Ok(()));
    assert_eq!(
        runtime.execute_block(block(2, vec![transfer("bob", "alice", 1)])),
        Err(DispatchError::InvalidBlockNumber)
    );
    assert_eq!(runtime.execute_block(block(4, vec![])), Ok(()));
    assert_eq!(runtime.system.block_number(), 4);
    assert_eq!(runtime.balances.balance(&alice), 7);
    assert_eq!(runtime.balances.balance(&bob), 3);
    assert_eq!(runtime.system.nonce(&alice), 1);
    assert_eq!(runtime.system.nonce(&bob), 1);
}

#[test]
fn runtime_dispatch_forwards_to_balances() {
    let mut runtime = Runtime::new();
    let alice = "alice".to_string();
    let bob = "bob".to_string();
    runtime.balances.set_balance(&alice, 5);
    let call = RuntimeCall::Balances(Call::Transfer { to: bob.clone(), amount: 5 });
    assert_eq!(runtime.dispatch(alice.clone(), call), Ok(()));
    assert_eq!(runtime.balances.balance(&alice), 0);
    assert_eq!(runtime.balances.balance(&bob), 5);
    assert_eq!(runtime.system.nonce(&alice), 0);
    let call = RuntimeCall::Balances(Call::Transfer { to: bob.clone(), amount: 1 });
    assert_eq!(
        runtime.dispatch(alice.clone(), call),
        Err(DispatchError::InsufficientFunds)
    );
}
