use state_machine::balances;
use state_machine::proof_of_existence;
use state_machine::runtime::{Block, Extrinsic, ExtrinsicFailure, Header, Runtime, RuntimeCall};
use state_machine::support::{Dispatch, DispatchError};

fn transfer(caller: &str, to: &str, amount: u128) -> Extrinsic {
    Extrinsic {
        caller: caller.to_string(),
        call: RuntimeCall::Balances(balances::Call::Transfer { to: to.to_string(), amount }),
    }
}

fn claim(caller: &str, content: &str) -> Extrinsic {
    Extrinsic {
        caller: caller.to_string(),
        call: RuntimeCall::ProofOfExistence(proof_of_existence::Call::CreateClaim {
            claim: content.to_string(),
        }),
    }
}

fn revoke(caller: &str, content: &str) -> Extrinsic {
    Extrinsic {
        caller: caller.to_string(),
        call: RuntimeCall::ProofOfExistence(proof_of_existence::Call::RevokeClaim {
            claim: content.to_string(),
        }),
    }
}

fn funded_runtime() -> Runtime {
    let mut runtime = Runtime::new();
    runtime.balances.set_balance(&"alice".to_string(), 100);
    runtime
}

fn balance(runtime: &Runtime, who: &str) -> u128 {
    runtime.balances.balance(&who.to_string())
}

fn nonce(runtime: &Runtime, who: &str) -> u32 {
    runtime.system.nonce_of(&who.to_string())
}

#[test]
fn block_with_two_transfers() {
    let mut runtime = funded_runtime();
    let block = Block {
        header: Header { block_number: 1 },
        extrinsics: vec![transfer("alice", "bob", 20), transfer("alice", "charlie", 20)],
    };
    assert_eq!(runtime.execute_block(block), Ok(vec![]));
    assert_eq!(balance(&runtime, "alice"), 60);
    assert_eq!(balance(&runtime, "bob"), 20);
    assert_eq!(balance(&runtime, "charlie"), 20);
    assert_eq!(nonce(&runtime, "alice"), 2);
    assert_eq!(runtime.system.get_block_number(), 1);
}

#[test]
fn block_with_failing_transfer_still_succeeds() {
    let mut runtime = funded_runtime();
    let block = Block {
        header: Header { block_number: 1 },
        extrinsics: vec![transfer("alice", "bob", 500)],
    };
    let failures = runtime.execute_block(block).expect("block must succeed");
    assert_eq!(
        failures,
        vec![ExtrinsicFailure {
            block_number: 1,
            index: 0,
            error: DispatchError::InsufficientBalance
        }]
    );
    assert_eq!(nonce(&runtime, "alice"), 1);
    assert_eq!(balance(&runtime, "alice"), 100);
    assert_eq!(balance(&runtime, "bob"), 0);
}

#[test]
fn block_with_wrong_number_is_refused() {
    let mut runtime = funded_runtime();
    let block = Block {
        header: Header { block_number: 5 },
        extrinsics: vec![transfer("alice", "bob", 20)],
    };
    assert_eq!(runtime.execute_block(block), Err(DispatchError::WrongBlockNumber));
    assert_eq!(balance(&runtime, "alice"), 100);
    assert_eq!(balance(&runtime, "bob"), 0);
    assert_eq!(nonce(&runtime, "alice"), 0);
    assert_eq!(runtime.system.nonce.get(&"alice".to_string()), None);
}

#[test]
fn failure_among_successes_is_isolated() {
    let mut runtime = funded_runtime();
    let block = Block {
        header: Header { block_number: 1 },
        extrinsics: vec![
            transfer("alice", "bob", 30),
            transfer("bob", "charlie", 31),
            transfer("bob", "charlie", 10),
            transfer("alice", "charlie", 5),
        ],
    };
    let failures = runtime.execute_block(block).expect("block must succeed");
    assert_eq!(
        failures,
        vec![ExtrinsicFailure {
            block_number: 1,
            index: 1,
            error: DispatchError::InsufficientBalance
        }]
    );
    assert_eq!(balance(&runtime, "alice"), 65);
    assert_eq!(balance(&runtime, "bob"), 20);
    assert_eq!(balance(&runtime, "charlie"), 15);
    assert_eq!(nonce(&runtime, "alice"), 2);
    assert_eq!(nonce(&runtime, "bob"), 2);
    assert_eq!(nonce(&runtime, "charlie"), 0);
}

#[test]
fn blocks_run_in_sequence_with_claims() {
    let mut runtime = funded_runtime();
    let block_1 = Block {
        header: Header { block_number: 1 },
        extrinsics: vec![transfer("alice", "bob", 20), transfer("alice", "charlie", 20)],
    };
    let block_2 = Block {
        header: Header { block_number: 2 },
        extrinsics: vec![claim("alice", "Hello, world!"), claim("bob", "Hello, world!")],
    };
    let block_3 = Block {
        header: Header { block_number: 3 },
        extrinsics: vec![revoke("alice", "Hello, world!"), claim("bob", "Hello, world!")],
    };
    assert_eq!(runtime.execute_block(block_1), Ok(vec![]));
    assert_eq!(
        runtime.execute_block(block_2),
        Ok(vec![ExtrinsicFailure {
            block_number: 2,
            index: 1,
            error: DispatchError::AlreadyClaimed
        }])
    );
    assert_eq!(runtime.execute_block(block_3), Ok(vec![]));
    let content = "Hello, world!".to_string();
    assert_eq!(runtime.proof_of_existence.get_claim(&content), Some(&"bob".to_string()));
    assert_eq!(runtime.system.get_block_number(), 3);
    assert_eq!(nonce(&runtime, "alice"), 4);
    assert_eq!(nonce(&runtime, "bob"), 2);
}

#[test]
fn refused_block_still_advances_counter() {
    let mut runtime = funded_runtime();
    let wrong = Block { header: Header { block_number: 0 }, extrinsics: vec![] };
    assert_eq!(runtime.execute_block(wrong), Err(DispatchError::WrongBlockNumber));
    assert_eq!(runtime.system.get_block_number(), 1);
    let next = Block { header: Header { block_number: 2 }, extrinsics: vec![] };
    assert_eq!(runtime.execute_block(next), Ok(vec![]));
    assert_eq!(runtime.system.get_block_number(), 2);
}

#[test]
fn runtime_dispatch_routes_to_pallet() {
    let mut runtime = funded_runtime();
    assert_eq!(
        runtime.dispatch(
            "alice".to_string(),
            RuntimeCall::Balances(balances::Call::Transfer { to: "bob".to_string(), amount: 40 })
        ),
        Ok(())
    );
    assert_eq!(balance(&runtime, "alice"), 60);
    assert_eq!(balance(&runtime, "bob"), 40);
    assert_eq!(nonce(&runtime, "alice"), 0);
    assert_eq!(
        runtime.dispatch(
            "bob".to_string(),
            RuntimeCall::ProofOfExistence(proof_of_existence::Call::RevokeClaim {
                claim: "x".to_string()
            })
        ),
        Err(DispatchError::NoSuchClaim)
    );
}

#[test]
fn nonce_wraps_past_largest_value() {
    let mut runtime = Runtime::new();
    let alice = "alice".to_string();
    runtime.system.nonce.insert(alice.clone(), u32::MAX);
    let block = Block {
        header: Header { block_number: 1 },
        extrinsics: vec![transfer("alice", "bob", 0)],
    };
    assert_eq!(runtime.execute_block(block), Ok(vec![]));
    assert_eq!(runtime.system.nonce_of(&alice), 0);
}
