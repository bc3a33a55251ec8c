use evm_engine::types::bytes_to_hex;
use evm_engine::{Stack, Wei, U256};

#[test]
fn types_test_hex() {
    assert_eq!(
        bytes_to_hex(&[0u8, 1u8, 255u8, 16u8]),
        "0001ff10".to_string()
    );
}

#[test]
fn mod_test_hex() {
    assert_eq!(
        bytes_to_hex(&[0u8, 1u8, 255u8, 16u8]),
        "0001ff10".to_string()
    );
}

/// Build view of the stack. Intervals between None values are scopes.
fn view_stack(stack: &Stack<i32>) -> Vec<Option<i32>> {
    let mut res = vec![];
    let mut pnt = 0;

    for &pos in stack.boundary_indices().iter() {
        while pnt < pos {
            res.push(Some(stack.elements()[pnt]));
            pnt += 1;
        }
        res.push(None);
    }

    while pnt < stack.elements().len() {
        res.push(Some(stack.elements()[pnt]));
        pnt += 1;
    }

    res
}

fn check_stack(stack: &Stack<i32>, expected: Vec<Option<i32>>) {
    if let Some(&last) = stack.boundary_indices().last() {
        assert!(last <= stack.elements().len());
    }
    assert_eq!(view_stack(stack), expected);
}

fn run_stack_scenario() {
    let mut stack = Stack::new(); // [ $ ]
    check_stack(&stack, vec![None]);

    stack.push(1); // [ $, 1]
    check_stack(&stack, vec![None, Some(1)]);
    stack.push(2); // [ $, 1, 2 ]
    check_stack(&stack, vec![None, Some(1), Some(2)]);
    stack.enter(); // [$, 1, 2, $]
    check_stack(&stack, vec![None, Some(1), Some(2), None]);
    stack.push(3); // [$, 1, 2, $, 3]
    check_stack(&stack, vec![None, Some(1), Some(2), None, Some(3)]);
    stack.discard(); // [$, 1, 2]
    check_stack(&stack, vec![None, Some(1), Some(2)]);
    stack.enter();
    check_stack(&stack, vec![None, Some(1), Some(2), None]);
    stack.push(4); // [$, 1, 2, $, 4]
    check_stack(&stack, vec![None, Some(1), Some(2), None, Some(4)]);
    stack.enter(); // [$, 1, 2, $, 4, $]
    check_stack(&stack, vec![None, Some(1), Some(2), None, Some(4), None]);
    stack.push(5); // [$, 1, 2, $, 4, $, 5]
    check_stack(
        &stack,
        vec![None, Some(1), Some(2), None, Some(4), None, Some(5)],
    );
    stack.commit(); // [$, 1, 2, $, 4, 5]
    check_stack(&stack, vec![None, Some(1), Some(2), None, Some(4), Some(5)]);
    stack.discard(); // [$, 1, 2]
    check_stack(&stack, vec![None, Some(1), Some(2)]);
    stack.push(6); // [$, 1, 2, 6]
    check_stack(&stack, vec![None, Some(1), Some(2), Some(6)]);
    stack.enter(); // [$, 1, 2, 6, $]
    check_stack(&stack, vec![None, Some(1), Some(2), Some(6), None]);
    stack.enter(); // [$, 1, 2, 6, $, $]
    check_stack(&stack, vec![None, Some(1), Some(2), Some(6), None, None]);
    stack.enter(); // [$, 1, 2, 6, $, $, $]
    check_stack(
        &stack,
        vec![None, Some(1), Some(2), Some(6), None, None, None],
    );
    stack.commit(); // [$, 1, 2, 6, $, $]
    check_stack(&stack, vec![None, Some(1), Some(2), Some(6), None, None]);
    stack.discard(); // [$, 1, 2, 6, $]
    check_stack(&stack, vec![None, Some(1), Some(2), Some(6), None]);
    stack.push(7); // [$, 1, 2, 6, $, 7]

    assert_eq!(stack.into_vec(), vec![1, 2, 6, 7]);
}

#[test]
fn types_test_stack() {
    run_stack_scenario();
}

#[test]
fn mod_test_stack() {
    run_stack_scenario();
}

#[test]
fn test_wei_from_u64() {
    let x: u64 = rand::random();
    assert_eq!(Wei::new_u64(x).raw().as_u64(), x);
}

#[test]
fn test_wei_from_eth() {
    let eth_amount: u64 = rand::random();
    let wei_amount = U256::from_u64(eth_amount)
        .checked_mul_u64(1_000_000_000_000_000_000)
        .unwrap();
    assert_eq!(
        Wei::from_eth(U256::from_u64(eth_amount)),
        Some(Wei::new(wei_amount))
    );
}
