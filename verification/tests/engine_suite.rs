use evm_engine::dispatch::{parse_method, EngineMethod};
use evm_engine::engine::{
    address_from_hash, apply_subcall_outcome, bytes_eq, chain_id_matches, eip155_chain_id,
    init_engine_state, receiver_from_bytes, require_owner_only, route_meta_call, route_raw_call,
    transfer_balances, DecodedTransaction, EngineError, EngineState, RawCallAction,
};
use evm_engine::exit::{
    process_exit_reason, ExitError, ExitFatal, ExitReason, ExitRevert, ExitSucceed, HostSignal,
};
use evm_engine::params::{
    decode_function_call_args, decode_get_storage_at_args, decode_new_call_args,
    decode_view_call_args, encode_new_call_args, NewCallArgs,
};
use evm_engine::precompiles::{dispatch_precompile, Precompile, PrecompileOutcome};
use evm_engine::types::{
    str_from_slice, validate_eth_address, AddressValidationError, InternalMetaCallArgs,
    ValidationError,
};
use evm_engine::upgrade::UpgradeSlot;
use evm_engine::{Stack, Wei, U256};

fn state(owner: &str, chain_id_byte: u8, delay: u64) -> EngineState {
    let mut chain_id = [0u8; 32];
    chain_id[31] = chain_id_byte;
    EngineState {
        chain_id,
        owner_id: owner.as_bytes().to_vec(),
        bridge_prover_id: b"prover".to_vec(),
        upgrade_delay_blocks: delay,
    }
}

#[test]
fn stack_commit_preserves_discard_erases() {
    let mut s: Stack<i32> = Stack::new();
    s.push(1);
    s.push(2);
    s.enter();
    s.push(3);
    s.discard();
    assert_eq!(s.elements().clone(), vec![1, 2]);

    let mut s: Stack<i32> = Stack::new();
    s.push(1);
    s.push(2);
    s.enter();
    s.push(3);
    s.commit();
    assert_eq!(s.into_vec(), vec![1, 2, 3]);
}

#[test]
fn stack_nested_scopes_compose() {
    let mut s: Stack<i32> = Stack::new();
    s.push(1);
    s.push(2);
    s.enter();
    s.push(3);
    s.discard();
    s.enter();
    s.push(4);
    s.enter();
    s.push(5);
    s.commit();
    s.discard();
    assert_eq!(s.into_vec(), vec![1, 2]);
}

#[test]
fn fatal_unwind_discards_every_open_scope() {
    let mut s: Stack<i32> = Stack::new();
    s.push(1);
    s.enter();
    s.push(2);
    s.enter();
    s.push(3);
    s.discard_all();
    assert!(s.boundary_indices().is_empty());
    assert!(s.elements().is_empty());
}

#[test]
fn validation_error_messages() {
    assert_eq!(
        ValidationError::EthAddressFailedDecode.as_ref(),
        "FAILED_DECODE_ETH_ADDRESS"
    );
    assert_eq!(ValidationError::WrongEthAddress.as_ref(), "WRONG_ETH_ADDRESS");
}

#[test]
fn wei_u64_round_trip_exact() {
    assert_eq!(Wei::new_u64(12345).raw().as_u64(), 12345);
    assert_eq!(Wei::new_u64(u64::MAX).raw(), U256::from_u64(u64::MAX));
    assert_eq!(Wei::zero().raw(), U256::zero());
    assert!(Wei::zero().is_zero());
    assert!(!Wei::new_u64(1).is_zero());
}

#[test]
fn wei_from_eth_exact() {
    let one_eth = Wei::from_eth(U256::from_u64(1)).unwrap();
    assert_eq!(one_eth, Wei::new_u64(1_000_000_000_000_000_000));
    let three_eth = Wei::from_eth(U256::from_u64(3)).unwrap();
    assert_eq!(three_eth, Wei::new_u64(3_000_000_000_000_000_000));
}

#[test]
fn wei_checked_sub_never_wraps() {
    assert_eq!(Wei::new_u64(1).checked_sub(Wei::new_u64(2)), None);
    assert_eq!(
        Wei::new_u64(5).checked_sub(Wei::new_u64(3)),
        Some(Wei::new_u64(2))
    );
}

#[test]
fn u256_checked_arithmetic_overflow() {
    // (2^64 - 1)^4 still fits in 256 bits; doubling it does not.
    let m = u64::MAX;
    let big = U256::from_u64(m)
        .checked_mul_u64(m)
        .unwrap()
        .checked_mul_u64(m)
        .unwrap()
        .checked_mul_u64(m)
        .unwrap();
    assert_eq!(big.checked_mul_u64(2), None);
    assert_eq!(big.checked_add(big), None);
    assert_eq!(big.checked_sub(big), Some(U256::zero()));
}

#[test]
fn u256_to_bytes_big_endian() {
    let v = U256::from_u64(0x0102);
    let bytes = evm_engine::u256::u256_to_arr(&v);
    let mut expected = [0u8; 32];
    expected[30] = 1;
    expected[31] = 2;
    assert_eq!(bytes, expected);
    assert_eq!(Wei::new(v).to_bytes(), expected);
}

#[test]
fn hex_of_empty_is_empty() {
    assert_eq!(evm_engine::types::bytes_to_hex(&[]), String::new());
}

#[test]
fn validate_eth_address_cases() {
    let mut hex40 = String::new();
    for _ in 0..39 {
        hex40.push('0');
    }
    hex40.push('1');
    let ok = validate_eth_address(hex40).unwrap();
    let mut expected = [0u8; 20];
    expected[19] = 1;
    assert_eq!(ok, expected);

    assert_eq!(
        validate_eth_address("abc".to_string()),
        Err(AddressValidationError::FailedDecodeHex)
    );
    assert_eq!(
        validate_eth_address("zz".to_string()),
        Err(AddressValidationError::FailedDecodeHex)
    );
    assert_eq!(
        validate_eth_address("0011".to_string()),
        Err(AddressValidationError::IncorrectLength)
    );
    assert_eq!(
        AddressValidationError::FailedDecodeHex.as_ref(),
        "FAILED_DECODE_ETH_ADDRESS"
    );
}

#[test]
fn str_from_slice_round_trip() {
    assert_eq!(str_from_slice(b"alice.near"), "alice.near");
}

#[test]
fn exit_kinds_all_map_to_nonempty_stable_strings() {
    let errors = vec![
        (ExitError::StackUnderflow, "StackUnderflow"),
        (ExitError::StackOverflow, "StackOverflow"),
        (ExitError::InvalidJump, "InvalidJump"),
        (ExitError::InvalidRange, "InvalidRange"),
        (ExitError::DesignatedInvalid, "DesignatedInvalid"),
        (ExitError::CallTooDeep, "CallTooDeep"),
        (ExitError::CreateCollision, "CreateCollision"),
        (ExitError::CreateContractLimit, "CreateContractLimit"),
        (ExitError::OutOfOffset, "OutOfOffset"),
        (ExitError::OutOfGas, "OutOfGas"),
        (ExitError::OutOfFund, "OutOfFund"),
        (ExitError::PCUnderflow, "PCUnderflow"),
        (ExitError::CreateEmpty, "CreateEmpty"),
        (ExitError::Other("boom".to_string()), "Other"),
    ];
    for (e, expected) in errors {
        assert_eq!(e.to_str(), expected);
        assert!(!e.to_str().is_empty());
    }
    let fatals = vec![
        (ExitFatal::NotSupported, "NotSupported"),
        (ExitFatal::UnhandledInterrupt, "UnhandledInterrupt"),
        (
            ExitFatal::CallErrorAsFatal(ExitError::OutOfGas),
            "CallErrorAsFatal",
        ),
        (ExitFatal::Other("boom".to_string()), "Other"),
    ];
    for (f, expected) in fatals {
        assert_eq!(f.to_str(), expected);
        assert!(!f.to_str().is_empty());
    }
}

#[test]
fn process_exit_reason_translation() {
    let payload = vec![1u8, 2, 3];
    assert_eq!(
        process_exit_reason(ExitReason::Succeed(ExitSucceed::Returned), &payload),
        HostSignal::Output(vec![1, 2, 3])
    );
    assert_eq!(
        process_exit_reason(ExitReason::Revert(ExitRevert::Reverted), &payload),
        HostSignal::Revert(vec![1, 2, 3])
    );
    assert_eq!(
        process_exit_reason(ExitReason::Error(ExitError::OutOfGas), &payload),
        HostSignal::Fail("OutOfGas")
    );
    assert_eq!(
        process_exit_reason(
            ExitReason::Fatal(ExitFatal::NotSupported),
            &payload
        ),
        HostSignal::Fail("NotSupported")
    );
}

#[test]
fn decode_new_call_args_round_trip() {
    let mut input = Vec::new();
    let mut chain_id = [0u8; 32];
    chain_id[31] = 7;
    input.extend_from_slice(&chain_id);
    input.extend_from_slice(&3u32.to_le_bytes());
    input.extend_from_slice(b"own");
    input.extend_from_slice(&2u32.to_le_bytes());
    input.extend_from_slice(b"pr");
    input.extend_from_slice(&10u64.to_le_bytes());

    let args = decode_new_call_args(&input).unwrap();
    assert_eq!(args.chain_id, chain_id);
    assert_eq!(args.owner_id, b"own".to_vec());
    assert_eq!(args.bridge_prover_id, b"pr".to_vec());
    assert_eq!(args.upgrade_delay_blocks, 10);

    // A trailing byte makes the encoding invalid.
    input.push(0);
    assert!(decode_new_call_args(&input).is_none());
    assert!(decode_new_call_args(&[]).is_none());
}

#[test]
fn new_call_args_encode_decode_round_trip() {
    let mut chain_id = [0u8; 32];
    chain_id[31] = 9;
    let args = NewCallArgs {
        chain_id,
        owner_id: b"alice.near".to_vec(),
        bridge_prover_id: b"prover.near".to_vec(),
        upgrade_delay_blocks: 17,
    };
    let encoded = encode_new_call_args(&args);
    let decoded = decode_new_call_args(&encoded).unwrap();
    assert_eq!(decoded.chain_id, chain_id);
    assert_eq!(decoded.owner_id, b"alice.near".to_vec());
    assert_eq!(decoded.bridge_prover_id, b"prover.near".to_vec());
    assert_eq!(decoded.upgrade_delay_blocks, 17);
}

#[test]
fn decode_function_call_args_exact() {
    let mut input = Vec::new();
    input.extend_from_slice(&[9u8; 20]);
    input.extend_from_slice(&3u32.to_le_bytes());
    input.extend_from_slice(b"abc");
    let args = decode_function_call_args(&input).unwrap();
    assert_eq!(args.contract, [9u8; 20]);
    assert_eq!(args.input, b"abc".to_vec());

    input.pop();
    assert!(decode_function_call_args(&input).is_none());
}

#[test]
fn decode_view_call_args_exact() {
    let mut input = Vec::new();
    input.extend_from_slice(&[1u8; 20]);
    input.extend_from_slice(&[2u8; 20]);
    input.extend_from_slice(&[3u8; 32]);
    input.extend_from_slice(&1u32.to_le_bytes());
    input.push(0xaa);
    let args = decode_view_call_args(&input).unwrap();
    assert_eq!(args.sender, [1u8; 20]);
    assert_eq!(args.address, [2u8; 20]);
    assert_eq!(args.amount, [3u8; 32]);
    assert_eq!(args.input, vec![0xaa]);
}

#[test]
fn decode_get_storage_at_args_exact() {
    let mut input = Vec::new();
    input.extend_from_slice(&[4u8; 20]);
    input.extend_from_slice(&[5u8; 32]);
    let args = decode_get_storage_at_args(&input).unwrap();
    assert_eq!(args.address, [4u8; 20]);
    assert_eq!(args.key, [5u8; 32]);
    assert!(decode_get_storage_at_args(&input[..51]).is_none());
}

#[test]
fn owner_gate() {
    let st = state("alice.near", 1, 0);
    assert!(require_owner_only(&st, b"alice.near").is_ok());
    assert_eq!(
        require_owner_only(&st, b"mallory.near"),
        Err(EngineError::NotAllowed)
    );
    assert!(bytes_eq(b"abc", b"abc"));
    assert!(!bytes_eq(b"abc", b"abd"));
    assert!(!bytes_eq(b"abc", b"ab"));
}

#[test]
fn init_engine_state_gates_and_parses() {
    let st = state("alice.near", 1, 0);
    // A configured owner refuses other callers before looking at the input.
    assert!(matches!(
        init_engine_state(Some(&st), b"mallory.near", None),
        Err(EngineError::NotAllowed)
    ));
    // Uninitialized: anyone may set state, but the input must parse.
    assert!(matches!(
        init_engine_state(None, b"anyone", None),
        Err(EngineError::ArgParse)
    ));
    let mut input = Vec::new();
    input.extend_from_slice(&[0u8; 32]);
    input.extend_from_slice(&3u32.to_le_bytes());
    input.extend_from_slice(b"own");
    input.extend_from_slice(&2u32.to_le_bytes());
    input.extend_from_slice(b"pr");
    input.extend_from_slice(&5u64.to_le_bytes());
    let parsed = decode_new_call_args(&input);
    let new_state = init_engine_state(None, b"anyone", parsed).unwrap();
    assert_eq!(new_state.owner_id, b"own".to_vec());
    assert_eq!(new_state.upgrade_delay_blocks, 5);
}

fn transaction(
    chain_id: Option<u64>,
    sender: Option<[u8; 20]>,
    to: Option<[u8; 20]>,
    data: Vec<u8>,
) -> DecodedTransaction {
    DecodedTransaction {
        nonce: 0,
        gas_price: Wei::zero(),
        gas_limit: 0,
        to,
        value: Wei::new_u64(42),
        data,
        chain_id,
        sender,
    }
}

#[test]
fn raw_call_routing() {
    let st = state("alice.near", 1, 0);
    let sender = [7u8; 20];
    let receiver = [8u8; 20];

    // Wrong chain id is refused before anything else.
    let r = route_raw_call(&st, transaction(Some(2), Some(sender), Some(receiver), vec![]));
    assert!(matches!(r, Err(EngineError::InvalidChainId)));

    // Unrecoverable sender is an invalid signature.
    let r = route_raw_call(&st, transaction(Some(1), None, Some(receiver), vec![]));
    assert!(matches!(r, Err(EngineError::InvalidEcdsaSignature)));

    // Receiver plus empty payload: a balance transfer.
    let r = route_raw_call(&st, transaction(Some(1), Some(sender), Some(receiver), vec![]));
    match r.unwrap() {
        RawCallAction::Transfer { sender: s, receiver: t, value } => {
            assert_eq!(s, sender);
            assert_eq!(t, receiver);
            assert_eq!(value, Wei::new_u64(42));
        }
        _ => panic!("expected a transfer"),
    }

    // Receiver plus payload: a contract call.
    let r = route_raw_call(&st, transaction(None, Some(sender), Some(receiver), vec![1, 2]));
    match r.unwrap() {
        RawCallAction::Call { input, .. } => assert_eq!(input, vec![1, 2]),
        _ => panic!("expected a call"),
    }

    // No receiver: a deployment.
    let r = route_raw_call(&st, transaction(Some(1), Some(sender), None, vec![3]));
    match r.unwrap() {
        RawCallAction::Deploy { code, .. } => assert_eq!(code, vec![3]),
        _ => panic!("expected a deployment"),
    }
}

#[test]
fn meta_call_routes_to_call() {
    let args = InternalMetaCallArgs {
        sender: [1u8; 20],
        nonce: U256::zero(),
        fee_amount: Wei::zero(),
        fee_address: [0u8; 20],
        contract_address: [2u8; 20],
        value: Wei::new_u64(9),
        input: vec![5, 6],
    };
    match route_meta_call(args) {
        RawCallAction::Call { sender, receiver, value, input } => {
            assert_eq!(sender, [1u8; 20]);
            assert_eq!(receiver, [2u8; 20]);
            assert_eq!(value, Wei::new_u64(9));
            assert_eq!(input, vec![5, 6]);
        }
        _ => panic!("expected a call"),
    }
}

#[test]
fn chain_id_compare() {
    let mut chain_id = [0u8; 32];
    chain_id[31] = 1;
    assert!(chain_id_matches(&chain_id, 1));
    assert!(!chain_id_matches(&chain_id, 2));
    chain_id[0] = 1;
    assert!(!chain_id_matches(&chain_id, 1));
}

#[test]
fn transfer_balances_checked() {
    let r = transfer_balances(Wei::new_u64(10), Wei::new_u64(5), Wei::new_u64(4)).unwrap();
    assert_eq!(r.0, Wei::new_u64(6));
    assert_eq!(r.1, Wei::new_u64(9));
    assert_eq!(
        transfer_balances(Wei::new_u64(3), Wei::zero(), Wei::new_u64(4)),
        Err(ExitError::OutOfFund)
    );
}

#[test]
fn subcall_outcome_scope_protocol() {
    let mut s: Stack<i32> = Stack::new();
    s.push(1);
    s.enter();
    s.push(2);
    apply_subcall_outcome(&mut s, &ExitReason::Succeed(ExitSucceed::Stopped));
    assert_eq!(s.elements().clone(), vec![1, 2]);

    s.enter();
    s.push(3);
    apply_subcall_outcome(&mut s, &ExitReason::Error(ExitError::OutOfGas));
    assert_eq!(s.into_vec(), vec![1, 2]);
}

#[test]
fn address_from_hash_takes_last_twenty_bytes() {
    let mut hash = [0u8; 32];
    for (i, b) in hash.iter_mut().enumerate() {
        *b = i as u8;
    }
    let addr = address_from_hash(&hash);
    let mut expected = [0u8; 20];
    for (i, b) in expected.iter_mut().enumerate() {
        *b = (i + 12) as u8;
    }
    assert_eq!(addr, expected);
}

#[test]
fn engine_error_messages() {
    assert_eq!(EngineError::ArgParse.message(), "ERR_ARG_PARSE");
    assert_eq!(EngineError::NotAllowed.message(), "ERR_NOT_ALLOWED");
    assert_eq!(EngineError::TooEarly.message(), "ERR_NOT_ALLOWED:TOO_EARLY");
    assert_eq!(EngineError::NoUpgrade.message(), "ERR_NO_UPGRADE");
    assert_eq!(EngineError::InvalidTx.message(), "ERR_INVALID_TX");
    assert_eq!(EngineError::InvalidChainId.message(), "ERR_INVALID_CHAIN_ID");
    assert_eq!(
        EngineError::InvalidEcdsaSignature.message(),
        "ERR_INVALID_ECDSA_SIGNATURE"
    );
    assert_eq!(EngineError::MetaTxParse.message(), "ERR_META_TX_PARSE");
}

#[test]
fn upgrade_delay_enforced_and_deploys_once() {
    let st = state("alice.near", 1, 5);
    let mut slot = UpgradeSlot::empty();

    // Nothing staged yet.
    assert_eq!(
        slot.deploy_upgrade(&st, b"alice.near", 100),
        Err(EngineError::NoUpgrade)
    );
    assert_eq!(slot.get_upgrade_index(&st), Err(EngineError::NoUpgrade));

    // Only the owner stages.
    assert_eq!(
        slot.stage_upgrade(&st, b"mallory.near", vec![1, 2], 10),
        Err(EngineError::NotAllowed)
    );
    slot.stage_upgrade(&st, b"alice.near", vec![1, 2], 10).unwrap();
    assert_eq!(slot.get_upgrade_index(&st), Ok(15));

    // Only the owner deploys, even past the delay; the record survives.
    assert_eq!(
        slot.deploy_upgrade(&st, b"mallory.near", 100),
        Err(EngineError::NotAllowed)
    );
    assert_eq!(slot.get_upgrade_index(&st), Ok(15));

    // Every attempt up to and including block 15 is refused and leaves the
    // staged record untouched.
    for block in [10, 12, 15] {
        assert_eq!(
            slot.deploy_upgrade(&st, b"alice.near", block),
            Err(EngineError::TooEarly)
        );
        assert_eq!(slot.get_upgrade_index(&st), Ok(15));
    }

    // One block past the delay it succeeds exactly once.
    assert_eq!(slot.deploy_upgrade(&st, b"alice.near", 16), Ok(vec![1, 2]));
    assert_eq!(
        slot.deploy_upgrade(&st, b"alice.near", 16),
        Err(EngineError::NoUpgrade)
    );
}

#[test]
fn eip155_chain_id_extraction() {
    assert_eq!(eip155_chain_id(27), Ok(None));
    assert_eq!(eip155_chain_id(28), Ok(None));
    assert_eq!(eip155_chain_id(35), Ok(Some(0)));
    assert_eq!(eip155_chain_id(37), Ok(Some(1)));
    assert_eq!(eip155_chain_id(38), Ok(Some(1)));
    assert_eq!(eip155_chain_id(30), Err(EngineError::InvalidTx));
}

#[test]
fn receiver_field_rule() {
    assert_eq!(receiver_from_bytes(&[]), Ok(None));
    assert_eq!(receiver_from_bytes(&[7u8; 20]), Ok(Some([7u8; 20])));
    assert_eq!(receiver_from_bytes(&[7u8; 5]), Err(EngineError::InvalidTx));
    assert_eq!(receiver_from_bytes(&[7u8; 21]), Err(EngineError::InvalidTx));
}

#[test]
fn precompile_addresses() {
    let identity_addr = Precompile::Identity.address();
    let mut expected = [0u8; 20];
    expected[19] = 4;
    assert_eq!(identity_addr, expected);
    assert_eq!(Precompile::from_address(&expected), Some(Precompile::Identity));
    expected[19] = 10;
    assert_eq!(Precompile::from_address(&expected), None);
    expected[0] = 1;
    expected[19] = 4;
    assert_eq!(Precompile::from_address(&expected), None);
}

#[test]
fn precompile_gas_gate_refuses_before_running() {
    // Identity on four bytes costs 15 + 3 = 18.
    let r = dispatch_precompile(Precompile::Identity, vec![1, 2, 3, 4], 17);
    assert!(matches!(r, PrecompileOutcome::Refuse(ExitError::OutOfGas)));

    let r = dispatch_precompile(Precompile::Identity, vec![1, 2, 3, 4], 18);
    match r {
        PrecompileOutcome::Done(output, gas) => {
            assert_eq!(output, vec![1, 2, 3, 4]);
            assert_eq!(gas, 18);
        }
        _ => panic!("expected the identity result"),
    }

    // Hashing 33 bytes needs two words: 60 + 24 = 84.
    let r = dispatch_precompile(Precompile::Sha256, vec![0; 33], 83);
    assert!(matches!(r, PrecompileOutcome::Refuse(ExitError::OutOfGas)));
    let r = dispatch_precompile(Precompile::Sha256, vec![0; 33], 84);
    match r {
        PrecompileOutcome::Run(call) => {
            assert_eq!(call.op, Precompile::Sha256);
            assert_eq!(call.gas_cost, 84);
        }
        _ => panic!("expected a native request"),
    }

    // Signature recovery costs a flat 3000.
    let r = dispatch_precompile(Precompile::EcRecover, vec![0; 128], 2999);
    assert!(matches!(r, PrecompileOutcome::Refuse(ExitError::OutOfGas)));

    // The compression function demands its exact input size.
    let r = dispatch_precompile(Precompile::Blake2F, vec![0; 212], 1_000_000);
    match r {
        PrecompileOutcome::Refuse(ExitError::Other(m)) => {
            assert_eq!(m, "ERR_PRECOMPILE_INVALID_INPUT_LENGTH");
        }
        _ => panic!("expected the validation refusal"),
    }
}

#[test]
fn precompile_modexp_cost() {
    // base_len = exp_len = mod_len = 32, exponent 2^255-ish: full head.
    let mut input = Vec::new();
    let mut len_word = [0u8; 32];
    len_word[31] = 32;
    input.extend_from_slice(&len_word); // base_len
    input.extend_from_slice(&len_word); // exp_len
    input.extend_from_slice(&len_word); // mod_len
    input.extend_from_slice(&[0u8; 32]); // base
    let mut exp = [0u8; 32];
    exp[0] = 0x80; // bit length 256, adjusted 255
    input.extend_from_slice(&exp);
    input.extend_from_slice(&[0u8; 32]); // modulus
    // cost = 32*32 * 255 / 20 = 13056
    let r = dispatch_precompile(Precompile::ModExp, input.clone(), 13055);
    assert!(matches!(r, PrecompileOutcome::Refuse(ExitError::OutOfGas)));
    let r = dispatch_precompile(Precompile::ModExp, input, 13056);
    match r {
        PrecompileOutcome::Run(call) => assert_eq!(call.gas_cost, 13056),
        _ => panic!("expected a native request"),
    }
}

#[test]
fn dispatch_table() {
    assert_eq!(parse_method("new"), Some(EngineMethod::New));
    assert_eq!(parse_method("raw_call"), Some(EngineMethod::RawCall));
    assert_eq!(parse_method("get_storage_at"), Some(EngineMethod::GetStorageAt));
    assert_eq!(parse_method("ft_on_transfer"), Some(EngineMethod::FtOnTransfer))
    ;
    assert_eq!(parse_method("no_such_method"), None);
    assert_eq!(EngineMethod::DeployUpgrade.name(), "deploy_upgrade");
}
