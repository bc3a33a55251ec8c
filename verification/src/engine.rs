//! The execution engine core: its persisted state record, owner
//! authorization, chain-id validation, the routing of raw and meta
//! transactions into deploy/call/transfer actions, checked balance
//! transfer, and the scope protocol that gives each nested sub-call
//! atomic commit/discard semantics.

use vstd::prelude::*;
use crate::exit::{ExitError, ExitReason};
use crate::params::NewCallArgs;
use crate::stack::Stack;
use crate::types::{AccountId, EthAddress, RawH256, RawU256};
use crate::wei::Wei;

verus! {

broadcast use vstd::array::group_array_axioms;

/// The engine's singleton configuration, persisted in host storage and
/// loaded at the start of every privileged or execution operation.
pub struct EngineState {
    /// Chain id, as a 256-bit big-endian value.
    pub chain_id: RawU256,
    /// Identity allowed to run privileged operations.
    pub owner_id: AccountId,
    /// Identity of the bridge prover collaborator.
    pub bridge_prover_id: AccountId,
    /// How many blocks a staged upgrade must wait before deployment.
    pub upgrade_delay_blocks: u64,
}

impl EngineState {
    /// The initialization arguments carried over field for field.
    pub fn from_new_call_args(args: NewCallArgs) -> (r: Self)
        ensures
            r.chain_id@ == args.chain_id@,
            r.owner_id@ == args.owner_id@,
            r.bridge_prover_id@ == args.bridge_prover_id@,
            r.upgrade_delay_blocks == args.upgrade_delay_blocks,
    {
        EngineState {
            chain_id: args.chain_id,
            owner_id: args.owner_id,
            bridge_prover_id: args.bridge_prover_id,
            upgrade_delay_blocks: args.upgrade_delay_blocks,
        }
    }
}

/// The errors an entry point can surface before or instead of an exit
/// outcome, each with its stable message.
#[derive(Debug, PartialEq, Eq, Structural, Copy, Clone)]
pub enum EngineError {
    ArgParse,
    NotAllowed,
    TooEarly,
    NoUpgrade,
    InvalidTx,
    InvalidChainId,
    InvalidEcdsaSignature,
    MetaTxParse,
}

impl EngineError {
    /// The stable message each error surfaces to the host.
    pub fn message(&self) -> (r: &'static str)
        ensures
            r@ == engine_error_message(*self),
            r@.len() > 0,
    {
        proof {
            reveal_strlit("ERR_ARG_PARSE");
            reveal_strlit("ERR_NOT_ALLOWED");
            reveal_strlit("ERR_NOT_ALLOWED:TOO_EARLY");
            reveal_strlit("ERR_NO_UPGRADE");
            reveal_strlit("ERR_INVALID_TX");
            reveal_strlit("ERR_INVALID_CHAIN_ID");
            reveal_strlit("ERR_INVALID_ECDSA_SIGNATURE");
            reveal_strlit("ERR_META_TX_PARSE");
        }
        match self {
            EngineError::ArgParse => "ERR_ARG_PARSE",
            EngineError::NotAllowed => "ERR_NOT_ALLOWED",
            EngineError::TooEarly => "ERR_NOT_ALLOWED:TOO_EARLY",
            EngineError::NoUpgrade => "ERR_NO_UPGRADE",
            EngineError::InvalidTx => "ERR_INVALID_TX",
            EngineError::InvalidChainId => "ERR_INVALID_CHAIN_ID",
            EngineError::InvalidEcdsaSignature => "ERR_INVALID_ECDSA_SIGNATURE",
            EngineError::MetaTxParse => "ERR_META_TX_PARSE",
        }
    }
}

pub open spec fn engine_error_message(e: EngineError) -> Seq<char> {
    match e {
        EngineError::ArgParse => "ERR_ARG_PARSE"@,
        EngineError::NotAllowed => "ERR_NOT_ALLOWED"@,
        EngineError::TooEarly => "ERR_NOT_ALLOWED:TOO_EARLY"@,
        EngineError::NoUpgrade => "ERR_NO_UPGRADE"@,
        EngineError::InvalidTx => "ERR_INVALID_TX"@,
        EngineError::InvalidChainId => "ERR_INVALID_CHAIN_ID"@,
        EngineError::InvalidEcdsaSignature => "ERR_INVALID_ECDSA_SIGNATURE"@,
        EngineError::MetaTxParse => "ERR_META_TX_PARSE"@,
    }
}

/// Byte-for-byte equality of two byte strings.
pub fn bytes_eq(a: &[u8], b: &[u8]) -> (r: bool)
    ensures
        r <==> a@ == b@,
{
    let a_len: usize = a.len();
    let b_len: usize = b.len();
    if a_len != b_len {
        return false;
    }
    let mut i: usize = 0;
    while i < a_len
        invariant
            i <= a_len,
            a_len == a@.len(),
            a_len == b@.len(),
            forall|j: int| 0 <= j < i ==> a@[j] == b@[j],
        decreases a_len - i,
    {
        if a[i] != b[i] {
            return false;
        }
        i = i + 1;
    }
    proof {
        assert(a@ =~= b@);
    }
    true
}

/// Admits exactly the configured owner; everyone else gets the
/// authorization error.
pub fn require_owner_only(state: &EngineState, caller: &[u8]) -> (r: Result<(), EngineError>)
    ensures
        r is Ok <==> state.owner_id@ == caller@,
        r is Err ==> r->Err_0 == EngineError::NotAllowed,
{
    if bytes_eq(state.owner_id.as_slice(), caller) {
        Ok(())
    } else {
        Err(EngineError::NotAllowed)
    }
}

/// Decides initialization: the state may be set freely while no owner is
/// configured; afterwards only the owner may replace it, and the input
/// must be a well-formed argument encoding.
pub fn init_engine_state(
    current: Option<&EngineState>,
    caller: &[u8],
    args: Option<NewCallArgs>,
) -> (r: Result<EngineState, EngineError>)
    ensures
        r is Err && r->Err_0 == EngineError::NotAllowed <==> (current matches Some(st)
            && st.owner_id@.len() > 0 && st.owner_id@ != caller@),
        r is Err && r->Err_0 == EngineError::ArgParse <==> (!(current matches Some(st)
            && st.owner_id@.len() > 0 && st.owner_id@ != caller@) && args is None),
        r is Ok <==> !(current matches Some(st) && st.owner_id@.len() > 0 && st.owner_id@
            != caller@) && args is Some,
        r is Ok ==> {
            let a = args->Some_0;
            let st = r->Ok_0;
            &&& st.chain_id@ == a.chain_id@
            &&& st.owner_id@ == a.owner_id@
            &&& st.bridge_prover_id@ == a.bridge_prover_id@
            &&& st.upgrade_delay_blocks == a.upgrade_delay_blocks
        },
{
    match current {
        Some(state) => {
            if state.owner_id.len() > 0 {
                if let Err(e) = require_owner_only(state, caller) {
                    return Err(e);
                }
            }
        },
        None => {},
    }
    match args {
        Some(a) => Ok(EngineState::from_new_call_args(a)),
        None => Err(EngineError::ArgParse),
    }
}

/// The canonical 32-byte big-endian rendering of a 64-bit chain id.
pub open spec fn chain_id_bytes(v: u64) -> Seq<u8> {
    Seq::new(24, |i: int| 0u8) + seq![
        ((v as nat / 0x100000000000000) % 256) as u8,
        ((v as nat / 0x1000000000000) % 256) as u8,
        ((v as nat / 0x10000000000) % 256) as u8,
        ((v as nat / 0x100000000) % 256) as u8,
        ((v as nat / 0x1000000) % 256) as u8,
        ((v as nat / 0x10000) % 256) as u8,
        ((v as nat / 0x100) % 256) as u8,
        (v as nat % 256) as u8,
    ]
}

/// Whether a transaction's declared chain id equals the configured one:
/// the configured 32 bytes must be the canonical rendering of the declared
/// 64-bit value.
pub fn chain_id_matches(configured: &RawU256, declared: u64) -> (r: bool)
    ensures
        r <==> configured@ == chain_id_bytes(declared),
{
    let mut i: usize = 0;
    while i < 24
        invariant
            i <= 24,
            forall|j: int| 0 <= j < i ==> configured@[j] == 0u8,
        decreases 24 - i,
    {
        if configured[i] != 0 {
            proof {
                assert(configured@[i as int] != chain_id_bytes(declared)[i as int]);
            }
            return false;
        }
        i = i + 1;
    }
    let expected: [u8; 8] = [
        ((declared / 0x100000000000000) % 0x100) as u8,
        ((declared / 0x1000000000000) % 0x100) as u8,
        ((declared / 0x10000000000) % 0x100) as u8,
        ((declared / 0x100000000) % 0x100) as u8,
        ((declared / 0x1000000) % 0x100) as u8,
        ((declared / 0x10000) % 0x100) as u8,
        ((declared / 0x100) % 0x100) as u8,
        (declared % 0x100) as u8,
    ];
    let mut k: usize = 0;
    while k < 8
        invariant
            k <= 8,
            expected@ == chain_id_bytes(declared).subrange(24, 32),
            forall|j: int| 0 <= j < 24 ==> configured@[j] == 0u8,
            forall|j: int| 0 <= j < k ==> configured@[24 + j] == expected@[j],
        decreases 8 - k,
    {
        if configured[24 + k] != expected[k] {
            proof {
                assert(configured@[24 + k as int] != chain_id_bytes(declared)[24 + k as int]);
            }
            return false;
        }
        k = k + 1;
    }
    proof {
        assert(configured@ =~= chain_id_bytes(declared));
    }
    true
}


/// The chain id a legacy signature's recovery value encodes, per the
/// replay-protection scheme: 27 and 28 carry none, 35 and up encode
/// `(v - 35) / 2`, and every other value is not a valid signed
/// transaction.
pub fn eip155_chain_id(v: u64) -> (r: Result<Option<u64>, EngineError>)
    ensures
        v == 27 || v == 28 ==> r == Ok::<Option<u64>, EngineError>(None),
        v >= 35 ==> r == Ok::<Option<u64>, EngineError>(Some(((v - 35) / 2) as u64)),
        !(v == 27 || v == 28 || v >= 35) ==> r == Err::<Option<u64>, EngineError>(
            EngineError::InvalidTx,
        ),
{
    if v == 27 || v == 28 {
        Ok(None)
    } else if v >= 35 {
        Ok(Some((v - 35) / 2))
    } else {
        Err(EngineError::InvalidTx)
    }
}

/// The receiver field of a signed transaction: empty means a deployment,
/// exactly twenty bytes name the receiving address, and any other length
/// is a malformed transaction.
pub fn receiver_from_bytes(to: &[u8]) -> (r: Result<Option<EthAddress>, EngineError>)
    ensures
        to@.len() == 0 ==> r == Ok::<Option<EthAddress>, EngineError>(None),
        to@.len() == 20 ==> (r matches Ok(o) && o matches Some(a) && a@ == to@),
        !(to@.len() == 0 || to@.len() == 20) ==> r == Err::<Option<EthAddress>, EngineError>(
            EngineError::InvalidTx,
        ),
{
    if to.len() == 0 {
        return Ok(None);
    }
    if to.len() != 20 {
        return Err(EngineError::InvalidTx);
    }
    let addr: [u8; 20] = [
        to[0],
        to[1],
        to[2],
        to[3],
        to[4],
        to[5],
        to[6],
        to[7],
        to[8],
        to[9],
        to[10],
        to[11],
        to[12],
        to[13],
        to[14],
        to[15],
        to[16],
        to[17],
        to[18],
        to[19],
    ];
    proof {
        assert(addr@ =~= to@);
    }
    Ok(Some(addr))
}

/// A signed legacy transaction as the decode-and-recover collaborator
/// hands it over: the structured fields, the chain id embedded in the
/// signature if any, and the recovered sender if recovery succeeded.
pub struct DecodedTransaction {
    pub nonce: u64,
    pub gas_price: Wei,
    pub gas_limit: u64,
    /// Receiving address, absent for a contract deployment.
    pub to: Option<EthAddress>,
    pub value: Wei,
    pub data: Vec<u8>,
    pub chain_id: Option<u64>,
    pub sender: Option<EthAddress>,
}

/// What a raw transaction asks the engine to do.
pub enum RawCallAction {
    /// A signed transaction with a receiver and empty input: a balance move.
    Transfer { sender: EthAddress, receiver: EthAddress, value: Wei },
    /// A signed transaction with a receiver and input: a contract call.
    Call { sender: EthAddress, receiver: EthAddress, value: Wei, input: Vec<u8> },
    /// A signed transaction without a receiver: a contract deployment.
    Deploy { sender: EthAddress, value: Wei, code: Vec<u8> },
}

/// Validates a decoded signed transaction against the engine state and
/// classifies it.  A declared chain id must match the configured one
/// exactly; a transaction whose sender could not be recovered is refused;
/// otherwise the receiver and payload decide between transfer, call and
/// deployment.
pub fn route_raw_call(state: &EngineState, tx: DecodedTransaction) -> (r: Result<
    RawCallAction,
    EngineError,
>)
    ensures
        r is Err && r->Err_0 == EngineError::InvalidChainId <==> (tx.chain_id matches Some(c)
            && state.chain_id@ != chain_id_bytes(c)),
        r is Err && r->Err_0 == EngineError::InvalidEcdsaSignature <==> !(tx.chain_id matches Some(
            c,
        ) && state.chain_id@ != chain_id_bytes(c)) && tx.sender is None,
        r is Ok <==> !(tx.chain_id matches Some(c) && state.chain_id@ != chain_id_bytes(c))
            && tx.sender is Some,
        r is Ok ==> {
            let action = r->Ok_0;
            let sender = tx.sender->Some_0;
            match tx.to {
                Some(receiver) => {
                    if tx.data@.len() == 0 {
                        action matches RawCallAction::Transfer { sender: s, receiver: t, value: v }
                            && s == sender && t == receiver && v == tx.value
                    } else {
                        action matches RawCallAction::Call {
                            sender: s,
                            receiver: t,
                            value: v,
                            input: d,
                        } && s == sender && t == receiver && v == tx.value && d@ == tx.data@
                    }
                },
                None => action matches RawCallAction::Deploy { sender: s, value: v, code: d } && s
                    == sender && v == tx.value && d@ == tx.data@,
            }
        },
{
    if let Some(declared) = tx.chain_id {
        if !chain_id_matches(&state.chain_id, declared) {
            return Err(EngineError::InvalidChainId);
        }
    }
    let sender = match tx.sender {
        Some(sender) => sender,
        None => {
            return Err(EngineError::InvalidEcdsaSignature);
        },
    };
    match tx.to {
        Some(receiver) => {
            if tx.data.len() == 0 {
                Ok(RawCallAction::Transfer { sender, receiver, value: tx.value })
            } else {
                Ok(RawCallAction::Call { sender, receiver, value: tx.value, input: tx.data })
            }
        },
        None => Ok(RawCallAction::Deploy { sender, value: tx.value, code: tx.data }),
    }
}

/// The action a meta-transaction always maps to: a call to its target
/// contract, by its authenticated sender, with its value and input.
pub fn route_meta_call(args: crate::types::InternalMetaCallArgs) -> (r: RawCallAction)
    ensures
        r matches RawCallAction::Call { sender: s, receiver: t, value: v, input: d } && s
            == args.sender && t == args.contract_address && v == args.value && d@ == args.input@,
{
    RawCallAction::Call {
        sender: args.sender,
        receiver: args.contract_address,
        value: args.value,
        input: args.input,
    }
}

/// Moves value between two balances with checked arithmetic: an
/// insufficient balance is the out-of-fund error, never an underflow.
/// The result, when present, is the debited sender balance and the
/// credited receiver balance.
pub fn transfer_balances(sender_balance: Wei, receiver_balance: Wei, value: Wei) -> (r: Result<
    (Wei, Wei),
    ExitError,
>)
    requires
        receiver_balance.as_nat() + value.as_nat()
            < 0x10000000000000000000000000000000000000000000000000000000000000000,
    ensures
        r is Err <==> sender_balance.as_nat() < value.as_nat(),
        r is Err ==> r->Err_0 == ExitError::OutOfFund,
        r is Ok ==> r->Ok_0.0.as_nat() == sender_balance.as_nat() - value.as_nat()
            && r->Ok_0.1.as_nat() == receiver_balance.as_nat() + value.as_nat(),
{
    let debited = match sender_balance.checked_sub(value) {
        Some(d) => d,
        None => {
            return Err(ExitError::OutOfFund);
        },
    };
    let credited = match receiver_balance.checked_add(value) {
        Some(c) => c,
        None => {
            return Err(ExitError::OutOfFund);
        },
    };
    Ok((debited, credited))
}

/// Closes the scope a nested sub-call ran in: its records are kept when
/// the call succeeded and dropped on revert, error or fatal, so a failed
/// inner call never leaks effects into the enclosing call.
pub fn apply_subcall_outcome<T>(stack: &mut Stack<T>, reason: &ExitReason)
    requires
        old(stack).wf(),
        old(stack).has_open_scope(),
    ensures
        final(stack).wf(),
        final(stack).bounds() == old(stack).bounds().drop_last(),
        reason matches ExitReason::Succeed(_) ==> final(stack).elems() == old(stack).elems(),
        !(reason matches ExitReason::Succeed(_)) ==> final(stack).elems() == old(
            stack,
        ).elems().take(old(stack).bounds().last() as int),
{
    match reason {
        ExitReason::Succeed(_) => stack.commit(),
        _ => stack.discard(),
    }
}

/// The deterministic 20-byte address derived from a 32-byte hash: its
/// last twenty bytes.
pub fn address_from_hash(hash: &RawH256) -> (r: EthAddress)
    ensures
        r@ == hash@.subrange(12, 32),
{
    let r: [u8; 20] = [
        hash[12],
        hash[13],
        hash[14],
        hash[15],
        hash[16],
        hash[17],
        hash[18],
        hash[19],
        hash[20],
        hash[21],
        hash[22],
        hash[23],
        hash[24],
        hash[25],
        hash[26],
        hash[27],
        hash[28],
        hash[29],
        hash[30],
        hash[31],
    ];
    proof {
        assert(r@ =~= hash@.subrange(12, 32));
    }
    r
}

} // verus!
