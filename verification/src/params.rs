//! Argument records for the external entry points and their binary codec:
//! fixed field order, little-endian integers, length-prefixed byte strings,
//! no self-describing schema.  A decoder accepts exactly the well-formed
//! encodings, consumes the whole input, and never returns a partially
//! decoded record.

use vstd::prelude::*;
use vstd::arithmetic::div_mod::lemma_fundamental_div_mod;
use vstd::arithmetic::div_mod::lemma_mod_bound;
use vstd::arithmetic::div_mod::lemma_div_denominator;
use crate::types::{AccountId, RawAddress, RawH256, RawU256};

verus! {

broadcast use vstd::array::group_array_axioms;

/// Arguments of the initialization operation.
pub struct NewCallArgs {
    /// Chain id, as a 256-bit big-endian value.
    pub chain_id: RawU256,
    /// Identity allowed to run privileged operations.
    pub owner_id: AccountId,
    /// Identity of the bridge prover collaborator.
    pub bridge_prover_id: AccountId,
    /// How many blocks a staged upgrade must wait before deployment.
    pub upgrade_delay_blocks: u64,
}

/// Arguments of a contract invocation.
pub struct FunctionCallArgs {
    pub contract: RawAddress,
    pub input: Vec<u8>,
}

/// Arguments of a read-only invocation.
pub struct ViewCallArgs {
    pub sender: RawAddress,
    pub address: RawAddress,
    pub amount: RawU256,
    pub input: Vec<u8>,
}

/// Arguments of a direct storage read.
pub struct GetStorageAtArgs {
    pub address: RawAddress,
    pub key: RawH256,
}

/// The value of four little-endian bytes.
pub open spec fn u32_from_le(s: Seq<u8>) -> nat {
    s[0] as nat + s[1] as nat * 0x100 + s[2] as nat * 0x10000 + s[3] as nat * 0x1000000
}

/// The value of eight little-endian bytes.
pub open spec fn u64_from_le(s: Seq<u8>) -> nat {
    s[0] as nat + s[1] as nat * 0x100 + s[2] as nat * 0x10000 + s[3] as nat * 0x1000000 + s[4] as nat
        * 0x100000000 + s[5] as nat * 0x10000000000 + s[6] as nat * 0x1000000000000 + s[7] as nat
        * 0x100000000000000
}

/// A well-formed encoding of the initialization arguments: a 32-byte chain
/// id, two length-prefixed identities, then eight bytes of delay, with
/// nothing left over.
pub open spec fn valid_new_call_encoding(s: Seq<u8>) -> bool {
    &&& s.len() >= 36
    &&& {
        let n1 = u32_from_le(s.subrange(32, 36)) as int;
        &&& s.len() >= 40 + n1
        &&& {
            let n2 = u32_from_le(s.subrange(36 + n1, 40 + n1)) as int;
            s.len() == 48 + n1 + n2
        }
    }
}

/// The field boundaries of a well-formed initialization encoding.
pub open spec fn new_call_owner(s: Seq<u8>) -> Seq<u8> {
    s.subrange(36, 36 + u32_from_le(s.subrange(32, 36)) as int)
}

pub open spec fn new_call_prover(s: Seq<u8>) -> Seq<u8> {
    let n1 = u32_from_le(s.subrange(32, 36)) as int;
    let n2 = u32_from_le(s.subrange(36 + n1, 40 + n1)) as int;
    s.subrange(40 + n1, 40 + n1 + n2)
}

pub open spec fn new_call_delay(s: Seq<u8>) -> nat {
    let n1 = u32_from_le(s.subrange(32, 36)) as int;
    let n2 = u32_from_le(s.subrange(36 + n1, 40 + n1)) as int;
    u64_from_le(s.subrange(40 + n1 + n2, 48 + n1 + n2))
}

/// Reads four little-endian bytes at `pos`.
fn read_u32_le(input: &[u8], pos: usize) -> (r: u32)
    requires
        pos + 4 <= input@.len(),
    ensures
        r as nat == u32_from_le(input@.subrange(pos as int, pos + 4)),
{
    let b0 = input[pos] as u32;
    let b1 = input[pos + 1] as u32;
    let b2 = input[pos + 2] as u32;
    let b3 = input[pos + 3] as u32;
    let r = b0 + b1 * 0x100 + b2 * 0x10000 + b3 * 0x1000000;
    proof {
        let s = input@.subrange(pos as int, pos + 4);
        assert(s[0] == input@[pos as int]);
        assert(s[1] == input@[pos as int + 1]);
        assert(s[2] == input@[pos as int + 2]);
        assert(s[3] == input@[pos as int + 3]);
    }
    r
}

/// Reads eight little-endian bytes at `pos`.
fn read_u64_le(input: &[u8], pos: usize) -> (r: u64)
    requires
        pos + 8 <= input@.len(),
    ensures
        r as nat == u64_from_le(input@.subrange(pos as int, pos + 8)),
{
    let b0 = input[pos] as u64;
    let b1 = input[pos + 1] as u64;
    let b2 = input[pos + 2] as u64;
    let b3 = input[pos + 3] as u64;
    let b4 = input[pos + 4] as u64;
    let b5 = input[pos + 5] as u64;
    let b6 = input[pos + 6] as u64;
    let b7 = input[pos + 7] as u64;
    let r = b0 + b1 * 0x100 + b2 * 0x10000 + b3 * 0x1000000 + b4 * 0x100000000 + b5
        * 0x10000000000 + b6 * 0x1000000000000 + b7 * 0x100000000000000;
    proof {
        let s = input@.subrange(pos as int, pos + 8);
        assert(s[0] == input@[pos as int]);
        assert(s[1] == input@[pos as int + 1]);
        assert(s[2] == input@[pos as int + 2]);
        assert(s[3] == input@[pos as int + 3]);
        assert(s[4] == input@[pos as int + 4]);
        assert(s[5] == input@[pos as int + 5]);
        assert(s[6] == input@[pos as int + 6]);
        assert(s[7] == input@[pos as int + 7]);
    }
    r
}

/// Copies `input[pos .. pos + n]` out as a fresh vector.
fn read_bytes(input: &[u8], pos: usize, n: usize) -> (r: Vec<u8>)
    requires
        pos + n <= input@.len(),
    ensures
        r@ == input@.subrange(pos as int, pos + n),
{
    let len: usize = input.len();
    let mut r: Vec<u8> = Vec::new();
    let mut i: usize = 0;
    while i < n
        invariant
            i <= n,
            pos + n <= len,
            len == input@.len(),
            r@ == input@.subrange(pos as int, pos + i),
        decreases n - i,
    {
        r.push(input[pos + i]);
        proof {
            assert(input@.subrange(pos as int, pos + i + 1) =~= input@.subrange(
                pos as int,
                pos + i,
            ).push(input@[pos + i]));
        }
        i = i + 1;
    }
    r
}

/// Copies 32 bytes at `pos` into a fixed array.
fn read_arr32(input: &[u8], pos: usize) -> (r: [u8; 32])
    requires
        pos + 32 <= input@.len(),
    ensures
        r@ == input@.subrange(pos as int, pos + 32),
{
    let v = read_bytes(input, pos, 32);
    let r: [u8; 32] = [
        v[0],
        v[1],
        v[2],
        v[3],
        v[4],
        v[5],
        v[6],
        v[7],
        v[8],
        v[9],
        v[10],
        v[11],
        v[12],
        v[13],
        v[14],
        v[15],
        v[16],
        v[17],
        v[18],
        v[19],
        v[20],
        v[21],
        v[22],
        v[23],
        v[24],
        v[25],
        v[26],
        v[27],
        v[28],
        v[29],
        v[30],
        v[31],
    ];
    proof {
        assert(r@ =~= v@);
    }
    r
}

/// Copies 20 bytes at `pos` into a fixed array.
fn read_arr20(input: &[u8], pos: usize) -> (r: [u8; 20])
    requires
        pos + 20 <= input@.len(),
    ensures
        r@ == input@.subrange(pos as int, pos + 20),
{
    let v = read_bytes(input, pos, 20);
    let r: [u8; 20] = [
        v[0],
        v[1],
        v[2],
        v[3],
        v[4],
        v[5],
        v[6],
        v[7],
        v[8],
        v[9],
        v[10],
        v[11],
        v[12],
        v[13],
        v[14],
        v[15],
        v[16],
        v[17],
        v[18],
        v[19],
    ];
    proof {
        assert(r@ =~= v@);
    }
    r
}


/// The four little-endian bytes of a 32-bit value.
pub open spec fn le_bytes_u32(v: u32) -> Seq<u8> {
    seq![
        (v as nat % 0x100) as u8,
        (v as nat / 0x100 % 0x100) as u8,
        (v as nat / 0x10000 % 0x100) as u8,
        (v as nat / 0x1000000 % 0x100) as u8,
    ]
}

/// The eight little-endian bytes of a 64-bit value.
pub open spec fn le_bytes_u64(v: u64) -> Seq<u8> {
    seq![
        (v as nat % 0x100) as u8,
        (v as nat / 0x100 % 0x100) as u8,
        (v as nat / 0x10000 % 0x100) as u8,
        (v as nat / 0x1000000 % 0x100) as u8,
        (v as nat / 0x100000000 % 0x100) as u8,
        (v as nat / 0x10000000000 % 0x100) as u8,
        (v as nat / 0x1000000000000 % 0x100) as u8,
        (v as nat / 0x100000000000000 % 0x100) as u8,
    ]
}

/// Little-endian bytes recompose to the value they were taken from.
proof fn lemma_le_u32_round_trip(v: u32)
    ensures
        u32_from_le(le_bytes_u32(v)) == v as nat,
{
    lemma_div_denominator(v as int, 0x100, 0x100);
    lemma_div_denominator(v as int, 0x10000, 0x100);
    lemma_fundamental_div_mod(v as int, 0x100);
    lemma_fundamental_div_mod(v as int / 0x100, 0x100);
    lemma_fundamental_div_mod(v as int / 0x10000, 0x100);
    lemma_mod_bound(v as int / 0x1000000, 0x100);
    assert(v as int / 0x1000000 < 0x100);
}

proof fn lemma_le_u64_round_trip(v: u64)
    ensures
        u64_from_le(le_bytes_u64(v)) == v as nat,
{
    lemma_div_denominator(v as int, 0x100, 0x100);
    lemma_div_denominator(v as int, 0x10000, 0x100);
    lemma_div_denominator(v as int, 0x1000000, 0x100);
    lemma_div_denominator(v as int, 0x100000000, 0x100);
    lemma_div_denominator(v as int, 0x10000000000, 0x100);
    lemma_div_denominator(v as int, 0x1000000000000, 0x100);
    lemma_fundamental_div_mod(v as int, 0x100);
    lemma_fundamental_div_mod(v as int / 0x100, 0x100);
    lemma_fundamental_div_mod(v as int / 0x10000, 0x100);
    lemma_fundamental_div_mod(v as int / 0x1000000, 0x100);
    lemma_fundamental_div_mod(v as int / 0x100000000, 0x100);
    lemma_fundamental_div_mod(v as int / 0x10000000000, 0x100);
    lemma_fundamental_div_mod(v as int / 0x1000000000000, 0x100);
    lemma_mod_bound(v as int / 0x100000000000000, 0x100);
    assert(v as int / 0x100000000000000 < 0x100);
}

/// Appends a byte string.
fn extend_bytes(out: &mut Vec<u8>, src: &[u8])
    ensures
        final(out)@ == old(out)@ + src@,
{
    let len: usize = src.len();
    let mut i: usize = 0;
    while i < len
        invariant
            i <= len,
            len == src@.len(),
            out@ == old(out)@ + src@.subrange(0, i as int),
        decreases len - i,
    {
        out.push(src[i]);
        proof {
            assert(old(out)@ + src@.subrange(0, i + 1 as int) =~= (old(out)@ + src@.subrange(
                0,
                i as int,
            )).push(src@[i as int]));
        }
        i = i + 1;
    }
    proof {
        assert(src@.subrange(0, len as int) =~= src@);
    }
}

/// Appends the four little-endian bytes of a 32-bit value.
fn extend_u32_le(out: &mut Vec<u8>, v: u32)
    ensures
        final(out)@ == old(out)@ + le_bytes_u32(v),
{
    proof {
        lemma_mod_bound(v as int, 0x100);
        lemma_mod_bound(v as int / 0x100, 0x100);
        lemma_mod_bound(v as int / 0x10000, 0x100);
        lemma_mod_bound(v as int / 0x1000000, 0x100);
    }
    out.push((v % 0x100) as u8);
    out.push((v / 0x100 % 0x100) as u8);
    out.push((v / 0x10000 % 0x100) as u8);
    out.push((v / 0x1000000 % 0x100) as u8);
    proof {
        assert(out@ =~= old(out)@ + le_bytes_u32(v));
    }
}

/// Appends the eight little-endian bytes of a 64-bit value.
fn extend_u64_le(out: &mut Vec<u8>, v: u64)
    ensures
        final(out)@ == old(out)@ + le_bytes_u64(v),
{
    proof {
        lemma_mod_bound(v as int, 0x100);
        lemma_mod_bound(v as int / 0x100, 0x100);
        lemma_mod_bound(v as int / 0x10000, 0x100);
        lemma_mod_bound(v as int / 0x1000000, 0x100);
        lemma_mod_bound(v as int / 0x100000000, 0x100);
        lemma_mod_bound(v as int / 0x10000000000, 0x100);
        lemma_mod_bound(v as int / 0x1000000000000, 0x100);
        lemma_mod_bound(v as int / 0x100000000000000, 0x100);
    }
    out.push((v % 0x100) as u8);
    out.push((v / 0x100 % 0x100) as u8);
    out.push((v / 0x10000 % 0x100) as u8);
    out.push((v / 0x1000000 % 0x100) as u8);
    out.push((v / 0x100000000 % 0x100) as u8);
    out.push((v / 0x10000000000 % 0x100) as u8);
    out.push((v / 0x1000000000000 % 0x100) as u8);
    out.push((v / 0x100000000000000 % 0x100) as u8);
    proof {
        assert(out@ =~= old(out)@ + le_bytes_u64(v));
    }
}

/// Encodes the initialization arguments; the result is a well-formed
/// encoding whose fields decode back to exactly the given record.
#[verifier::rlimit(50)]
pub fn encode_new_call_args(a: &NewCallArgs) -> (r: Vec<u8>)
    requires
        a.owner_id@.len() < 0x100000000,
        a.bridge_prover_id@.len() < 0x100000000,
    ensures
        valid_new_call_encoding(r@),
        r@.subrange(0, 32) == a.chain_id@,
        new_call_owner(r@) == a.owner_id@,
        new_call_prover(r@) == a.bridge_prover_id@,
        new_call_delay(r@) == a.upgrade_delay_blocks as nat,
{
    let n1: usize = a.owner_id.len();
    let n2: usize = a.bridge_prover_id.len();
    let mut out: Vec<u8> = Vec::new();
    extend_bytes(&mut out, a.chain_id.as_slice());
    extend_u32_le(&mut out, n1 as u32);
    extend_bytes(&mut out, a.owner_id.as_slice());
    extend_u32_le(&mut out, n2 as u32);
    extend_bytes(&mut out, a.bridge_prover_id.as_slice());
    extend_u64_le(&mut out, a.upgrade_delay_blocks);
    proof {
        let s = out@;
        let m1 = a.owner_id@.len() as int;
        let m2 = a.bridge_prover_id@.len() as int;
        assert(s.len() == 48 + m1 + m2);
        assert(s.subrange(0, 32) =~= a.chain_id@);
        assert(s.subrange(32, 36) =~= le_bytes_u32(n1 as u32));
        lemma_le_u32_round_trip(n1 as u32);
        assert(u32_from_le(s.subrange(32, 36)) == m1);
        assert(s.subrange(36, 36 + m1) =~= a.owner_id@);
        assert(s.subrange(36 + m1, 40 + m1) =~= le_bytes_u32(n2 as u32));
        lemma_le_u32_round_trip(n2 as u32);
        assert(u32_from_le(s.subrange(36 + m1, 40 + m1)) == m2);
        assert(s.subrange(40 + m1, 40 + m1 + m2) =~= a.bridge_prover_id@);
        assert(s.subrange(40 + m1 + m2, 48 + m1 + m2) =~= le_bytes_u64(a.upgrade_delay_blocks));
        lemma_le_u64_round_trip(a.upgrade_delay_blocks);
    }
    out
}

/// Decodes the initialization arguments, accepting exactly the well-formed
/// encodings and consuming the whole input.
pub fn decode_new_call_args(input: &[u8]) -> (r: Option<NewCallArgs>)
    ensures
        r is Some <==> valid_new_call_encoding(input@),
        r is Some ==> {
            let a = r->Some_0;
            &&& a.chain_id@ == input@.subrange(0, 32)
            &&& a.owner_id@ == new_call_owner(input@)
            &&& a.bridge_prover_id@ == new_call_prover(input@)
            &&& a.upgrade_delay_blocks as nat == new_call_delay(input@)
        },
{
    if input.len() < 36 {
        return None;
    }
    let chain_id = read_arr32(input, 0);
    let n1 = read_u32_le(input, 32) as usize;
    if input.len() < 40 || input.len() - 40 < n1 {
        return None;
    }
    let owner_id = read_bytes(input, 36, n1);
    let n2 = read_u32_le(input, 36 + n1) as usize;
    if input.len() - 40 - n1 < 8 || input.len() - 48 - n1 != n2 {
        return None;
    }
    let bridge_prover_id = read_bytes(input, 40 + n1, n2);
    let upgrade_delay_blocks = read_u64_le(input, 40 + n1 + n2);
    Some(NewCallArgs { chain_id, owner_id, bridge_prover_id, upgrade_delay_blocks })
}

/// A well-formed encoding of the invocation arguments: a 20-byte address,
/// then a length-prefixed input, with nothing left over.
pub open spec fn valid_function_call_encoding(s: Seq<u8>) -> bool {
    s.len() >= 24 && s.len() == 24 + u32_from_le(s.subrange(20, 24))
}

pub fn decode_function_call_args(input: &[u8]) -> (r: Option<FunctionCallArgs>)
    ensures
        r is Some <==> valid_function_call_encoding(input@),
        r is Some ==> {
            let a = r->Some_0;
            &&& a.contract@ == input@.subrange(0, 20)
            &&& a.input@ == input@.subrange(24, input@.len() as int)
        },
{
    if input.len() < 24 {
        return None;
    }
    let contract = read_arr20(input, 0);
    let n = read_u32_le(input, 20) as usize;
    if input.len() - 24 != n {
        return None;
    }
    let data = read_bytes(input, 24, n);
    Some(FunctionCallArgs { contract, input: data })
}

/// A well-formed encoding of the view arguments: two 20-byte addresses, a
/// 32-byte amount, then a length-prefixed input, with nothing left over.
pub open spec fn valid_view_call_encoding(s: Seq<u8>) -> bool {
    s.len() >= 76 && s.len() == 76 + u32_from_le(s.subrange(72, 76))
}

pub fn decode_view_call_args(input: &[u8]) -> (r: Option<ViewCallArgs>)
    ensures
        r is Some <==> valid_view_call_encoding(input@),
        r is Some ==> {
            let a = r->Some_0;
            &&& a.sender@ == input@.subrange(0, 20)
            &&& a.address@ == input@.subrange(20, 40)
            &&& a.amount@ == input@.subrange(40, 72)
            &&& a.input@ == input@.subrange(76, input@.len() as int)
        },
{
    if input.len() < 76 {
        return None;
    }
    let sender = read_arr20(input, 0);
    let address = read_arr20(input, 20);
    let amount = read_arr32(input, 40);
    let n = read_u32_le(input, 72) as usize;
    if input.len() - 76 != n {
        return None;
    }
    let data = read_bytes(input, 76, n);
    Some(ViewCallArgs { sender, address, amount, input: data })
}

/// A well-formed encoding of the storage-read arguments: a 20-byte address
/// and a 32-byte key, nothing more.
pub open spec fn valid_get_storage_at_encoding(s: Seq<u8>) -> bool {
    s.len() == 52
}

pub fn decode_get_storage_at_args(input: &[u8]) -> (r: Option<GetStorageAtArgs>)
    ensures
        r is Some <==> valid_get_storage_at_encoding(input@),
        r is Some ==> {
            let a = r->Some_0;
            &&& a.address@ == input@.subrange(0, 20)
            &&& a.key@ == input@.subrange(20, 52)
        },
{
    if input.len() != 52 {
        return None;
    }
    let address = read_arr20(input, 0);
    let key = read_arr32(input, 20);
    Some(GetStorageAtArgs { address, key })
}

} // verus!
