//! The precompile registry: the fixed table of native operations
//! reachable at reserved low-numbered addresses, their deterministic,
//! input-dependent gas schedule, and the up-front gas gate.  Execution is
//! refused before any native work when the declared gas cannot pay for
//! the computed cost, and malformed input is a validation error for the
//! enclosing call only, never a panic.
//!
//! The native operations themselves (hashing, curve arithmetic, signature
//! recovery, the modular exponentiation) are collaborators: the registry
//! decides, computes the cost, gates, and hands a fully-checked native
//! request out.  Only the identity operation is completed in place.

use vstd::prelude::*;
use crate::exit::ExitError;
use crate::types::EthAddress;

verus! {

broadcast use vstd::array::group_array_axioms;

/// The native operations at the reserved addresses one through nine.
#[derive(Debug, PartialEq, Eq, Structural, Copy, Clone)]
pub enum Precompile {
    EcRecover,
    Sha256,
    Ripemd160,
    Identity,
    ModExp,
    EcAdd,
    EcMul,
    EcPair,
    Blake2F,
}

/// The reserved address number of each operation.
pub open spec fn precompile_number(p: Precompile) -> u8 {
    match p {
        Precompile::EcRecover => 1,
        Precompile::Sha256 => 2,
        Precompile::Ripemd160 => 3,
        Precompile::Identity => 4,
        Precompile::ModExp => 5,
        Precompile::EcAdd => 6,
        Precompile::EcMul => 7,
        Precompile::EcPair => 8,
        Precompile::Blake2F => 9,
    }
}

/// The full 20-byte address: nineteen zero bytes and the number.
pub open spec fn precompile_address(p: Precompile) -> Seq<u8> {
    Seq::new(19, |i: int| 0u8) + seq![precompile_number(p)]
}

impl Precompile {
    pub fn address(&self) -> (r: EthAddress)
        ensures
            r@ == precompile_address(*self),
    {
        let n: u8 = match self {
            Precompile::EcRecover => 1,
            Precompile::Sha256 => 2,
            Precompile::Ripemd160 => 3,
            Precompile::Identity => 4,
            Precompile::ModExp => 5,
            Precompile::EcAdd => 6,
            Precompile::EcMul => 7,
            Precompile::EcPair => 8,
            Precompile::Blake2F => 9,
        };
        let r: [u8; 20] = [
            0u8,
            0u8,
            0u8,
            0u8,
            0u8,
            0u8,
            0u8,
            0u8,
            0u8,
            0u8,
            0u8,
            0u8,
            0u8,
            0u8,
            0u8,
            0u8,
            0u8,
            0u8,
            0u8,
            n,
        ];
        proof {
            assert(r@ =~= precompile_address(*self));
        }
        r
    }

    /// The operation registered at an address, if any.
    pub fn from_address(addr: &EthAddress) -> (r: Option<Precompile>)
        ensures
            r matches Some(p) ==> addr@ == precompile_address(p),
            r is None ==> forall|p: Precompile| addr@ != precompile_address(p),
    {
        let mut i: usize = 0;
        while i < 19
            invariant
                i <= 19,
                forall|j: int| 0 <= j < i ==> addr@[j] == 0u8,
            decreases 19 - i,
        {
            if addr[i] != 0 {
                proof {
                    assert forall|p: Precompile| addr@ != precompile_address(p) by {
                        assert(precompile_address(p)[i as int] == 0u8);
                    }
                }
                return None;
            }
            i = i + 1;
        }
        let r = match addr[19] {
            1 => Some(Precompile::EcRecover),
            2 => Some(Precompile::Sha256),
            3 => Some(Precompile::Ripemd160),
            4 => Some(Precompile::Identity),
            5 => Some(Precompile::ModExp),
            6 => Some(Precompile::EcAdd),
            7 => Some(Precompile::EcMul),
            8 => Some(Precompile::EcPair),
            9 => Some(Precompile::Blake2F),
            _ => None,
        };
        proof {
            if r is Some {
                assert(addr@ =~= precompile_address(r->Some_0));
            } else {
                assert forall|p: Precompile| addr@ != precompile_address(p) by {
                    assert(precompile_address(p)[19] == precompile_number(p));
                    assert(addr@[19] != precompile_number(p));
                }
            }
        }
        r
    }
}

/// How many 32-byte words cover `len` bytes.
pub open spec fn word_count(len: nat) -> nat {
    (len + 31) / 32
}

/// A byte of the input, zero beyond its end; inputs are implicitly
/// right-padded with zeros.
pub open spec fn padded_byte(s: Seq<u8>, i: int) -> u8 {
    if 0 <= i < s.len() {
        s[i]
    } else {
        0
    }
}

/// The bit length of a byte: the position of its highest set bit.
pub open spec fn bitlen_u8(b: u8) -> nat {
    if b >= 128 {
        8
    } else if b >= 64 {
        7
    } else if b >= 32 {
        6
    } else if b >= 16 {
        5
    } else if b >= 8 {
        4
    } else if b >= 4 {
        3
    } else if b >= 2 {
        2
    } else if b >= 1 {
        1
    } else {
        0
    }
}

/// The bit length of a big-endian byte string: leading zero bytes carry
/// nothing; the first non-zero byte decides.
pub open spec fn be_bitlen(s: Seq<u8>) -> nat
    decreases s.len(),
{
    if s.len() == 0 {
        0
    } else if s[0] != 0 {
        (s.len() - 1) as nat * 8 + bitlen_u8(s[0])
    } else {
        be_bitlen(s.subrange(1, s.len() as int))
    }
}

/// Whether the 32-byte big-endian header at `off` (zero-padded) fits in 64
/// bits: its first 24 bytes are zero.
pub open spec fn header_fits_u64(s: Seq<u8>, off: int) -> bool {
    forall|j: int| 0 <= j < 24 ==> #[trigger] padded_byte(s, off + j) == 0
}

/// The value of the 32-byte big-endian header at `off` (zero-padded),
/// meaningful when it fits in 64 bits.
pub open spec fn header_value(s: Seq<u8>, off: int) -> nat {
    padded_byte(s, off + 24) as nat * 0x100000000000000 + padded_byte(s, off + 25) as nat
        * 0x1000000000000 + padded_byte(s, off + 26) as nat * 0x10000000000 + padded_byte(
        s,
        off + 27,
    ) as nat * 0x100000000 + padded_byte(s, off + 28) as nat * 0x1000000 + padded_byte(s, off + 29)
        as nat * 0x10000 + padded_byte(s, off + 30) as nat * 0x100 + padded_byte(s, off + 31) as nat
}

/// Byzantium multiplication complexity for an operand of `x` bytes.
pub open spec fn mult_complexity(x: nat) -> nat {
    if x <= 64 {
        x * x
    } else if x <= 1024 {
        (x * x / 4 + 96 * x - 3072) as nat
    } else {
        (x * x / 16 + 480 * x - 199680) as nat
    }
}

/// The exponent head: the first up-to-32 bytes of the exponent operand,
/// zero-padded.
pub open spec fn modexp_head(s: Seq<u8>, base_len: nat, exp_len: nat) -> Seq<u8> {
    Seq::new(if exp_len < 32 { exp_len } else { 32 }, |j: int| padded_byte(s, 96 + base_len + j))
}

/// The adjusted exponent length of the Byzantium schedule.
pub open spec fn adjusted_exp_len(s: Seq<u8>, base_len: nat, exp_len: nat) -> nat {
    let b = be_bitlen(modexp_head(s, base_len, exp_len));
    let head_bits: nat = if b == 0 {
        0
    } else {
        (b - 1) as nat
    };
    if exp_len <= 32 {
        head_bits
    } else {
        8 * (exp_len - 32) as nat + head_bits
    }
}

/// A cost no 64-bit gas limit can pay.
pub open spec fn unpayable() -> nat {
    0x10000000000000000
}

/// The Byzantium modular-exponentiation cost.  An operand length beyond 64
/// bits, or an intermediate product beyond 128 bits, is unpayable.
pub open spec fn modexp_cost(s: Seq<u8>) -> nat {
    if !(header_fits_u64(s, 0) && header_fits_u64(s, 32) && header_fits_u64(s, 64)) {
        unpayable()
    } else {
        let base_len = header_value(s, 0);
        let exp_len = header_value(s, 32);
        let mod_len = header_value(s, 64);
        let m: nat = if base_len < mod_len {
            mod_len
        } else {
            base_len
        };
        let adj = adjusted_exp_len(s, base_len, exp_len);
        let adjm: nat = if adj < 1 {
            1
        } else {
            adj
        };
        if mult_complexity(m) * adjm >= 0x100000000000000000000000000000000 {
            unpayable()
        } else {
            mult_complexity(m) * adjm / 20
        }
    }
}

/// Whether the input shape admits a cost at all: the pairing check needs
/// whole 192-byte point pairs, the compression function a fixed 213-byte
/// block.  Every other operation accepts any length.
pub open spec fn cost_input_valid(p: Precompile, s: Seq<u8>) -> bool {
    match p {
        Precompile::EcPair => s.len() % 192 == 0,
        Precompile::Blake2F => s.len() == 213,
        _ => true,
    }
}

/// The gas each operation costs on the given input.
pub open spec fn precompile_cost(p: Precompile, s: Seq<u8>) -> nat {
    match p {
        Precompile::EcRecover => 3000,
        Precompile::Sha256 => 60 + 12 * word_count(s.len()),
        Precompile::Ripemd160 => 600 + 120 * word_count(s.len()),
        Precompile::Identity => 15 + 3 * word_count(s.len()),
        Precompile::ModExp => modexp_cost(s),
        Precompile::EcAdd => 150,
        Precompile::EcMul => 6000,
        Precompile::EcPair => 45000 + 34000 * (s.len() / 192),
        Precompile::Blake2F => padded_byte(s, 0) as nat * 0x1000000 + padded_byte(s, 1) as nat
            * 0x10000 + padded_byte(s, 2) as nat * 0x100 + padded_byte(s, 3) as nat,
    }
}

/// Reads the zero-padded byte at logical position `i`.
fn read_padded(input: &[u8], i: u128) -> (r: u8)
    ensures
        r == padded_byte(input@, i as int),
{
    let len: usize = input.len();
    if i < len as u128 {
        input[i as usize]
    } else {
        0
    }
}

/// Checks that the 32-byte header at `off` fits 64 bits and reads it.
fn read_header(input: &[u8], off: u128) -> (r: Option<u64>)
    requires
        off <= 0x100,
    ensures
        r is Some <==> header_fits_u64(input@, off as int),
        r is Some ==> r->Some_0 as nat == header_value(input@, off as int),
{
    let mut j: usize = 0;
    while j < 24
        invariant
            j <= 24,
            off <= 0x100,
            forall|k: int| 0 <= k < j ==> #[trigger] padded_byte(input@, off as int + k) == 0,
        decreases 24 - j,
    {
        if read_padded(input, off + j as u128) != 0 {
            return None;
        }
        j = j + 1;
    }
    let b0 = read_padded(input, off + 24) as u64;
    let b1 = read_padded(input, off + 25) as u64;
    let b2 = read_padded(input, off + 26) as u64;
    let b3 = read_padded(input, off + 27) as u64;
    let b4 = read_padded(input, off + 28) as u64;
    let b5 = read_padded(input, off + 29) as u64;
    let b6 = read_padded(input, off + 30) as u64;
    let b7 = read_padded(input, off + 31) as u64;
    Some(
        b0 * 0x100000000000000 + b1 * 0x1000000000000 + b2 * 0x10000000000 + b3 * 0x100000000 + b4
            * 0x1000000 + b5 * 0x10000 + b6 * 0x100 + b7,
    )
}

/// The first non-zero byte of the head decides the bit length.
proof fn lemma_be_bitlen_step(s: Seq<u8>, j: int)
    requires
        0 <= j < s.len(),
        forall|k: int| 0 <= k < j ==> s[k] == 0,
    ensures
        be_bitlen(s) == be_bitlen(s.subrange(j, s.len() as int)),
    decreases j,
{
    if j > 0 {
        lemma_be_bitlen_step(s, j - 1);
        let t = s.subrange(j - 1, s.len() as int);
        assert(t[0] == s[j - 1]);
        assert(be_bitlen(t) == be_bitlen(t.subrange(1, t.len() as int)));
        assert(t.subrange(1, t.len() as int) =~= s.subrange(j, s.len() as int));
    } else {
        assert(s.subrange(0, s.len() as int) =~= s);
    }
}

/// The bit length of the exponent head, scanned from the front.
fn modexp_head_bitlen(input: &[u8], base_len: u64, exp_len: u64) -> (r: u64)
    ensures
        r as nat == be_bitlen(modexp_head(input@, base_len as nat, exp_len as nat)),
{
    let ghost head = modexp_head(input@, base_len as nat, exp_len as nat);
    let head_len: u64 = if exp_len < 32 {
        exp_len
    } else {
        32
    };
    let mut j: u64 = 0;
    while j < head_len
        invariant
            j <= head_len,
            head_len as nat == head.len(),
            head == modexp_head(input@, base_len as nat, exp_len as nat),
            forall|k: int| 0 <= k < j ==> head[k] == 0,
        decreases head_len - j,
    {
        let b = read_padded(input, 96 + base_len as u128 + j as u128);
        assert(b == head[j as int]);
        if b != 0 {
            let bl: u64 = if b >= 128 {
                8
            } else if b >= 64 {
                7
            } else if b >= 32 {
                6
            } else if b >= 16 {
                5
            } else if b >= 8 {
                4
            } else if b >= 4 {
                3
            } else if b >= 2 {
                2
            } else {
                1
            };
            proof {
                lemma_be_bitlen_step(head, j as int);
                let t = head.subrange(j as int, head.len() as int);
                assert(t[0] == head[j as int]);
            }
            return (head_len - 1 - j) * 8 + bl;
        }
        j = j + 1;
    }
    proof {
        if head.len() > 0 {
            lemma_be_bitlen_step(head, head.len() as int - 1);
            let t = head.subrange(head.len() as int - 1, head.len() as int);
            assert(t[0] == 0);
            assert(be_bitlen(t) == be_bitlen(t.subrange(1, t.len() as int)));
            assert(t.subrange(1, t.len() as int) =~= Seq::<u8>::empty());
            assert(be_bitlen(Seq::<u8>::empty()) == 0);
        }
    }
    0
}

/// Byzantium multiplication complexity, exactly as specified.
fn mult_complexity_exec(x: u64) -> (r: u128)
    ensures
        r as nat == mult_complexity(x as nat),
{
    proof {
        assert(x as u128 * x as u128 <= 0xfffffffffffffffe0000000000000001) by (nonlinear_arith)
            requires
                x <= 0xffffffffffffffff,
        ;
    }
    let sq: u128 = x as u128 * x as u128;
    if x <= 64 {
        sq
    } else if x <= 1024 {
        sq / 4 + 96 * x as u128 - 3072
    } else {
        sq / 16 + 480 * x as u128 - 199680
    }
}

/// The modular-exponentiation cost, computed before any native work.
fn modexp_cost_exec(input: &[u8]) -> (r: u128)
    ensures
        r as nat == modexp_cost(input@),
{
    let base_len = match read_header(input, 0) {
        Some(v) => v,
        None => {
            return 0x10000000000000000;
        },
    };
    let exp_len = match read_header(input, 32) {
        Some(v) => v,
        None => {
            return 0x10000000000000000;
        },
    };
    let mod_len = match read_header(input, 64) {
        Some(v) => v,
        None => {
            return 0x10000000000000000;
        },
    };
    let m: u64 = if base_len < mod_len {
        mod_len
    } else {
        base_len
    };
    let mc: u128 = mult_complexity_exec(m);
    let head_bits_raw: u64 = modexp_head_bitlen(input, base_len, exp_len);
    let head_bits: u64 = if head_bits_raw == 0 {
        0
    } else {
        head_bits_raw - 1
    };
    let adj: u128 = if exp_len <= 32 {
        head_bits as u128
    } else {
        8 * (exp_len as u128 - 32) + head_bits as u128
    };
    let adjm: u128 = if adj < 1 {
        1
    } else {
        adj
    };
    if mc > 0 && adjm > 0xffffffffffffffffffffffffffffffff / mc {
        proof {
            assert(mc as nat * adjm as nat >= 0x100000000000000000000000000000000)
                by (nonlinear_arith)
                requires
                    mc > 0,
                    adjm as nat > 0xffffffffffffffffffffffffffffffff as nat / mc as nat,
            ;
        }
        return 0x10000000000000000;
    }
    proof {
        if mc > 0 {
            assert(mc as nat * adjm as nat <= 0xffffffffffffffffffffffffffffffff)
                by (nonlinear_arith)
                requires
                    mc > 0,
                    adjm as nat <= 0xffffffffffffffffffffffffffffffff as nat / mc as nat,
            ;
        }
    }
    mc * adjm / 20
}

/// A precompile request the registry has approved: the cost is computed
/// and covered by the declared gas.
pub struct NativeCall {
    pub op: Precompile,
    pub input: Vec<u8>,
    pub gas_cost: u64,
}

/// What the registry decides for one invocation.
pub enum PrecompileOutcome {
    /// Refused before any native work: validation failure or unpayable gas.
    Refuse(ExitError),
    /// Approved and handed to the native collaborator.
    Run(NativeCall),
    /// Completed in place (the identity operation).
    Done(Vec<u8>, u64),
}

/// Computes the cost of one invocation and gates it against the declared
/// gas limit, before any native work.
fn check_gas(p: Precompile, input: &[u8], gas_limit: u64) -> (r: Result<u64, ExitError>)
    requires
        cost_input_valid(p, input@),
    ensures
        r is Ok <==> precompile_cost(p, input@) <= gas_limit,
        r is Ok ==> r->Ok_0 as nat == precompile_cost(p, input@),
        r is Err ==> r->Err_0 == ExitError::OutOfGas,
{
    let len: usize = input.len();
    let cost: u128 = match p {
        Precompile::EcRecover => 3000,
        Precompile::Sha256 => 60 + 12 * ((len as u128 + 31) / 32),
        Precompile::Ripemd160 => 600 + 120 * ((len as u128 + 31) / 32),
        Precompile::Identity => 15 + 3 * ((len as u128 + 31) / 32),
        Precompile::ModExp => modexp_cost_exec(input),
        Precompile::EcAdd => 150,
        Precompile::EcMul => 6000,
        Precompile::EcPair => 45000 + 34000 * (len as u128 / 192),
        Precompile::Blake2F => {
            let b0 = read_padded(input, 0) as u128;
            let b1 = read_padded(input, 1) as u128;
            let b2 = read_padded(input, 2) as u128;
            let b3 = read_padded(input, 3) as u128;
            b0 * 0x1000000 + b1 * 0x10000 + b2 * 0x100 + b3
        },
    };
    if cost <= gas_limit as u128 {
        Ok(cost as u64)
    } else {
        Err(ExitError::OutOfGas)
    }
}

/// The registry's decision for one invocation: validate the input shape,
/// compute the deterministic cost, refuse up front when the declared gas
/// cannot pay it, and only then hand the operation out (or, for the
/// identity operation, finish it in place with the input as output).
pub fn dispatch_precompile(p: Precompile, input: Vec<u8>, gas_limit: u64) -> (r:
    PrecompileOutcome)
    ensures
        !cost_input_valid(p, input@) ==> (r matches PrecompileOutcome::Refuse(e) && e matches
            ExitError::Other(m) && m@ == "ERR_PRECOMPILE_INVALID_INPUT_LENGTH"@),
        cost_input_valid(p, input@) && precompile_cost(p, input@) > gas_limit ==> r
            == PrecompileOutcome::Refuse(ExitError::OutOfGas),
        cost_input_valid(p, input@) && precompile_cost(p, input@) <= gas_limit ==> match p {
            Precompile::Identity => (r matches PrecompileOutcome::Done(o, g) && o@ == input@ && g
                as nat == precompile_cost(p, input@)),
            _ => (r matches PrecompileOutcome::Run(c) && c.op == p && c.input@ == input@
                && c.gas_cost as nat == precompile_cost(p, input@)),
        },
{
    let valid = match p {
        Precompile::EcPair => input.len() % 192 == 0,
        Precompile::Blake2F => input.len() == 213,
        _ => true,
    };
    if !valid {
        return PrecompileOutcome::Refuse(
            ExitError::Other(String::from_str("ERR_PRECOMPILE_INVALID_INPUT_LENGTH")),
        );
    }
    let cost = match check_gas(p, input.as_slice(), gas_limit) {
        Ok(cost) => cost,
        Err(e) => {
            return PrecompileOutcome::Refuse(e);
        },
    };
    match p {
        Precompile::Identity => PrecompileOutcome::Done(input, cost),
        _ => PrecompileOutcome::Run(NativeCall { op: p, input, gas_cost: cost }),
    }
}

} // verus!
