//! Input gates for zero-knowledge proof payloads over the Bn254 scalar field.
//!
//! These checks reject malformed input (bad payload length, too many public
//! inputs, non-canonical field encodings) before any cryptographic work.
//! Cryptographic soundness comes from the Groth16 pairing check itself.
use vstd::prelude::*;
use vstd::arithmetic::div_mod::{lemma_fundamental_div_mod_converse, lemma_small_mod, lemma_mod_bound};

verus! {

broadcast use vstd::array::group_array_axioms;

/// Compressed Groth16 proof length for Bn254 (A in G1 + B in G2 + C in G1).
pub const GROTH16_BN254_PROOF_LEN: usize = 128;

/// Upper bound on a serialized proof payload accepted by the on-chain verifier.
pub const MAX_PROOF_LEN: usize = 1024;

/// Minimum plausible proof payload length (rejects empty/trivial inputs).
pub const MIN_PROOF_LEN: usize = 32;

/// Maximum number of public inputs accepted for a Bn254 Groth16 proof.
pub const MAX_PUBLIC_INPUTS: usize = 64;

/// `2^64`.
pub open spec fn two_pow_64() -> nat {
    0x1_0000_0000_0000_0000
}

/// `2^128`.
pub open spec fn two_pow_128() -> nat {
    0x1_0000_0000_0000_0000_0000_0000_0000_0000nat
}

/// `2^192`.
pub open spec fn two_pow_192() -> nat {
    0x1_0000_0000_0000_0000_0000_0000_0000_0000_0000_0000_0000_0000nat
}

/// `2^256`.
pub open spec fn two_pow_256() -> nat {
    0x1_0000_0000_0000_0000_0000_0000_0000_0000_0000_0000_0000_0000_0000_0000_0000_0000nat
}

/// The Bn254 scalar field order r,
/// `0x30644e72e131a029b85045b68181585d2833e84879b9709143e1f593f0000001`:
/// public inputs are canonical below it, and hashes are reduced by it, as
/// `PrimeField::from_le_bytes_mod_order` reduces.
pub open spec fn bn254_modulus() -> nat {
    21888242871839275222246405745257275088548364400416034343698204186575808495617nat
}

/// `256^k`.
pub open spec fn pow256(k: nat) -> nat
    decreases k,
{
    if k == 0 {
        1
    } else {
        256 * pow256((k - 1) as nat)
    }
}

/// Little-endian value of the `j` bytes of `b` starting at `off`.
pub open spec fn le_prefix_value(b: Seq<u8>, off: int, j: nat) -> nat
    decreases j,
{
    if j == 0 {
        0
    } else {
        le_prefix_value(b, off, (j - 1) as nat) + b[off + j - 1] as nat * pow256((j - 1) as nat)
    }
}

/// Little-endian value of the 8 bytes of `b` starting at `off`.
pub open spec fn le_u64_at(b: Seq<u8>, off: int) -> nat {
    b[off] as nat + b[off + 1] as nat * 0x100 + b[off + 2] as nat * 0x1_0000 + b[off + 3] as nat
        * 0x100_0000 + b[off + 4] as nat * 0x1_0000_0000 + b[off + 5] as nat * 0x100_0000_0000
        + b[off + 6] as nat * 0x1_0000_0000_0000 + b[off + 7] as nat * 0x100_0000_0000_0000
}

/// The unsigned integer encoded little-endian by 32 bytes.
pub open spec fn le_value32(b: [u8; 32]) -> nat {
    le_u64_at(b@, 0) + le_u64_at(b@, 8) * two_pow_64() + le_u64_at(b@, 16) * two_pow_128()
        + le_u64_at(b@, 24) * two_pow_192()
}

/// The 256-bit integer held by four little-endian 64-bit limbs.
pub open spec fn limbs_value(l: [u64; 4]) -> nat {
    l[0] as nat + l[1] as nat * two_pow_64() + l[2] as nat * two_pow_128() + l[3] as nat
        * two_pow_192()
}

/// The bytes encode a canonical Bn254 scalar: strictly below the field order.
pub open spec fn is_canonical(b: [u8; 32]) -> bool {
    le_value32(b) < bn254_modulus()
}

/// Little-endian value of limbs `0..i`, with `2^(64k)` weights.
pub open spec fn limbs_prefix_value(l: Seq<u64>, i: nat) -> int
    decreases i,
{
    if i == 0 {
        0
    } else {
        limbs_prefix_value(l, (i - 1) as nat) + l[i - 1] as int * pow256((8 * (i - 1)) as nat)
    }
}

proof fn lemma_pow256_values()
    ensures
        pow256(0) == 1,
        pow256(1) == 0x100,
        pow256(2) == 0x1_0000,
        pow256(3) == 0x100_0000,
        pow256(4) == 0x1_0000_0000,
        pow256(5) == 0x100_0000_0000,
        pow256(6) == 0x1_0000_0000_0000,
        pow256(7) == 0x100_0000_0000_0000,
        pow256(8) == two_pow_64(),
        pow256(16) == two_pow_128(),
        pow256(24) == two_pow_192(),
        pow256(32) == two_pow_256(),
{
    reveal_with_fuel(pow256, 33);
}

/// Setting byte `j` of a limb under construction: the OR adds `b * 256^j`.
proof fn lemma_or_byte(acc: u64, b: u64, j: u64, shift: u64)
    requires
        j < 8,
        shift == 8 * j,
        b < 256,
        acc < pow256(j as nat),
    ensures
        (acc | (b << shift)) == acc + b * pow256(j as nat),
        acc + b * pow256(j as nat) < pow256((j + 1) as nat),
{
    lemma_pow256_values();
    if j == 0 {
        assert((acc | (b << shift)) == acc + b) by (bit_vector)
            requires
                acc < 1u64,
                b < 256u64,
                shift == 0u64,
        ;
    } else if j == 1 {
        assert((acc | (b << shift)) == acc + b * 0x100) by (bit_vector)
            requires
                acc < 0x100u64,
                b < 256u64,
                shift == 8u64,
        ;
    } else if j == 2 {
        assert((acc | (b << shift)) == acc + b * 0x1_0000) by (bit_vector)
            requires
                acc < 0x1_0000u64,
                b < 256u64,
                shift == 16u64,
        ;
    } else if j == 3 {
        assert((acc | (b << shift)) == acc + b * 0x100_0000) by (bit_vector)
            requires
                acc < 0x100_0000u64,
                b < 256u64,
                shift == 24u64,
        ;
    } else if j == 4 {
        assert((acc | (b << shift)) == acc + b * 0x1_0000_0000) by (bit_vector)
            requires
                acc < 0x1_0000_0000u64,
                b < 256u64,
                shift == 32u64,
        ;
    } else if j == 5 {
        assert((acc | (b << shift)) == acc + b * 0x100_0000_0000) by (bit_vector)
            requires
                acc < 0x100_0000_0000u64,
                b < 256u64,
                shift == 40u64,
        ;
    } else if j == 6 {
        assert((acc | (b << shift)) == acc + b * 0x1_0000_0000_0000) by (bit_vector)
            requires
                acc < 0x1_0000_0000_0000u64,
                b < 256u64,
                shift == 48u64,
        ;
    } else {
        assert((acc | (b << shift)) == acc + b * 0x100_0000_0000_0000) by (bit_vector)
            requires
                acc < 0x100_0000_0000_0000u64,
                b < 256u64,
                shift == 56u64,
        ;
    }
}

/// A 64-bit value is the little-endian sum of its eight bytes.
proof fn lemma_limb_bytes(x: u64)
    ensures
        x == (x & 0xff) + ((x >> 8u64) & 0xff) * 0x100 + ((x >> 16u64) & 0xff) * 0x1_0000 + ((x
            >> 24u64) & 0xff) * 0x100_0000 + ((x >> 32u64) & 0xff) * 0x1_0000_0000 + ((x >> 40u64)
            & 0xff) * 0x100_0000_0000 + ((x >> 48u64) & 0xff) * 0x1_0000_0000_0000 + ((x >> 56u64)
            & 0xff) * 0x100_0000_0000_0000,
{
    assert(x == (x & 0xff) + ((x >> 8u64) & 0xff) * 0x100 + ((x >> 16u64) & 0xff) * 0x1_0000 + ((x
        >> 24u64) & 0xff) * 0x100_0000 + ((x >> 32u64) & 0xff) * 0x1_0000_0000 + ((x >> 40u64)
        & 0xff) * 0x100_0000_0000 + ((x >> 48u64) & 0xff) * 0x1_0000_0000_0000 + ((x >> 56u64)
        & 0xff) * 0x100_0000_0000_0000) by (bit_vector);
}

/// Eight bytes assembled one at a time give the 8-byte little-endian value.
proof fn lemma_prefix_eight(b: Seq<u8>, off: int)
    ensures
        le_prefix_value(b, off, 8) == le_u64_at(b, off),
{
    reveal_with_fuel(le_prefix_value, 9);
    lemma_pow256_values();
}

/// Byte `m` (little-endian) of a 64-bit limb.
pub open spec fn byte_of(limb: u64, m: int) -> u64 {
    (limb >> ((8 * m) as u64)) & 0xff
}

/// Interpret 32 little-endian bytes as four little-endian u64 limbs.
fn limbs_from_bytes_le(bytes: &[u8; 32]) -> (limbs: [u64; 4])
    ensures
        forall|i: int| 0 <= i < 4 ==> limbs[i] == le_u64_at(bytes@, 8 * i),
        limbs_value(limbs) == le_value32(*bytes),
{
    let mut limbs = [0u64; 4];
    let mut i: usize = 0;
    while i < 4
        invariant
            i <= 4,
            forall|k: int| 0 <= k < i ==> limbs[k] == le_u64_at(bytes@, 8 * k),
        decreases 4 - i,
    {
        let mut acc: u64 = 0;
        let mut j: usize = 0;
        proof {
            lemma_pow256_values();
        }
        while j < 8
            invariant
                i < 4,
                j <= 8,
                acc == le_prefix_value(bytes@, 8 * i, j as nat),
                acc < pow256(j as nat),
            decreases 8 - j,
        {
            let shift: u64 = (8 * j) as u64;
            let byte = bytes[i * 8 + j] as u64;
            proof {
                lemma_or_byte(acc, byte, j as u64, shift);
            }
            acc = acc | (byte << shift);
            j = j + 1;
        }
        proof {
            lemma_prefix_eight(bytes@, 8 * i);
        }
        limbs[i] = acc;
        i = i + 1;
    }
    limbs
}

/// Serialize four little-endian u64 limbs back into 32 little-endian bytes.
fn limbs_to_bytes_le(limbs: &[u64; 4]) -> (out: [u8; 32])
    ensures
        forall|i: int| 0 <= i < 4 ==> le_u64_at(out@, 8 * i) == limbs[i],
        le_value32(out) == limbs_value(*limbs),
{
    let mut out = [0u8; 32];
    let mut i: usize = 0;
    while i < 4
        invariant
            i <= 4,
            forall|k: int| 0 <= k < i ==> #[trigger] le_u64_at(out@, 8 * k) == limbs[k],
        decreases 4 - i,
    {
        let limb = limbs[i];
        let mut j: usize = 0;
        while j < 8
            invariant
                i < 4,
                j <= 8,
                limb == limbs[i as int],
                forall|k: int| 0 <= k < i ==> #[trigger] le_u64_at(out@, 8 * k) == limbs[k],
                forall|m: int| 0 <= m < j ==> out@[8 * i + m] as u64 == #[trigger] byte_of(limb, m),
            decreases 8 - j,
        {
            let shift: u64 = (8 * j) as u64;
            let v = (limb >> shift) & 0xff;
            assert(v < 256) by (bit_vector)
                requires
                    v == (limb >> shift) & 0xff,
            ;
            let ghost prev = out@;
            out[i * 8 + j] = v as u8;
            assert forall|k: int| 0 <= k < i implies #[trigger] le_u64_at(out@, 8 * k) == le_u64_at(
                prev,
                8 * k,
            ) by {}
            j = j + 1;
        }
        proof {
            lemma_limb_bytes(limb);
            assert(out@[8 * i + 0] as u64 == byte_of(limb, 0));
            assert(out@[8 * i + 1] as u64 == byte_of(limb, 1));
            assert(out@[8 * i + 2] as u64 == byte_of(limb, 2));
            assert(out@[8 * i + 3] as u64 == byte_of(limb, 3));
            assert(out@[8 * i + 4] as u64 == byte_of(limb, 4));
            assert(out@[8 * i + 5] as u64 == byte_of(limb, 5));
            assert(out@[8 * i + 6] as u64 == byte_of(limb, 6));
            assert(out@[8 * i + 7] as u64 == byte_of(limb, 7));
            assert((limb >> 0u64) == limb) by (bit_vector);
        }
        i = i + 1;
    }
    assert(le_u64_at(out@, 8 * (0 as int)) == limbs[0]);
    assert(le_u64_at(out@, 8 * (1 as int)) == limbs[1]);
    assert(le_u64_at(out@, 8 * (2 as int)) == limbs[2]);
    assert(le_u64_at(out@, 8 * (3 as int)) == limbs[3]);
    out
}

/// If the limbs above `i` agree and `a` is larger at limb `i`, then `a > b`.
proof fn lemma_limbs_lex_gt(a: [u64; 4], b: [u64; 4], i: int)
    requires
        0 <= i < 4,
        a[i] > b[i],
        forall|k: int| i < k < 4 ==> a[k] == b[k],
    ensures
        limbs_value(a) > limbs_value(b),
{
    if i == 0 {
        assert(a[1] == b[1] && a[2] == b[2] && a[3] == b[3]);
    } else if i == 1 {
        assert(a[2] == b[2] && a[3] == b[3]);
    } else if i == 2 {
        assert(a[3] == b[3]);
    }
}

/// Compare two 256-bit little-endian limb arrays: `a >= b`.
fn limbs_ge(a: &[u64; 4], b: &[u64; 4]) -> (r: bool)
    ensures
        r == (limbs_value(*a) >= limbs_value(*b)),
{
    let mut i: usize = 4;
    while i > 0
        invariant
            i <= 4,
            forall|k: int| i <= k < 4 ==> a[k] == b[k],
        decreases i,
    {
        i = i - 1;
        if a[i] > b[i] {
            proof {
                lemma_limbs_lex_gt(*a, *b, i as int);
            }
            return true;
        }
        if a[i] < b[i] {
            proof {
                lemma_limbs_lex_gt(*b, *a, i as int);
            }
            return false;
        }
    }
    true
}

proof fn lemma_limbs_prefix_four(l: [u64; 4])
    ensures
        limbs_prefix_value(l@, 4) == limbs_value(l),
{
    reveal_with_fuel(limbs_prefix_value, 5);
    lemma_pow256_values();
    assert(limbs_prefix_value(l@, 0) == 0);
    assert(pow256((8 * (1 - 1)) as nat) == 1);
    assert(limbs_prefix_value(l@, 1) == limbs_prefix_value(l@, 0) + l@[0] as int * pow256((8 * (1 - 1)) as nat));
    assert(limbs_prefix_value(l@, 1) == l[0] as int);
    assert(limbs_prefix_value(l@, 2) == l[0] as int + l[1] as int * two_pow_64());
    assert(limbs_prefix_value(l@, 3) == l[0] as int + l[1] as int * two_pow_64() + l[2] as int
        * two_pow_128());
}

proof fn lemma_limbs_prefix_update(s: Seq<u64>, j: int, v: u64, i: nat)
    requires
        i <= j < s.len(),
    ensures
        limbs_prefix_value(s.update(j, v), i) == limbs_prefix_value(s, i),
    decreases i,
{
    if i > 0 {
        lemma_limbs_prefix_update(s, j, v, (i - 1) as nat);
    }
}

/// Subtract two 256-bit little-endian limb arrays (requires `a >= b`).
fn limbs_sub(a: &[u64; 4], b: &[u64; 4]) -> (out: [u64; 4])
    requires
        limbs_value(*a) >= limbs_value(*b),
    ensures
        limbs_value(out) == limbs_value(*a) - limbs_value(*b),
{
    let mut out = [0u64; 4];
    let mut borrow = false;
    let mut i: usize = 0;
    while i < 4
        invariant
            i <= 4,
            limbs_prefix_value(out@, i as nat) + limbs_prefix_value(b@, i as nat)
                == limbs_prefix_value(a@, i as nat) + (if borrow {
                pow256((8 * i) as nat) as int
            } else {
                0
            }),
        decreases 4 - i,
    {
        let b1 = a[i] < b[i];
        let d1 = a[i].wrapping_sub(b[i]);
        let borrow_in: u64 = if borrow { 1 } else { 0 };
        let b2 = d1 < borrow_in;
        let d2 = d1.wrapping_sub(borrow_in);
        let ghost prev = out@;
        out[i] = d2;
        borrow = b1 || b2;
        proof {
            let p = pow256((8 * i) as nat) as int;
            assert(pow256((8 * (i + 1)) as nat) == two_pow_64() * pow256((8 * i) as nat))
                by {
                reveal_with_fuel(pow256, 9);
            }
            lemma_limbs_prefix_update(prev, i as int, d2, i as nat);
            let carry: int = if borrow { 1 } else { 0 };
            let bin: int = borrow_in as int;
            assert(d2 as int == a[i as int] as int - b[i as int] as int - bin + carry
                * 0x1_0000_0000_0000_0000);
            assert(d2 as int * p + b[i as int] as int * p + bin * p == a[i as int] as int * p
                + carry * 0x1_0000_0000_0000_0000 * p) by (nonlinear_arith)
                requires
                    d2 as int == a[i as int] as int - b[i as int] as int - bin + carry
                        * 0x1_0000_0000_0000_0000,
            ;
        }
        i = i + 1;
    }
    proof {
        lemma_limbs_prefix_four(out);
        lemma_limbs_prefix_four(*a);
        lemma_limbs_prefix_four(*b);
        lemma_pow256_values();
    }
    out
}

/// The Bn254 scalar field order as little-endian u64 limbs.
fn bn254_modulus_limbs() -> (m: [u64; 4])
    ensures
        limbs_value(m) == bn254_modulus(),
{
    [0x43e1_f593_f000_0001, 0x2833_e848_79b9_7091, 0xb850_45b6_8181_585d, 0x3064_4e72_e131_a029]
}

/// Returns `true` when the 32 little-endian bytes encode a canonical Bn254
/// scalar field element, i.e. the value is strictly less than the group order.
pub fn is_canonical_field_element(bytes: &[u8; 32]) -> (r: bool)
    ensures
        r == is_canonical(*bytes),
{
    let limbs = limbs_from_bytes_le(bytes);
    let modulus = bn254_modulus_limbs();
    let mut i: usize = 4;
    while i > 0
        invariant
            i <= 4,
            limbs_value(modulus) == bn254_modulus(),
            limbs_value(limbs) == le_value32(*bytes),
            forall|k: int| i <= k < 4 ==> limbs[k] == modulus[k],
        decreases i,
    {
        i = i - 1;
        if limbs[i] < modulus[i] {
            proof {
                lemma_limbs_lex_gt(modulus, limbs, i as int);
            }
            return true;
        }
        if limbs[i] > modulus[i] {
            proof {
                lemma_limbs_lex_gt(limbs, modulus, i as int);
            }
            return false;
        }
    }
    false
}

/// Reduce a 32-byte little-endian value modulo the Bn254 scalar field order,
/// returning the canonical 32-byte little-endian representation.
pub fn reduce_mod_bn254(bytes: &[u8; 32]) -> (r: [u8; 32])
    ensures
        le_value32(r) == le_value32(*bytes) % bn254_modulus(),
{
    let modulus = bn254_modulus_limbs();
    let mut h = limbs_from_bytes_le(bytes);
    let ghost mut k: nat = 0;
    loop
        invariant
            limbs_value(modulus) == bn254_modulus(),
            limbs_value(h) + k * bn254_modulus() == le_value32(*bytes),
        ensures
            limbs_value(h) < bn254_modulus(),
            limbs_value(h) + k * bn254_modulus() == le_value32(*bytes),
        decreases limbs_value(h),
    {
        if !limbs_ge(&h, &modulus) {
            break;
        }
        h = limbs_sub(&h, &modulus);
        proof {
            k = k + 1;
        }
    }
    proof {
        lemma_fundamental_div_mod_converse(
            le_value32(*bytes) as int,
            bn254_modulus() as int,
            k as int,
            limbs_value(h) as int,
        );
    }
    limbs_to_bytes_le(&h)
}

/// The payload length lies inside the accepted window.
pub open spec fn proof_payload_in_window(len: nat) -> bool {
    len > 0 && len >= MIN_PROOF_LEN && len <= MAX_PROOF_LEN
}

/// Returns `true` when the serialized proof payload is inside the accepted
/// length window.
pub fn validate_proof_payload(payload: &[u8]) -> (r: bool)
    ensures
        r == proof_payload_in_window(payload@.len()),
{
    !(payload.len() == 0) && payload.len() >= MIN_PROOF_LEN && payload.len() <= MAX_PROOF_LEN
}

/// The public-input set is non-empty, bounded and fully canonical.
pub open spec fn public_inputs_well_formed(inputs: Seq<[u8; 32]>) -> bool {
    &&& inputs.len() > 0
    &&& inputs.len() <= MAX_PUBLIC_INPUTS
    &&& forall|i: int| 0 <= i < inputs.len() ==> is_canonical(#[trigger] inputs[i])
}

/// Returns `true` when the public-input set is well-formed: non-empty,
/// bounded in size, and every element is a canonical Bn254 scalar.
pub fn validate_public_inputs(inputs: &[[u8; 32]]) -> (r: bool)
    ensures
        r == public_inputs_well_formed(inputs@),
{
    if inputs.len() == 0 || inputs.len() > MAX_PUBLIC_INPUTS {
        return false;
    }
    let mut i: usize = 0;
    while i < inputs.len()
        invariant
            i <= inputs@.len(),
            forall|k: int| 0 <= k < i ==> is_canonical(#[trigger] inputs@[k]),
        decreases inputs@.len() - i,
    {
        if !is_canonical_field_element(&inputs[i]) {
            return false;
        }
        i = i + 1;
    }
    true
}

/// Reduction yields a canonical value, leaves canonical values unchanged,
/// and is idempotent.
pub proof fn law_reduction_is_canonical_and_idempotent(x: [u8; 32])
    ensures
        le_value32(x) % bn254_modulus() < bn254_modulus(),
        (le_value32(x) % bn254_modulus()) % bn254_modulus() == le_value32(x) % bn254_modulus(),
        is_canonical(x) ==> le_value32(x) % bn254_modulus() == le_value32(x),
{
    let m = bn254_modulus();
    lemma_mod_bound(le_value32(x) as int, m as int);
    lemma_small_mod(le_value32(x) % m, m);
    if is_canonical(x) {
        lemma_small_mod(le_value32(x), m);
    }
}

/// Eight bytes are determined by their little-endian value.
proof fn lemma_u64_bytes_unique(a: Seq<u8>, b: Seq<u8>, off: int)
    requires
        0 <= off,
        off + 8 <= a.len(),
        off + 8 <= b.len(),
        le_u64_at(a, off) == le_u64_at(b, off),
    ensures
        forall|i: int| 0 <= i < 8 ==> #[trigger] a[off + i] == b[off + i],
{
    let (a0, a1, a2, a3, a4, a5, a6, a7) = (a[off], a[off + 1], a[off + 2], a[off + 3], a[off + 4], a[off + 5], a[off + 6], a[off + 7]);
    let (b0, b1, b2, b3, b4, b5, b6, b7) = (b[off], b[off + 1], b[off + 2], b[off + 3], b[off + 4], b[off + 5], b[off + 6], b[off + 7]);
    assert(a0 == b0 && a1 == b1 && a2 == b2 && a3 == b3 && a4 == b4 && a5 == b5 && a6 == b6 && a7 == b7) by (bit_vector)
        requires
            a0 as int + a1 as int * 0x100 + a2 as int * 0x1_0000 + a3 as int * 0x100_0000 + a4 as int
                * 0x1_0000_0000 + a5 as int * 0x100_0000_0000 + a6 as int * 0x1_0000_0000_0000 + a7 as int
                * 0x100_0000_0000_0000 == b0 as int + b1 as int * 0x100 + b2 as int * 0x1_0000 + b3 as int
                * 0x100_0000 + b4 as int * 0x1_0000_0000 + b5 as int * 0x100_0000_0000 + b6 as int
                * 0x1_0000_0000_0000 + b7 as int * 0x100_0000_0000_0000,
    ;
    assert forall|i: int| 0 <= i < 8 implies #[trigger] a[off + i] == b[off + i] by {
        if i == 0 {} else if i == 1 {} else if i == 2 {} else if i == 3 {} else if i == 4 {} else if i == 5 {} else if i == 6 {} else {}
    }
}

/// A value below `base` plus `base` times another is determined digit by
/// digit.
proof fn lemma_digits_unique(x0: int, y0: int, x1: int, y1: int, base: int)
    requires
        0 <= x0 < base,
        0 <= x1 < base,
        x0 + base * y0 == x1 + base * y1,
    ensures
        x0 == x1,
        y0 == y1,
{
    if y0 > y1 {
        assert(base * y0 >= base * (y1 + 1)) by (nonlinear_arith)
            requires
                y0 >= y1 + 1,
                base > 0,
        ;
        assert(base * (y1 + 1) == base * y1 + base) by (nonlinear_arith);
    } else if y1 > y0 {
        assert(base * y1 >= base * (y0 + 1)) by (nonlinear_arith)
            requires
                y1 >= y0 + 1,
                base > 0,
        ;
        assert(base * (y0 + 1) == base * y0 + base) by (nonlinear_arith);
    }
}

/// Thirty-two bytes are determined by their little-endian value.
pub proof fn lemma_le_value32_injective(a: [u8; 32], b: [u8; 32])
    requires
        le_value32(a) == le_value32(b),
    ensures
        a == b,
{
    let ca = seq![le_u64_at(a@, 0), le_u64_at(a@, 8), le_u64_at(a@, 16), le_u64_at(a@, 24)];
    let cb = seq![le_u64_at(b@, 0), le_u64_at(b@, 8), le_u64_at(b@, 16), le_u64_at(b@, 24)];
    assert forall|k: int| 0 <= k < 4 implies #[trigger] ca[k] < two_pow_64() && cb[k] < two_pow_64() by {
        let off = 8 * k;
        assert(a@[off] < 256 && a@[off + 1] < 256 && a@[off + 2] < 256 && a@[off + 3] < 256);
        assert(a@[off + 4] < 256 && a@[off + 5] < 256 && a@[off + 6] < 256 && a@[off + 7] < 256);
        assert(b@[off] < 256 && b@[off + 1] < 256 && b@[off + 2] < 256 && b@[off + 3] < 256);
        assert(b@[off + 4] < 256 && b@[off + 5] < 256 && b@[off + 6] < 256 && b@[off + 7] < 256);
    }
    assert(ca[0] < two_pow_64() && cb[0] < two_pow_64());
    assert(ca[1] < two_pow_64() && cb[1] < two_pow_64());
    assert(ca[2] < two_pow_64() && cb[2] < two_pow_64());
    assert(ca[3] < two_pow_64() && cb[3] < two_pow_64());
    let ra = ca[1] + ca[2] * two_pow_64() + ca[3] * two_pow_128();
    let rb = cb[1] + cb[2] * two_pow_64() + cb[3] * two_pow_128();
    assert(le_value32(a) == ca[0] + two_pow_64() * ra);
    assert(le_value32(b) == cb[0] + two_pow_64() * rb);
    lemma_digits_unique(ca[0] as int, ra as int, cb[0] as int, rb as int, two_pow_64() as int);
    let sa = ca[2] + ca[3] * two_pow_64();
    let sb = cb[2] + cb[3] * two_pow_64();
    assert(ra == ca[1] + two_pow_64() * sa);
    assert(rb == cb[1] + two_pow_64() * sb);
    lemma_digits_unique(ca[1] as int, sa as int, cb[1] as int, sb as int, two_pow_64() as int);
    lemma_digits_unique(ca[2] as int, ca[3] as int, cb[2] as int, cb[3] as int, two_pow_64() as int);
    lemma_u64_bytes_unique(a@, b@, 0);
    lemma_u64_bytes_unique(a@, b@, 8);
    lemma_u64_bytes_unique(a@, b@, 16);
    lemma_u64_bytes_unique(a@, b@, 24);
    assert forall|i: int| 0 <= i < 32 implies a@[i] == b@[i] by {
        if i < 8 {
            assert(a@[0 + i] == b@[0 + i]);
        } else if i < 16 {
            assert(a@[8 + (i - 8)] == b@[8 + (i - 8)]);
        } else if i < 24 {
            assert(a@[16 + (i - 16)] == b@[16 + (i - 16)]);
        } else {
            assert(a@[24 + (i - 24)] == b@[24 + (i - 24)]);
        }
    }
    assert(a@ =~= b@);
}

} // verus!
