//! Binding a governance proposal to the exact action it authorizes.
//!
//! At creation a proposal records the Keccak-256 hash of the canonical
//! encoding of its action; at execution the action about to run is encoded
//! and hashed again and must match. The encoding is
//!
//! ```text
//! be32(len(target)) ‖ target ‖ be32(len(params)) ‖ params ‖ be64(proposal_id)
//! ```
//!
//! and is injective: distinct payloads never share an encoding.
use vstd::prelude::*;
use soroban_sdk::{Bytes, Env};

verus! {

/// The host environment through which the hash is computed.
#[verifier::external_type_specification]
#[verifier::external_body]
pub struct ExEnv(Env);

/// The action a proposal authorizes, scoped to one proposal.
#[derive(Clone, Debug)]
pub struct ProposalPayload {
    /// The action's target, such as an encoded contract and function.
    pub target: Vec<u8>,
    /// The action's encoded parameters.
    pub params: Vec<u8>,
    /// The proposal the action is bound to.
    pub proposal_id: u64,
}

/// Why an execution-time payload was refused.
#[derive(Clone, Copy, Debug, PartialEq, Eq, Structural)]
pub enum PayloadBindingError {
    /// The payload does not hash to the value bound at creation.
    PayloadMismatch,
}

impl PayloadBindingError {
    /// The stable numeric code of the error.
    pub fn code(&self) -> (r: u32)
        ensures
            r == 1,
    {
        match self {
            PayloadBindingError::PayloadMismatch => 1,
        }
    }
}

/// The Keccak-256 digest of `data`, as the host computes it.
pub uninterp spec fn keccak256_digest(data: Seq<u8>) -> Seq<u8>;

/// Computes Keccak-256 through the host (`soroban_sdk::crypto::Crypto::keccak256`).
/// The contract claims that the 32 bytes returned depend on the bytes of
/// `data` alone. The host charges the computation to the invocation's
/// budget and traps when that budget is exhausted; that is not stated here.
#[verifier::external_body]
fn keccak256(env: &Env, data: &Vec<u8>) -> (r: [u8; 32])
    ensures
        r@ == keccak256_digest(data@),
{
    env.crypto().keccak256(&Bytes::from_slice(env, data.as_slice())).to_array()
}

/// The 4-byte big-endian encoding of `n`.
pub open spec fn be32(n: u32) -> Seq<u8> {
    seq![
        (n / 0x100_0000) as u8,
        ((n / 0x1_0000) % 0x100) as u8,
        ((n / 0x100) % 0x100) as u8,
        (n % 0x100) as u8,
    ]
}

/// The 8-byte big-endian encoding of `n`.
pub open spec fn be64(n: u64) -> Seq<u8> {
    be32((n / 0x1_0000_0000) as u32) + be32((n % 0x1_0000_0000) as u32)
}

/// The value of a 4-byte big-endian encoding.
pub open spec fn be32_value(s: Seq<u8>) -> int {
    s[0] * 0x100_0000 + s[1] * 0x1_0000 + s[2] * 0x100 + s[3]
}

/// The value of an 8-byte big-endian encoding.
pub open spec fn be64_value(s: Seq<u8>) -> int {
    be32_value(s.subrange(0, 4)) * 0x1_0000_0000 + be32_value(s.subrange(4, 8))
}

/// The canonical encoding of a payload.
pub open spec fn payload_preimage(target: Seq<u8>, params: Seq<u8>, proposal_id: u64) -> Seq<u8> {
    be32(target.len() as u32) + target + be32(params.len() as u32) + params + be64(proposal_id)
}

/// The canonical encoding of `p`.
pub open spec fn payload_encoding(p: ProposalPayload) -> Seq<u8> {
    payload_preimage(p.target@, p.params@, p.proposal_id)
}

/// A payload whose fields the encoding can describe.
pub open spec fn payload_encodable(p: ProposalPayload) -> bool {
    p.target@.len() <= u32::MAX && p.params@.len() <= u32::MAX
}

proof fn lemma_be32_roundtrip(n: u32)
    ensures
        be32(n).len() == 4,
        be32_value(be32(n)) == n,
{
    let a = n / 0x100_0000;
    let b = (n / 0x1_0000) % 0x100;
    let c = (n / 0x100) % 0x100;
    let d = n % 0x100;
    assert(a * 0x100_0000 + b * 0x1_0000 + c * 0x100 + d == n) by (nonlinear_arith)
        requires
            a == n / 0x100_0000,
            b == (n / 0x1_0000) % 0x100,
            c == (n / 0x100) % 0x100,
            d == n % 0x100,
    ;
    assert(a < 0x100) by (nonlinear_arith)
        requires
            a == n / 0x100_0000,
            n <= 0xffff_ffff,
    ;
}

proof fn lemma_be64_roundtrip(n: u64)
    ensures
        be64(n).len() == 8,
        be64_value(be64(n)) == n,
{
    let hi = (n / 0x1_0000_0000) as u32;
    let lo = (n % 0x1_0000_0000) as u32;
    assert(n / 0x1_0000_0000 < 0x1_0000_0000) by (nonlinear_arith)
        requires
            n <= 0xffff_ffff_ffff_ffff,
    ;
    lemma_be32_roundtrip(hi);
    lemma_be32_roundtrip(lo);
    let s = be64(n);
    assert(s.subrange(0, 4) =~= be32(hi));
    assert(s.subrange(4, 8) =~= be32(lo));
    assert(hi * 0x1_0000_0000 + lo == n) by (nonlinear_arith)
        requires
            hi == n / 0x1_0000_0000,
            lo == n % 0x1_0000_0000,
    ;
}

/// Appends the 4-byte big-endian encoding of `value` to `buf`.
fn append_be32(buf: &mut Vec<u8>, value: u32)
    ensures
        final(buf)@ == old(buf)@ + be32(value),
{
    buf.push((value / 0x100_0000) as u8);
    buf.push(((value / 0x1_0000) % 0x100) as u8);
    buf.push(((value / 0x100) % 0x100) as u8);
    buf.push((value % 0x100) as u8);
    assert(buf@ =~= old(buf)@ + be32(value));
}

/// Appends `bytes` to `buf`.
fn append_bytes(buf: &mut Vec<u8>, bytes: &Vec<u8>)
    ensures
        final(buf)@ == old(buf)@ + bytes@,
{
    let n = bytes.len();
    let mut i: usize = 0;
    while i < n
        invariant
            n == bytes.len(),
            0 <= i <= n,
            buf@ == old(buf)@ + bytes@.take(i as int),
        decreases n - i,
    {
        buf.push(bytes[i]);
        i = i + 1;
        assert(buf@ =~= old(buf)@ + bytes@.take(i as int));
    }
    assert(bytes@.take(n as int) =~= bytes@);
}

/// Builds the canonical encoding of a payload.
fn encode_payload(payload: &ProposalPayload) -> (r: Vec<u8>)
    requires
        payload_encodable(*payload),
    ensures
        r@ == payload_encoding(*payload),
{
    let mut buf: Vec<u8> = Vec::new();
    append_be32(&mut buf, payload.target.len() as u32);
    append_bytes(&mut buf, &payload.target);
    append_be32(&mut buf, payload.params.len() as u32);
    append_bytes(&mut buf, &payload.params);
    let id = payload.proposal_id;
    append_be32(&mut buf, (id / 0x1_0000_0000) as u32);
    append_be32(&mut buf, (id % 0x1_0000_0000) as u32);
    proof {
        assert(buf@ =~= payload_encoding(*payload));
    }
    buf
}

/// The hash binding a payload's target, parameters and proposal id: the
/// Keccak-256 digest of its canonical encoding.
pub fn compute_payload_hash(env: &Env, payload: &ProposalPayload) -> (r: [u8; 32])
    requires
        payload_encodable(*payload),
    ensures
        r@ == keccak256_digest(payload_encoding(*payload)),
{
    let preimage = encode_payload(payload);
    keccak256(env, &preimage)
}

/// The hash to record when a proposal is created.
pub fn bind_payload(env: &Env, payload: &ProposalPayload) -> (r: [u8; 32])
    requires
        payload_encodable(*payload),
    ensures
        r@ == keccak256_digest(payload_encoding(*payload)),
{
    compute_payload_hash(env, payload)
}

/// Compares a recomputed hash with the one bound at creation.
pub fn check_payload_hash(recomputed: &[u8; 32], bound_hash: &[u8; 32]) -> (res: Result<
    (),
    PayloadBindingError,
>)
    ensures
        res is Ok <==> recomputed@ == bound_hash@,
        res is Err ==> res == Err::<(), PayloadBindingError>(PayloadBindingError::PayloadMismatch),
{
    let mut i: usize = 0;
    while i < 32
        invariant
            0 <= i <= 32,
            forall|j: int| 0 <= j < i ==> recomputed@[j] == bound_hash@[j],
        decreases 32 - i,
    {
        if recomputed[i] != bound_hash[i] {
            return Err(PayloadBindingError::PayloadMismatch);
        }
        i = i + 1;
    }
    assert(recomputed@ =~= bound_hash@);
    Ok(())
}

/// Checks, before an action runs, that its payload hashes to the value bound
/// at creation.
pub fn verify_payload(env: &Env, bound_hash: &[u8; 32], payload: &ProposalPayload) -> (res:
    Result<(), PayloadBindingError>)
    requires
        payload_encodable(*payload),
    ensures
        res is Ok <==> keccak256_digest(payload_encoding(*payload)) == bound_hash@,
        res is Err ==> res == Err::<(), PayloadBindingError>(PayloadBindingError::PayloadMismatch),
{
    let recomputed = compute_payload_hash(env, payload);
    check_payload_hash(&recomputed, bound_hash)
}

/// The canonical encoding is injective: two payloads whose fields the
/// encoding can describe share an encoding only if their targets, their
/// parameters and their proposal ids are all equal. In particular the
/// length prefixes keep bytes from shifting across the field boundary.
pub proof fn law_encoding_is_injective(
    target1: Seq<u8>,
    params1: Seq<u8>,
    id1: u64,
    target2: Seq<u8>,
    params2: Seq<u8>,
    id2: u64,
)
    requires
        target1.len() <= u32::MAX,
        params1.len() <= u32::MAX,
        target2.len() <= u32::MAX,
        params2.len() <= u32::MAX,
        payload_preimage(target1, params1, id1) == payload_preimage(target2, params2, id2),
    ensures
        target1 == target2,
        params1 == params2,
        id1 == id2,
{
    let e = payload_preimage(target1, params1, id1);
    let t1 = target1.len() as u32;
    let t2 = target2.len() as u32;
    let p1 = params1.len() as u32;
    let p2 = params2.len() as u32;
    lemma_be32_roundtrip(t1);
    lemma_be32_roundtrip(t2);
    lemma_be32_roundtrip(p1);
    lemma_be32_roundtrip(p2);
    lemma_be64_roundtrip(id1);
    lemma_be64_roundtrip(id2);
    let e2 = payload_preimage(target2, params2, id2);
    assert(e.subrange(0, 4) =~= be32(t1));
    assert(e2.subrange(0, 4) =~= be32(t2));
    assert(target1.len() == target2.len());
    let a: int = 4 + target1.len() as int;
    assert(e.subrange(4, a) =~= target1);
    assert(e2.subrange(4, a) =~= target2);
    assert(e.subrange(a, a + 4) =~= be32(p1));
    assert(e2.subrange(a, a + 4) =~= be32(p2));
    assert(params1.len() == params2.len());
    let b: int = a + 4 + params1.len() as int;
    assert(e.subrange(a + 4, b) =~= params1);
    assert(e2.subrange(a + 4, b) =~= params2);
    assert(e.subrange(b, b + 8) =~= be64(id1));
    assert(e2.subrange(b, b + 8) =~= be64(id2));
}

} // verus!
