//! The commitment primitives: a trusted two-point Pedersen hash, a verified
//! hash over element sequences, and the short-string encoding of a chain
//! identifier. The per-kind transaction hash recipes are built on these.

use vstd::prelude::*;

use crate::felt::{felt_views, Felt252Wrapper};
use crate::transaction::{DeclareModel, DeclareTransaction, DeployAccountModel,
    DeployAccountTransaction, InvokeModel, InvokeTransaction};
use vstd::arithmetic::div_mod::lemma_fundamental_div_mod_converse;
use vstd::string::StringSliceAdditionalSpecFns;

verus! {

/// The two-point Pedersen hash over the 252-bit Stark field, named by its
/// arguments' integer values. Its result depends on those values alone.
pub uninterp spec fn pedersen_of(a: int, b: int) -> int;

/// Relies on `starknet_core::crypto::pedersen_hash` (starknet-crypto's
/// Pedersen hash): a pure, deterministic function of its two field-element
/// arguments whose result is again a field element below the prime.
#[verifier::external_body]
fn pedersen(a: &Felt252Wrapper, b: &Felt252Wrapper) -> (r: Felt252Wrapper)
    requires
        a.valid(),
        b.valid(),
    ensures
        r.valid(),
        r@ == pedersen_of(a@, b@),
{
    let mut ab = [0u8; 32];
    ab[..16].copy_from_slice(&a.hi.to_be_bytes());
    ab[16..].copy_from_slice(&a.lo.to_be_bytes());
    let mut bb = [0u8; 32];
    bb[..16].copy_from_slice(&b.hi.to_be_bytes());
    bb[16..].copy_from_slice(&b.lo.to_be_bytes());
    let fa = starknet_core::types::FieldElement::from_bytes_be(&ab).unwrap();
    let fb = starknet_core::types::FieldElement::from_bytes_be(&bb).unwrap();
    let h = starknet_core::crypto::pedersen_hash(&fa, &fb).to_bytes_be();
    Felt252Wrapper {
        hi: u128::from_be_bytes(h[..16].try_into().unwrap()),
        lo: u128::from_be_bytes(h[16..].try_into().unwrap()),
    }
}

/// Folds the two-point hash over a sequence, starting from zero.
pub open spec fn spec_chain_fold(elems: Seq<int>) -> int
    decreases elems.len(),
{
    if elems.len() == 0 {
        0
    } else {
        pedersen_of(spec_chain_fold(elems.drop_last()), elems.last())
    }
}

/// The hash of a sequence of field elements: the fold of the two-point
/// hash over the elements, closed with the element count.
pub open spec fn spec_hash_on_elements(elems: Seq<int>) -> int {
    pedersen_of(spec_chain_fold(elems), elems.len() as int)
}

/// Hashes a sequence of field elements.
pub fn hash_on_elements(elems: &Vec<Felt252Wrapper>) -> (r: Felt252Wrapper)
    requires
        forall|i: int| 0 <= i < elems@.len() ==> (#[trigger] elems@[i]).valid(),
        elems@.len() <= u64::MAX,
    ensures
        r.valid(),
        r@ == spec_hash_on_elements(felt_views(elems@)),
{
    let mut acc = Felt252Wrapper::zero();
    let n = elems.len();
    assert(felt_views(elems@).take(0) =~= Seq::<int>::empty());
    for i in 0..n
        invariant
            n == elems@.len(),
            n <= u64::MAX,
            forall|j: int| 0 <= j < elems@.len() ==> (#[trigger] elems@[j]).valid(),
            acc.valid(),
            acc@ == spec_chain_fold(felt_views(elems@).take(i as int)),
    {
        acc = pedersen(&acc, &elems[i]);
        proof {
            let vs = felt_views(elems@);
            assert(vs.take(i + 1).drop_last() =~= vs.take(i as int));
            assert(vs.take(i + 1).last() == elems@[i as int]@);
        }
    }
    proof {
        assert(felt_views(elems@).take(n as int) =~= felt_views(elems@));
    }
    let count = Felt252Wrapper::from_u64(n as u64);
    pedersen(&acc, &count)
}

/// The big-endian integer reading of a byte sequence.
pub open spec fn bytes_be_value(s: Seq<u8>) -> int
    decreases s.len(),
{
    if s.len() == 0 {
        0
    } else {
        bytes_be_value(s.drop_last()) * 256 + s.last()
    }
}

/// 256 raised to the given power.
pub open spec fn pow256(n: nat) -> int
    decreases n,
{
    if n == 0 {
        1
    } else {
        pow256((n - 1) as nat) * 256
    }
}

proof fn lemma_pow256_pos(n: nat)
    ensures
        pow256(n) >= 1,
    decreases n,
{
    if n > 0 {
        lemma_pow256_pos((n - 1) as nat);
    }
}

proof fn lemma_pow256_mono(a: nat, b: nat)
    requires
        a <= b,
    ensures
        pow256(a) <= pow256(b),
    decreases b,
{
    lemma_pow256_pos(a);
    if a < b {
        lemma_pow256_mono(a, (b - 1) as nat);
        lemma_pow256_pos((b - 1) as nat);
    }
}

/// Reading a concatenation: the left part is shifted by the length of the
/// right part.
proof fn lemma_bytes_be_value_split(a: Seq<u8>, b: Seq<u8>)
    ensures
        bytes_be_value(a + b) == bytes_be_value(a) * pow256(b.len()) + bytes_be_value(b),
    decreases b.len(),
{
    if b.len() == 0 {
        assert(a + b =~= a);
    } else {
        lemma_bytes_be_value_split(a, b.drop_last());
        assert((a + b).drop_last() =~= a + b.drop_last());
        assert((a + b).last() == b.last());
        let va = bytes_be_value(a);
        let p = pow256((b.len() - 1) as nat);
        assert((va * p + bytes_be_value(b.drop_last())) * 256 == (va * p) * 256
            + bytes_be_value(b.drop_last()) * 256) by (nonlinear_arith);
        assert((va * p) * 256 == va * (p * 256)) by (nonlinear_arith);
    }
}

/// Encodes a chain identifier as a field element: the big-endian integer
/// reading of the identifier's bytes, the usual short-string encoding.
/// At most 31 bytes are accepted, so the value stays below the prime.
pub fn chain_id_felt(chain_id: &str) -> (r: Felt252Wrapper)
    requires
        chain_id.spec_bytes().len() <= 31,
    ensures
        r.valid(),
        r@ == bytes_be_value(chain_id.spec_bytes()),
{
    let bytes: &[u8] = chain_id.as_bytes();
    let n = bytes.len();
    let split = if n > 16 {
        n - 16
    } else {
        0
    };
    let ghost bs = chain_id.spec_bytes();
    let mut hi: u128 = 0;
    let mut lo: u128 = 0;
    assert(bs.take(0) =~= Seq::<u8>::empty());
    for i in 0..split
        invariant
            bytes@ == bs,
            n == bs.len(),
            n <= 31,
            split == if n > 16 { n - 16 } else { 0int },
            hi == bytes_be_value(bs.take(i as int)),
            hi < pow256(i as nat),
    {
        proof {
            lemma_pow256_mono(i as nat, 14);
            reveal_with_fuel(pow256, 16);
            assert(bs.take(i + 1).drop_last() =~= bs.take(i as int));
        }
        hi = hi * 256 + bytes[i] as u128;
        proof {
            lemma_pow256_pos(i as nat);
        }
    }
    assert(bs.subrange(split as int, split as int) =~= Seq::<u8>::empty());
    for i in split..n
        invariant
            bytes@ == bs,
            n == bs.len(),
            n <= 31,
            split <= i <= n,
            split == if n > 16 { n - 16 } else { 0int },
            lo == bytes_be_value(bs.subrange(split as int, i as int)),
            lo < pow256((i - split) as nat),
    {
        proof {
            lemma_pow256_mono((i - split) as nat, 15);
            reveal_with_fuel(pow256, 17);
            assert(bs.subrange(split as int, i + 1).drop_last() =~= bs.subrange(
                split as int,
                i as int,
            ));
        }
        lo = lo * 256 + bytes[i] as u128;
        proof {
            lemma_pow256_pos((i - split) as nat);
        }
    }
    proof {
        let a = bs.take(split as int);
        let b = bs.subrange(split as int, n as int);
        assert(a + b =~= bs);
        lemma_bytes_be_value_split(a, b);
        lemma_pow256_mono(split as nat, 15);
        reveal_with_fuel(pow256, 17);
        if n > 16 {
            assert(b.len() == 16);
            assert(pow256(16) == 0x10000000000000000int * 0x10000000000000000);
            assert(bytes_be_value(bs) == hi * pow256(16) + lo);
            assert(hi * pow256(16) == (hi * 0x10000000000000000) * 0x10000000000000000)
                by (nonlinear_arith)
                requires
                    pow256(16) == 0x10000000000000000int * 0x10000000000000000,
            ;
        } else {
            assert(a =~= Seq::<u8>::empty());
            assert(bytes_be_value(a) == 0);
            assert(bytes_be_value(bs) == 0 * pow256(b.len()) + lo);
        }
    }
    Felt252Wrapper { hi, lo }
}

/// The per-kind prefix that a declare hash opens with: the bytes of
/// "declare".
pub const DECLARE_HASH_PREFIX: u64 = 0x6465636c617265;

/// The per-kind prefix that a deploy-account hash opens with: the bytes of
/// "deploy_account".
pub const DEPLOY_ACCOUNT_HASH_PREFIX: u128 = 0x6465706c6f795f6163636f756e74;

/// The per-kind prefix that an invoke hash opens with: the bytes of
/// "invoke".
pub const INVOKE_HASH_PREFIX: u64 = 0x696e766f6b65;

/// High 128 bits of a 256-bit value.
pub open spec fn u256_high(v: int) -> int {
    v / (0x10000000000000000int * 0x10000000000000000)
}

/// Low 128 bits of a 256-bit value.
pub open spec fn u256_low(v: int) -> int {
    v % (0x10000000000000000int * 0x10000000000000000)
}

/// The hash a declare transaction commits to: every field of the kind,
/// bound to the chain identifier.
pub open spec fn spec_declare_hash(v: DeclareModel, chain: int) -> int {
    spec_hash_on_elements(
        seq![
            DECLARE_HASH_PREFIX as int,
            v.version,
            v.sender_address,
            v.nonce,
            v.max_fee,
            chain,
            spec_hash_on_elements(v.signature),
            v.compiled_class_hash,
            spec_hash_on_elements(v.contract_class),
        ],
    )
}

/// The hash a deploy-account transaction commits to: every field of the
/// kind, the salt split into its 128-bit halves, bound to the chain
/// identifier.
pub open spec fn spec_deploy_account_hash(v: DeployAccountModel, chain: int) -> int {
    spec_hash_on_elements(
        seq![
            DEPLOY_ACCOUNT_HASH_PREFIX as int,
            v.version,
            v.sender_address,
            v.nonce,
            v.max_fee,
            chain,
            spec_hash_on_elements(v.signature),
            u256_high(v.salt),
            u256_low(v.salt),
            v.account_class_hash,
            spec_hash_on_elements(v.calldata),
        ],
    )
}

/// The hash an invoke transaction commits to: every field of the kind,
/// bound to the chain identifier.
pub open spec fn spec_invoke_hash(v: InvokeModel, chain: int) -> int {
    spec_hash_on_elements(
        seq![
            INVOKE_HASH_PREFIX as int,
            v.version,
            v.sender_address,
            v.nonce,
            v.max_fee,
            chain,
            spec_hash_on_elements(v.signature),
            spec_hash_on_elements(v.calldata),
        ],
    )
}

/// Computes the hash a declare transaction commits to.
pub fn calculate_declare_tx_hash(tx: &DeclareTransaction, chain_id: &str) -> (r: Felt252Wrapper)
    requires
        tx.wf(),
        chain_id.spec_bytes().len() <= 31,
    ensures
        r.valid(),
        r@ == spec_declare_hash(tx@, bytes_be_value(chain_id.spec_bytes())),
{
    let chain = chain_id_felt(chain_id);
    let sig_hash = hash_on_elements(&tx.signature);
    let class_hash = hash_on_elements(&tx.contract_class.program);
    let mut elems: Vec<Felt252Wrapper> = Vec::new();
    elems.push(Felt252Wrapper::from_u64(DECLARE_HASH_PREFIX));
    elems.push(Felt252Wrapper::from_u64(tx.version as u64));
    elems.push(tx.sender_address);
    elems.push(tx.nonce);
    elems.push(tx.max_fee);
    elems.push(chain);
    elems.push(sig_hash);
    elems.push(tx.compiled_class_hash);
    elems.push(class_hash);
    proof {
        assert(felt_views(elems@) =~= seq![
            DECLARE_HASH_PREFIX as int,
            tx@.version,
            tx@.sender_address,
            tx@.nonce,
            tx@.max_fee,
            bytes_be_value(chain_id.spec_bytes()),
            spec_hash_on_elements(tx@.signature),
            tx@.compiled_class_hash,
            spec_hash_on_elements(tx@.contract_class),
        ]);
    }
    hash_on_elements(&elems)
}

/// Computes the hash a deploy-account transaction commits to.
pub fn calculate_deploy_account_tx_hash(
    tx: &DeployAccountTransaction,
    chain_id: &str,
) -> (r: Felt252Wrapper)
    requires
        tx.wf(),
        chain_id.spec_bytes().len() <= 31,
    ensures
        r.valid(),
        r@ == spec_deploy_account_hash(tx@, bytes_be_value(chain_id.spec_bytes())),
{
    let chain = chain_id_felt(chain_id);
    let sig_hash = hash_on_elements(&tx.signature);
    let calldata_hash = hash_on_elements(&tx.calldata);
    let mut elems: Vec<Felt252Wrapper> = Vec::new();
    elems.push(Felt252Wrapper::from_u128(DEPLOY_ACCOUNT_HASH_PREFIX));
    elems.push(Felt252Wrapper::from_u64(tx.version as u64));
    elems.push(tx.sender_address);
    elems.push(tx.nonce);
    elems.push(tx.max_fee);
    elems.push(chain);
    elems.push(sig_hash);
    elems.push(Felt252Wrapper::from_u128(tx.salt.hi));
    elems.push(Felt252Wrapper::from_u128(tx.salt.lo));
    elems.push(tx.account_class_hash);
    elems.push(calldata_hash);
    proof {
        assert((tx.salt.hi * 0x10000000000000000) * 0x10000000000000000 == tx.salt.hi * (
        0x10000000000000000int * 0x10000000000000000)) by (nonlinear_arith);
        assert(tx.salt@ == tx.salt.hi * (0x10000000000000000int * 0x10000000000000000)
            + tx.salt.lo);
        lemma_fundamental_div_mod_converse(
            tx.salt@,
            0x10000000000000000int * 0x10000000000000000,
            tx.salt.hi as int,
            tx.salt.lo as int,
        );
        assert(felt_views(elems@) =~= seq![
            DEPLOY_ACCOUNT_HASH_PREFIX as int,
            tx@.version,
            tx@.sender_address,
            tx@.nonce,
            tx@.max_fee,
            bytes_be_value(chain_id.spec_bytes()),
            spec_hash_on_elements(tx@.signature),
            u256_high(tx@.salt),
            u256_low(tx@.salt),
            tx@.account_class_hash,
            spec_hash_on_elements(tx@.calldata),
        ]);
    }
    hash_on_elements(&elems)
}

/// Computes the hash an invoke transaction commits to.
pub fn calculate_invoke_tx_hash(tx: &InvokeTransaction, chain_id: &str) -> (r: Felt252Wrapper)
    requires
        tx.wf(),
        chain_id.spec_bytes().len() <= 31,
    ensures
        r.valid(),
        r@ == spec_invoke_hash(tx@, bytes_be_value(chain_id.spec_bytes())),
{
    let chain = chain_id_felt(chain_id);
    let sig_hash = hash_on_elements(&tx.signature);
    let calldata_hash = hash_on_elements(&tx.calldata);
    let mut elems: Vec<Felt252Wrapper> = Vec::new();
    elems.push(Felt252Wrapper::from_u64(INVOKE_HASH_PREFIX));
    elems.push(Felt252Wrapper::from_u64(tx.version as u64));
    elems.push(tx.sender_address);
    elems.push(tx.nonce);
    elems.push(tx.max_fee);
    elems.push(chain);
    elems.push(sig_hash);
    elems.push(calldata_hash);
    proof {
        assert(felt_views(elems@) =~= seq![
            INVOKE_HASH_PREFIX as int,
            tx@.version,
            tx@.sender_address,
            tx@.nonce,
            tx@.max_fee,
            bytes_be_value(chain_id.spec_bytes()),
            spec_hash_on_elements(tx@.signature),
            spec_hash_on_elements(tx@.calldata),
        ]);
    }
    hash_on_elements(&elems)
}

} // verus!
