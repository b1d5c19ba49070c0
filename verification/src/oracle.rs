//! The output oracle's `nextBlockNumber()` read call: the call data that asks
//! for it and the decoding of the reply.

use vstd::prelude::*;
use crate::bytes::be_value;

verus! {

/// The ABI function selector of a function signature, as `ethers_core`
/// computes it (the first 4 bytes of the Keccak-256 hash of the signature).
pub uninterp spec fn function_selector(signature: Seq<char>) -> Seq<u8>;

/// Computes a function selector with `ethers_core`'s `utils::id`; the
/// contract names the result.
#[verifier::external_body]
fn selector_of(signature: &str) -> (r: [u8; 4])
    ensures
        r@ == function_selector(signature@),
{
    ethers_core::utils::id(signature)
}

/// Why a reply to `nextBlockNumber()` gives no block number.
#[derive(Debug, Clone, Copy, PartialEq, Eq, Structural)]
pub enum NextBlockNumberError {
    /// The reply is shorter than one 32-byte word.
    ShortReply,
    /// The number does not fit in 64 bits.
    Overflow,
}

/// 256 to the power `k`.
pub open spec fn pow256(k: nat) -> nat
    decreases k,
{
    if k == 0 {
        1
    } else {
        256 * pow256((k - 1) as nat)
    }
}

/// Whether the first `k` bytes of `s` are zero.
pub open spec fn zero_prefix(s: Seq<u8>, k: int) -> bool {
    forall|j: int| 0 <= j < k ==> s[j] == 0u8
}

/// The call data of `nextBlockNumber()`: its selector.
pub fn next_block_number_call_data() -> (r: Vec<u8>)
    ensures
        r@ == function_selector("nextBlockNumber()"@),
{
    let selector = selector_of("nextBlockNumber()");
    let mut data: Vec<u8> = Vec::new();
    data.push(selector[0]);
    data.push(selector[1]);
    data.push(selector[2]);
    data.push(selector[3]);
    assert(data@ =~= selector@);
    data
}

/// Appending a byte to a big-endian number shifts it by a byte.
proof fn lemma_be_push(s: Seq<u8>, b: u8)
    ensures
        be_value(s.push(b)) == be_value(s) * 256 + b,
{
    assert(s.push(b).drop_last() =~= s);
}

/// Bytes that are all zero read as zero.
proof fn lemma_be_zeros(s: Seq<u8>)
    requires
        zero_prefix(s, s.len() as int),
    ensures
        be_value(s) == 0,
    decreases s.len(),
{
    if s.len() > 0 {
        lemma_be_zeros(s.drop_last());
    }
}

/// Leading zero bytes do not change a big-endian number.
proof fn lemma_be_leading_zeros(s: Seq<u8>, k: int)
    requires
        0 <= k <= s.len(),
        zero_prefix(s, k),
    ensures
        be_value(s) == be_value(s.subrange(k, s.len() as int)),
    decreases s.len(),
{
    if s.len() == k {
        lemma_be_zeros(s);
        assert(s.subrange(k, s.len() as int) =~= Seq::<u8>::empty());
    } else {
        let d = s.drop_last();
        lemma_be_leading_zeros(d, k);
        assert(s.subrange(k, s.len() as int).drop_last() =~= d.subrange(k, d.len() as int));
    }
}

/// Decodes the reply to `nextBlockNumber()`: the first 32 bytes are the
/// number, big-endian. Fails where the reply is shorter than 32 bytes, or
/// where the number does not fit in 64 bits (one of its first 24 bytes is not
/// zero).
pub fn decode_next_block_number(reply: &Vec<u8>) -> (r: Result<u64, NextBlockNumberError>)
    ensures
        (r == Err::<u64, NextBlockNumberError>(NextBlockNumberError::ShortReply)) <==> reply.len()
            < 32,
        (r == Err::<u64, NextBlockNumberError>(NextBlockNumberError::Overflow)) <==> (reply.len()
            >= 32 && !zero_prefix(reply@, 24)),
        r matches Ok(n) ==> n == be_value(reply@.subrange(0, 32)),
{
    if reply.len() < 32 {
        return Err(NextBlockNumberError::ShortReply);
    }
    let mut i: usize = 0;
    while i < 24
        invariant
            reply.len() >= 32,
            i <= 24,
            zero_prefix(reply@, i as int),
        decreases 24 - i,
    {
        if reply[i] != 0u8 {
            return Err(NextBlockNumberError::Overflow);
        }
        i = i + 1;
    }
    let mut n: u64 = 0;
    assert(reply@.subrange(24, 24) =~= Seq::<u8>::empty());
    while i < 32
        invariant
            reply.len() >= 32,
            24 <= i <= 32,
            zero_prefix(reply@, 24),
            n as nat == be_value(reply@.subrange(24, i as int)),
            (n as nat) < pow256((i - 24) as nat),
        decreases 32 - i,
    {
        let b: u8 = reply[i];
        let ghost k: nat = (i - 24) as nat;
        proof {
            reveal_with_fuel(pow256, 8);
            assert(pow256(k) <= 0x100000000000000);
            let p: nat = pow256(k);
            assert(n * 256 + b < p * 256) by (nonlinear_arith)
                requires
                    n < p,
                    b < 256,
            ;
            lemma_be_push(reply@.subrange(24, i as int), b);
            assert(reply@.subrange(24, i as int).push(b) =~= reply@.subrange(24, i + 1));
        }
        n = n * 256 + b as u64;
        i = i + 1;
    }
    proof {
        lemma_be_leading_zeros(reply@.subrange(0, 32), 24);
        assert(reply@.subrange(0, 32).subrange(24, 32) =~= reply@.subrange(24, 32));
    }
    Ok(n)
}

} // verus!
