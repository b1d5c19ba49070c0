//! Fixed-size hashes written in hexadecimal, such as addresses (20 bytes) and
//! private keys (32 bytes), and their parsing by `ethers_core`.

use vstd::prelude::*;
use std::str::FromStr;

verus! {

/// A hexadecimal digit, in either case.
pub open spec fn is_hex_digit(c: char) -> bool {
    ('0' <= c && c <= '9') || ('a' <= c && c <= 'f') || ('A' <= c && c <= 'F')
}

/// White space that is skipped between hexadecimal digits.
pub open spec fn is_hex_space(c: char) -> bool {
    c == ' ' || c == '\r' || c == '\n' || c == '\t'
}

/// The value of a hexadecimal digit.
pub open spec fn hex_value(c: char) -> int {
    if '0' <= c && c <= '9' {
        c as int - '0' as int
    } else if 'a' <= c && c <= 'f' {
        c as int - 'a' as int + 10
    } else {
        c as int - 'A' as int + 10
    }
}

/// The text after an optional leading "0x".
pub open spec fn hex_body(s: Seq<char>) -> Seq<char> {
    if s.len() >= 2 && s[0] == '0' && s[1] == 'x' {
        s.skip(2)
    } else {
        s
    }
}

/// The hexadecimal digits of the text after an optional leading "0x", in order.
pub open spec fn hex_digits(s: Seq<char>) -> Seq<char> {
    hex_body(s).filter(|c: char| is_hex_digit(c))
}

/// Whether `s` denotes an `n`-byte hash: after an optional leading "0x" it
/// holds only hexadecimal digits and white space, and exactly `2 * n` digits.
pub open spec fn hex_hash_ok(s: Seq<char>, n: nat) -> bool {
    &&& forall|i: int|
        0 <= i < hex_body(s).len() ==> #[trigger] is_hex_digit(hex_body(s)[i]) || is_hex_space(
            hex_body(s)[i],
        )
    &&& hex_digits(s).len() == 2 * n
}

/// The `n` bytes that `s` denotes, most significant first: each byte is made
/// of two consecutive digits, the first one being the high half.
pub open spec fn hex_hash_bytes(s: Seq<char>, n: nat) -> Seq<u8> {
    Seq::new(
        n,
        |i: int| (16 * hex_value(hex_digits(s)[2 * i]) + hex_value(hex_digits(s)[2 * i + 1])) as u8,
    )
}

/// Parses a 20-byte hash, such as an address, with `ethers_core`'s
/// `H160::from_str`, and hands out its bytes. The contract states that
/// parsing succeeds exactly on the strings `hex_hash_ok` describes, and that
/// the bytes are those the digits denote.
#[verifier::external_body]
fn h160_from_str(s: &str) -> (r: Option<[u8; 20]>)
    ensures
        r is Some <==> hex_hash_ok(s@, 20),
        r matches Some(b) ==> b@ == hex_hash_bytes(s@, 20),
{
    ethers_core::types::H160::from_str(s).ok().map(|h| h.0)
}

/// Parses a 32-byte hash, such as a private key, with `ethers_core`'s
/// `H256::from_str`, and hands out its bytes. The contract states that
/// parsing succeeds exactly on the strings `hex_hash_ok` describes, and that
/// the bytes are those the digits denote.
#[verifier::external_body]
fn h256_from_str(s: &str) -> (r: Option<[u8; 32]>)
    ensures
        r is Some <==> hex_hash_ok(s@, 32),
        r matches Some(b) ==> b@ == hex_hash_bytes(s@, 32),
{
    ethers_core::types::H256::from_str(s).ok().map(|h| h.0)
}

/// Parses an address written in hexadecimal, with or without a leading "0x".
pub fn parse_address(s: &str) -> (r: Option<[u8; 20]>)
    ensures
        r is Some <==> hex_hash_ok(s@, 20),
        r matches Some(b) ==> b@ == hex_hash_bytes(s@, 20),
{
    h160_from_str(s)
}

/// Parses a 32-byte hash written in hexadecimal, with or without a leading "0x".
pub fn parse_h256(s: &str) -> (r: Option<[u8; 32]>)
    ensures
        r is Some <==> hex_hash_ok(s@, 32),
        r matches Some(b) ==> b@ == hex_hash_bytes(s@, 32),
{
    h256_from_str(s)
}

} // verus!

verus! {

/// The lowercase hexadecimal digit of a value below 16.
pub open spec fn lower_hex_digit(v: int) -> char {
    if v == 0 { '0' } else if v == 1 { '1' } else if v == 2 { '2' } else if v == 3 { '3' }
    else if v == 4 { '4' } else if v == 5 { '5' } else if v == 6 { '6' } else if v == 7 { '7' }
    else if v == 8 { '8' } else if v == 9 { '9' } else if v == 10 { 'a' } else if v == 11 { 'b' }
    else if v == 12 { 'c' } else if v == 13 { 'd' } else if v == 14 { 'e' } else { 'f' }
}

/// Bytes written as lowercase hexadecimal, two digits each, the high half first.
pub open spec fn lower_hex(b: Seq<u8>) -> Seq<char>
    decreases b.len(),
{
    if b.len() == 0 {
        Seq::empty()
    } else {
        lower_hex(b.drop_last()) + seq![
            lower_hex_digit(b.last() as int / 16),
            lower_hex_digit(b.last() as int % 16),
        ]
    }
}

/// A hash as its alternate lowercase hexadecimal form (`{:#x}`) prints it:
/// "0x", then two digits per byte.
pub open spec fn printed_hash(b: Seq<u8>) -> Seq<char> {
    seq!['0', 'x'] + lower_hex(b)
}

/// The digits of `lower_hex(b)`: two per byte, in order.
proof fn lemma_lower_hex(b: Seq<u8>)
    ensures
        lower_hex(b).len() == 2 * b.len(),
        forall|i: int|
            0 <= i < b.len() ==> lower_hex(b)[2 * i] == lower_hex_digit(b[i] as int / 16)
                && lower_hex(b)[2 * i + 1] == lower_hex_digit(b[i] as int % 16),
        forall|j: int| 0 <= j < lower_hex(b).len() ==> #[trigger] is_hex_digit(lower_hex(b)[j]),
    decreases b.len(),
{
    if b.len() > 0 {
        let d = b.drop_last();
        lemma_lower_hex(d);
        assert forall|i: int| 0 <= i < b.len() implies lower_hex(b)[2 * i] == lower_hex_digit(
            b[i] as int / 16,
        ) && lower_hex(b)[2 * i + 1] == lower_hex_digit(b[i] as int % 16) by {
            if i < d.len() {
                assert(b[i] == d[i]);
            }
        }
    }
}

/// Filtering by a predicate that every element meets keeps the sequence.
proof fn lemma_filter_keeps_all(s: Seq<char>, pred: spec_fn(char) -> bool)
    requires
        forall|j: int| 0 <= j < s.len() ==> pred(#[trigger] s[j]),
    ensures
        s.filter(pred) == s,
    decreases s.len(),
{
    reveal(Seq::filter);
    if s.len() > 0 {
        lemma_filter_keeps_all(s.drop_last(), pred);
        assert(s.drop_last().push(s.last()) =~= s);
    }
}

/// A hash printed in its alternate lowercase hexadecimal form parses back to
/// the same bytes.
pub proof fn lemma_printed_hash_parses_back(b: Seq<u8>)
    ensures
        hex_hash_ok(printed_hash(b), b.len()),
        hex_hash_bytes(printed_hash(b), b.len()) == b,
{
    let s = printed_hash(b);
    lemma_lower_hex(b);
    assert(s[0] == '0' && s[1] == 'x');
    assert(hex_body(s) =~= lower_hex(b));
    lemma_filter_keeps_all(lower_hex(b), |c: char| is_hex_digit(c));
    assert(hex_digits(s) == lower_hex(b));
    assert(hex_hash_bytes(s, b.len()) =~= b) by {
        assert forall|i: int| 0 <= i < b.len() implies #[trigger] hex_hash_bytes(s, b.len())[i]
            == b[i] by {
            let hi: int = b[i] as int / 16;
            let lo: int = b[i] as int % 16;
            assert(hex_value(lower_hex_digit(hi)) == hi);
            assert(hex_value(lower_hex_digit(lo)) == lo);
        }
    }
}

} // verus!
