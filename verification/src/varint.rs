//! Variable-width unsigned integers: the length prefix of every frame.
//!
//! A value is encoded base 128, least significant group first, seven value
//! bits per byte; the high bit of a byte marks a continuation. Only minimal
//! encodings are accepted: a trailing zero group makes the bytes malformed.

use vstd::prelude::*;

verus! {

/// A minimal encoding of a 64-bit value never exceeds ten bytes.
pub const MAX_VARINT_LEN: usize = 10;

/// The canonical bytes of `n`.
pub open spec fn varint_bytes(n: u64) -> Seq<u8>
    decreases n,
{
    if n < 128 {
        seq![n as u8]
    } else {
        seq![(n % 128 + 128) as u8] + varint_bytes(n / 128)
    }
}

/// What reading a varint off the front of a buffer yields.
pub ghost enum VarintSpec {
    /// A complete, minimal prefix encoding `n` over `len` bytes.
    Value { n: u64, len: int },
    /// The buffer ends before the encoding does.
    Incomplete,
    /// No extension of the buffer starts with a minimal encoding of a
    /// 64-bit value.
    Malformed,
}

/// Reads a varint off the front of `b`, giving up after `budget` bytes.
pub open spec fn varint_decode_r(b: Seq<u8>, budget: nat) -> VarintSpec
    decreases budget,
{
    if budget == 0 {
        VarintSpec::Malformed
    } else if b.len() == 0 {
        VarintSpec::Incomplete
    } else if b[0] < 128 {
        VarintSpec::Value { n: b[0] as u64, len: 1 }
    } else {
        match varint_decode_r(b.skip(1), (budget - 1) as nat) {
            VarintSpec::Incomplete => VarintSpec::Incomplete,
            VarintSpec::Malformed => VarintSpec::Malformed,
            VarintSpec::Value { n, len } => {
                if n == 0 {
                    // A continuation followed by an encoding of zero is not
                    // minimal: the final group may not be zero.
                    VarintSpec::Malformed
                } else if n * 128 + (b[0] - 128) > u64::MAX {
                    VarintSpec::Malformed
                } else {
                    VarintSpec::Value { n: (n * 128 + (b[0] - 128)) as u64, len: len + 1 }
                }
            },
        }
    }
}

/// Reads a varint off the front of `b`. Ten bytes bound every minimal
/// encoding of a 64-bit value, so a longer run of continuation bytes is
/// malformed rather than incomplete.
pub open spec fn varint_decode(b: Seq<u8>) -> VarintSpec {
    varint_decode_r(b, MAX_VARINT_LEN as nat)
}

/// Appends the encoding of `n` to `out`.
pub fn write_varint(n: u64, out: &mut Vec<u8>)
    ensures
        final(out)@ == old(out)@ + varint_bytes(n),
    decreases n,
{
    if n < 128 {
        out.push(n as u8);
        assert(out@ =~= old(out)@ + varint_bytes(n));
    } else {
        out.push((n % 128 + 128) as u8);
        write_varint(n / 128, out);
        assert(out@ =~= old(out)@ + varint_bytes(n));
    }
}

/// What reading a varint off a byte slice yielded.
#[derive(Debug, PartialEq, Eq)]
pub enum VarintRead {
    Value { n: u64, len: usize },
    Incomplete,
    Malformed,
}

/// `r` is the outcome that `varint_decode_r(b, budget)` describes.
pub open spec fn read_matches(r: VarintRead, b: Seq<u8>, budget: nat) -> bool {
    match r {
        VarintRead::Value { n, len } => varint_decode_r(b, budget) == (VarintSpec::Value {
            n,
            len: len as int,
        }) && len <= budget,
        VarintRead::Incomplete => varint_decode_r(b, budget) == VarintSpec::Incomplete,
        VarintRead::Malformed => varint_decode_r(b, budget) == VarintSpec::Malformed,
    }
}

fn read_varint_r(b: &[u8], pos: usize, budget: usize) -> (r: VarintRead)
    requires
        pos <= b@.len(),
    ensures
        read_matches(r, b@.skip(pos as int), budget as nat),
    decreases budget,
{
    if budget == 0 {
        VarintRead::Malformed
    } else if pos == b.len() {
        VarintRead::Incomplete
    } else {
        let b0 = b[pos];
        assert(b@.skip(pos as int)[0] == b0);
        if b0 < 128 {
            VarintRead::Value { n: b0 as u64, len: 1 }
        } else {
            let rec = read_varint_r(b, pos + 1, budget - 1);
            assert(b@.skip(pos as int).skip(1) =~= b@.skip(pos as int + 1));
            match rec {
                VarintRead::Incomplete => VarintRead::Incomplete,
                VarintRead::Malformed => VarintRead::Malformed,
                VarintRead::Value { n, len } => {
                    if n == 0 {
                        VarintRead::Malformed
                    } else if n > (u64::MAX - (b0 - 128) as u64) / 128 {
                        assert(n * 128 + (b0 - 128) > u64::MAX) by (nonlinear_arith)
                            requires
                                n > (u64::MAX - (b0 - 128) as u64) / 128,
                                128 <= b0,
                        ;
                        VarintRead::Malformed
                    } else {
                        assert(n * 128 + (b0 - 128) <= u64::MAX) by (nonlinear_arith)
                            requires
                                n <= (u64::MAX - (b0 - 128) as u64) / 128,
                                128 <= b0,
                        ;
                        VarintRead::Value { n: n * 128 + (b0 - 128) as u64, len: len + 1 }
                    }
                },
            }
        }
    }
}

/// Reads a varint off the front of `b`.
pub fn read_varint(b: &[u8]) -> (r: VarintRead)
    ensures
        read_matches(r, b@, MAX_VARINT_LEN as nat),
{
    let r = read_varint_r(b, 0, MAX_VARINT_LEN);
    assert(b@.skip(0) =~= b@);
    r
}

/// 128 raised to `k`.
pub open spec fn pow128(k: nat) -> int
    decreases k,
{
    if k == 0 {
        1
    } else {
        128 * pow128((k - 1) as nat)
    }
}

proof fn lemma_varint_bytes_len_r(n: u64, k: nat)
    requires
        1 <= k,
        (n as int) < pow128(k),
    ensures
        1 <= varint_bytes(n).len() <= k,
    decreases k,
{
    if n < 128 {
    } else {
        assert((n as int) / 128 < pow128((k - 1) as nat)) by (nonlinear_arith)
            requires
                (n as int) < 128 * pow128((k - 1) as nat),
                128 <= n,
        ;
        lemma_varint_bytes_len_r(n / 128, (k - 1) as nat);
    }
}

/// A minimal encoding takes between one and ten bytes.
pub proof fn lemma_varint_bytes_len(n: u64)
    ensures
        1 <= varint_bytes(n).len() <= MAX_VARINT_LEN,
{
    assert((n as int) < pow128(10)) by {
        reveal_with_fuel(pow128, 11);
    }
    lemma_varint_bytes_len_r(n, 10);
}

proof fn lemma_varint_roundtrip_r(n: u64, rest: Seq<u8>, budget: nat)
    requires
        varint_bytes(n).len() <= budget,
    ensures
        varint_decode_r(varint_bytes(n) + rest, budget) == (VarintSpec::Value {
            n,
            len: varint_bytes(n).len() as int,
        }),
    decreases n,
{
    let b = varint_bytes(n) + rest;
    if n < 128 {
        assert(b[0] == n as u8);
    } else {
        let m = n / 128;
        let low = (n % 128) as int;
        assert(b[0] == (n % 128 + 128) as u8);
        assert(b.skip(1) =~= varint_bytes(m) + rest);
        lemma_varint_roundtrip_r(m, rest, (budget - 1) as nat);
        assert(m * 128 + low == n) by (nonlinear_arith)
            requires
                m == n / 128,
                low == (n % 128) as int,
        ;
    }
}

/// Decoding inverts encoding: a buffer that starts with the encoding of `n`
/// yields `n` and consumes exactly the encoding.
pub proof fn lemma_varint_roundtrip(n: u64, rest: Seq<u8>)
    ensures
        varint_decode(varint_bytes(n) + rest) == (VarintSpec::Value {
            n,
            len: varint_bytes(n).len() as int,
        }),
{
    lemma_varint_bytes_len(n);
    lemma_varint_roundtrip_r(n, rest, MAX_VARINT_LEN as nat);
}

proof fn lemma_varint_prefix_r(n: u64, i: int, budget: nat)
    requires
        0 <= i < varint_bytes(n).len(),
        i + 1 <= budget,
    ensures
        varint_decode_r(varint_bytes(n).take(i), budget) == VarintSpec::Incomplete,
    decreases n,
{
    let b = varint_bytes(n).take(i);
    if i == 0 {
        assert(b.len() == 0);
    } else {
        let m = n / 128;
        assert(b[0] == (n % 128 + 128) as u8);
        assert(b.skip(1) =~= varint_bytes(m).take(i - 1));
        lemma_varint_prefix_r(m, i - 1, (budget - 1) as nat);
    }
}

/// Every strict prefix of an encoding is incomplete, never malformed.
pub proof fn lemma_varint_prefix(n: u64, i: int)
    requires
        0 <= i < varint_bytes(n).len(),
    ensures
        varint_decode(varint_bytes(n).take(i)) == VarintSpec::Incomplete,
{
    lemma_varint_bytes_len(n);
    lemma_varint_prefix_r(n, i, MAX_VARINT_LEN as nat);
}

} // verus!
