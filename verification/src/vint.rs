//! Variable-length unsigned integers: big-endian base-128, one byte at a
//! time. The low 7 bits of each byte contribute to the accumulating value;
//! a set high bit means more bytes follow, a clear high bit ends the number.

use vstd::prelude::*;

verus! {

use crate::errors::LoadError;

/// Value and end position of the variable-length integer that starts at
/// `pos` in `bytes`, given the value `acc` accumulated so far. Fails when the
/// number runs past the end of the buffer, or when the accumulated value can
/// no longer fit in `usize` (checked one byte ahead: an accumulator above
/// `usize::MAX / 128` overflows whatever the next low 7 bits are).
pub open spec fn vint_at(bytes: Seq<u8>, pos: int, acc: nat) -> Result<(nat, int), LoadError>
    decreases bytes.len() - pos,
{
    if pos < 0 || pos >= bytes.len() {
        Err(LoadError::TruncatedVint)
    } else if acc > usize::MAX as nat / 128 {
        Err(LoadError::VintTooLarge)
    } else {
        let b = bytes[pos];
        let acc2 = acc * 128 + (b & 0x7f) as nat;
        if b & 0x80 == 0 {
            Ok((acc2, pos + 1))
        } else {
            vint_at(bytes, pos + 1, acc2)
        }
    }
}

/// The encoding of `v` with the continuation bit set on every byte: the
/// leading bytes of a longer number whose low digits follow.
pub open spec fn vint_bytes_cont(v: nat) -> Seq<u8>
    decreases v,
{
    if v < 128 {
        seq![(v + 128) as u8]
    } else {
        vint_bytes_cont(v / 128).push(((v % 128) + 128) as u8)
    }
}

/// The encoding of `v`: its base-128 digits most significant first, the
/// continuation bit set on every byte but the last.
pub open spec fn vint_bytes(v: nat) -> Seq<u8> {
    if v < 128 {
        seq![v as u8]
    } else {
        vint_bytes_cont(v / 128).push((v % 128) as u8)
    }
}

/// The accumulator after the digits of `v` have been folded into `acc`.
pub open spec fn shift_acc(acc: nat, v: nat) -> nat
    decreases v,
{
    if v < 128 {
        acc * 128 + v
    } else {
        shift_acc(acc, v / 128) * 128 + v % 128
    }
}

proof fn lemma_shift_acc_zero(v: nat)
    ensures
        shift_acc(0, v) == v,
    decreases v,
{
    if v >= 128 {
        lemma_shift_acc_zero(v / 128);
        vstd::arithmetic::div_mod::lemma_fundamental_div_mod(v as int, 128);
    }
}

proof fn lemma_shift_acc_lower(acc: nat, v: nat)
    ensures
        shift_acc(acc, v) >= acc * 128,
    decreases v,
{
    if v >= 128 {
        lemma_shift_acc_lower(acc, v / 128);
        assert(shift_acc(acc, v / 128) * 128 >= acc * 128) by (nonlinear_arith)
            requires
                shift_acc(acc, v / 128) >= acc * 128,
        ;
    }
}

/// `a * 128 <= m` forces `a <= m / 128`.
proof fn lemma_mul128_le_div(a: nat, m: nat)
    requires
        a * 128 <= m,
    ensures
        a <= m / 128,
{
    vstd::arithmetic::div_mod::lemma_fundamental_div_mod(m as int, 128);
    if a > m / 128 {
        assert(a * 128 >= (m / 128 + 1) * 128) by (nonlinear_arith)
            requires
                a >= m / 128 + 1,
        ;
        assert(128 * (m as int / 128) + 128 > m as int);
    }
}

/// An accumulator that passed the one-byte-ahead bound check cannot overflow
/// on the next low 7 bits.
proof fn lemma_acc_step_fits(acc: nat, low: nat)
    requires
        acc <= usize::MAX as nat / 128,
        low < 128,
    ensures
        acc * 128 + low <= usize::MAX as nat,
{
    let m = usize::MAX as nat;
    vstd::arithmetic::div_mod::lemma_fundamental_div_mod(m as int, 128);
    assert(m % 128 == 127);
    vstd::arithmetic::mul::lemma_mul_inequality(acc as int, (m / 128) as int, 128);
    assert((m / 128) * 128 == m - 127);
}

/// A successful decode always ends strictly past its start, no later than the
/// end of the buffer, with a value that fits in `usize`.
pub proof fn lemma_vint_at_ok(bytes: Seq<u8>, pos: int, acc: nat)
    ensures
        vint_at(bytes, pos, acc) matches Ok(ve) ==> pos < ve.1 <= bytes.len() && ve.0
            <= usize::MAX as nat,
    decreases bytes.len() - pos,
{
    if 0 <= pos < bytes.len() && acc <= usize::MAX as nat / 128 {
        let b = bytes[pos];
        assert(b & 0x7f < 128) by (bit_vector);
        lemma_acc_step_fits(acc, (b & 0x7f) as nat);
        if b & 0x80 != 0 {
            lemma_vint_at_ok(bytes, pos + 1, acc * 128 + (b & 0x7f) as nat);
        }
    }
}

/// A stream whose continuation bit never clears before the end of the buffer
/// fails to decode.
pub proof fn lemma_vint_unterminated(bytes: Seq<u8>, pos: int, acc: nat)
    requires
        forall|j: int| pos <= j < bytes.len() ==> bytes[j] & 0x80 != 0,
    ensures
        vint_at(bytes, pos, acc) is Err,
    decreases bytes.len() - pos,
{
    if 0 <= pos < bytes.len() && acc <= usize::MAX as nat / 128 {
        assert(bytes[pos] & 0x80 != 0);
        lemma_vint_unterminated(bytes, pos + 1, acc * 128 + (bytes[pos] & 0x7f) as nat);
    }
}

proof fn lemma_decode_cont(bytes: Seq<u8>, pos: int, acc: nat, v: nat)
    requires
        0 <= pos,
        pos + vint_bytes_cont(v).len() <= bytes.len(),
        bytes.subrange(pos, pos + vint_bytes_cont(v).len() as int) == vint_bytes_cont(v),
        shift_acc(acc, v) <= usize::MAX as nat,
    ensures
        vint_at(bytes, pos, acc) == vint_at(
            bytes,
            pos + vint_bytes_cont(v).len(),
            shift_acc(acc, v),
        ),
    decreases v,
{
    let m = usize::MAX as nat;
    lemma_shift_acc_lower(acc, v);
    lemma_mul128_le_div(acc, m);
    if v < 128 {
        let b = vint_bytes_cont(v)[0];
        assert(bytes[pos] == b);
        assert(b as nat == v + 128);
        assert(b & 0x80 != 0 && (b & 0x7f) as nat == b as nat - 128) by (bit_vector)
            requires
                b >= 128,
        ;
        assert(acc * 128 + (b & 0x7f) as nat == shift_acc(acc, v));
    } else {
        let tail = vint_bytes_cont(v);
        let head = vint_bytes_cont(v / 128);
        let k = head.len() as int;
        assert(bytes.subrange(pos, pos + k) =~= head) by {
            assert(forall|j: int|
                0 <= j < k ==> bytes.subrange(pos, pos + tail.len() as int)[j] == tail[j]);
        }
        let mid = shift_acc(acc, v / 128);
        assert(mid * 128 <= shift_acc(acc, v));
        lemma_mul128_le_div(mid, m);
        lemma_decode_cont(bytes, pos, acc, v / 128);
        let b = tail[k];
        assert(bytes[pos + k] == bytes.subrange(pos, pos + tail.len() as int)[k]);
        assert(b as nat == (v % 128) + 128);
        assert(b & 0x80 != 0 && (b & 0x7f) as nat == b as nat - 128) by (bit_vector)
            requires
                b >= 128,
        ;
        assert(mid * 128 + (b & 0x7f) as nat == shift_acc(acc, v));
    }
}

/// Round trip: wherever `bytes` holds the encoding of `v` at `pos`, decoding
/// from `pos` yields exactly `v` and stops exactly past the encoding, for
/// every `v` that a `usize` can represent.
pub proof fn lemma_vint_roundtrip(bytes: Seq<u8>, pos: int, v: nat)
    requires
        0 <= pos,
        v <= usize::MAX as nat,
        pos + vint_bytes(v).len() <= bytes.len(),
        bytes.subrange(pos, pos + vint_bytes(v).len() as int) == vint_bytes(v),
    ensures
        vint_at(bytes, pos, 0) == Ok::<(nat, int), LoadError>(
            (v, pos + vint_bytes(v).len() as int),
        ),
{
    let m = usize::MAX as nat;
    if v < 128 {
        let b = vint_bytes(v)[0];
        assert(bytes[pos] == b);
        assert(b as nat == v);
        assert(b & 0x80 == 0 && (b & 0x7f) == b) by (bit_vector)
            requires
                b < 128,
        ;
    } else {
        let whole = vint_bytes(v);
        let head = vint_bytes_cont(v / 128);
        let k = head.len() as int;
        assert(bytes.subrange(pos, pos + k) =~= head) by {
            assert(forall|j: int|
                0 <= j < k ==> bytes.subrange(pos, pos + whole.len() as int)[j] == whole[j]);
        }
        lemma_shift_acc_zero(v / 128);
        vstd::arithmetic::div_mod::lemma_div_is_ordered(v as int, m as int, 128);
        lemma_decode_cont(bytes, pos, 0, v / 128);
        let b = whole[k];
        assert(bytes[pos + k] == bytes.subrange(pos, pos + whole.len() as int)[k]);
        assert(b as nat == v % 128);
        assert(b & 0x80 == 0 && (b & 0x7f) == b) by (bit_vector)
            requires
                b < 128,
        ;
        vstd::arithmetic::div_mod::lemma_fundamental_div_mod(v as int, 128);
        assert((v / 128) * 128 + (b & 0x7f) as nat == v);
    }
}

/// Reads one variable-length integer from `bytes` starting at `*i`, leaving
/// `*i` just past it on success. Fails instead of running past the end of the
/// buffer or overflowing `usize`.
pub fn get_vint(bytes: &[u8], i: &mut usize) -> (r: Result<usize, LoadError>)
    ensures
        match vint_at(bytes@, *old(i) as int, 0) {
            Ok(ve) => r == Ok::<usize, LoadError>(ve.0 as usize) && *final (i) == ve.1,
            Err(e) => r == Err::<usize, LoadError>(e),
        },
{
    let mut r: usize = 0;
    loop
        invariant
            vint_at(bytes@, *old(i) as int, 0) == vint_at(bytes@, *i as int, r as nat),
        decreases bytes@.len() - *i,
    {
        if *i >= bytes.len() {
            return Err(LoadError::TruncatedVint);
        }
        if r > usize::MAX / 128 {
            return Err(LoadError::VintTooLarge);
        }
        let x = bytes[*i];
        *i = *i + 1;
        proof {
            assert(x & 0x7f < 128) by (bit_vector);
            lemma_acc_step_fits(r as nat, (x & 0x7f) as nat);
        }
        r = r * 128 + ((x & 0x7f) as usize);
        if x & 0x80 == 0 {
            return Ok(r);
        }
    }
}

} // verus!
