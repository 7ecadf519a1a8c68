//! Bounds-checked sequential reads over an immutable byte slice.
//!
//! Every read takes the buffer and the absolute position at which it begins,
//! and returns the decoded value together with the position after it. A
//! failing read reports the position at which it began, never reads past the
//! end of the buffer, and never panics.

use vstd::prelude::*;
use vstd::arithmetic::power2::{pow2, lemma_pow2_adds, lemma2_to64, lemma2_to64_rest};
use vstd::bits::lemma_u64_shl_is_mul;
use vstd::utf8::{valid_utf8, decode_utf8};
use crate::error::{BinaryError, ErrorV, mk_err, msg_eof, msg_bad_int, msg_bad_utf8};

verus! {

/// Result of a spec-level read: the decoded value and the position after it,
/// or the error.
pub ghost enum SpRead<V> {
    Val { v: V, end: int },
    Fail { e: ErrorV },
}

/// Spec-level outcome of a raw LEB128 read, before it is turned into an error
/// carrying an offset.
pub ghost enum SpLebRaw {
    Val { v: nat, end: int },
    Eof,
    Bad,
}

/// Spec-level outcome of a raw signed LEB128 read.
pub ghost enum SpLebSRaw {
    Val { v: int, end: int },
    Eof,
    Bad,
}

/// Unsigned LEB128 decoding: each byte contributes its low 7 bits, the high
/// bit marks continuation, and the value must fit in `bits` bits.
pub open spec fn sp_leb_u_raw(data: Seq<u8>, pos: int, bits: nat) -> SpLebRaw
    decreases bits,
{
    if !(0 <= pos < data.len()) {
        SpLebRaw::Eof
    } else {
        let b = data[pos];
        let low = (b & 0x7f) as nat;
        if b & 0x80 == 0 {
            if bits >= 7 || low < pow2(bits) {
                SpLebRaw::Val { v: low, end: pos + 1 }
            } else {
                SpLebRaw::Bad
            }
        } else {
            if bits <= 7 {
                SpLebRaw::Bad
            } else {
                match sp_leb_u_raw(data, pos + 1, (bits - 7) as nat) {
                    SpLebRaw::Val { v, end } => SpLebRaw::Val { v: low + v * 128, end },
                    r => r,
                }
            }
        }
    }
}

/// Signed LEB128 decoding: bytes contribute 7 bits each, the final byte's
/// bit 6 is the sign, and at most `budget` bytes may be used.
pub open spec fn sp_leb_s_raw(data: Seq<u8>, pos: int, budget: nat) -> SpLebSRaw
    decreases budget,
{
    if !(0 <= pos < data.len()) {
        SpLebSRaw::Eof
    } else {
        let b = data[pos];
        let low = (b & 0x7f) as int;
        if b & 0x80 == 0 {
            if b & 0x40 == 0 {
                SpLebSRaw::Val { v: low, end: pos + 1 }
            } else {
                SpLebSRaw::Val { v: low - 128, end: pos + 1 }
            }
        } else {
            if budget <= 1 {
                SpLebSRaw::Bad
            } else {
                match sp_leb_s_raw(data, pos + 1, (budget - 1) as nat) {
                    SpLebSRaw::Val { v, end } => SpLebSRaw::Val { v: low + v * 128, end },
                    r => r,
                }
            }
        }
    }
}

/// Exec-level outcome of a raw unsigned LEB128 read.
pub enum LebU {
    Val(u64, usize),
    Eof,
    Bad,
}

pub open spec fn leb_u_view(r: LebU) -> SpLebRaw {
    match r {
        LebU::Val(v, end) => SpLebRaw::Val { v: v as nat, end: end as int },
        LebU::Eof => SpLebRaw::Eof,
        LebU::Bad => SpLebRaw::Bad,
    }
}

/// Exec-level outcome of a raw signed LEB128 read.
pub enum LebS {
    Val(i128, usize),
    Eof,
    Bad,
}

pub open spec fn leb_s_view(r: LebS) -> SpLebSRaw {
    match r {
        LebS::Val(v, end) => SpLebSRaw::Val { v: v as int, end: end as int },
        LebS::Eof => SpLebSRaw::Eof,
        LebS::Bad => SpLebSRaw::Bad,
    }
}

/// Reads an unsigned LEB128 integer of at most `bits` bits starting at `pos`.
pub fn leb_u(data: &[u8], pos: usize, bits: u32) -> (r: LebU)
    requires
        1 <= bits <= 64,
    ensures
        leb_u_view(r) == sp_leb_u_raw(data@, pos as int, bits as nat),
        r matches LebU::Val(v, end) ==> pos < end <= data@.len() && (v as nat) < pow2(bits as nat),
    decreases bits,
{
    proof {
        lemma2_to64();
        lemma2_to64_rest();
    }
    if pos >= data.len() {
        return LebU::Eof;
    }
    let b = data[pos];
    let low = b & 0x7f;
    if b & 0x80 == 0 {
        if bits >= 7 {
            proof {
                if bits > 7 {
                    lemma_pow2_adds(7, (bits - 7) as nat);
                    vstd::arithmetic::power2::lemma_pow2_pos((bits - 7) as nat);
                }
                assert(low < 128) by (bit_vector)
                    requires
                        low == b & 0x7f,
                ;
            }
            LebU::Val(low as u64, pos + 1)
        } else {
            let bound = 1u64 << bits;
            proof {
                lemma_u64_shl_is_mul(1u64, bits as u64);
            }
            if (low as u64) < bound {
                LebU::Val(low as u64, pos + 1)
            } else {
                LebU::Bad
            }
        }
    } else {
        if bits <= 7 {
            LebU::Bad
        } else {
            match leb_u(data, pos + 1, bits - 7) {
                LebU::Val(v, end) => {
                    proof {
                        lemma_pow2_adds(7, (bits - 7) as nat);
                        assert(low < 128) by (bit_vector)
                            requires
                                low == b & 0x7f,
                        ;
                    }
                    LebU::Val(low as u64 + v * 128, end)
                },
                LebU::Eof => LebU::Eof,
                LebU::Bad => LebU::Bad,
            }
        }
    }
}

/// Reads a signed LEB128 integer of at most `budget` bytes starting at `pos`.
pub fn leb_s(data: &[u8], pos: usize, budget: u32) -> (r: LebS)
    requires
        1 <= budget <= 10,
    ensures
        leb_s_view(r) == sp_leb_s_raw(data@, pos as int, budget as nat),
        r matches LebS::Val(v, end) ==> pos < end <= data@.len()
            && -(pow2((7 * budget - 1) as nat) as int) <= (v as int)
            && (v as int) < pow2((7 * budget - 1) as nat) as int,
    decreases budget,
{
    if pos >= data.len() {
        return LebS::Eof;
    }
    let b = data[pos];
    let low = b & 0x7f;
    if b & 0x80 == 0 {
        proof {
            lemma2_to64();
            lemma2_to64_rest();
            if 7 * budget - 1 > 63 {
                lemma_pow2_adds(63, (7 * budget - 1 - 63) as nat);
            }
            assert(low < 128 && ((b & 0x40 == 0) ==> low < 64) && ((b & 0x40 != 0) ==> low >= 64))
                by (bit_vector)
                requires
                    low == b & 0x7f,
            ;
        }
        if b & 0x40 == 0 {
            LebS::Val(low as i128, pos + 1)
        } else {
            LebS::Val(low as i128 - 128, pos + 1)
        }
    } else {
        if budget <= 1 {
            LebS::Bad
        } else {
            match leb_s(data, pos + 1, budget - 1) {
                LebS::Val(v, end) => {
                    proof {
                        lemma_pow2_adds(7, (7 * (budget - 1) - 1) as nat);
                        lemma2_to64();
                        lemma2_to64_rest();
                        if 7 * budget - 1 > 63 {
                            lemma_pow2_adds(63, (7 * budget - 1 - 63) as nat);
                        }
                        assert(low < 128) by (bit_vector)
                            requires
                                low == b & 0x7f,
                        ;
                    }
                    LebS::Val(low as i128 + v * 128, end)
                },
                LebS::Eof => LebS::Eof,
                LebS::Bad => LebS::Bad,
            }
        }
    }
}

/// Spec-level view of an executable read result.
pub open spec fn read_view<T: View>(r: Result<(T, usize), BinaryError>) -> SpRead<T::V> {
    match r {
        Ok(p) => SpRead::Val { v: p.0@, end: p.1 as int },
        Err(e) => SpRead::Fail { e: e@ },
    }
}

/// A 32-bit unsigned LEB128 integer, with the error it decodes to when malformed.
pub open spec fn sp_var_u32(data: Seq<u8>, pos: int) -> SpRead<u32> {
    match sp_leb_u_raw(data, pos, 32) {
        SpLebRaw::Val { v, end } => SpRead::Val { v: v as u32, end },
        SpLebRaw::Eof => SpRead::Fail { e: ErrorV { message: msg_eof(), offset: pos } },
        SpLebRaw::Bad => SpRead::Fail { e: ErrorV { message: msg_bad_int(), offset: pos } },
    }
}

/// A 64-bit unsigned LEB128 integer, with the error it decodes to when malformed.
pub open spec fn sp_var_u64(data: Seq<u8>, pos: int) -> SpRead<u64> {
    match sp_leb_u_raw(data, pos, 64) {
        SpLebRaw::Val { v, end } => SpRead::Val { v: v as u64, end },
        SpLebRaw::Eof => SpRead::Fail { e: ErrorV { message: msg_eof(), offset: pos } },
        SpLebRaw::Bad => SpRead::Fail { e: ErrorV { message: msg_bad_int(), offset: pos } },
    }
}

/// Reads a 32-bit unsigned LEB128 integer.
pub fn read_var_u32(data: &[u8], pos: usize) -> (r: Result<(u32, usize), BinaryError>)
    ensures
        read_view(r) == sp_var_u32(data@, pos as int),
        r matches Ok(p) ==> pos < p.1 <= data@.len(),
{
    proof {
        lemma2_to64();
    }
    match leb_u(data, pos, 32) {
        LebU::Val(v, end) => Ok((v as u32, end)),
        LebU::Eof => Err(mk_err("unexpected end of input", pos)),
        LebU::Bad => Err(mk_err("malformed LEB128 integer", pos)),
    }
}

/// Reads a 64-bit unsigned LEB128 integer.
pub fn read_var_u64(data: &[u8], pos: usize) -> (r: Result<(u64, usize), BinaryError>)
    ensures
        read_view(r) == sp_var_u64(data@, pos as int),
        r matches Ok(p) ==> pos < p.1 <= data@.len(),
{
    match leb_u(data, pos, 64) {
        LebU::Val(v, end) => Ok((v, end)),
        LebU::Eof => Err(mk_err("unexpected end of input", pos)),
        LebU::Bad => Err(mk_err("malformed LEB128 integer", pos)),
    }
}

/// A signed LEB128 integer of the given bit width (32, 33 or 64), with the
/// error it decodes to when malformed: the encoding may use at most as many
/// bytes as the width requires and the value must be representable in it.
pub open spec fn sp_var_s(data: Seq<u8>, pos: int, bits: nat) -> SpRead<int> {
    let budget: nat = if bits == 64 { 10 } else { 5 };
    match sp_leb_s_raw(data, pos, budget) {
        SpLebSRaw::Val { v, end } => if -(pow2((bits - 1) as nat) as int) <= v
            < pow2((bits - 1) as nat) as int {
            SpRead::Val { v, end }
        } else {
            SpRead::Fail { e: ErrorV { message: msg_bad_int(), offset: pos } }
        },
        SpLebSRaw::Eof => SpRead::Fail { e: ErrorV { message: msg_eof(), offset: pos } },
        SpLebSRaw::Bad => SpRead::Fail { e: ErrorV { message: msg_bad_int(), offset: pos } },
    }
}

/// Reads a signed LEB128 integer of the given bit width (32, 33 or 64).
pub fn read_var_s(data: &[u8], pos: usize, bits: u32) -> (r: Result<(i64, usize), BinaryError>)
    requires
        bits == 32 || bits == 33 || bits == 64,
    ensures
        (match r {
            Ok(p) => sp_var_s(data@, pos as int, bits as nat) == (SpRead::Val {
                v: p.0 as int,
                end: p.1 as int,
            }),
            Err(e) => sp_var_s(data@, pos as int, bits as nat) == (SpRead::<int>::Fail { e: e@ }),
        }),
        r matches Ok(p) ==> pos < p.1 <= data@.len(),
{
    let budget: u32 = if bits == 64 { 10 } else { 5 };
    proof {
        lemma2_to64();
        lemma2_to64_rest();
    }
    match leb_s(data, pos, budget) {
        LebS::Val(v, end) => {
            let bound: i128 = if bits == 32 {
                2147483648
            } else if bits == 33 {
                4294967296
            } else {
                9223372036854775808
            };
            if -bound <= v && v < bound {
                Ok((v as i64, end))
            } else {
                Err(mk_err("malformed LEB128 integer", pos))
            }
        },
        LebS::Eof => Err(mk_err("unexpected end of input", pos)),
        LebS::Bad => Err(mk_err("malformed LEB128 integer", pos)),
    }
}

/// One byte, with the error it decodes to at the end of the buffer.
pub open spec fn sp_byte(data: Seq<u8>, pos: int) -> SpRead<u8> {
    if 0 <= pos < data.len() {
        SpRead::Val { v: data[pos], end: pos + 1 }
    } else {
        SpRead::Fail { e: ErrorV { message: msg_eof(), offset: pos } }
    }
}

/// Reads one byte.
pub fn read_u8(data: &[u8], pos: usize) -> (r: Result<(u8, usize), BinaryError>)
    ensures
        read_view(r) == sp_byte(data@, pos as int),
        r matches Ok(p) ==> pos < p.1 <= data@.len(),
{
    if pos < data.len() {
        Ok((data[pos], pos + 1))
    } else {
        Err(mk_err("unexpected end of input", pos))
    }
}

/// A run of `n` raw bytes, with the error it decodes to when fewer remain.
pub open spec fn sp_bytes(data: Seq<u8>, pos: int, n: int) -> SpRead<Seq<u8>> {
    if 0 <= pos && pos + n <= data.len() {
        SpRead::Val { v: data.subrange(pos, pos + n), end: pos + n }
    } else {
        SpRead::Fail { e: ErrorV { message: msg_eof(), offset: pos } }
    }
}

/// Reads a run of `n` raw bytes into a fresh vector.
pub fn read_bytes(data: &[u8], pos: usize, n: usize) -> (r: Result<(Vec<u8>, usize), BinaryError>)
    ensures
        read_view(r) == sp_bytes(data@, pos as int, n as int),
        r matches Ok(p) ==> pos <= p.1 <= data@.len(),
{
    if pos <= data.len() && n <= data.len() - pos {
        let s = vstd::slice::slice_subrange(data, pos, pos + n);
        Ok((vstd::slice::slice_to_vec(s), pos + n))
    } else {
        Err(mk_err("unexpected end of input", pos))
    }
}

/// Relies on `String::from_utf8` of std: it returns `Ok` exactly when the
/// bytes are valid UTF-8, and the string then holds their decoding, as
/// `vstd::utf8` models both.
#[verifier::external_body]
pub(crate) fn string_from_utf8(bytes: Vec<u8>) -> (r: Option<String>)
    ensures
        r is Some <==> valid_utf8(bytes@),
        r matches Some(s) ==> s@ == decode_utf8(bytes@),
{
    match String::from_utf8(bytes) {
        Ok(s) => Some(s),
        Err(_) => None,
    }
}

/// A length-prefixed UTF-8 string. Every failure — a malformed length, too
/// few bytes, or invalid UTF-8 — reports the offset of the string field's
/// first byte, where the read began.
pub open spec fn sp_string(data: Seq<u8>, pos: int) -> SpRead<Seq<char>> {
    match sp_leb_u_raw(data, pos, 32) {
        SpLebRaw::Eof => SpRead::Fail { e: ErrorV { message: msg_eof(), offset: pos } },
        SpLebRaw::Bad => SpRead::Fail { e: ErrorV { message: msg_bad_int(), offset: pos } },
        SpLebRaw::Val { v: n, end: p2 } => if p2 + n > data.len() {
            SpRead::Fail { e: ErrorV { message: msg_eof(), offset: pos } }
        } else {
            let bs = data.subrange(p2, p2 + n);
            if valid_utf8(bs) {
                SpRead::Val { v: decode_utf8(bs), end: p2 + n }
            } else {
                SpRead::Fail { e: ErrorV { message: msg_bad_utf8(), offset: pos } }
            }
        },
    }
}

/// Reads a length-prefixed UTF-8 string.
pub fn read_string(data: &[u8], pos: usize) -> (r: Result<(String, usize), BinaryError>)
    ensures
        read_view(r) == sp_string(data@, pos as int),
        r matches Ok(p) ==> pos < p.1 <= data@.len(),
{
    match leb_u(data, pos, 32) {
        LebU::Eof => Err(mk_err("unexpected end of input", pos)),
        LebU::Bad => Err(mk_err("malformed LEB128 integer", pos)),
        LebU::Val(n, p2) => {
            if n <= (data.len() - p2) as u64 {
                let n = n as usize;
                let s = vstd::slice::slice_subrange(data, p2, p2 + n);
                match string_from_utf8(vstd::slice::slice_to_vec(s)) {
                    Some(st) => Ok((st, p2 + n)),
                    None => Err(mk_err("invalid UTF-8 string", pos)),
                }
            } else {
                Err(mk_err("unexpected end of input", pos))
            }
        },
    }
}

} // verus!
