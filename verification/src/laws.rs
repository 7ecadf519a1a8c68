//! Laws the decoders obey, stated over the spec-level decoding functions
//! and proved once for every input.

use vstd::prelude::*;
use crate::error::msg_unknown_opcode;
use crate::cursor::{SpRead, SpLebRaw, SpLebSRaw, sp_leb_u_raw, sp_leb_s_raw, sp_var_u32,
    sp_var_u64, sp_var_s, sp_byte, sp_bytes, sp_string};
use crate::grammar::{sp_heap_type, sp_ref_type, sp_val_type, sp_table_type, sp_limit,
    sp_memory_type, sp_global_type, sp_tag_type};
use crate::operators::{sp_op, op_info_spec, prefix_op_info_spec, is_prefix_byte, ImmKind,
    sp_skip_imm, sp_block_type, sp_expr_end, sp_const_expr};
use crate::sections::{SpEntry, SectionEntry, sp_entries, sp_section, sp_items};
use crate::entries::{sp_elem_kind, sp_elem_type, sp_elem_items, sp_data_bytes};
use crate::types::{ValType, Type, TypeV, Import, ImportV, Function, FunctionV};

verus! {

// ---------------------------------------------------------------------------
// The operator catalog is closed.
// ---------------------------------------------------------------------------

/// The opcode key an instruction encoding denotes: a single byte, or a
/// sub-opcode behind one of the prefix bytes.
pub ghost enum OpKey {
    Single(u8),
    Prefixed(u8, u32),
}

/// The catalog's name for a key, when the key has a row.
pub open spec fn catalog_name(k: OpKey) -> Option<Seq<char>> {
    match k {
        OpKey::Single(b) => match op_info_spec(b) {
            Some(info) => Some(info.0),
            Option::None => Option::None,
        },
        OpKey::Prefixed(prefix, sub) => match prefix_op_info_spec(prefix, sub) {
            Some(info) => Some(info.0),
            Option::None => Option::None,
        },
    }
}

/// The key the bytes beginning at `pos` denote, when one can be read at all.
pub open spec fn sp_op_key(data: Seq<u8>, pos: int) -> Option<OpKey> {
    match sp_byte(data, pos) {
        SpRead::Fail { e: _ } => Option::None,
        SpRead::Val { v: b, end: p1 } => if is_prefix_byte(b) {
            match sp_var_u32(data, p1) {
                SpRead::Fail { e: _ } => Option::None,
                SpRead::Val { v: sub, end: _ } => Some(OpKey::Prefixed(b, sub)),
            }
        } else {
            Some(OpKey::Single(b))
        },
    }
}

/// The operator catalog is a closed set and the decoder's oracle: every
/// instruction byte sequence the operator decoder accepts denotes a key with
/// a catalog row, and the decoded operator carries exactly that row's name —
/// the catalog being a function, exactly one name; conversely a readable key
/// without a catalog row is always rejected, with the unknown-opcode error.
/// The set of encodings the decoder can accept and the catalog's domain are
/// thus the same set.
pub proof fn lemma_operator_catalog_closed(data: Seq<u8>, pos: int)
    ensures
        sp_op(data, pos) matches SpRead::Val { v, end } ==> sp_op_key(data, pos) matches Some(k)
            && catalog_name(k) matches Some(nm) && v.name == nm,
        (sp_op_key(data, pos) matches Some(k) && catalog_name(k) is None) ==> (sp_op(data, pos)
            matches SpRead::Fail { e } && e.message == msg_unknown_opcode() && e.offset == pos),
{
    reveal(sp_op);
}

// ---------------------------------------------------------------------------
// Entry offsets increase across a section.
// ---------------------------------------------------------------------------

proof fn lemma_leb_u_lb(data: Seq<u8>, pos: int, bits: nat)
    ensures
        sp_leb_u_raw(data, pos, bits) matches SpLebRaw::Val { v, end } ==> pos < end,
    decreases bits,
{
    if 0 <= pos < data.len() {
        let b = data[pos];
        if b & 0x80 != 0 && bits > 7 {
            lemma_leb_u_lb(data, pos + 1, (bits - 7) as nat);
        }
    }
}

proof fn lemma_leb_s_lb(data: Seq<u8>, pos: int, budget: nat)
    ensures
        sp_leb_s_raw(data, pos, budget) matches SpLebSRaw::Val { v, end } ==> pos < end,
    decreases budget,
{
    if 0 <= pos < data.len() {
        let b = data[pos];
        if b & 0x80 != 0 && budget > 1 {
            lemma_leb_s_lb(data, pos + 1, (budget - 1) as nat);
        }
    }
}

proof fn lemma_var_u32_lb(data: Seq<u8>, pos: int)
    ensures
        sp_var_u32(data, pos) matches SpRead::Val { v, end } ==> pos < end,
{
    lemma_leb_u_lb(data, pos, 32);
}

proof fn lemma_var_u64_lb(data: Seq<u8>, pos: int)
    ensures
        sp_var_u64(data, pos) matches SpRead::Val { v, end } ==> pos < end,
{
    lemma_leb_u_lb(data, pos, 64);
}

proof fn lemma_var_s_lb(data: Seq<u8>, pos: int, bits: nat)
    ensures
        sp_var_s(data, pos, bits) matches SpRead::Val { v, end } ==> pos < end,
{
    lemma_leb_s_lb(data, pos, if bits == 64 { 10 } else { 5 });
}

proof fn lemma_string_lb(data: Seq<u8>, pos: int)
    ensures
        sp_string(data, pos) matches SpRead::Val { v, end } ==> pos < end,
{
    lemma_leb_u_lb(data, pos, 32);
}

proof fn lemma_heap_type_lb(data: Seq<u8>, pos: int)
    ensures
        sp_heap_type(data, pos) matches SpRead::Val { v, end } ==> pos < end,
{
    lemma_var_s_lb(data, pos, 33);
}

proof fn lemma_ref_type_lb(data: Seq<u8>, pos: int)
    ensures
        sp_ref_type(data, pos) matches SpRead::Val { v, end } ==> pos < end,
{
    if 0 <= pos < data.len() {
        lemma_heap_type_lb(data, pos + 1);
    }
}

proof fn lemma_val_type_lb(data: Seq<u8>, pos: int)
    ensures
        sp_val_type(data, pos) matches SpRead::Val { v, end } ==> pos < end,
{
    lemma_ref_type_lb(data, pos);
}

proof fn lemma_items_valtype_lb(data: Seq<u8>, pos: int, n: nat)
    ensures
        sp_items::<ValType>(data, pos, n) matches SpRead::Val { v, end } ==> pos <= end,
    decreases n,
{
    if n > 0 {
        lemma_val_type_lb(data, pos);
        if let SpRead::Val { v: _, end } = sp_val_type(data, pos) {
            lemma_items_valtype_lb(data, end, (n - 1) as nat);
        }
    }
}

proof fn lemma_table_type_lb(data: Seq<u8>, pos: int)
    ensures
        sp_table_type(data, pos) matches SpRead::Val { v, end } ==> pos < end,
{
    lemma_ref_type_lb(data, pos);
    if let SpRead::Val { v: _, end: p1 } = sp_ref_type(data, pos) {
        lemma_var_u32_lb(data, p1 + 1);
        if let SpRead::Val { v: _, end: p3 } = sp_var_u32(data, p1 + 1) {
            lemma_var_u32_lb(data, p3);
        }
    }
}

proof fn lemma_limit_lb(data: Seq<u8>, pos: int, bits: nat)
    ensures
        sp_limit(data, pos, bits) matches SpRead::Val { v, end } ==> pos < end,
{
    lemma_var_u64_lb(data, pos);
    lemma_var_u32_lb(data, pos);
}

proof fn lemma_memory_type_lb(data: Seq<u8>, pos: int)
    ensures
        sp_memory_type(data, pos) matches SpRead::Val { v, end } ==> pos < end,
{
    if 0 <= pos < data.len() {
        let flags = data[pos];
        let bits: nat = if flags & 4 != 0 {
            64
        } else {
            32
        };
        lemma_limit_lb(data, pos + 1, bits);
        if let SpRead::Val { v: _, end: p2 } = sp_limit(data, pos + 1, bits) {
            lemma_limit_lb(data, p2, bits);
        }
    }
}

proof fn lemma_global_type_lb(data: Seq<u8>, pos: int)
    ensures
        sp_global_type(data, pos) matches SpRead::Val { v, end } ==> pos < end,
{
    lemma_val_type_lb(data, pos);
}

proof fn lemma_tag_type_lb(data: Seq<u8>, pos: int)
    ensures
        sp_tag_type(data, pos) matches SpRead::Val { v, end } ==> pos < end,
{
    if 0 <= pos < data.len() {
        lemma_var_u32_lb(data, pos + 1);
    }
}

/// A section entry that records the offset it was decoded at.
pub trait OffsetEntry: SectionEntry {
    /// The offset the entry records.
    spec fn off(v: Self::V) -> int;

    /// Each decoded entry records the position it began at, and every
    /// outcome that lets decoding continue consumes at least one byte.
    proof fn entry_at_own_offset(data: Seq<u8>, p: int)
        ensures
            Self::sp(data, p) matches SpEntry::Val { v, end } ==> Self::off(v) == p && end > p,
            Self::sp(data, p) matches SpEntry::Skip { e, end } ==> end > p,
    ;
}

impl OffsetEntry for Type {
    open spec fn off(v: TypeV) -> int {
        v.offset
    }

    proof fn entry_at_own_offset(data: Seq<u8>, p: int) {
        if 0 <= p < data.len() {
            lemma_var_u32_lb(data, p + 1);
            if let SpRead::Val { v: np, end: p2 } = sp_var_u32(data, p + 1) {
                lemma_items_valtype_lb(data, p2, np as nat);
                if let SpRead::Val { v: _, end: p3 } = sp_items::<ValType>(data, p2, np as nat) {
                    lemma_var_u32_lb(data, p3);
                    if let SpRead::Val { v: nr, end: p4 } = sp_var_u32(data, p3) {
                        lemma_items_valtype_lb(data, p4, nr as nat);
                    }
                }
            }
        }
    }
}

impl OffsetEntry for Import {
    open spec fn off(v: ImportV) -> int {
        v.offset
    }

    proof fn entry_at_own_offset(data: Seq<u8>, p: int) {
        lemma_string_lb(data, p);
        if let SpRead::Val { v: _, end: p1 } = sp_string(data, p) {
            lemma_string_lb(data, p1);
            if let SpRead::Val { v: _, end: p2 } = sp_string(data, p1) {
                let p3 = p2 + 1;
                lemma_var_u32_lb(data, p3);
                lemma_table_type_lb(data, p3);
                lemma_memory_type_lb(data, p3);
                lemma_global_type_lb(data, p3);
                lemma_tag_type_lb(data, p3);
            }
        }
    }
}

impl OffsetEntry for Function {
    open spec fn off(v: FunctionV) -> int {
        v.offset
    }

    proof fn entry_at_own_offset(data: Seq<u8>, p: int) {
        lemma_var_u32_lb(data, p);
    }
}

proof fn lemma_entry_offsets_lb<T: OffsetEntry>(data: Seq<u8>, pos: int, n: nat)
    ensures
        forall|k: int|
            0 <= k < sp_entries::<T>(data, pos, n).len() ==> ((#[trigger] sp_entries::<T>(
                data,
                pos,
                n,
            )[k]) matches Ok(v) ==> T::off(v) >= pos),
    decreases n,
{
    if n > 0 {
        T::entry_at_own_offset(data, pos);
        let es = sp_entries::<T>(data, pos, n);
        match T::sp(data, pos) {
            SpEntry::Val { v, end } => {
                lemma_entry_offsets_lb::<T>(data, end, (n - 1) as nat);
                let rest = sp_entries::<T>(data, end, (n - 1) as nat);
                assert forall|k: int| 0 <= k < es.len() implies ((#[trigger] es[k]) matches Ok(v2)
                    ==> T::off(v2) >= pos) by {
                    if k > 0 {
                        assert(es[k] == rest[k - 1]);
                    }
                }
            },
            SpEntry::Skip { e, end } => {
                lemma_entry_offsets_lb::<T>(data, end, (n - 1) as nat);
                let rest = sp_entries::<T>(data, end, (n - 1) as nat);
                assert forall|k: int| 0 <= k < es.len() implies ((#[trigger] es[k]) matches Ok(v2)
                    ==> T::off(v2) >= pos) by {
                    if k > 0 {
                        assert(es[k] == rest[k - 1]);
                    }
                }
            },
            SpEntry::Stop { e } => {
            },
        }
    }
}

proof fn lemma_entry_offsets_sorted<T: OffsetEntry>(data: Seq<u8>, pos: int, n: nat)
    ensures
        forall|i: int, j: int|
            0 <= i < j < sp_entries::<T>(data, pos, n).len() ==> ((#[trigger] sp_entries::<T>(
                data,
                pos,
                n,
            )[i]) matches Ok(vi) ==> (#[trigger] sp_entries::<T>(data, pos, n)[j]) matches Ok(vj)
                ==> T::off(vi) < T::off(vj)),
    decreases n,
{
    if n > 0 {
        T::entry_at_own_offset(data, pos);
        let es = sp_entries::<T>(data, pos, n);
        match T::sp(data, pos) {
            SpEntry::Val { v, end } => {
                lemma_entry_offsets_sorted::<T>(data, end, (n - 1) as nat);
                lemma_entry_offsets_lb::<T>(data, end, (n - 1) as nat);
                let rest = sp_entries::<T>(data, end, (n - 1) as nat);
                assert forall|i: int, j: int| 0 <= i < j < es.len() implies ((#[trigger] es[i])
                    matches Ok(vi) ==> (#[trigger] es[j]) matches Ok(vj) ==> T::off(vi) < T::off(
                    vj,
                )) by {
                    assert(es[j] == rest[j - 1]);
                    if i > 0 {
                        assert(es[i] == rest[i - 1]);
                    }
                }
            },
            SpEntry::Skip { e, end } => {
                lemma_entry_offsets_sorted::<T>(data, end, (n - 1) as nat);
                let rest = sp_entries::<T>(data, end, (n - 1) as nat);
                assert forall|i: int, j: int| 0 <= i < j < es.len() implies ((#[trigger] es[i])
                    matches Ok(vi) ==> (#[trigger] es[j]) matches Ok(vj) ==> T::off(vi) < T::off(
                    vj,
                )) by {
                    assert(es[j] == rest[j - 1]);
                    if i > 0 {
                        assert(es[i] == rest[i - 1]);
                    }
                }
            },
            SpEntry::Stop { e } => {
            },
        }
    }
}

/// Across a decoded type section, the offsets recorded by the successfully
/// decoded entries are strictly increasing in declaration order.
pub proof fn lemma_type_section_offsets_increase(data: Seq<u8>, offset: int)
    ensures
        (match sp_section::<Type>(data, offset) {
            Ok(es) => forall|i: int, j: int|
                0 <= i < j < es.len() ==> ((#[trigger] es[i]) matches Ok(vi) ==> (#[trigger] es[j])
                    matches Ok(vj) ==> vi.offset < vj.offset),
            Err(_) => true,
        }),
{
    if let SpRead::Val { v: count, end } = sp_var_u32(data, offset) {
        lemma_entry_offsets_sorted::<Type>(data, end, count as nat);
    }
}

/// Across a decoded import section, the offsets recorded by the successfully
/// decoded entries are strictly increasing in declaration order.
pub proof fn lemma_import_section_offsets_increase(data: Seq<u8>, offset: int)
    ensures
        (match sp_section::<Import>(data, offset) {
            Ok(es) => forall|i: int, j: int|
                0 <= i < j < es.len() ==> ((#[trigger] es[i]) matches Ok(vi) ==> (#[trigger] es[j])
                    matches Ok(vj) ==> vi.offset < vj.offset),
            Err(_) => true,
        }),
{
    if let SpRead::Val { v: count, end } = sp_var_u32(data, offset) {
        lemma_entry_offsets_sorted::<Import>(data, end, count as nat);
    }
}

/// Across a decoded function section, the offsets recorded by the
/// successfully decoded entries are strictly increasing in declaration
/// order.
pub proof fn lemma_function_section_offsets_increase(data: Seq<u8>, offset: int)
    ensures
        (match sp_section::<Function>(data, offset) {
            Ok(es) => forall|i: int, j: int|
                0 <= i < j < es.len() ==> ((#[trigger] es[i]) matches Ok(vi) ==> (#[trigger] es[j])
                    matches Ok(vj) ==> vi.offset < vj.offset),
            Err(_) => true,
        }),
{
    if let SpRead::Val { v: count, end } = sp_var_u32(data, offset) {
        lemma_entry_offsets_sorted::<Function>(data, end, count as nat);
    }
}


// ---------------------------------------------------------------------------
// Truncation loses entries, never invents them.
// ---------------------------------------------------------------------------

proof fn lemma_leb_u_ub(data: Seq<u8>, pos: int, bits: nat)
    ensures
        sp_leb_u_raw(data, pos, bits) matches SpLebRaw::Val { v, end } ==> end <= data.len(),
    decreases bits,
{
    if 0 <= pos < data.len() {
        let b = data[pos];
        if b & 0x80 != 0 && bits > 7 {
            lemma_leb_u_ub(data, pos + 1, (bits - 7) as nat);
        }
    }
}

/// A read that does not run off the end of a truncated buffer reads the same
/// bytes as on the full buffer, so it returns the same value — or is
/// malformed on both.
proof fn lemma_leb_u_prefix(data: Seq<u8>, k: int, pos: int, bits: nat)
    requires
        0 <= k <= data.len(),
    ensures
        (match sp_leb_u_raw(data.subrange(0, k), pos, bits) {
            SpLebRaw::Val { v, end } => sp_leb_u_raw(data, pos, bits) == (SpLebRaw::Val { v, end }),
            SpLebRaw::Bad => sp_leb_u_raw(data, pos, bits) == SpLebRaw::Bad,
            SpLebRaw::Eof => true,
        }),
    decreases bits,
{
    let t = data.subrange(0, k);
    if 0 <= pos < t.len() {
        assert(t[pos] == data[pos]);
        let b = t[pos];
        if b & 0x80 != 0 && bits > 7 {
            lemma_leb_u_prefix(data, k, pos + 1, (bits - 7) as nat);
        }
    }
}

/// Conversely, a read that stayed below the cut on the full buffer reads
/// identically on the truncated one.
proof fn lemma_leb_u_prefix_rev(data: Seq<u8>, k: int, pos: int, bits: nat)
    requires
        0 <= k <= data.len(),
    ensures
        sp_leb_u_raw(data, pos, bits) matches SpLebRaw::Val { v, end } ==> (end <= k
            ==> sp_leb_u_raw(data.subrange(0, k), pos, bits) == (SpLebRaw::Val { v, end })),
    decreases bits,
{
    let t = data.subrange(0, k);
    if let SpLebRaw::Val { v, end } = sp_leb_u_raw(data, pos, bits) {
        if end <= k {
            lemma_leb_u_lb(data, pos, bits);
            assert(t[pos] == data[pos]);
            let b = data[pos];
            if b & 0x80 != 0 && bits > 7 {
                lemma_leb_u_prefix_rev(data, k, pos + 1, (bits - 7) as nat);
                lemma_leb_u_lb(data, pos + 1, (bits - 7) as nat);
            }
        }
    }
}

/// Whether `tr` agrees with `fl` on every element it decoded successfully,
/// and is no longer: the truncated parse never invents an entry.
pub open spec fn ok_prefix_of<A, B>(tr: Seq<Result<A, B>>, fl: Seq<Result<A, B>>) -> bool {
    tr.len() <= fl.len() && (forall|i: int|
        0 <= i < tr.len() && (#[trigger] tr[i]) is Ok ==> fl[i] == tr[i])
}

/// Whether every element of a result sequence decoded successfully.
pub open spec fn all_ok<A, B>(s: Seq<Result<A, B>>) -> bool {
    forall|i: int| 0 <= i < s.len() ==> (#[trigger] s[i]) is Ok
}

/// How many elements of a result sequence decoded successfully.
pub open spec fn ok_count<A, B>(s: Seq<Result<A, B>>) -> int
    decreases s.len(),
{
    if s.len() == 0 {
        0
    } else {
        (if s[0] is Ok {
            1int
        } else {
            0int
        }) + ok_count(s.drop_first())
    }
}

proof fn lemma_ok_count_all_ok<A, B>(s: Seq<Result<A, B>>)
    ensures
        0 <= ok_count(s) <= s.len(),
        all_ok(s) ==> ok_count(s) == s.len(),
    decreases s.len(),
{
    if s.len() > 0 {
        lemma_ok_count_all_ok(s.drop_first());
        if all_ok(s) {
            assert(s[0] is Ok);
            let d = s.drop_first();
            assert forall|i: int| 0 <= i < d.len() implies (#[trigger] d[i]) is Ok by {
                assert(d[i] == s[i + 1]);
            }
        }
    }
}

/// A section never yields more entries than its declared count — truncation
/// or corruption can only lose entries, never invent them.
pub proof fn lemma_entries_len_le<T: SectionEntry>(data: Seq<u8>, pos: int, n: nat)
    ensures
        sp_entries::<T>(data, pos, n).len() <= n,
        n > 0 ==> sp_entries::<T>(data, pos, n).len() >= 1,
    decreases n,
{
    if n > 0 {
        match T::sp(data, pos) {
            SpEntry::Val { v, end } => {
                lemma_entries_len_le::<T>(data, end, (n - 1) as nat);
            },
            SpEntry::Skip { e, end } => {
                lemma_entries_len_le::<T>(data, end, (n - 1) as nat);
            },
            SpEntry::Stop { e } => {
            },
        }
    }
}

proof fn lemma_function_fin_ge(data: Seq<u8>, pos: int, n: nat)
    ensures
        crate::sections::sp_entries_fin::<Function>(data, pos, n)
            matches crate::sections::SpEntriesFin::Done(e) ==> e >= pos,
    decreases n,
{
    if n > 0 {
        lemma_var_u32_lb(data, pos);
        match Function::sp(data, pos) {
            SpEntry::Val { v, end } => {
                lemma_function_fin_ge(data, end, (n - 1) as nat);
            },
            SpEntry::Skip { e, end } => {
                lemma_function_fin_ge(data, end, (n - 1) as nat);
            },
            SpEntry::Stop { e } => {
            },
        }
    }
}

/// Slicing a fully decodable run of function entries short strictly reduces
/// the number of successfully decoded entries: the cut falls inside some
/// entry, and that entry (with everything after it) is lost, never replaced
/// by an invented one.
pub proof fn lemma_function_entries_truncation_strict(
    data: Seq<u8>,
    pos: int,
    n: nat,
    k: int,
    endf: int,
)
    requires
        0 <= pos <= k <= data.len(),
        all_ok(sp_entries::<Function>(data, pos, n)),
        crate::sections::sp_entries_fin::<Function>(data, pos, n)
            == crate::sections::SpEntriesFin::Done(endf),
        k < endf,
    ensures
        ok_count(sp_entries::<Function>(data.subrange(0, k), pos, n)) < ok_count(
            sp_entries::<Function>(data, pos, n),
        ),
    decreases n,
{
    let t = data.subrange(0, k);
    let tr = sp_entries::<Function>(t, pos, n);
    let fl = sp_entries::<Function>(data, pos, n);
    lemma_function_fin_ge(data, pos, n);
    match Function::sp(data, pos) {
        SpEntry::Val { v, end } => {
            lemma_var_u32_lb(data, pos);
            lemma_leb_u_ub(data, pos, 32);
            lemma_function_fin_ge(data, end, (n - 1) as nat);
            assert(fl[0] is Ok);
            if end <= k {
                lemma_leb_u_prefix_rev(data, k, pos, 32);
                assert(Function::sp(t, pos) == (SpEntry::Val { v, end }));
                let tr2 = sp_entries::<Function>(t, end, (n - 1) as nat);
                let fl2 = sp_entries::<Function>(data, end, (n - 1) as nat);
                assert forall|i: int| 0 <= i < fl2.len() implies (#[trigger] fl2[i]) is Ok by {
                    assert(fl2[i] == fl[i + 1]);
                }
                lemma_function_entries_truncation_strict(data, end, (n - 1) as nat, k, endf);
                assert(tr.drop_first() =~= tr2);
                assert(fl.drop_first() =~= fl2);
            } else {
                // The cut falls inside this entry: on the truncated buffer it
                // cannot decode, so the run stops with one error element.
                lemma_leb_u_prefix(data, k, pos, 32);
                match Function::sp(t, pos) {
                    SpEntry::Val { v: v2, end: e2 } => {
                        lemma_leb_u_ub(t, pos, 32);
                        assert(false);
                    },
                    SpEntry::Skip { e, end: e2 } => {
                        assert(false);
                    },
                    SpEntry::Stop { e } => {
                        assert(tr =~= seq![Err::<FunctionV, crate::error::ErrorV>(e)]);
                        assert(tr.len() == 1 && !(tr[0] is Ok));
                        assert(tr.drop_first().len() == 0);
                        assert(ok_count(tr.drop_first()) == 0);
                        assert(ok_count(tr) == 0);
                        lemma_ok_count_all_ok(fl);
                        lemma_entries_len_le::<Function>(data, pos, n);
                    },
                }
            }
        },
        SpEntry::Skip { e, end } => {
            assert(fl[0] is Ok);
            assert(false);
        },
        SpEntry::Stop { e } => {
            if n == 0 {
                assert(endf == pos);
                assert(false);
            } else {
                assert(fl[0] is Ok);
                assert(false);
            }
        },
    }
}

/// A section entry whose decoding is stable under truncation: any entry
/// outcome that lets decoding continue on the truncated buffer is the very
/// outcome the full buffer gives at the same position.
pub trait PrefixEntry: SectionEntry {
    proof fn entry_prefix(data: Seq<u8>, k: int, p: int)
        requires
            0 <= k <= data.len(),
        ensures
            Self::sp(data.subrange(0, k), p) matches SpEntry::Val { v, end } ==> Self::sp(data, p)
                == (SpEntry::Val { v, end }),
            Self::sp(data.subrange(0, k), p) matches SpEntry::Skip { e, end } ==> Self::sp(data, p)
                == (SpEntry::<Self::V>::Skip { e, end }),
    ;
}

proof fn lemma_leb_s_prefix(data: Seq<u8>, k: int, pos: int, budget: nat)
    requires
        0 <= k <= data.len(),
    ensures
        sp_leb_s_raw(data.subrange(0, k), pos, budget) matches SpLebSRaw::Val { v, end }
            ==> sp_leb_s_raw(data, pos, budget) == (SpLebSRaw::Val { v, end }),
    decreases budget,
{
    let t = data.subrange(0, k);
    if 0 <= pos < t.len() {
        assert(t[pos] == data[pos]);
        let b = t[pos];
        if b & 0x80 != 0 && budget > 1 {
            lemma_leb_s_prefix(data, k, pos + 1, (budget - 1) as nat);
        }
    }
}

proof fn lemma_var_u32_prefix(data: Seq<u8>, k: int, pos: int)
    requires
        0 <= k <= data.len(),
    ensures
        sp_var_u32(data.subrange(0, k), pos) matches SpRead::Val { v, end } ==> sp_var_u32(
            data,
            pos,
        ) == (SpRead::Val { v, end }),
{
    lemma_leb_u_prefix(data, k, pos, 32);
}

proof fn lemma_var_u64_prefix(data: Seq<u8>, k: int, pos: int)
    requires
        0 <= k <= data.len(),
    ensures
        sp_var_u64(data.subrange(0, k), pos) matches SpRead::Val { v, end } ==> sp_var_u64(
            data,
            pos,
        ) == (SpRead::Val { v, end }),
{
    lemma_leb_u_prefix(data, k, pos, 64);
}

proof fn lemma_string_prefix(data: Seq<u8>, k: int, pos: int)
    requires
        0 <= k <= data.len(),
    ensures
        sp_string(data.subrange(0, k), pos) matches SpRead::Val { v, end } ==> sp_string(data, pos)
            == (SpRead::Val { v, end }),
{
    let t = data.subrange(0, k);
    lemma_leb_u_prefix(data, k, pos, 32);
    if let SpLebRaw::Val { v: n, end: p2 } = sp_leb_u_raw(t, pos, 32) {
        lemma_leb_u_lb(t, pos, 32);
        lemma_leb_u_ub(t, pos, 32);
        if p2 + n <= t.len() {
            assert(t.subrange(p2, p2 + n) =~= data.subrange(p2, p2 + n));
        }
    }
}

proof fn lemma_heap_type_prefix(data: Seq<u8>, k: int, pos: int)
    requires
        0 <= k <= data.len(),
    ensures
        sp_heap_type(data.subrange(0, k), pos) matches SpRead::Val { v, end } ==> sp_heap_type(
            data,
            pos,
        ) == (SpRead::Val { v, end }),
{
    let t = data.subrange(0, k);
    if 0 <= pos < t.len() {
        assert(t[pos] == data[pos]);
        lemma_leb_s_prefix(data, k, pos, 5);
    }
}

proof fn lemma_ref_type_prefix(data: Seq<u8>, k: int, pos: int)
    requires
        0 <= k <= data.len(),
    ensures
        sp_ref_type(data.subrange(0, k), pos) matches SpRead::Val { v, end } ==> sp_ref_type(
            data,
            pos,
        ) == (SpRead::Val { v, end }),
{
    let t = data.subrange(0, k);
    if 0 <= pos < t.len() {
        assert(t[pos] == data[pos]);
        lemma_heap_type_prefix(data, k, pos);
        lemma_heap_type_prefix(data, k, pos + 1);
    }
}

proof fn lemma_val_type_prefix(data: Seq<u8>, k: int, pos: int)
    requires
        0 <= k <= data.len(),
    ensures
        sp_val_type(data.subrange(0, k), pos) matches SpRead::Val { v, end } ==> sp_val_type(
            data,
            pos,
        ) == (SpRead::Val { v, end }),
{
    let t = data.subrange(0, k);
    if 0 <= pos < t.len() {
        assert(t[pos] == data[pos]);
        lemma_ref_type_prefix(data, k, pos);
    }
}

proof fn lemma_items_valtype_prefix(data: Seq<u8>, k: int, pos: int, n: nat)
    requires
        0 <= k <= data.len(),
    ensures
        sp_items::<ValType>(data.subrange(0, k), pos, n) matches SpRead::Val { v, end }
            ==> sp_items::<ValType>(data, pos, n) == (SpRead::Val { v, end }),
    decreases n,
{
    let t = data.subrange(0, k);
    if n > 0 {
        lemma_val_type_prefix(data, k, pos);
        if let SpRead::Val { v: _, end } = sp_val_type(t, pos) {
            lemma_items_valtype_prefix(data, k, end, (n - 1) as nat);
        }
    }
}

proof fn lemma_table_type_prefix(data: Seq<u8>, k: int, pos: int)
    requires
        0 <= k <= data.len(),
    ensures
        sp_table_type(data.subrange(0, k), pos) matches SpRead::Val { v, end } ==> sp_table_type(
            data,
            pos,
        ) == (SpRead::Val { v, end }),
{
    let t = data.subrange(0, k);
    lemma_ref_type_prefix(data, k, pos);
    if let SpRead::Val { v: _, end: p1 } = sp_ref_type(t, pos) {
        lemma_ref_type_lb(t, pos);
        if 0 <= p1 < t.len() {
            assert(t[p1] == data[p1]);
            lemma_var_u32_prefix(data, k, p1 + 1);
            if let SpRead::Val { v: _, end: p3 } = sp_var_u32(t, p1 + 1) {
                lemma_var_u32_prefix(data, k, p3);
            }
        }
    }
}

proof fn lemma_limit_prefix(data: Seq<u8>, k: int, pos: int, bits: nat)
    requires
        0 <= k <= data.len(),
    ensures
        sp_limit(data.subrange(0, k), pos, bits) matches SpRead::Val { v, end } ==> sp_limit(
            data,
            pos,
            bits,
        ) == (SpRead::Val { v, end }),
{
    lemma_var_u32_prefix(data, k, pos);
    lemma_var_u64_prefix(data, k, pos);
}

proof fn lemma_memory_type_prefix(data: Seq<u8>, k: int, pos: int)
    requires
        0 <= k <= data.len(),
    ensures
        sp_memory_type(data.subrange(0, k), pos) matches SpRead::Val { v, end } ==> sp_memory_type(
            data,
            pos,
        ) == (SpRead::Val { v, end }),
{
    let t = data.subrange(0, k);
    if 0 <= pos < t.len() {
        assert(t[pos] == data[pos]);
        let flags = t[pos];
        let bits: nat = if flags & 4 != 0 {
            64
        } else {
            32
        };
        lemma_limit_prefix(data, k, pos + 1, bits);
        if let SpRead::Val { v: _, end: p2 } = sp_limit(t, pos + 1, bits) {
            lemma_limit_prefix(data, k, p2, bits);
        }
    }
}

proof fn lemma_global_type_prefix(data: Seq<u8>, k: int, pos: int)
    requires
        0 <= k <= data.len(),
    ensures
        sp_global_type(data.subrange(0, k), pos) matches SpRead::Val { v, end } ==> sp_global_type(
            data,
            pos,
        ) == (SpRead::Val { v, end }),
{
    let t = data.subrange(0, k);
    lemma_val_type_prefix(data, k, pos);
    if let SpRead::Val { v: _, end: p1 } = sp_val_type(t, pos) {
        lemma_val_type_lb(t, pos);
        if 0 <= p1 < t.len() {
            assert(t[p1] == data[p1]);
        }
    }
}

proof fn lemma_tag_type_prefix(data: Seq<u8>, k: int, pos: int)
    requires
        0 <= k <= data.len(),
    ensures
        sp_tag_type(data.subrange(0, k), pos) matches SpRead::Val { v, end } ==> sp_tag_type(
            data,
            pos,
        ) == (SpRead::Val { v, end }),
{
    let t = data.subrange(0, k);
    if 0 <= pos < t.len() {
        assert(t[pos] == data[pos]);
        lemma_var_u32_prefix(data, k, pos + 1);
    }
}

impl PrefixEntry for Function {
    proof fn entry_prefix(data: Seq<u8>, k: int, p: int) {
        lemma_var_u32_prefix(data, k, p);
    }
}

impl PrefixEntry for Type {
    proof fn entry_prefix(data: Seq<u8>, k: int, p: int) {
        let t = data.subrange(0, k);
        if 0 <= p < t.len() {
            assert(t[p] == data[p]);
            lemma_var_u32_prefix(data, k, p + 1);
            if let SpRead::Val { v: np, end: p2 } = sp_var_u32(t, p + 1) {
                lemma_items_valtype_prefix(data, k, p2, np as nat);
                if let SpRead::Val { v: _, end: p3 } = sp_items::<ValType>(t, p2, np as nat) {
                    lemma_var_u32_prefix(data, k, p3);
                    if let SpRead::Val { v: nr, end: p4 } = sp_var_u32(t, p3) {
                        lemma_items_valtype_prefix(data, k, p4, nr as nat);
                    }
                }
            }
        }
    }
}

impl PrefixEntry for Import {
    proof fn entry_prefix(data: Seq<u8>, k: int, p: int) {
        let t = data.subrange(0, k);
        lemma_string_prefix(data, k, p);
        if let SpRead::Val { v: _, end: p1 } = sp_string(t, p) {
            lemma_string_prefix(data, k, p1);
            if let SpRead::Val { v: _, end: p2 } = sp_string(t, p1) {
                lemma_string_lb(t, p1);
                if 0 <= p2 < t.len() {
                    assert(t[p2] == data[p2]);
                    let p3 = p2 + 1;
                    lemma_var_u32_prefix(data, k, p3);
                    lemma_table_type_prefix(data, k, p3);
                    lemma_memory_type_prefix(data, k, p3);
                    lemma_global_type_prefix(data, k, p3);
                    lemma_tag_type_prefix(data, k, p3);
                }
            }
        }
    }
}

impl PrefixEntry for crate::types::MemoryType {
    proof fn entry_prefix(data: Seq<u8>, k: int, p: int) {
        lemma_memory_type_prefix(data, k, p);
    }
}

impl PrefixEntry for crate::types::Export {
    proof fn entry_prefix(data: Seq<u8>, k: int, p: int) {
        let t = data.subrange(0, k);
        lemma_string_prefix(data, k, p);
        if let SpRead::Val { v: _, end: p1 } = sp_string(t, p) {
            lemma_string_lb(t, p);
            if 0 <= p1 < t.len() {
                assert(t[p1] == data[p1]);
                lemma_var_u32_prefix(data, k, p1 + 1);
            }
        }
    }
}

impl PrefixEntry for crate::types::FunctionBody {
    proof fn entry_prefix(data: Seq<u8>, k: int, p: int) {
        lemma_var_u32_prefix(data, k, p);
    }
}

proof fn lemma_entries_prefix<T: PrefixEntry>(data: Seq<u8>, k: int, pos: int, n: nat)
    requires
        0 <= k <= data.len(),
    ensures
        ok_prefix_of(
            sp_entries::<T>(data.subrange(0, k), pos, n),
            sp_entries::<T>(data, pos, n),
        ),
    decreases n,
{
    let t = data.subrange(0, k);
    if n > 0 {
        T::entry_prefix(data, k, pos);
        let tr = sp_entries::<T>(t, pos, n);
        let fl = sp_entries::<T>(data, pos, n);
        match T::sp(t, pos) {
            SpEntry::Val { v, end } => {
                lemma_entries_prefix::<T>(data, k, end, (n - 1) as nat);
                let tr2 = sp_entries::<T>(t, end, (n - 1) as nat);
                let fl2 = sp_entries::<T>(data, end, (n - 1) as nat);
                assert forall|i: int| 0 <= i < tr.len() && (#[trigger] tr[i]) is Ok implies fl[i]
                    == tr[i] by {
                    if i > 0 {
                        assert(tr[i] == tr2[i - 1]);
                        assert(fl[i] == fl2[i - 1]);
                    }
                }
            },
            SpEntry::Skip { e, end } => {
                lemma_entries_prefix::<T>(data, k, end, (n - 1) as nat);
                let tr2 = sp_entries::<T>(t, end, (n - 1) as nat);
                let fl2 = sp_entries::<T>(data, end, (n - 1) as nat);
                assert forall|i: int| 0 <= i < tr.len() && (#[trigger] tr[i]) is Ok implies fl[i]
                    == tr[i] by {
                    if i > 0 {
                        assert(tr[i] == tr2[i - 1]);
                        assert(fl[i] == fl2[i - 1]);
                    }
                }
            },
            SpEntry::Stop { e } => {
                lemma_entries_len_le::<T>(data, pos, n);
                assert(tr.len() == 1);
            },
        }
    }
}

/// What decoding a section from a buffer cut at `k` may return, against the
/// full buffer's result: a section-level error, or a sequence that agrees
/// with the full one on every entry it decoded successfully — in which case
/// the full parse cannot itself have failed at the section level, since the
/// count that read on the prefix reads identically on the whole buffer.
pub open spec fn truncated_section_agrees<T: SectionEntry>(
    data: Seq<u8>,
    offset: int,
    k: int,
) -> bool {
    match (sp_section::<T>(data.subrange(0, k), offset), sp_section::<T>(data, offset)) {
        (Ok(tr), Ok(fl)) => ok_prefix_of(tr, fl),
        (Ok(tr), Err(_)) => false,
        (Err(_), _) => true,
    }
}

/// Decoding a truncated buffer returns either a section-level error or a
/// sequence that agrees, element for element, with the full buffer's on
/// every successfully decoded entry — never one padded with synthetic
/// entries. Holds for every section kind whose entries are stable under
/// truncation.
pub proof fn lemma_section_truncation<T: PrefixEntry>(data: Seq<u8>, offset: int, k: int)
    requires
        0 <= k <= data.len(),
    ensures
        truncated_section_agrees::<T>(data, offset, k),
{
    lemma_leb_u_prefix(data, k, offset, 32);
    if let SpRead::Val { v: count, end: start } = sp_var_u32(data.subrange(0, k), offset) {
        lemma_entries_prefix::<T>(data, k, start, count as nat);
    }
}


proof fn lemma_bytes_prefix(data: Seq<u8>, k: int, pos: int, n: int)
    requires
        0 <= k <= data.len(),
        0 <= n,
    ensures
        sp_bytes(data.subrange(0, k), pos, n) matches SpRead::Val { v, end } ==> sp_bytes(
            data,
            pos,
            n,
        ) == (SpRead::Val { v, end }),
{
    let t = data.subrange(0, k);
    if let SpRead::Val { v, end } = sp_bytes(t, pos, n) {
        let a = t.subrange(pos, pos + n);
        let b = data.subrange(pos, pos + n);
        assert forall|i: int| 0 <= i < a.len() implies a[i] == b[i] by {
            assert(a[i] == t[pos + i]);
            assert(b[i] == data[pos + i]);
        }
        assert(a =~= b);
    }
}

proof fn lemma_var_s_prefix(data: Seq<u8>, k: int, pos: int, bits: nat)
    requires
        0 <= k <= data.len(),
    ensures
        sp_var_s(data.subrange(0, k), pos, bits) matches SpRead::Val { v, end } ==> sp_var_s(
            data,
            pos,
            bits,
        ) == (SpRead::Val { v, end }),
{
    lemma_leb_s_prefix(data, k, pos, if bits == 64 { 10 } else { 5 });
}

proof fn lemma_items_u32_prefix(data: Seq<u8>, k: int, pos: int, n: nat)
    requires
        0 <= k <= data.len(),
    ensures
        sp_items::<u32>(data.subrange(0, k), pos, n) matches SpRead::Val { v, end }
            ==> sp_items::<u32>(data, pos, n) == (SpRead::Val { v, end }),
    decreases n,
{
    let t = data.subrange(0, k);
    if n > 0 {
        lemma_var_u32_prefix(data, k, pos);
        if let SpRead::Val { v: _, end } = sp_var_u32(t, pos) {
            lemma_items_u32_prefix(data, k, end, (n - 1) as nat);
        }
    }
}

proof fn lemma_block_type_prefix(data: Seq<u8>, k: int, pos: int)
    requires
        0 <= k <= data.len(),
    ensures
        sp_block_type(data.subrange(0, k), pos) matches SpRead::Val { v, end } ==> sp_block_type(
            data,
            pos,
        ) == (SpRead::Val { v, end }),
{
    let t = data.subrange(0, k);
    if 0 <= pos < t.len() {
        assert(t[pos] == data[pos]);
        lemma_val_type_prefix(data, k, pos);
        lemma_var_s_prefix(data, k, pos, 33);
    }
}

proof fn lemma_skip_imm_prefix(data: Seq<u8>, k: int, pos: int, imm: ImmKind)
    requires
        0 <= k <= data.len(),
    ensures
        sp_skip_imm(data.subrange(0, k), pos, imm) matches SpRead::Val { v, end } ==> sp_skip_imm(
            data,
            pos,
            imm,
        ) == (SpRead::Val { v, end }),
{
    let t = data.subrange(0, k);
    match imm {
        ImmKind::NoImm => {
        },
        ImmKind::BlockType => {
            lemma_block_type_prefix(data, k, pos);
        },
        ImmKind::U32 => {
            lemma_var_u32_prefix(data, k, pos);
        },
        ImmKind::U32U32 => {
            lemma_var_u32_prefix(data, k, pos);
            if let SpRead::Val { v: _, end: p1 } = sp_var_u32(t, pos) {
                lemma_var_u32_prefix(data, k, p1);
            }
        },
        ImmKind::MemArg => {
            lemma_var_u32_prefix(data, k, pos);
            if let SpRead::Val { v: _, end: p1 } = sp_var_u32(t, pos) {
                lemma_var_u64_prefix(data, k, p1);
            }
        },
        ImmKind::I32 => {
            lemma_var_s_prefix(data, k, pos, 32);
        },
        ImmKind::I64 => {
            lemma_var_s_prefix(data, k, pos, 64);
        },
        ImmKind::F32Bytes => {
            lemma_bytes_prefix(data, k, pos, 4);
        },
        ImmKind::F64Bytes => {
            lemma_bytes_prefix(data, k, pos, 8);
        },
        ImmKind::BrTable => {
            lemma_var_u32_prefix(data, k, pos);
            if let SpRead::Val { v: n, end: p1 } = sp_var_u32(t, pos) {
                lemma_items_u32_prefix(data, k, p1, n as nat);
                if let SpRead::Val { v: _, end: p2 } = sp_items::<u32>(t, p1, n as nat) {
                    lemma_var_u32_prefix(data, k, p2);
                }
            }
        },
        ImmKind::HeapTypeImm => {
            lemma_heap_type_prefix(data, k, pos);
        },
        ImmKind::SelectTypes => {
            lemma_var_u32_prefix(data, k, pos);
            if let SpRead::Val { v: n, end: p1 } = sp_var_u32(t, pos) {
                lemma_items_valtype_prefix(data, k, p1, n as nat);
            }
        },
        ImmKind::ByteImm => {
            if 0 <= pos < t.len() {
                assert(t[pos] == data[pos]);
            }
        },
        ImmKind::Bytes16 => {
            lemma_bytes_prefix(data, k, pos, 16);
        },
        ImmKind::MemArgLane => {
            lemma_var_u32_prefix(data, k, pos);
            if let SpRead::Val { v: _, end: p1 } = sp_var_u32(t, pos) {
                lemma_var_u64_prefix(data, k, p1);
                if let SpRead::Val { v: _, end: p2 } = sp_var_u64(t, p1) {
                    if 0 <= p2 < t.len() {
                        assert(t[p2] == data[p2]);
                    }
                }
            }
        },
        ImmKind::BrOnCast => {
            if 0 <= pos < t.len() {
                assert(t[pos] == data[pos]);
                lemma_var_u32_prefix(data, k, pos + 1);
                if let SpRead::Val { v: _, end: p2 } = sp_var_u32(t, pos + 1) {
                    lemma_heap_type_prefix(data, k, p2);
                    if let SpRead::Val { v: _, end: p3 } = sp_heap_type(t, p2) {
                        lemma_heap_type_prefix(data, k, p3);
                    }
                }
            }
        },
    }
}

proof fn lemma_op_prefix(data: Seq<u8>, k: int, pos: int)
    requires
        0 <= k <= data.len(),
    ensures
        sp_op(data.subrange(0, k), pos) matches SpRead::Val { v, end } ==> sp_op(data, pos)
            == (SpRead::Val { v, end }),
{
    reveal(sp_op);
    let t = data.subrange(0, k);
    if 0 <= pos < t.len() {
        assert(t[pos] == data[pos]);
        let b = t[pos];
        if is_prefix_byte(b) {
            lemma_var_u32_prefix(data, k, pos + 1);
            if let SpRead::Val { v: sub, end: p2 } = sp_var_u32(t, pos + 1) {
                if let Some(info) = prefix_op_info_spec(b, sub) {
                    lemma_skip_imm_prefix(data, k, p2, info.1);
                }
            }
        } else {
            if let Some(info) = op_info_spec(b) {
                lemma_skip_imm_prefix(data, k, pos + 1, info.1);
            }
        }
    }
}

proof fn lemma_expr_end_prefix(data: Seq<u8>, k: int, pos: int, depth: nat)
    requires
        0 <= k <= data.len(),
    ensures
        sp_expr_end(data.subrange(0, k), pos, depth) matches SpRead::Val { v, end }
            ==> sp_expr_end(data, pos, depth) == (SpRead::Val { v, end }),
    decreases k - pos,
{
    let t = data.subrange(0, k);
    if let SpRead::Val { v: _, end: _ } = sp_expr_end(t, pos, depth) {
        if 0 <= pos < t.len() {
            assert(t[pos] == data[pos]);
            let b = t[pos];
            if b == 0x0B {
                if depth > 0 {
                    lemma_expr_end_prefix(data, k, pos + 1, (depth - 1) as nat);
                }
            } else {
                lemma_op_prefix(data, k, pos);
                if let SpRead::Val { v: _, end } = sp_op(t, pos) {
                    let nd: nat = if b == 0x02 || b == 0x03 || b == 0x04 {
                        depth + 1
                    } else {
                        depth
                    };
                    if pos < end <= t.len() {
                        lemma_expr_end_prefix(data, k, end, nd);
                    }
                }
            }
        }
    }
}

proof fn lemma_expr_end_ub(data: Seq<u8>, pos: int, depth: nat)
    ensures
        sp_expr_end(data, pos, depth) matches SpRead::Val { v, end } ==> pos < end <= data.len(),
    decreases data.len() - pos,
{
    if 0 <= pos < data.len() {
        let b = data[pos];
        if b == 0x0B {
            if depth > 0 {
                lemma_expr_end_ub(data, pos + 1, (depth - 1) as nat);
            }
        } else {
            if let SpRead::Val { v: _, end } = sp_op(data, pos) {
                let nd: nat = if b == 0x02 || b == 0x03 || b == 0x04 {
                    depth + 1
                } else {
                    depth
                };
                if pos < end <= data.len() {
                    lemma_expr_end_ub(data, end, nd);
                }
            }
        }
    }
}

proof fn lemma_const_expr_prefix(data: Seq<u8>, k: int, pos: int)
    requires
        0 <= k <= data.len(),
    ensures
        sp_const_expr(data.subrange(0, k), pos) matches SpRead::Val { v, end } ==> sp_const_expr(
            data,
            pos,
        ) == (SpRead::Val { v, end }),
{
    let t = data.subrange(0, k);
    lemma_expr_end_prefix(data, k, pos, 0);
    if let SpRead::Val { v: _, end } = sp_expr_end(t, pos, 0) {
        lemma_expr_end_ub(t, pos, 0);
        assert(t.subrange(pos, end) =~= data.subrange(pos, end));
    }
}

proof fn lemma_items_constexpr_prefix(data: Seq<u8>, k: int, pos: int, n: nat)
    requires
        0 <= k <= data.len(),
    ensures
        sp_items::<crate::types::ConstExpr>(data.subrange(0, k), pos, n) matches SpRead::Val {
            v,
            end,
        } ==> sp_items::<crate::types::ConstExpr>(data, pos, n) == (SpRead::Val { v, end }),
    decreases n,
{
    let t = data.subrange(0, k);
    if n > 0 {
        lemma_const_expr_prefix(data, k, pos);
        if let SpRead::Val { v: _, end } = sp_const_expr(t, pos) {
            lemma_items_constexpr_prefix(data, k, end, (n - 1) as nat);
        }
    }
}

proof fn lemma_elem_kind_prefix(data: Seq<u8>, k: int, pos: int, flags: u32)
    requires
        0 <= k <= data.len(),
    ensures
        sp_elem_kind(data.subrange(0, k), pos, flags) matches SpRead::Val { v, end }
            ==> sp_elem_kind(data, pos, flags) == (SpRead::Val { v, end }),
{
    let t = data.subrange(0, k);
    lemma_const_expr_prefix(data, k, pos);
    lemma_var_u32_prefix(data, k, pos);
    if let SpRead::Val { v: _, end: p } = sp_var_u32(t, pos) {
        lemma_const_expr_prefix(data, k, p);
    }
}

proof fn lemma_elem_type_prefix(data: Seq<u8>, k: int, pos: int, flags: u32)
    requires
        0 <= k <= data.len(),
    ensures
        sp_elem_type(data.subrange(0, k), pos, flags) matches SpRead::Val { v, end }
            ==> sp_elem_type(data, pos, flags) == (SpRead::Val { v, end }),
{
    let t = data.subrange(0, k);
    if 0 <= pos < t.len() {
        assert(t[pos] == data[pos]);
    }
    lemma_ref_type_prefix(data, k, pos);
}

proof fn lemma_elem_items_prefix(data: Seq<u8>, k: int, pos: int, flags: u32)
    requires
        0 <= k <= data.len(),
    ensures
        sp_elem_items(data.subrange(0, k), pos, flags) matches SpRead::Val { v, end }
            ==> sp_elem_items(data, pos, flags) == (SpRead::Val { v, end }),
{
    let t = data.subrange(0, k);
    lemma_var_u32_prefix(data, k, pos);
    if let SpRead::Val { v: cnt, end: p } = sp_var_u32(t, pos) {
        lemma_items_u32_prefix(data, k, p, cnt as nat);
        lemma_items_constexpr_prefix(data, k, p, cnt as nat);
    }
}

proof fn lemma_data_bytes_prefix(data: Seq<u8>, k: int, pos: int)
    requires
        0 <= k <= data.len(),
    ensures
        sp_data_bytes(data.subrange(0, k), pos) matches SpRead::Val { v, end } ==> sp_data_bytes(
            data,
            pos,
        ) == (SpRead::Val { v, end }),
{
    let t = data.subrange(0, k);
    lemma_var_u32_prefix(data, k, pos);
    if let SpRead::Val { v: n, end: p } = sp_var_u32(t, pos) {
        lemma_bytes_prefix(data, k, p, n as int);
    }
}

impl PrefixEntry for crate::types::Table {
    proof fn entry_prefix(data: Seq<u8>, k: int, p: int) {
        let t = data.subrange(0, k);
        if 0 <= p < t.len() {
            assert(t[p] == data[p]);
            let b = t[p];
            if b == 0x40 {
                if 0 <= p + 1 < t.len() {
                    assert(t[p + 1] == data[p + 1]);
                }
                lemma_table_type_prefix(data, k, p + 2);
                if let SpRead::Val { v: _, end: p3 } = sp_table_type(t, p + 2) {
                    lemma_const_expr_prefix(data, k, p3);
                }
            } else {
                lemma_table_type_prefix(data, k, p);
            }
        }
    }
}

impl PrefixEntry for crate::types::Global {
    proof fn entry_prefix(data: Seq<u8>, k: int, p: int) {
        let t = data.subrange(0, k);
        lemma_global_type_prefix(data, k, p);
        if let SpRead::Val { v: _, end: p1 } = sp_global_type(t, p) {
            lemma_const_expr_prefix(data, k, p1);
        }
    }
}

impl PrefixEntry for crate::types::Element {
    proof fn entry_prefix(data: Seq<u8>, k: int, p: int) {
        let t = data.subrange(0, k);
        lemma_var_u32_prefix(data, k, p);
        if let SpRead::Val { v: flags, end: p1 } = sp_var_u32(t, p) {
            if flags <= 7 {
                lemma_elem_kind_prefix(data, k, p1, flags);
                if let SpRead::Val { v: _, end: p2 } = sp_elem_kind(t, p1, flags) {
                    lemma_elem_type_prefix(data, k, p2, flags);
                    if let SpRead::Val { v: _, end: p3 } = sp_elem_type(t, p2, flags) {
                        lemma_elem_items_prefix(data, k, p3, flags);
                    }
                }
            }
        }
    }
}

impl PrefixEntry for crate::types::Data {
    proof fn entry_prefix(data: Seq<u8>, k: int, p: int) {
        let t = data.subrange(0, k);
        lemma_var_u32_prefix(data, k, p);
        if let SpRead::Val { v: flags, end: p1 } = sp_var_u32(t, p) {
            lemma_const_expr_prefix(data, k, p1);
            lemma_data_bytes_prefix(data, k, p1);
            if let SpRead::Val { v: _, end: p2 } = sp_const_expr(t, p1) {
                lemma_data_bytes_prefix(data, k, p2);
            }
            if flags == 2 {
                lemma_var_u32_prefix(data, k, p1);
                if let SpRead::Val { v: _, end: p2 } = sp_var_u32(t, p1) {
                    lemma_const_expr_prefix(data, k, p2);
                    if let SpRead::Val { v: _, end: p3 } = sp_const_expr(t, p2) {
                        lemma_data_bytes_prefix(data, k, p3);
                    }
                }
            }
        }
    }
}


// ---------------------------------------------------------------------------
// Error offsets are absolute within the buffer.
// ---------------------------------------------------------------------------

proof fn lemma_leb_s_ub(data: Seq<u8>, pos: int, budget: nat)
    ensures
        sp_leb_s_raw(data, pos, budget) matches SpLebSRaw::Val { v, end } ==> end <= data.len(),
    decreases budget,
{
    if 0 <= pos < data.len() {
        let b = data[pos];
        if b & 0x80 != 0 && budget > 1 {
            lemma_leb_s_ub(data, pos + 1, (budget - 1) as nat);
        }
    }
}

/// Bounds of a 32-bit integer read at an in-buffer position: a success ends
/// inside the buffer, and a failure points at the position the read began.
proof fn lemma_var_u32_bounds(data: Seq<u8>, pos: int)
    requires
        0 <= pos <= data.len(),
    ensures
        sp_var_u32(data, pos) matches SpRead::Val { v, end } ==> pos < end <= data.len(),
        sp_var_u32(data, pos) matches SpRead::Fail { e } ==> e.offset == pos,
{
    lemma_leb_u_lb(data, pos, 32);
    lemma_leb_u_ub(data, pos, 32);
}

proof fn lemma_string_bounds(data: Seq<u8>, pos: int)
    requires
        0 <= pos <= data.len(),
    ensures
        sp_string(data, pos) matches SpRead::Val { v, end } ==> pos < end <= data.len(),
        sp_string(data, pos) matches SpRead::Fail { e } ==> e.offset == pos,
{
    lemma_leb_u_lb(data, pos, 32);
}

proof fn lemma_heap_type_bounds(data: Seq<u8>, pos: int)
    requires
        0 <= pos <= data.len(),
    ensures
        sp_heap_type(data, pos) matches SpRead::Val { v, end } ==> pos < end <= data.len(),
        sp_heap_type(data, pos) matches SpRead::Fail { e } ==> e.offset == pos,
{
    lemma_leb_s_lb(data, pos, 5);
    lemma_leb_s_ub(data, pos, 5);
}

proof fn lemma_ref_type_bounds(data: Seq<u8>, pos: int)
    requires
        0 <= pos <= data.len(),
    ensures
        sp_ref_type(data, pos) matches SpRead::Val { v, end } ==> pos < end <= data.len(),
        sp_ref_type(data, pos) matches SpRead::Fail { e } ==> pos <= e.offset <= data.len(),
{
    if 0 <= pos < data.len() {
        lemma_heap_type_bounds(data, pos + 1);
    }
}

proof fn lemma_val_type_bounds(data: Seq<u8>, pos: int)
    requires
        0 <= pos <= data.len(),
    ensures
        sp_val_type(data, pos) matches SpRead::Val { v, end } ==> pos < end <= data.len(),
        sp_val_type(data, pos) matches SpRead::Fail { e } ==> pos <= e.offset <= data.len(),
{
    lemma_ref_type_bounds(data, pos);
}

proof fn lemma_table_type_bounds(data: Seq<u8>, pos: int)
    requires
        0 <= pos <= data.len(),
    ensures
        sp_table_type(data, pos) matches SpRead::Val { v, end } ==> pos < end <= data.len(),
        sp_table_type(data, pos) matches SpRead::Fail { e } ==> pos <= e.offset <= data.len(),
{
    lemma_ref_type_bounds(data, pos);
    if let SpRead::Val { v: _, end: p1 } = sp_ref_type(data, pos) {
        if p1 < data.len() {
            lemma_var_u32_bounds(data, p1 + 1);
            if let SpRead::Val { v: _, end: p3 } = sp_var_u32(data, p1 + 1) {
                lemma_var_u32_bounds(data, p3);
            }
        }
    }
}

proof fn lemma_limit_bounds(data: Seq<u8>, pos: int, bits: nat)
    requires
        0 <= pos <= data.len(),
    ensures
        sp_limit(data, pos, bits) matches SpRead::Val { v, end } ==> pos < end <= data.len(),
        sp_limit(data, pos, bits) matches SpRead::Fail { e } ==> e.offset == pos,
{
    lemma_leb_u_lb(data, pos, 32);
    lemma_leb_u_ub(data, pos, 32);
    lemma_leb_u_lb(data, pos, 64);
    lemma_leb_u_ub(data, pos, 64);
}

proof fn lemma_memory_type_bounds(data: Seq<u8>, pos: int)
    requires
        0 <= pos <= data.len(),
    ensures
        sp_memory_type(data, pos) matches SpRead::Val { v, end } ==> pos < end <= data.len(),
        sp_memory_type(data, pos) matches SpRead::Fail { e } ==> pos <= e.offset <= data.len(),
{
    if 0 <= pos < data.len() {
        let flags = data[pos];
        let bits: nat = if flags & 4 != 0 {
            64
        } else {
            32
        };
        lemma_limit_bounds(data, pos + 1, bits);
        if let SpRead::Val { v: _, end: p2 } = sp_limit(data, pos + 1, bits) {
            lemma_limit_bounds(data, p2, bits);
        }
    }
}

proof fn lemma_global_type_bounds(data: Seq<u8>, pos: int)
    requires
        0 <= pos <= data.len(),
    ensures
        sp_global_type(data, pos) matches SpRead::Val { v, end } ==> pos < end <= data.len(),
        sp_global_type(data, pos) matches SpRead::Fail { e } ==> pos <= e.offset <= data.len(),
{
    lemma_val_type_bounds(data, pos);
}

proof fn lemma_tag_type_bounds(data: Seq<u8>, pos: int)
    requires
        0 <= pos <= data.len(),
    ensures
        sp_tag_type(data, pos) matches SpRead::Val { v, end } ==> pos < end <= data.len(),
        sp_tag_type(data, pos) matches SpRead::Fail { e } ==> pos <= e.offset <= data.len(),
{
    if 0 <= pos < data.len() {
        lemma_var_u32_bounds(data, pos + 1);
    }
}

/// Bounds of one import entry decoded at an in-buffer position: a decoded
/// entry and a recoverable failure both end inside the buffer, and every
/// error points at a position inside it.
proof fn lemma_import_entry_bounds(data: Seq<u8>, pos: int)
    requires
        0 <= pos <= data.len(),
    ensures
        Import::sp(data, pos) matches SpEntry::Val { v, end } ==> pos < end <= data.len(),
        Import::sp(data, pos) matches SpEntry::Skip { e, end } ==> pos < end <= data.len() && pos
            <= e.offset <= data.len(),
        Import::sp(data, pos) matches SpEntry::Stop { e } ==> pos <= e.offset <= data.len(),
{
    lemma_string_bounds(data, pos);
    if let SpRead::Val { v: _, end: p1 } = sp_string(data, pos) {
        lemma_string_bounds(data, p1);
        if let SpRead::Val { v: _, end: p2 } = sp_string(data, p1) {
            if p2 < data.len() {
                let p3 = p2 + 1;
                lemma_var_u32_bounds(data, p3);
                lemma_table_type_bounds(data, p3);
                lemma_memory_type_bounds(data, p3);
                lemma_global_type_bounds(data, p3);
                lemma_tag_type_bounds(data, p3);
            }
        }
    }
}

proof fn lemma_import_entries_err_offsets(data: Seq<u8>, pos: int, n: nat)
    requires
        0 <= pos <= data.len(),
    ensures
        forall|i: int|
            0 <= i < sp_entries::<Import>(data, pos, n).len() ==> ((#[trigger] sp_entries::<
                Import,
            >(data, pos, n)[i]) matches Err(e) ==> pos <= e.offset <= data.len()),
    decreases n,
{
    if n > 0 {
        lemma_import_entry_bounds(data, pos);
        let es = sp_entries::<Import>(data, pos, n);
        match Import::sp(data, pos) {
            SpEntry::Val { v, end } => {
                lemma_import_entries_err_offsets(data, end, (n - 1) as nat);
                let rest = sp_entries::<Import>(data, end, (n - 1) as nat);
                assert forall|i: int| 0 <= i < es.len() implies ((#[trigger] es[i]) matches Err(e)
                    ==> pos <= e.offset <= data.len()) by {
                    if i > 0 {
                        assert(es[i] == rest[i - 1]);
                    }
                }
            },
            SpEntry::Skip { e, end } => {
                lemma_import_entries_err_offsets(data, end, (n - 1) as nat);
                let rest = sp_entries::<Import>(data, end, (n - 1) as nat);
                assert forall|i: int| 0 <= i < es.len() implies ((#[trigger] es[i]) matches Err(e2)
                    ==> pos <= e2.offset <= data.len()) by {
                    if i > 0 {
                        assert(es[i] == rest[i - 1]);
                    }
                }
            },
            SpEntry::Stop { e } => {
            },
        }
    }
}

/// Every error the import-section decoder produces points inside the buffer
/// it was given: a section-level error points exactly at `offset`, where the
/// count read began, and every entry-level error points at or after `offset`
/// and never past the end of the buffer — error offsets are absolute within
/// the slice handed in.
pub proof fn lemma_import_section_error_offsets(data: Seq<u8>, offset: int)
    requires
        0 <= offset,
    ensures
        (match sp_section::<Import>(data, offset) {
            Err(e) => e.offset == offset,
            Ok(es) => forall|i: int|
                0 <= i < es.len() ==> ((#[trigger] es[i]) matches Err(e) ==> offset <= e.offset
                    <= data.len()),
        }),
{
    if let SpRead::Val { v: count, end: start } = sp_var_u32(data, offset) {
        lemma_leb_u_lb(data, offset, 32);
        lemma_leb_u_ub(data, offset, 32);
        lemma_import_entries_err_offsets(data, start, count as nat);
        let es = sp_entries::<Import>(data, start, count as nat);
        assert forall|i: int| 0 <= i < es.len() implies ((#[trigger] es[i]) matches Err(e)
            ==> offset <= e.offset <= data.len()) by {}
    }
}


proof fn lemma_leb_s_prefix_rev(data: Seq<u8>, k: int, pos: int, budget: nat)
    requires
        0 <= k <= data.len(),
    ensures
        sp_leb_s_raw(data, pos, budget) matches SpLebSRaw::Val { v, end } ==> (end <= k
            ==> sp_leb_s_raw(data.subrange(0, k), pos, budget) == (SpLebSRaw::Val { v, end })),
    decreases budget,
{
    let t = data.subrange(0, k);
    if let SpLebSRaw::Val { v, end } = sp_leb_s_raw(data, pos, budget) {
        if end <= k {
            lemma_leb_s_lb(data, pos, budget);
            assert(t[pos] == data[pos]);
            let b = data[pos];
            if b & 0x80 != 0 && budget > 1 {
                lemma_leb_s_prefix_rev(data, k, pos + 1, (budget - 1) as nat);
                lemma_leb_s_lb(data, pos + 1, (budget - 1) as nat);
            }
        }
    }
}

proof fn lemma_var_u32_prefix_rev(data: Seq<u8>, k: int, pos: int)
    requires
        0 <= k <= data.len(),
    ensures
        sp_var_u32(data, pos) matches SpRead::Val { v, end } ==> (end <= k ==> sp_var_u32(
            data.subrange(0, k),
            pos,
        ) == (SpRead::Val { v, end })),
{
    lemma_leb_u_prefix_rev(data, k, pos, 32);
}

proof fn lemma_string_prefix_rev(data: Seq<u8>, k: int, pos: int)
    requires
        0 <= k <= data.len(),
    ensures
        sp_string(data, pos) matches SpRead::Val { v, end } ==> (end <= k ==> sp_string(
            data.subrange(0, k),
            pos,
        ) == (SpRead::Val { v, end })),
{
    let t = data.subrange(0, k);
    if let SpRead::Val { v, end } = sp_string(data, pos) {
        if end <= k {
            lemma_leb_u_lb(data, pos, 32);
            lemma_leb_u_prefix_rev(data, k, pos, 32);
            if let SpLebRaw::Val { v: n, end: p2 } = sp_leb_u_raw(data, pos, 32) {
                assert(t.subrange(p2, p2 + n) =~= data.subrange(p2, p2 + n));
            }
        }
    }
}

proof fn lemma_heap_type_prefix_rev(data: Seq<u8>, k: int, pos: int)
    requires
        0 <= k <= data.len(),
    ensures
        sp_heap_type(data, pos) matches SpRead::Val { v, end } ==> (end <= k ==> sp_heap_type(
            data.subrange(0, k),
            pos,
        ) == (SpRead::Val { v, end })),
{
    let t = data.subrange(0, k);
    if let SpRead::Val { v, end } = sp_heap_type(data, pos) {
        if end <= k {
            lemma_heap_type_lb(data, pos);
            assert(t[pos] == data[pos]);
            lemma_leb_s_prefix_rev(data, k, pos, 5);
        }
    }
}

proof fn lemma_ref_type_prefix_rev(data: Seq<u8>, k: int, pos: int)
    requires
        0 <= k <= data.len(),
    ensures
        sp_ref_type(data, pos) matches SpRead::Val { v, end } ==> (end <= k ==> sp_ref_type(
            data.subrange(0, k),
            pos,
        ) == (SpRead::Val { v, end })),
{
    let t = data.subrange(0, k);
    if let SpRead::Val { v, end } = sp_ref_type(data, pos) {
        if end <= k {
            lemma_ref_type_lb(data, pos);
            assert(t[pos] == data[pos]);
            lemma_heap_type_prefix_rev(data, k, pos);
            lemma_heap_type_prefix_rev(data, k, pos + 1);
        }
    }
}

proof fn lemma_val_type_prefix_rev(data: Seq<u8>, k: int, pos: int)
    requires
        0 <= k <= data.len(),
    ensures
        sp_val_type(data, pos) matches SpRead::Val { v, end } ==> (end <= k ==> sp_val_type(
            data.subrange(0, k),
            pos,
        ) == (SpRead::Val { v, end })),
{
    let t = data.subrange(0, k);
    if let SpRead::Val { v, end } = sp_val_type(data, pos) {
        if end <= k {
            lemma_val_type_lb(data, pos);
            assert(t[pos] == data[pos]);
            lemma_ref_type_prefix_rev(data, k, pos);
        }
    }
}

proof fn lemma_table_type_prefix_rev(data: Seq<u8>, k: int, pos: int)
    requires
        0 <= k <= data.len(),
    ensures
        sp_table_type(data, pos) matches SpRead::Val { v, end } ==> (end <= k ==> sp_table_type(
            data.subrange(0, k),
            pos,
        ) == (SpRead::Val { v, end })),
{
    let t = data.subrange(0, k);
    if let SpRead::Val { v, end } = sp_table_type(data, pos) {
        if end <= k {
            lemma_ref_type_lb(data, pos);
            if let SpRead::Val { v: _, end: p1 } = sp_ref_type(data, pos) {
                lemma_var_u32_lb(data, p1 + 1);
                if let SpRead::Val { v: _, end: p3 } = sp_var_u32(data, p1 + 1) {
                    lemma_var_u32_lb(data, p3);
                    lemma_var_u32_prefix_rev(data, k, p3);
                }
                lemma_ref_type_prefix_rev(data, k, pos);
                assert(t[p1] == data[p1]);
                lemma_var_u32_prefix_rev(data, k, p1 + 1);
            }
        }
    }
}

proof fn lemma_limit_prefix_rev(data: Seq<u8>, k: int, pos: int, bits: nat)
    requires
        0 <= k <= data.len(),
    ensures
        sp_limit(data, pos, bits) matches SpRead::Val { v, end } ==> (end <= k ==> sp_limit(
            data.subrange(0, k),
            pos,
            bits,
        ) == (SpRead::Val { v, end })),
{
    lemma_leb_u_prefix_rev(data, k, pos, 32);
    lemma_leb_u_prefix_rev(data, k, pos, 64);
}

proof fn lemma_memory_type_prefix_rev(data: Seq<u8>, k: int, pos: int)
    requires
        0 <= k <= data.len(),
    ensures
        sp_memory_type(data, pos) matches SpRead::Val { v, end } ==> (end <= k
            ==> sp_memory_type(data.subrange(0, k), pos) == (SpRead::Val { v, end })),
{
    let t = data.subrange(0, k);
    if let SpRead::Val { v, end } = sp_memory_type(data, pos) {
        if end <= k {
            lemma_memory_type_lb(data, pos);
            assert(t[pos] == data[pos]);
            let flags = data[pos];
            let bits: nat = if flags & 4 != 0 {
                64
            } else {
                32
            };
            lemma_limit_lb(data, pos + 1, bits);
            lemma_limit_prefix_rev(data, k, pos + 1, bits);
            if let SpRead::Val { v: _, end: p2 } = sp_limit(data, pos + 1, bits) {
                lemma_limit_lb(data, p2, bits);
                lemma_limit_prefix_rev(data, k, p2, bits);
            }
        }
    }
}

proof fn lemma_global_type_prefix_rev(data: Seq<u8>, k: int, pos: int)
    requires
        0 <= k <= data.len(),
    ensures
        sp_global_type(data, pos) matches SpRead::Val { v, end } ==> (end <= k
            ==> sp_global_type(data.subrange(0, k), pos) == (SpRead::Val { v, end })),
{
    let t = data.subrange(0, k);
    if let SpRead::Val { v, end } = sp_global_type(data, pos) {
        if end <= k {
            lemma_val_type_lb(data, pos);
            lemma_val_type_prefix_rev(data, k, pos);
            if let SpRead::Val { v: _, end: p1 } = sp_val_type(data, pos) {
                assert(t[p1] == data[p1]);
            }
        }
    }
}

proof fn lemma_tag_type_prefix_rev(data: Seq<u8>, k: int, pos: int)
    requires
        0 <= k <= data.len(),
    ensures
        sp_tag_type(data, pos) matches SpRead::Val { v, end } ==> (end <= k ==> sp_tag_type(
            data.subrange(0, k),
            pos,
        ) == (SpRead::Val { v, end })),
{
    let t = data.subrange(0, k);
    if let SpRead::Val { v, end } = sp_tag_type(data, pos) {
        if end <= k {
            lemma_tag_type_lb(data, pos);
            assert(t[pos] == data[pos]);
            lemma_var_u32_lb(data, pos + 1);
            lemma_var_u32_prefix_rev(data, k, pos + 1);
        }
    }
}

proof fn lemma_import_entry_prefix_rev(data: Seq<u8>, k: int, pos: int)
    requires
        0 <= k <= data.len(),
    ensures
        Import::sp(data, pos) matches SpEntry::Val { v, end } ==> (end <= k ==> Import::sp(
            data.subrange(0, k),
            pos,
        ) == (SpEntry::Val { v, end })),
{
    let t = data.subrange(0, k);
    if let SpEntry::Val { v, end } = Import::sp(data, pos) {
        if end <= k {
            lemma_string_lb(data, pos);
            lemma_string_prefix_rev(data, k, pos);
            if let SpRead::Val { v: _, end: p1 } = sp_string(data, pos) {
                lemma_string_lb(data, p1);
                lemma_string_prefix_rev(data, k, p1);
                if let SpRead::Val { v: _, end: p2 } = sp_string(data, p1) {
                    let p3 = p2 + 1;
                    lemma_var_u32_lb(data, p3);
                    lemma_table_type_lb(data, p3);
                    lemma_memory_type_lb(data, p3);
                    lemma_global_type_lb(data, p3);
                    lemma_tag_type_lb(data, p3);
                    assert(t[p2] == data[p2]);
                    lemma_var_u32_prefix_rev(data, k, p3);
                    lemma_table_type_prefix_rev(data, k, p3);
                    lemma_memory_type_prefix_rev(data, k, p3);
                    lemma_global_type_prefix_rev(data, k, p3);
                    lemma_tag_type_prefix_rev(data, k, p3);
                }
            }
        }
    }
}

proof fn lemma_import_fin_ge(data: Seq<u8>, pos: int, n: nat)
    ensures
        crate::sections::sp_entries_fin::<Import>(data, pos, n)
            matches crate::sections::SpEntriesFin::Done(e) ==> e >= pos,
    decreases n,
{
    if n > 0 {
        <Import as OffsetEntry>::entry_at_own_offset(data, pos);
        match Import::sp(data, pos) {
            SpEntry::Val { v, end } => {
                lemma_import_fin_ge(data, end, (n - 1) as nat);
            },
            SpEntry::Skip { e, end } => {
                lemma_import_fin_ge(data, end, (n - 1) as nat);
            },
            SpEntry::Stop { e } => {
            },
        }
    }
}

/// Slicing a fully decodable run of import entries short strictly reduces
/// the number of successfully decoded entries: the cut falls inside some
/// entry, and that entry (with everything after it) is lost, never replaced
/// by an invented one.
pub proof fn lemma_import_entries_truncation_strict(
    data: Seq<u8>,
    pos: int,
    n: nat,
    k: int,
    endf: int,
)
    requires
        0 <= pos <= k <= data.len(),
        all_ok(sp_entries::<Import>(data, pos, n)),
        crate::sections::sp_entries_fin::<Import>(data, pos, n)
            == crate::sections::SpEntriesFin::Done(endf),
        k < endf,
    ensures
        ok_count(sp_entries::<Import>(data.subrange(0, k), pos, n)) < ok_count(
            sp_entries::<Import>(data, pos, n),
        ),
    decreases n,
{
    let t = data.subrange(0, k);
    let tr = sp_entries::<Import>(t, pos, n);
    let fl = sp_entries::<Import>(data, pos, n);
    lemma_import_fin_ge(data, pos, n);
    match Import::sp(data, pos) {
        SpEntry::Val { v, end } => {
            lemma_import_entry_bounds(data, pos);
            lemma_import_fin_ge(data, end, (n - 1) as nat);
            assert(fl[0] is Ok);
            if end <= k {
                lemma_import_entry_prefix_rev(data, k, pos);
                assert(Import::sp(t, pos) == (SpEntry::Val { v, end }));
                let tr2 = sp_entries::<Import>(t, end, (n - 1) as nat);
                let fl2 = sp_entries::<Import>(data, end, (n - 1) as nat);
                assert forall|i: int| 0 <= i < fl2.len() implies (#[trigger] fl2[i]) is Ok by {
                    assert(fl2[i] == fl[i + 1]);
                }
                lemma_import_entries_truncation_strict(data, end, (n - 1) as nat, k, endf);
                assert(tr.drop_first() =~= tr2);
                assert(fl.drop_first() =~= fl2);
            } else {
                // The cut falls inside this entry: on the truncated buffer it
                // can neither decode nor skip, so the run stops with one
                // error element.
                <Import as PrefixEntry>::entry_prefix(data, k, pos);
                match Import::sp(t, pos) {
                    SpEntry::Val { v: v2, end: e2 } => {
                        lemma_import_entry_bounds(t, pos);
                        assert(false);
                    },
                    SpEntry::Skip { e, end: e2 } => {
                        assert(fl[0] is Ok);
                        assert(false);
                    },
                    SpEntry::Stop { e } => {
                        assert(tr =~= seq![Err::<ImportV, crate::error::ErrorV>(e)]);
                        assert(tr.len() == 1 && !(tr[0] is Ok));
                        assert(tr.drop_first().len() == 0);
                        assert(ok_count(tr.drop_first()) == 0);
                        assert(ok_count(tr) == 0);
                        lemma_ok_count_all_ok(fl);
                        lemma_entries_len_le::<Import>(data, pos, n);
                    },
                }
            }
        },
        SpEntry::Skip { e, end } => {
            assert(fl[0] is Ok);
            assert(false);
        },
        SpEntry::Stop { e } => {
            if n == 0 {
                assert(endf == pos);
                assert(false);
            } else {
                assert(fl[0] is Ok);
                assert(false);
            }
        },
    }
}

} // verus!
