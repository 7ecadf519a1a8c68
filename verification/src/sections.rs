//! The per-section decoding discipline and its partial-failure policy.
//!
//! A section begins with a declared entry count, then holds its entries
//! back to back. If one entry fails to decode and the position of the next
//! entry can still be established, the failure is reported for that entry
//! alone and decoding resumes at the next one; if the position is lost, the
//! failing entry's error is the last element produced and the rest of the
//! declared entries are absent. Callers must not assume the declared count
//! matches the length of the returned sequence.

use vstd::prelude::*;
use crate::error::{BinaryError, ErrorV};
use crate::cursor::{SpRead, read_view, sp_var_u32, read_var_u32};
use crate::types::results_view;

verus! {

/// Spec-level outcome of decoding one entry of a repeated collection.
pub ghost enum SpEntry<V> {
    /// The entry decoded; the next entry begins at `end`.
    Val { v: V, end: int },
    /// The entry failed, but the next entry's position `end` is known:
    /// decoding resumes there.
    Skip { e: ErrorV, end: int },
    /// The entry failed and the position of the next entry is lost: the
    /// sequence ends with this error.
    Stop { e: ErrorV },
}

/// Executable outcome of decoding one entry of a repeated collection.
pub enum EntryOutcome<T> {
    Val(T, usize),
    Skip(BinaryError, usize),
    Stop(BinaryError),
}

/// Spec-level view of an executable entry outcome.
pub open spec fn outcome_view<T: View>(o: EntryOutcome<T>) -> SpEntry<T::V> {
    match o {
        EntryOutcome::Val(t, end) => SpEntry::Val { v: t@, end: end as int },
        EntryOutcome::Skip(e, end) => SpEntry::Skip { e: e@, end: end as int },
        EntryOutcome::Stop(e) => SpEntry::Stop { e: e@ },
    }
}

/// A type decoded as one entry of a counted section, under the partial-failure
/// discipline described in the module documentation.
pub trait SectionEntry: View + Sized {
    /// What one entry beginning at `pos` decodes to.
    spec fn sp(data: Seq<u8>, pos: int) -> SpEntry<Self::V>;

    /// Decodes one entry beginning at `pos`.
    fn parse_entry(data: &[u8], pos: usize) -> (r: EntryOutcome<Self>)
        ensures
            outcome_view(r) == Self::sp(data@, pos as int),
            r matches EntryOutcome::Val(_, end) ==> pos < end <= data@.len(),
            r matches EntryOutcome::Skip(_, end) ==> pos < end <= data@.len(),
    ;
}

/// The entries a repeated collection of `n` declared elements decodes to:
/// one entry or entry-level error per element, in declaration order, ending
/// early when an element's failure loses the position of the next.
pub open spec fn sp_entries<T: SectionEntry>(data: Seq<u8>, pos: int, n: nat) -> Seq<
    Result<T::V, ErrorV>,
>
    decreases n,
{
    if n == 0 {
        Seq::empty()
    } else {
        match T::sp(data, pos) {
            SpEntry::Val { v, end } => seq![Ok::<T::V, ErrorV>(v)] + sp_entries::<T>(
                data,
                end,
                (n - 1) as nat,
            ),
            SpEntry::Skip { e, end } => seq![Err::<T::V, ErrorV>(e)] + sp_entries::<T>(
                data,
                end,
                (n - 1) as nat,
            ),
            SpEntry::Stop { e } => seq![Err::<T::V, ErrorV>(e)],
        }
    }
}

/// What a whole section decodes to: a section-level error when its declared
/// entry count cannot be read, and otherwise the sequence of entries.
pub open spec fn sp_section<T: SectionEntry>(data: Seq<u8>, offset: int) -> Result<
    Seq<Result<T::V, ErrorV>>,
    ErrorV,
> {
    match sp_var_u32(data, offset) {
        SpRead::Val { v: count, end } => Ok(sp_entries::<T>(data, end, count as nat)),
        SpRead::Fail { e } => Err(e),
    }
}

/// Spec-level view of an executable section result.
pub open spec fn section_view<T: View>(
    r: Result<Vec<Result<T, BinaryError>>, BinaryError>,
) -> Result<Seq<Result<T::V, ErrorV>>, ErrorV> {
    match r {
        Ok(v) => Ok(results_view(v@)),
        Err(e) => Err(e@),
    }
}

pub proof fn lemma_results_view_push<T: View>(
    s: Seq<Result<T, BinaryError>>,
    x: Result<T, BinaryError>,
)
    ensures
        results_view(s.push(x)) == results_view(s) + seq![
            match x {
                Ok(t) => Ok::<T::V, ErrorV>(t@),
                Err(e) => Err::<T::V, ErrorV>(e@),
            },
        ],
{
    assert(results_view(s.push(x)) =~= results_view(s) + seq![
        match x {
            Ok(t) => Ok::<T::V, ErrorV>(t@),
            Err(e) => Err::<T::V, ErrorV>(e@),
        },
    ]);
}

/// How a run of declared entries ended: completed at a known position, or
/// stopped by the given unrecoverable entry error.
pub ghost enum SpEntriesFin {
    Done(int),
    Stopped(ErrorV),
}

/// The position after a repeated collection of `n` declared elements, or the
/// error that stopped it early.
pub open spec fn sp_entries_fin<T: SectionEntry>(data: Seq<u8>, pos: int, n: nat) -> SpEntriesFin
    decreases n,
{
    if n == 0 {
        SpEntriesFin::Done(pos)
    } else {
        match T::sp(data, pos) {
            SpEntry::Val { v: _, end } => sp_entries_fin::<T>(data, end, (n - 1) as nat),
            SpEntry::Skip { e: _, end } => sp_entries_fin::<T>(data, end, (n - 1) as nat),
            SpEntry::Stop { e } => SpEntriesFin::Stopped(e),
        }
    }
}

/// When a run of entries stops early, its last element is the stopping error.
pub proof fn lemma_sp_entries_stopped<T: SectionEntry>(data: Seq<u8>, pos: int, n: nat, e: ErrorV)
    requires
        sp_entries_fin::<T>(data, pos, n) == SpEntriesFin::Stopped(e),
    ensures
        sp_entries::<T>(data, pos, n).len() > 0,
        sp_entries::<T>(data, pos, n).last() == Err::<T::V, ErrorV>(e),
    decreases n,
{
    match T::sp(data, pos) {
        SpEntry::Val { v, end } => {
            lemma_sp_entries_stopped::<T>(data, end, (n - 1) as nat, e);
        },
        SpEntry::Skip { e: _, end } => {
            lemma_sp_entries_stopped::<T>(data, end, (n - 1) as nat, e);
        },
        SpEntry::Stop { e: _ } => {
        },
    }
}

/// Decodes `n` declared entries of `T` beginning at `pos`, under the
/// partial-failure policy, also reporting the position after the last entry
/// when the run was not stopped early.
pub fn parse_entries_at<T: SectionEntry>(data: &[u8], pos: usize, n: u32) -> (r: (
    Vec<Result<T, BinaryError>>,
    Option<usize>,
))
    requires
        pos <= data@.len(),
    ensures
        results_view(r.0@) == sp_entries::<T>(data@, pos as int, n as nat),
        (match sp_entries_fin::<T>(data@, pos as int, n as nat) {
            SpEntriesFin::Done(end) => r.1 matches Some(u) && u as int == end && pos <= u
                <= data@.len(),
            SpEntriesFin::Stopped(e) => r.1 is None,
        }),
{
    let ghost total = sp_entries::<T>(data@, pos as int, n as nat);
    let ghost fin = sp_entries_fin::<T>(data@, pos as int, n as nat);
    let mut out: Vec<Result<T, BinaryError>> = Vec::new();
    let mut cur: usize = pos;
    let mut i: u32 = 0;
    while i < n
        invariant
            i <= n,
            pos <= cur <= data@.len(),
            total == sp_entries::<T>(data@, pos as int, n as nat),
            fin == sp_entries_fin::<T>(data@, pos as int, n as nat),
            results_view(out@) + sp_entries::<T>(data@, cur as int, (n - i) as nat) == total,
            fin == sp_entries_fin::<T>(data@, cur as int, (n - i) as nat),
        decreases n - i,
    {
        let ghost rest = sp_entries::<T>(data@, cur as int, (n - i) as nat);
        let ghost prev = out@;
        match T::parse_entry(data, cur) {
            EntryOutcome::Val(v, end) => {
                proof {
                    lemma_results_view_push(prev, Ok(v));
                    assert(rest == seq![Ok::<T::V, ErrorV>(v@)] + sp_entries::<T>(
                        data@,
                        end as int,
                        (n - i - 1) as nat,
                    ));
                    assert(results_view(prev.push(Ok(v))) + sp_entries::<T>(
                        data@,
                        end as int,
                        (n - i - 1) as nat,
                    ) =~= results_view(prev) + rest);
                }
                out.push(Ok(v));
                cur = end;
            },
            EntryOutcome::Skip(e, end) => {
                proof {
                    lemma_results_view_push(prev, Err(e));
                    assert(rest == seq![Err::<T::V, ErrorV>(e@)] + sp_entries::<T>(
                        data@,
                        end as int,
                        (n - i - 1) as nat,
                    ));
                    assert(results_view(prev.push(Err(e))) + sp_entries::<T>(
                        data@,
                        end as int,
                        (n - i - 1) as nat,
                    ) =~= results_view(prev) + rest);
                }
                out.push(Err(e));
                cur = end;
            },
            EntryOutcome::Stop(e) => {
                proof {
                    lemma_results_view_push(prev, Err(e));
                    assert(rest == seq![Err::<T::V, ErrorV>(e@)]);
                    assert(results_view(prev.push(Err(e))) =~= results_view(prev) + rest);
                }
                out.push(Err(e));
                return (out, Option::None);
            },
        }
        i = i + 1;
    }
    proof {
        assert(sp_entries::<T>(data@, cur as int, 0) == Seq::<Result<T::V, ErrorV>>::empty());
        assert(results_view(out@) + Seq::<Result<T::V, ErrorV>>::empty() =~= results_view(out@));
    }
    (out, Some(cur))
}

/// Decodes a counted section of `T` entries beginning at `offset`: the
/// declared count followed by the entries, under the partial-failure policy.
pub fn parse_entries<T: SectionEntry>(data: &[u8], offset: usize) -> (r: Result<
    Vec<Result<T, BinaryError>>,
    BinaryError,
>)
    ensures
        section_view(r) == sp_section::<T>(data@, offset as int),
{
    let (count, start) = match read_var_u32(data, offset) {
        Ok(p) => p,
        Err(e) => {
            return Err(e);
        },
    };
    let (out, _) = parse_entries_at::<T>(data, start, count);
    Ok(out)
}

/// Maps a sequence of decoded items to its mathematical mirror.
pub open spec fn items_view<T: View>(v: Seq<T>) -> Seq<T::V> {
    v.map_values(|t: T| t@)
}

pub proof fn lemma_items_view_push<T: View>(s: Seq<T>, x: T)
    ensures
        items_view(s.push(x)) == items_view(s).push(x@),
{
    assert(items_view(s.push(x)) =~= items_view(s).push(x@));
}

/// A type decoded as one item of a counted run inside a single entry.
pub trait CountedItem: View + Sized {
    /// What one item beginning at `pos` decodes to.
    spec fn sp_item(data: Seq<u8>, pos: int) -> SpRead<Self::V>;

    /// Decodes one item beginning at `pos`.
    fn read_item(data: &[u8], pos: usize) -> (r: Result<(Self, usize), BinaryError>)
        ensures
            read_view(r) == Self::sp_item(data@, pos as int),
            r matches Ok(p) ==> pos < p.1 <= data@.len(),
    ;
}

/// A 32-bit unsigned LEB128 integer as one item of a counted run: an index
/// into one of the module's index spaces, or a label.
impl CountedItem for u32 {
    open spec fn sp_item(data: Seq<u8>, pos: int) -> SpRead<u32> {
        sp_var_u32(data, pos)
    }

    fn read_item(data: &[u8], pos: usize) -> (r: Result<(u32, usize), BinaryError>) {
        read_var_u32(data, pos)
    }
}

/// What a counted run of items decodes to: all `n` items in order, or the
/// first item-level error. Unlike a section's entries, a failing item here
/// fails the whole run.
pub open spec fn sp_items<T: CountedItem>(data: Seq<u8>, pos: int, n: nat) -> SpRead<Seq<T::V>>
    decreases n,
{
    if n == 0 {
        SpRead::Val { v: Seq::empty(), end: pos }
    } else {
        match T::sp_item(data, pos) {
            SpRead::Val { v, end } => match sp_items::<T>(data, end, (n - 1) as nat) {
                SpRead::Val { v: rest, end: e2 } => SpRead::Val { v: seq![v] + rest, end: e2 },
                SpRead::Fail { e } => SpRead::Fail { e },
            },
            SpRead::Fail { e } => SpRead::Fail { e },
        }
    }
}

/// Reads a counted run of `n` items of `T` beginning at `pos`.
pub fn read_items<T: CountedItem>(data: &[u8], pos: usize, n: u32) -> (r: Result<
    (Vec<T>, usize),
    BinaryError,
>)
    requires
        pos <= data@.len(),
    ensures
        (match r {
            Ok(p) => sp_items::<T>(data@, pos as int, n as nat) == (SpRead::Val {
                v: items_view(p.0@),
                end: p.1 as int,
            }),
            Err(e) => sp_items::<T>(data@, pos as int, n as nat) == (SpRead::<Seq<T::V>>::Fail {
                e: e@,
            }),
        }),
        r matches Ok(p) ==> pos <= p.1 <= data@.len(),
{
    let ghost total = sp_items::<T>(data@, pos as int, n as nat);
    let mut out: Vec<T> = Vec::new();
    let mut cur: usize = pos;
    let mut i: u32 = 0;
    while i < n
        invariant
            i <= n,
            pos <= cur <= data@.len(),
            total == sp_items::<T>(data@, pos as int, n as nat),
            (match sp_items::<T>(data@, cur as int, (n - i) as nat) {
                SpRead::Val { v, end } => total == (SpRead::Val { v: items_view(out@) + v, end }),
                SpRead::Fail { e } => total == (SpRead::<Seq<T::V>>::Fail { e }),
            }),
        decreases n - i,
    {
        let ghost prev = out@;
        match T::read_item(data, cur) {
            Ok((v, end)) => {
                proof {
                    lemma_items_view_push(prev, v);
                    if let SpRead::Val { v: rest, end: e2 } = sp_items::<T>(
                        data@,
                        end as int,
                        (n - i - 1) as nat,
                    ) {
                        assert(items_view(prev.push(v)) + rest =~= items_view(prev) + (seq![v@]
                            + rest));
                    }
                }
                out.push(v);
                cur = end;
            },
            Err(e) => {
                return Err(e);
            },
        }
        i = i + 1;
    }
    proof {
        assert(items_view(out@) + Seq::<T::V>::empty() =~= items_view(out@));
    }
    Ok((out, cur))
}

} // verus!
