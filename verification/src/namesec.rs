//! Decoding the "name" custom section: a run of subsections, each tagged by
//! a one-byte identifier and carrying a length-prefixed payload.
//!
//! A subsection whose payload fails to decode is reported as one error
//! element, and decoding continues at the next subsection, whose position
//! the payload length gives. A failure while reading a subsection's
//! identifier, size or extent ends the run with that error. A subsection
//! with an unrecognized identifier decodes to the `unknown` variant carrying
//! its identifier and raw payload, never to an error: this section is
//! best-effort and unknown subsections round-trip losslessly.

use vstd::prelude::*;
use crate::error::{BinaryError, ErrorV, mk_err, msg_eof};
use crate::cursor::{SpRead, sp_string, read_string, sp_var_u32, read_var_u32, sp_bytes,
    read_bytes};
use crate::sections::{sp_section, parse_entries, section_view};
use crate::types::{Name, NameV, NameUnknown, NameUnknownV, Naming, IndirectNaming, results_view};

verus! {

/// What one subsection's payload decodes to, by its identifier. `data` here
/// is the buffer truncated at the payload's end, so no read can leave the
/// payload; `pos` is the payload's start and the payload runs to the end of
/// `data`.
pub open spec fn sp_name_subsection(data: Seq<u8>, id: u8, pos: int) -> Result<NameV, ErrorV> {
    if id == 0 {
        match sp_string(data, pos) {
            SpRead::Fail { e } => Err(e),
            SpRead::Val { v: s, end: _ } => Ok(NameV::Module(s)),
        }
    } else if id == 1 {
        match sp_section::<Naming>(data, pos) {
            Err(e) => Err(e),
            Ok(ns) => Ok(NameV::Function(ns)),
        }
    } else if id == 2 {
        match sp_section::<IndirectNaming>(data, pos) {
            Err(e) => Err(e),
            Ok(ns) => Ok(NameV::Local(ns)),
        }
    } else if id == 3 {
        match sp_section::<IndirectNaming>(data, pos) {
            Err(e) => Err(e),
            Ok(ns) => Ok(NameV::Label(ns)),
        }
    } else if id == 4 {
        match sp_section::<Naming>(data, pos) {
            Err(e) => Err(e),
            Ok(ns) => Ok(NameV::Type(ns)),
        }
    } else if id == 5 {
        match sp_section::<Naming>(data, pos) {
            Err(e) => Err(e),
            Ok(ns) => Ok(NameV::Table(ns)),
        }
    } else if id == 6 {
        match sp_section::<Naming>(data, pos) {
            Err(e) => Err(e),
            Ok(ns) => Ok(NameV::Memory(ns)),
        }
    } else if id == 7 {
        match sp_section::<Naming>(data, pos) {
            Err(e) => Err(e),
            Ok(ns) => Ok(NameV::Global(ns)),
        }
    } else if id == 8 {
        match sp_section::<Naming>(data, pos) {
            Err(e) => Err(e),
            Ok(ns) => Ok(NameV::Element(ns)),
        }
    } else if id == 9 {
        match sp_section::<Naming>(data, pos) {
            Err(e) => Err(e),
            Ok(ns) => Ok(NameV::Data(ns)),
        }
    } else {
        Ok(NameV::Unknown(NameUnknownV { ty: id, data: data.subrange(pos, data.len() as int) }))
    }
}

/// Decodes one subsection's payload, handed the buffer truncated at the
/// payload's end.
fn parse_name_subsection(data: &[u8], id: u8, pos: usize) -> (r: Result<Name, BinaryError>)
    requires
        pos <= data@.len(),
    ensures
        (match r {
            Ok(nm) => sp_name_subsection(data@, id, pos as int) == Ok::<NameV, ErrorV>(nm@),
            Err(e) => sp_name_subsection(data@, id, pos as int) == Err::<NameV, ErrorV>(e@),
        }),
{
    if id == 0 {
        match read_string(data, pos) {
            Err(e) => Err(e),
            Ok((s, _)) => Ok(Name::Module(s)),
        }
    } else if id == 1 {
        match parse_entries::<Naming>(data, pos) {
            Err(e) => Err(e),
            Ok(ns) => Ok(Name::Function(ns)),
        }
    } else if id == 2 {
        match parse_entries::<IndirectNaming>(data, pos) {
            Err(e) => Err(e),
            Ok(ns) => Ok(Name::Local(ns)),
        }
    } else if id == 3 {
        match parse_entries::<IndirectNaming>(data, pos) {
            Err(e) => Err(e),
            Ok(ns) => Ok(Name::Label(ns)),
        }
    } else if id == 4 {
        match parse_entries::<Naming>(data, pos) {
            Err(e) => Err(e),
            Ok(ns) => Ok(Name::Type(ns)),
        }
    } else if id == 5 {
        match parse_entries::<Naming>(data, pos) {
            Err(e) => Err(e),
            Ok(ns) => Ok(Name::Table(ns)),
        }
    } else if id == 6 {
        match parse_entries::<Naming>(data, pos) {
            Err(e) => Err(e),
            Ok(ns) => Ok(Name::Memory(ns)),
        }
    } else if id == 7 {
        match parse_entries::<Naming>(data, pos) {
            Err(e) => Err(e),
            Ok(ns) => Ok(Name::Global(ns)),
        }
    } else if id == 8 {
        match parse_entries::<Naming>(data, pos) {
            Err(e) => Err(e),
            Ok(ns) => Ok(Name::Element(ns)),
        }
    } else if id == 9 {
        match parse_entries::<Naming>(data, pos) {
            Err(e) => Err(e),
            Ok(ns) => Ok(Name::Data(ns)),
        }
    } else {
        match read_bytes(data, pos, data.len() - pos) {
            Err(e) => Err(e),
            Ok((bs, _)) => Ok(Name::Unknown(NameUnknown { ty: id, data: bs })),
        }
    }
}

/// What the whole name section decodes to: one element per subsection, in
/// order, stopping early only when a subsection's identifier, size or
/// extent cannot be read.
pub open spec fn sp_name_section(data: Seq<u8>, pos: int) -> Seq<Result<NameV, ErrorV>>
    decreases data.len() - pos,
{
    if !(0 <= pos < data.len()) {
        Seq::empty()
    } else {
        let id = data[pos];
        let p1 = pos + 1;
        match sp_var_u32(data, p1) {
            SpRead::Fail { e } => seq![Err::<NameV, ErrorV>(e)],
            SpRead::Val { v: size, end: p2 } => if p2 + size > data.len() {
                seq![Err::<NameV, ErrorV>(ErrorV { message: msg_eof(), offset: p2 })]
            } else {
                let pe = p2 + size;
                let sub = sp_name_subsection(data.subrange(0, pe), id, p2);
                if pos < pe <= data.len() {
                    seq![sub] + sp_name_section(data, pe)
                } else {
                    seq![sub]
                }
            },
        }
    }
}

/// Decodes the name custom section beginning at `offset`: a run of
/// subsections, to the end of the buffer.
pub fn parse_name_section(data: &[u8], offset: usize) -> (r: Vec<Result<Name, BinaryError>>)
    ensures
        results_view(r@) == sp_name_section(data@, offset as int),
{
    let ghost total = sp_name_section(data@, offset as int);
    let mut out: Vec<Result<Name, BinaryError>> = Vec::new();
    let mut cur: usize = offset;
    while cur < data.len()
        invariant
            total == sp_name_section(data@, offset as int),
            results_view(out@) + sp_name_section(data@, cur as int) == total,
        decreases data@.len() - cur,
    {
        let ghost rest = sp_name_section(data@, cur as int);
        let ghost prev = out@;
        let id = data[cur];
        let p1 = cur + 1;
        match read_var_u32(data, p1) {
            Err(e) => {
                proof {
                    crate::sections::lemma_results_view_push(prev, Err(e));
                    assert(rest == seq![Err::<NameV, ErrorV>(e@)]);
                    assert(results_view(prev.push(Err(e))) =~= results_view(prev) + rest);
                }
                out.push(Err(e));
                return out;
            },
            Ok((size, p2)) => {
                if (size as u64) <= (data.len() - p2) as u64 {
                    let pe = p2 + size as usize;
                    let slice = vstd::slice::slice_subrange(data, 0, pe);
                    let sub = parse_name_subsection(slice, id, p2);
                    proof {
                        crate::sections::lemma_results_view_push(prev, sub);
                        assert(rest == seq![
                            sp_name_subsection(data@.subrange(0, pe as int), id, p2 as int),
                        ] + sp_name_section(data@, pe as int));
                        assert(results_view(prev.push(sub)) + sp_name_section(data@, pe as int)
                            =~= results_view(prev) + rest);
                    }
                    out.push(sub);
                    cur = pe;
                } else {
                    let e = mk_err("unexpected end of input", p2);
                    proof {
                        crate::sections::lemma_results_view_push(prev, Err(e));
                        assert(rest == seq![
                            Err::<NameV, ErrorV>(ErrorV { message: msg_eof(), offset: p2 as int }),
                        ]);
                        assert(results_view(prev.push(Err(e))) =~= results_view(prev) + rest);
                    }
                    out.push(Err(e));
                    return out;
                }
            },
        }
    }
    proof {
        assert(sp_name_section(data@, cur as int) == Seq::<Result<NameV, ErrorV>>::empty());
        assert(results_view(out@) + Seq::<Result<NameV, ErrorV>>::empty() =~= results_view(out@));
    }
    out
}

} // verus!
