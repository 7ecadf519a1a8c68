//! Decoding a function body's operator stream: the local-variable
//! declarations, then one operator per instruction until the end of the
//! buffer handed in.

use vstd::prelude::*;
use crate::error::{BinaryError, ErrorV};
use crate::cursor::{SpRead, sp_var_u32, read_var_u32};
use crate::grammar::{sp_val_type, read_val_type};
use crate::operators::{sp_op, read_op};
use crate::sections::{CountedItem, sp_items, read_items, lemma_results_view_push};
use crate::types::{ValType, Operator, OperatorV, results_view};

verus! {

/// One local-variable declaration of a function body: a run length and the
/// type of that many consecutive locals. Declarations are consumed to keep
/// the cursor positioned at the instructions; their contents are not
/// retained.
#[derive(Debug, Clone, Copy, PartialEq, Eq)]
pub struct LocalDecl {
    pub count: u32,
    pub ty: ValType,
}

impl View for LocalDecl {
    type V = LocalDecl;

    open spec fn view(&self) -> LocalDecl {
        *self
    }
}

impl CountedItem for LocalDecl {
    open spec fn sp_item(data: Seq<u8>, pos: int) -> SpRead<LocalDecl> {
        match sp_var_u32(data, pos) {
            SpRead::Fail { e } => SpRead::Fail { e },
            SpRead::Val { v: c, end: p } => match sp_val_type(data, p) {
                SpRead::Fail { e } => SpRead::Fail { e },
                SpRead::Val { v: t, end } => SpRead::Val { v: LocalDecl { count: c, ty: t }, end },
            },
        }
    }

    fn read_item(data: &[u8], pos: usize) -> (r: Result<(LocalDecl, usize), BinaryError>) {
        let (c, p) = match read_var_u32(data, pos) {
            Ok(p) => p,
            Err(e) => {
                return Err(e);
            },
        };
        match read_val_type(data, p) {
            Err(e) => Err(e),
            Ok((t, end)) => Ok((LocalDecl { count: c, ty: t }, end)),
        }
    }
}

/// The operator stream beginning at `pos`: one operator per instruction, in
/// order, until the end of the buffer; an instruction that fails to decode
/// is the stream's last element, as the position of the next instruction is
/// unknown.
pub open spec fn sp_ops(data: Seq<u8>, pos: int) -> Seq<Result<OperatorV, ErrorV>>
    decreases data.len() - pos,
{
    if !(0 <= pos < data.len()) {
        Seq::empty()
    } else {
        match sp_op(data, pos) {
            SpRead::Fail { e } => seq![Err::<OperatorV, ErrorV>(e)],
            SpRead::Val { v: op, end } => if pos < end <= data.len() {
                seq![Ok::<OperatorV, ErrorV>(op)] + sp_ops(data, end)
            } else {
                seq![Ok::<OperatorV, ErrorV>(op)]
            },
        }
    }
}

/// What a function body decodes to: a failure while reading the count or the
/// local declarations fails the whole call; after them, the instruction
/// stream runs to the end of the buffer.
pub open spec fn sp_function_body(data: Seq<u8>, offset: int) -> Result<
    Seq<Result<OperatorV, ErrorV>>,
    ErrorV,
> {
    match sp_var_u32(data, offset) {
        SpRead::Fail { e } => Err(e),
        SpRead::Val { v: n, end: p } => match sp_items::<LocalDecl>(data, p, n as nat) {
            SpRead::Fail { e } => Err(e),
            SpRead::Val { v: _, end: p2 } => Ok(sp_ops(data, p2)),
        },
    }
}

/// Decodes a function body beginning at `offset`: its local declarations,
/// then its operator stream, which runs to the end of the buffer.
pub fn parse_function_body(data: &[u8], offset: usize) -> (r: Result<
    Vec<Result<Operator, BinaryError>>,
    BinaryError,
>)
    ensures
        (match r {
            Ok(v) => sp_function_body(data@, offset as int) == Ok::<
                Seq<Result<OperatorV, ErrorV>>,
                ErrorV,
            >(results_view(v@)),
            Err(e) => sp_function_body(data@, offset as int) == Err::<
                Seq<Result<OperatorV, ErrorV>>,
                ErrorV,
            >(e@),
        }),
{
    let (n, p) = match read_var_u32(data, offset) {
        Ok(p) => p,
        Err(e) => {
            return Err(e);
        },
    };
    let (_, p2) = match read_items::<LocalDecl>(data, p, n) {
        Ok(p) => p,
        Err(e) => {
            return Err(e);
        },
    };
    let ghost total = sp_ops(data@, p2 as int);
    let mut out: Vec<Result<Operator, BinaryError>> = Vec::new();
    let mut cur: usize = p2;
    while cur < data.len()
        invariant
            cur <= data@.len(),
            total == sp_ops(data@, p2 as int),
            sp_function_body(data@, offset as int) == Ok::<Seq<Result<OperatorV, ErrorV>>, ErrorV>(
                total,
            ),
            results_view(out@) + sp_ops(data@, cur as int) == total,
        decreases data@.len() - cur,
    {
        let ghost rest = sp_ops(data@, cur as int);
        let ghost prev = out@;
        match read_op(data, cur) {
            Err(e) => {
                proof {
                    lemma_results_view_push(prev, Err(e));
                    assert(rest == seq![Err::<OperatorV, ErrorV>(e@)]);
                    assert(results_view(prev.push(Err(e))) =~= results_view(prev) + rest);
                }
                out.push(Err(e));
                return Ok(out);
            },
            Ok((op, end)) => {
                proof {
                    lemma_results_view_push(prev, Ok(op));
                    assert(rest == seq![Ok::<OperatorV, ErrorV>(op@)] + sp_ops(data@, end as int));
                    assert(results_view(prev.push(Ok(op))) + sp_ops(data@, end as int)
                        =~= results_view(prev) + rest);
                }
                out.push(Ok(op));
                cur = end;
            },
        }
    }
    proof {
        assert(sp_ops(data@, cur as int) == Seq::<Result<OperatorV, ErrorV>>::empty());
        assert(results_view(out@) + Seq::<Result<OperatorV, ErrorV>>::empty() =~= results_view(
            out@,
        ));
    }
    Ok(out)
}

} // verus!
