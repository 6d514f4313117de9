use vstd::prelude::*;
use crate::cell::{Cell, CellId};

verus! {

/// How many cells of a sequence hold the given material.
pub open spec fn id_count(s: Seq<Cell>, id: CellId) -> nat
    decreases s.len(),
{
    if s.len() == 0 {
        0
    } else {
        id_count(s.drop_last(), id) + (if s.last().id == id {
            1nat
        } else {
            0nat
        })
    }
}

/// Replacing one cell changes a material count by exactly the leaving and
/// the arriving cell's contributions.
pub proof fn lemma_count_update(s: Seq<Cell>, i: int, c: Cell, id: CellId)
    requires
        0 <= i < s.len(),
    ensures
        id_count(s.update(i, c), id) + (if s[i].id == id {
            1nat
        } else {
            0nat
        }) == id_count(s, id) + (if c.id == id {
            1nat
        } else {
            0nat
        }),
    decreases s.len(),
{
    if i == s.len() - 1 {
        assert(s.update(i, c).drop_last() =~= s.drop_last());
    } else {
        assert(s.update(i, c).drop_last() =~= s.drop_last().update(i, c));
        lemma_count_update(s.drop_last(), i, c, id);
    }
}

/// Sequences whose cells carry the same materials slot for slot have the
/// same counts.
pub proof fn lemma_count_pointwise(a: Seq<Cell>, b: Seq<Cell>, id: CellId)
    requires
        a.len() == b.len(),
        forall|i: int| 0 <= i < a.len() ==> a[i].id == #[trigger] b[i].id,
    ensures
        id_count(a, id) == id_count(b, id),
    decreases a.len(),
{
    if a.len() > 0 {
        lemma_count_pointwise(a.drop_last(), b.drop_last(), id);
    }
}

/// A material is absent exactly when its count is zero.
pub proof fn lemma_count_zero(s: Seq<Cell>, id: CellId)
    ensures
        (id_count(s, id) == 0) <==> (forall|i: int| 0 <= i < s.len() ==> (#[trigger] s[i]).id
            != id),
    decreases s.len(),
{
    if s.len() > 0 {
        lemma_count_zero(s.drop_last(), id);
        assert(forall|i: int|
            0 <= i < s.len() - 1 ==> #[trigger] s[i] == s.drop_last()[i]);
    }
}

/// Distinct coordinates on the grid have distinct flat indices.
pub proof fn lemma_idx_injective(w: int, h: int, x1: int, y1: int, x2: int, y2: int)
    requires
        0 <= x1 < w,
        0 <= y1 < h,
        0 <= x2 < w,
        0 <= y2 < h,
        (x1, y1) != (x2, y2),
    ensures
        y1 * w + x1 != y2 * w + x2,
{
    assert(y1 * w + x1 != y2 * w + x2) by (nonlinear_arith)
        requires
            0 <= x1 < w,
            0 <= y1 < h,
            0 <= x2 < w,
            0 <= y2 < h,
            (x1, y1) != (x2, y2),
    ;
}

/// The material counts after one grid change never lose anything but empty
/// slots to sand: every other material keeps its count, sand never
/// shrinks, and sand and empty together are preserved.
pub open spec fn ids_conserved(a: Seq<Cell>, b: Seq<Cell>) -> bool {
    &&& forall|id: CellId|
        id != CellId::Sand && id != CellId::Empty ==> #[trigger] id_count(b, id) == id_count(
            a,
            id,
        )
    &&& id_count(b, CellId::Sand) >= id_count(a, CellId::Sand)
    &&& id_count(b, CellId::Sand) + id_count(b, CellId::Empty) == id_count(a, CellId::Sand)
        + id_count(a, CellId::Empty)
}

/// Every material keeps its exact count.
pub open spec fn ids_equal(a: Seq<Cell>, b: Seq<Cell>) -> bool {
    forall|id: CellId| #[trigger] id_count(b, id) == id_count(a, id)
}

} // verus!
