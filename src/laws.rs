use vstd::prelude::*;
use crate::model::{CellType, CellView, NotebookView};
use crate::pipeline::{
    OptionsView, clear_code_spec, clear_output_spec, filter_spec, survives, transform_cells,
    transform_spec,
};

verus! {

/// The positions of `cells` that the tag filter keeps, in increasing order.
pub open spec fn kept_indices(cells: Seq<CellView>, tag: Seq<char>) -> Seq<int>
    decreases cells.len(),
{
    if cells.len() == 0 {
        Seq::empty()
    } else {
        let rest = kept_indices(cells.drop_last(), tag);
        if survives(cells.last(), tag) {
            rest.push(cells.len() - 1)
        } else {
            rest
        }
    }
}

/// `r` is the subsequence of `cells` at the strictly increasing positions `idx`,
/// and those positions are exactly the ones whose cell survives the filter.
pub open spec fn is_order_kept_selection(
    cells: Seq<CellView>,
    tag: Seq<char>,
    r: Seq<CellView>,
    idx: Seq<int>,
) -> bool {
    &&& idx.len() == r.len()
    &&& forall|k: int| 0 <= k < idx.len() ==> 0 <= #[trigger] idx[k] < cells.len()
    &&& forall|k: int| 0 <= k < idx.len() ==> #[trigger] r[k] == cells[idx[k]]
    &&& forall|k: int, l: int| 0 <= k < l < idx.len() ==> idx[k] < idx[l]
    &&& forall|i: int| 0 <= i < cells.len() ==> (survives(#[trigger] cells[i], tag) <==> idx.contains(i))
}

proof fn lemma_kept_indices(cells: Seq<CellView>, tag: Seq<char>)
    ensures
        is_order_kept_selection(cells, tag, filter_spec(cells, tag), kept_indices(cells, tag)),
    decreases cells.len(),
{
    if cells.len() > 0 {
        let init = cells.drop_last();
        lemma_kept_indices(init, tag);
        let rest = kept_indices(init, tag);
        let idx = kept_indices(cells, tag);
        assert forall|i: int| 0 <= i < cells.len() implies (survives(#[trigger] cells[i], tag)
            <==> idx.contains(i)) by {
            if i < cells.len() - 1 {
                assert(init[i] == cells[i]);
                if rest.contains(i) {
                    let k = choose|k: int| 0 <= k < rest.len() && rest[k] == i;
                    assert(idx[k] == i);
                }
                if idx.contains(i) {
                    let k = choose|k: int| 0 <= k < idx.len() && idx[k] == i;
                    assert(k < rest.len());
                    assert(rest[k] == i);
                }
            } else {
                if survives(cells.last(), tag) {
                    assert(idx[idx.len() - 1] == i);
                } else if idx.contains(i) {
                    let k = choose|k: int| 0 <= k < idx.len() && idx[k] == i;
                    assert(rest[k] < init.len());
                }
            }
        }
    }
}

/// Filtering by a tag keeps exactly the cells none of whose lines contains the
/// tag: no survivor holds it, every dropped cell held it in some line, and the
/// survivors keep their relative order.
pub proof fn filter_correct(cells: Seq<CellView>, tag: Seq<char>)
    ensures
        forall|k: int|
            0 <= k < filter_spec(cells, tag).len() ==> survives(
                #[trigger] filter_spec(cells, tag)[k],
                tag,
            ),
        exists|idx: Seq<int>| is_order_kept_selection(cells, tag, filter_spec(cells, tag), idx),
{
    lemma_kept_indices(cells, tag);
    let r = filter_spec(cells, tag);
    let idx = kept_indices(cells, tag);
    assert forall|k: int| 0 <= k < r.len() implies survives(#[trigger] r[k], tag) by {
        assert(r[k] == cells[idx[k]]);
        assert(idx.contains(idx[k]));
    }
}

/// Clearing code twice is clearing it once, and it leaves markdown and raw
/// cells as they were.
pub proof fn clear_code_idempotent(cells: Seq<CellView>)
    ensures
        clear_code_spec(clear_code_spec(cells)) == clear_code_spec(cells),
        forall|i: int|
            0 <= i < cells.len() && cells[i].cell_type != CellType::Code
                ==> #[trigger] clear_code_spec(cells)[i] == cells[i],
{
    assert(clear_code_spec(clear_code_spec(cells)) =~= clear_code_spec(cells));
}

/// Clearing outputs twice is clearing them once; afterwards every code cell's
/// outputs are present and empty, and markdown and raw cells are as they were.
pub proof fn clear_output_idempotent(cells: Seq<CellView>)
    ensures
        clear_output_spec(clear_output_spec(cells)) == clear_output_spec(cells),
        forall|i: int|
            0 <= i < cells.len() && cells[i].cell_type == CellType::Code
                ==> #[trigger] clear_output_spec(cells)[i].outputs == Some(Seq::<serde_json::Value>::empty()),
        forall|i: int|
            0 <= i < cells.len() && cells[i].cell_type != CellType::Code
                ==> #[trigger] clear_output_spec(cells)[i] == cells[i],
{
    assert(clear_output_spec(clear_output_spec(cells)) =~= clear_output_spec(cells));
}

/// With clear-code the only stage asked for, every cell keeps its outputs (and
/// all else but its source); with clear-output the only one, every cell keeps
/// its source (and all else but its outputs).
pub proof fn stages_independent(cells: Seq<CellView>)
    ensures
        ({
            let r = transform_cells(
                cells,
                OptionsView { filter: None, clear_code: true, clear_output: false },
            );
            &&& r.len() == cells.len()
            &&& forall|i: int|
                0 <= i < cells.len() ==> (#[trigger] r[i]) == CellView { source: r[i].source, ..cells[i] }
        }),
        ({
            let r = transform_cells(
                cells,
                OptionsView { filter: None, clear_code: false, clear_output: true },
            );
            &&& r.len() == cells.len()
            &&& forall|i: int|
                0 <= i < cells.len() ==> (#[trigger] r[i]) == CellView { outputs: r[i].outputs, ..cells[i] }
        }),
{
}

/// With no stage asked for, the notebook comes out as it went in.
pub proof fn no_options_identity(nb: NotebookView)
    ensures
        transform_spec(nb, OptionsView { filter: None, clear_code: false, clear_output: false })
            == nb,
{
}

/// Every cell type's literal is one the reader accepts, and no two cell types
/// share a literal, so writing a cell type and reading it back gives it again.
pub proof fn cell_type_tag_round_trip(t: CellType, u: CellType)
    ensures
        CellType::is_known_tag(t.tag_spec()),
        t.tag_spec() == u.tag_spec() ==> t == u,
{
    reveal_strlit("code");
    reveal_strlit("markdown");
    reveal_strlit("raw");
    assert("code"@.len() == 4);
    assert("markdown"@.len() == 8);
    assert("raw"@.len() == 3);
}

} // verus!
