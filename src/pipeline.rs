use vstd::prelude::*;
use crate::model::{Cell, CellType, CellView, Notebook, NotebookView, cells_view};
use crate::source::{source_has_tag, tag_in_source};

verus! {

/// A cell survives the tag filter when none of its lines holds the tag.
pub open spec fn survives(c: CellView, tag: Seq<char>) -> bool {
    !source_has_tag(c.source, tag)
}

/// The cells that survive the tag filter, in the order they came.
pub open spec fn filter_spec(cells: Seq<CellView>, tag: Seq<char>) -> Seq<CellView>
    decreases cells.len(),
{
    if cells.len() == 0 {
        Seq::empty()
    } else {
        let rest = filter_spec(cells.drop_last(), tag);
        if survives(cells.last(), tag) {
            rest.push(cells.last())
        } else {
            rest
        }
    }
}

/// A code cell with its source emptied; other cells as they are.
pub open spec fn clear_code_cell(c: CellView) -> CellView {
    if c.cell_type == CellType::Code {
        CellView { source: Seq::empty(), ..c }
    } else {
        c
    }
}

/// A code cell with its outputs present and empty; other cells as they are.
pub open spec fn clear_output_cell(c: CellView) -> CellView {
    if c.cell_type == CellType::Code {
        CellView { outputs: Some(Seq::empty()), ..c }
    } else {
        c
    }
}

/// The clear-code stage over a sequence of cells.
pub open spec fn clear_code_spec(cells: Seq<CellView>) -> Seq<CellView> {
    cells.map_values(|c: CellView| clear_code_cell(c))
}

/// The clear-output stage over a sequence of cells.
pub open spec fn clear_output_spec(cells: Seq<CellView>) -> Seq<CellView> {
    cells.map_values(|c: CellView| clear_output_cell(c))
}

/// Which stages to run, and the tag to filter by.
pub struct Options {
    /// Drop every cell one of whose source lines contains this text.
    pub filter: Option<String>,
    /// Empty the source of every code cell.
    pub clear_code: bool,
    /// Make the outputs of every code cell present and empty.
    pub clear_output: bool,
}

/// The mathematical value of the options.
pub struct OptionsView {
    pub filter: Option<Seq<char>>,
    pub clear_code: bool,
    pub clear_output: bool,
}

impl View for Options {
    type V = OptionsView;

    open spec fn view(&self) -> OptionsView {
        OptionsView {
            filter: match self.filter {
                Some(t) => Some(t@),
                None => None,
            },
            clear_code: self.clear_code,
            clear_output: self.clear_output,
        }
    }
}

/// The three stages in order over a sequence of cells; a stage that is not
/// asked for passes the cells on unchanged.
pub open spec fn transform_cells(cells: Seq<CellView>, o: OptionsView) -> Seq<CellView> {
    let filtered = match o.filter {
        Some(t) => filter_spec(cells, t),
        None => cells,
    };
    let coded = if o.clear_code {
        clear_code_spec(filtered)
    } else {
        filtered
    };
    if o.clear_output {
        clear_output_spec(coded)
    } else {
        coded
    }
}

/// The whole pipeline on a notebook: only the cells change.
pub open spec fn transform_spec(nb: NotebookView, o: OptionsView) -> NotebookView {
    NotebookView { cells: transform_cells(nb.cells, o), ..nb }
}

/// Drops every cell one of whose source lines contains `tag`, whatever its
/// type, and keeps the others in order.
pub fn filter_cells(cells: Vec<Cell>, tag: &String) -> (r: Vec<Cell>)
    ensures
        cells_view(r@) == filter_spec(cells_view(cells@), tag@),
{
    let ghost orig = cells@;
    let mut kept: Vec<Cell> = Vec::new();
    for cell in it: cells.into_iter()
        invariant
            it.seq() == orig,
            cells_view(kept@) == filter_spec(cells_view(orig.take(it.index() as int)), tag@),
    {
        let ghost i = it.index() as int;
        proof {
            assert(cells_view(orig.take(i + 1)).drop_last() =~= cells_view(orig.take(i)));
        }
        if !tag_in_source(&cell.source, tag) {
            let ghost before = kept@;
            kept.push(cell);
            proof {
                assert(cells_view(kept@) =~= cells_view(before).push(cell@));
            }
        }
    }
    proof {
        assert(orig.take(orig.len() as int) =~= orig);
    }
    kept
}

/// Empties the source of every code cell; every other field, and every
/// markdown or raw cell, stays as it was.
pub fn clear_code(cells: &mut Vec<Cell>)
    ensures
        cells_view(final(cells)@) == clear_code_spec(cells_view(old(cells)@)),
{
    let n = cells.len();
    let mut i: usize = 0;
    while i < n
        invariant
            n == old(cells)@.len(),
            cells@.len() == n,
            i <= n,
            forall|k: int| 0 <= k < i ==> (#[trigger] cells@[k])@ == clear_code_cell(old(cells)@[k]@),
            forall|k: int| i <= k < n ==> #[trigger] cells@[k] == old(cells)@[k],
        decreases n - i,
    {
        if cells[i].cell_type == CellType::Code {
            cells[i].source = Vec::new();
            proof {
                assert(cells@[i as int]@.source =~= Seq::<Seq<char>>::empty());
                assert(cells@[i as int]@ == clear_code_cell(old(cells)@[i as int]@));
            }
        }
        i += 1;
    }
    proof {
        assert(cells_view(cells@) =~= clear_code_spec(cells_view(old(cells)@)));
    }
}

/// Makes the outputs of every code cell present and empty; every other field,
/// and every markdown or raw cell, stays as it was.
pub fn clear_output(cells: &mut Vec<Cell>)
    ensures
        cells_view(final(cells)@) == clear_output_spec(cells_view(old(cells)@)),
{
    let n = cells.len();
    let mut i: usize = 0;
    while i < n
        invariant
            n == old(cells)@.len(),
            cells@.len() == n,
            i <= n,
            forall|k: int| 0 <= k < i ==> (#[trigger] cells@[k])@ == clear_output_cell(old(cells)@[k]@),
            forall|k: int| i <= k < n ==> #[trigger] cells@[k] == old(cells)@[k],
        decreases n - i,
    {
        if cells[i].cell_type == CellType::Code {
            cells[i].outputs = Some(Vec::new());
            proof {
                assert(cells@[i as int]@.outputs->Some_0 =~= Seq::<serde_json::Value>::empty());
                assert(cells@[i as int]@ == clear_output_cell(old(cells)@[i as int]@));
            }
        }
        i += 1;
    }
    proof {
        assert(cells_view(cells@) =~= clear_output_spec(cells_view(old(cells)@)));
    }
}

/// Runs the filter, clear-code and clear-output stages in that order, each
/// only when asked for. The notebook's own fields pass through unchanged.
pub fn transform(nb: Notebook, options: &Options) -> (r: Notebook)
    ensures
        r@ == transform_spec(nb@, options@),
{
    let Notebook { cells, metadata, nbformat, nbformat_minor, extra } = nb;
    let mut cells = match &options.filter {
        Some(tag) => filter_cells(cells, tag),
        None => cells,
    };
    if options.clear_code {
        clear_code(&mut cells);
    }
    if options.clear_output {
        clear_output(&mut cells);
    }
    Notebook { cells, metadata, nbformat, nbformat_minor, extra }
}

} // verus!
