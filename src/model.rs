use vstd::prelude::*;
use serde_json::Value;
use crate::source::lines_view;

verus! {

/// The three kinds of notebook cell.
#[derive(Clone, Copy, Debug, PartialEq, Eq, Structural)]
pub enum CellType {
    Code,
    Markdown,
    Raw,
}

/// The ways reading or writing a notebook can fail.
#[derive(Clone, Copy, Debug, PartialEq, Eq, Structural)]
pub enum NotebookError {
    /// The input could not be opened or read.
    InputNotFound,
    /// The input is not JSON, lacks a required field, or names an unknown cell type.
    MalformedDocument,
    /// The notebook could not be written back as JSON.
    SerializationFailure,
}

impl CellType {
    /// The literal that stands for this cell type in a notebook file.
    pub open spec fn tag_spec(self) -> Seq<char> {
        match self {
            CellType::Code => "code"@,
            CellType::Markdown => "markdown"@,
            CellType::Raw => "raw"@,
        }
    }

    /// The tag `t` names one of the three cell types.
    pub open spec fn is_known_tag(t: Seq<char>) -> bool {
        t == "code"@ || t == "markdown"@ || t == "raw"@
    }

    /// The literal written for this cell type.
    pub fn tag(&self) -> (r: &'static str)
        ensures
            r@ == self.tag_spec(),
    {
        match self {
            CellType::Code => "code",
            CellType::Markdown => "markdown",
            CellType::Raw => "raw",
        }
    }

    /// Reads a cell type from its literal; any other text is a malformed document.
    pub fn from_tag(tag: &String) -> (r: Result<CellType, NotebookError>)
        ensures
            r is Ok <==> CellType::is_known_tag(tag@),
            r matches Ok(t) ==> t.tag_spec() == tag@,
            r is Err ==> r == Err::<CellType, NotebookError>(NotebookError::MalformedDocument),
    {
        let code = "code".to_owned();
        let markdown = "markdown".to_owned();
        let raw = "raw".to_owned();
        if tag.eq(&code) {
            Ok(CellType::Code)
        } else if tag.eq(&markdown) {
            Ok(CellType::Markdown)
        } else if tag.eq(&raw) {
            Ok(CellType::Raw)
        } else {
            Err(NotebookError::MalformedDocument)
        }
    }
}

/// One cell of a notebook.
pub struct Cell {
    pub cell_type: CellType,
    /// Absent when the cell has no `metadata` field.
    pub metadata: Option<Value>,
    /// The source text, one line per entry, each with its own line break.
    pub source: Vec<String>,
    pub execution_count: Option<u32>,
    /// Absent when the cell has no `outputs` field; present and empty differs.
    pub outputs: Option<Vec<Value>>,
    /// Fields of the cell that the model does not name, kept as they came.
    pub extra: serde_json::Map<String, Value>,
}

/// The mathematical value of a cell: its lines as character sequences.
pub struct CellView {
    pub cell_type: CellType,
    pub metadata: Option<Value>,
    pub source: Seq<Seq<char>>,
    pub execution_count: Option<u32>,
    pub outputs: Option<Seq<Value>>,
    pub extra: serde_json::Map<String, Value>,
}

impl View for Cell {
    type V = CellView;

    open spec fn view(&self) -> CellView {
        CellView {
            cell_type: self.cell_type,
            metadata: self.metadata,
            source: lines_view(self.source@),
            execution_count: self.execution_count,
            outputs: match self.outputs {
                Some(o) => Some(o@),
                None => None,
            },
            extra: self.extra,
        }
    }
}

/// A whole notebook document.
pub struct Notebook {
    /// The cells, in document order.
    pub cells: Vec<Cell>,
    pub metadata: Value,
    pub nbformat: u32,
    pub nbformat_minor: u32,
    /// Top-level fields that the model does not name, kept as they came.
    pub extra: serde_json::Map<String, Value>,
}

/// The mathematical value of a notebook.
pub struct NotebookView {
    pub cells: Seq<CellView>,
    pub metadata: Value,
    pub nbformat: u32,
    pub nbformat_minor: u32,
    pub extra: serde_json::Map<String, Value>,
}

/// The views of a sequence of cells.
pub open spec fn cells_view(cells: Seq<Cell>) -> Seq<CellView> {
    cells.map_values(|c: Cell| c@)
}

impl View for Notebook {
    type V = NotebookView;

    open spec fn view(&self) -> NotebookView {
        NotebookView {
            cells: cells_view(self.cells@),
            metadata: self.metadata,
            nbformat: self.nbformat,
            nbformat_minor: self.nbformat_minor,
            extra: self.extra,
        }
    }
}

} // verus!
