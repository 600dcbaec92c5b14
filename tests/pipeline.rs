use nbtools::model::{Cell, CellType, Notebook, NotebookError};
use nbtools::pipeline::{clear_code, clear_output, filter_cells, transform, Options};
use nbtools::source::tag_in_source;
use serde_json::Value;

fn lines(ls: &[&str]) -> Vec<String> {
    ls.iter().map(|l| l.to_string()).collect()
}

fn text_output(t: &str) -> Value {
    let mut m = serde_json::Map::new();
    m.insert("text".to_string(), Value::String(t.to_string()));
    Value::Object(m)
}

fn cell(cell_type: CellType, source: &[&str]) -> Cell {
    let code = cell_type == CellType::Code;
    Cell {
        cell_type,
        metadata: Some(Value::Object(serde_json::Map::new())),
        source: lines(source),
        execution_count: if code { Some(1) } else { None },
        outputs: if code { Some(vec![text_output("1")]) } else { None },
        extra: serde_json::Map::new(),
    }
}

fn copy(c: &Cell) -> Cell {
    Cell {
        cell_type: c.cell_type,
        metadata: c.metadata.clone(),
        source: c.source.clone(),
        execution_count: c.execution_count,
        outputs: c.outputs.clone(),
        extra: c.extra.clone(),
    }
}

fn same_cell(a: &Cell, b: &Cell) -> bool {
    a.cell_type == b.cell_type
        && a.metadata == b.metadata
        && a.source == b.source
        && a.execution_count == b.execution_count
        && a.outputs == b.outputs
        && a.extra == b.extra
}

fn notebook(cells: Vec<Cell>) -> Notebook {
    let mut meta = serde_json::Map::new();
    meta.insert("kernelspec".to_string(), Value::String("python3".to_string()));
    let mut extra = serde_json::Map::new();
    extra.insert("custom".to_string(), Value::Bool(true));
    Notebook { cells, metadata: Value::Object(meta), nbformat: 4, nbformat_minor: 2, extra }
}

fn options(filter: Option<&str>, clear_code: bool, clear_output: bool) -> Options {
    Options { filter: filter.map(|t| t.to_string()), clear_code, clear_output }
}

#[test]
fn filter_by_tag_keeps_markdown_and_untagged_code() {
    let nb = notebook(vec![
        cell(CellType::Code, &["x = 1\n", "# TAG here\n"]),
        cell(CellType::Markdown, &["# Title\n"]),
        cell(CellType::Code, &["print(2)\n"]),
    ]);
    let md = copy(&nb.cells[1]);
    let code = copy(&nb.cells[2]);
    let r = transform(nb, &options(Some("TAG"), false, false));
    assert_eq!(r.cells.len(), 2);
    assert!(same_cell(&r.cells[0], &md));
    assert!(same_cell(&r.cells[1], &code));
}

#[test]
fn clear_code_empties_code_source_only() {
    let nb = notebook(vec![cell(CellType::Code, &["print(1)\n"])]);
    let before = copy(&nb.cells[0]);
    let r = transform(nb, &options(None, true, false));
    assert_eq!(r.cells.len(), 1);
    assert!(r.cells[0].source.is_empty());
    let expected = Cell { source: Vec::new(), ..before };
    assert!(same_cell(&r.cells[0], &expected));
}

#[test]
fn clear_output_empties_code_outputs() {
    let mut c = cell(CellType::Code, &["print(1)\n"]);
    c.outputs = Some(vec![text_output("1")]);
    let before = copy(&c);
    let r = transform(notebook(vec![c]), &options(None, false, true));
    assert_eq!(r.cells[0].outputs, Some(Vec::new()));
    let expected = Cell { outputs: Some(Vec::new()), ..before };
    assert!(same_cell(&r.cells[0], &expected));
}

#[test]
fn raw_cell_untouched_by_both_clears() {
    let mut c = cell(CellType::Raw, &["raw text\n"]);
    c.outputs = Some(vec![text_output("kept")]);
    let before = copy(&c);
    let r = transform(notebook(vec![c]), &options(None, true, true));
    assert_eq!(r.cells.len(), 1);
    assert!(same_cell(&r.cells[0], &before));
}

#[test]
fn no_options_leaves_notebook_as_is() {
    let nb = notebook(vec![
        cell(CellType::Code, &["a\n"]),
        cell(CellType::Markdown, &["b\n"]),
        cell(CellType::Raw, &["c\n"]),
    ]);
    let cells: Vec<Cell> = nb.cells.iter().map(copy).collect();
    let (meta, extra) = (nb.metadata.clone(), nb.extra.clone());
    let r = transform(nb, &options(None, false, false));
    assert_eq!(r.cells.len(), cells.len());
    for (a, b) in r.cells.iter().zip(cells.iter()) {
        assert!(same_cell(a, b));
    }
    assert_eq!(r.metadata, meta);
    assert_eq!(r.extra, extra);
    assert_eq!((r.nbformat, r.nbformat_minor), (4, 2));
}

#[test]
fn unknown_cell_type_is_malformed() {
    assert_eq!(CellType::from_tag(&"foo".to_string()), Err(NotebookError::MalformedDocument));
    assert_eq!(CellType::from_tag(&"Code".to_string()), Err(NotebookError::MalformedDocument));
    assert_eq!(CellType::from_tag(&"".to_string()), Err(NotebookError::MalformedDocument));
}

#[test]
fn known_cell_types_read_back_from_their_tags() {
    for t in [CellType::Code, CellType::Markdown, CellType::Raw] {
        assert_eq!(CellType::from_tag(&t.tag().to_string()), Ok(t));
    }
    assert_eq!(CellType::Code.tag(), "code");
    assert_eq!(CellType::Markdown.tag(), "markdown");
    assert_eq!(CellType::Raw.tag(), "raw");
}

#[test]
fn tag_search_is_exact_substring() {
    let src = lines(&["import os\n", "df.style.background-color\n"]);
    assert!(tag_in_source(&src, &"background-color".to_string()));
    assert!(tag_in_source(&src, &"port".to_string()));
    assert!(!tag_in_source(&src, &"Import".to_string()));
    assert!(!tag_in_source(&src, &"os\ndf".to_string()));
    assert!(!tag_in_source(&src, &"zzz".to_string()));
    assert!(tag_in_source(&src, &String::new()));
    assert!(!tag_in_source(&Vec::new(), &String::new()));
}

#[test]
fn filter_applies_to_every_cell_type() {
    let cells = vec![
        cell(CellType::Markdown, &["skip me\n"]),
        cell(CellType::Raw, &["skip\n"]),
        cell(CellType::Code, &["keep\n"]),
        cell(CellType::Code, &["and ", "skip"]),
    ];
    let r = filter_cells(cells, &"skip".to_string());
    assert_eq!(r.len(), 1);
    assert_eq!(r[0].source, lines(&["keep\n"]));
}

#[test]
fn filter_with_no_match_keeps_order() {
    let cells = vec![
        cell(CellType::Code, &["1\n"]),
        cell(CellType::Raw, &["2\n"]),
        cell(CellType::Markdown, &["3\n"]),
    ];
    let r = filter_cells(cells, &"4".to_string());
    let sources: Vec<Vec<String>> = r.iter().map(|c| c.source.clone()).collect();
    assert_eq!(sources, vec![lines(&["1\n"]), lines(&["2\n"]), lines(&["3\n"])]);
}

#[test]
fn filter_of_empty_notebook_is_empty() {
    assert!(filter_cells(Vec::new(), &"x".to_string()).is_empty());
}

#[test]
fn clear_output_makes_absent_outputs_present() {
    let mut c = cell(CellType::Code, &["x\n"]);
    c.outputs = None;
    let mut cells = vec![c, cell(CellType::Markdown, &["m\n"])];
    clear_output(&mut cells);
    assert_eq!(cells[0].outputs, Some(Vec::new()));
    assert_eq!(cells[1].outputs, None);
}

#[test]
fn clear_code_twice_is_clear_code_once() {
    let mut once = vec![cell(CellType::Code, &["a\n"]), cell(CellType::Markdown, &["b\n"])];
    clear_code(&mut once);
    let mut twice: Vec<Cell> = once.iter().map(copy).collect();
    clear_code(&mut twice);
    assert!(same_cell(&once[0], &twice[0]) && same_cell(&once[1], &twice[1]));
    assert!(once[0].source.is_empty());
    assert_eq!(once[1].source, lines(&["b\n"]));
}

#[test]
fn clear_output_twice_is_clear_output_once() {
    let mut once = vec![cell(CellType::Code, &["a\n"]), cell(CellType::Raw, &["b\n"])];
    clear_output(&mut once);
    let mut twice: Vec<Cell> = once.iter().map(copy).collect();
    clear_output(&mut twice);
    assert!(same_cell(&once[0], &twice[0]) && same_cell(&once[1], &twice[1]));
    assert_eq!(once[1].outputs, None);
}

#[test]
fn each_clear_leaves_the_other_field() {
    let c = cell(CellType::Code, &["a\n"]);
    let before = copy(&c);
    let r = transform(notebook(vec![c]), &options(None, true, false));
    assert_eq!(r.cells[0].outputs, before.outputs);
    let r = transform(notebook(vec![copy(&before)]), &options(None, false, true));
    assert_eq!(r.cells[0].source, before.source);
}

#[test]
fn all_stages_together() {
    let nb = notebook(vec![
        cell(CellType::Code, &["secret\n"]),
        cell(CellType::Code, &["shown\n"]),
        cell(CellType::Markdown, &["notes\n"]),
    ]);
    let r = transform(nb, &options(Some("secret"), true, true));
    assert_eq!(r.cells.len(), 2);
    assert!(r.cells[0].source.is_empty());
    assert_eq!(r.cells[0].outputs, Some(Vec::new()));
    assert_eq!(r.cells[0].execution_count, Some(1));
    assert_eq!(r.cells[1].source, lines(&["notes\n"]));
}
