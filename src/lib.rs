//! Reading, filtering and clearing the cells of a Jupyter notebook.
//!
//! The notebook model lives in `model`, the substring test on source lines in
//! `source`, the three transform stages in `pipeline`, and the laws that tie
//! them together in `laws`.

mod json;
pub mod laws;
pub mod model;
pub mod pipeline;
pub mod source;
