//! Column annotation ("note parameter") engine for spreadsheet exports that a
//! no-code platform reads back as column configuration.
pub mod value;
pub mod text;
pub mod json;
pub mod registry;
pub mod schema;
pub mod synth;
pub mod merge;
pub mod relocate;
pub mod note;
pub mod laws;
pub mod export;
pub mod clock;

pub use clock::now_unix_ms;
pub use export::{
    ExportRequest, SampleRow, column_width, json_value_to_string, preview_notes, sample_row_cells,
    sheet_data_cells, table_notes,
};
pub use note::{column_note, generate_column_note, generate_column_note_with_settings};
pub use registry::{NoteParamStatus, get_note_param_status, may_emit, should_output_note_param};
pub use schema::{Column, ColumnConstraints, ConstraintNumber, Table, pick_effective_label_column_id};
pub use value::NoteValue;
