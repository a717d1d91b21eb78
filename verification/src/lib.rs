//! Property checks over the `lz4_flex` block and frame codecs, with the
//! report formatting used by the property runner.

pub mod text;
pub mod block;
pub mod frame;
pub mod properties;
pub mod names;
pub mod json;
pub mod report;
