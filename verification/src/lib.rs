//! Platform-independent core of a DirectWrite binding.
//!
//! Everything here works on plain values: numeric codes, byte buffers,
//! UTF-16 code units and small state records. The code that talks to the
//! operating system hands such values in and takes such values back.

pub mod bitmap_render_target;
pub mod font;
pub mod font_collection;
pub mod font_collection_impl;
pub mod font_face;
pub mod font_file;
pub mod font_file_loader_impl;
pub mod glyph_run_analysis;
pub mod helpers;
pub mod text_analysis_source;
pub mod types;

pub use font::{FontMetrics, FontMetrics0, FontMetrics1, InformationalStringId};
pub use font_face::{FontFaceType, GlyphRunOutlineError};
pub use types::{FontDescriptor, FontSimulations, FontStretch, FontStyle, FontWeight};
