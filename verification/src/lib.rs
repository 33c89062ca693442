//! Renders a hex dump of the 256 byte values as three side-by-side panels:
//! an offset column, a grid of hex cells and a column of printable characters.
//!
//! The geometry, the text of every cell and the order of the drawing commands
//! are computed and verified here; the pixels themselves are painted by
//! `plotters` into a `slint` pixel buffer.

pub mod backend;
pub mod canvas;
pub mod color;
pub mod hex;
pub mod layout;
pub mod plan;
pub mod plot;

pub use canvas::canvas_fits;
pub use color::{Color, PlotStyle};
pub use hex::{display_char, hex_byte, offset_label};
pub use layout::PlotConfig;
pub use plan::{byte_record, text_draws, ByteRecord, TextDraw};
pub use plot::{
    config_from_measurements, do_plot, pre_do_plot, render_frames, render_template, setup,
    PlotError,
};
