//! Detects reflective symmetry of a decoded flag image about its vertical
//! and horizontal midlines, tolerating minor color variation such as
//! anti-aliasing artifacts.
//!
//! The core works on a plain RGB pixel buffer; fetching and decoding the
//! image, as well as reporting, are left to the surrounding program.

pub mod buffer;
pub mod color;
pub mod flag_url;
pub mod report;
pub mod symmetry;

pub use buffer::{InvalidBuffer, PixelBuffer};
pub use color::{color_channel_compare, compare_pixel, Pixel, Tolerance};
pub use flag_url::create_flag_url;
pub use report::{classify, update_table_total_value, Category, ReportingValue};
pub use symmetry::{check_axis_symmetry, check_near_edge, check_symmetry, Axis, Symmetry};
