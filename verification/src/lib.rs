//! Decoders for the legacy Intel PC executable containers: the real-mode MZ
//! image, the segmented New Executable (NE) and the Linear Executable
//! variants LE and LX.

pub mod container;
pub mod error;
pub mod exe;
pub mod exe286;
pub mod exe386;
pub mod source;
pub mod types;
