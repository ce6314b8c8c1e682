//! Reads a parallel ROM by driving its address lines through every address,
//! sampling its data lines, and rendering the bytes as a hex dump.

pub mod lines;
pub mod dump;
pub mod scan;
pub mod simulate;
