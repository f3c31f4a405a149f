//! Decoding of SoundFont 2 generator lists and sample-data sections.
//!
//! The library works on plain values: chunk headers and byte buffers that a
//! chunk walker has already taken from the file. Every decoder is a total
//! function of those values and says in its contract which result each input
//! gives.

pub mod error;
pub mod generator;
pub mod generator_type;
pub mod reader;
pub mod riff;
pub mod sample_data;
pub mod sf_enum;
