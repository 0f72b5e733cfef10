//! Names the assets that the glTF viewer loads.
//!
//! An asset path is a file path, optionally followed by `#` and a label that
//! picks one sub-asset of the file. The glTF loader labels the scenes of a file
//! `Scene0`, `Scene1`, and so on, in the order the file lists them.

pub mod asset;
pub mod setup;
