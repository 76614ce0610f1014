//! Generation of conversion functions between an annotated enumeration and
//! an external enumeration given as named integer constants.
//!
//! A declaration (`model`) is read for its `wrap` attributes (`attr`); each
//! variant becomes a descriptor that pairs it with its external symbol
//! (`descriptor`); the `default` attribute chooses between a fallback and a
//! fallible reverse conversion, and the pass yields an expansion
//! (`generate`) whose source text and behaviour `synth` defines. `laws`
//! states what holds of every pass.
pub mod attr;
pub mod descriptor;
pub mod generate;
pub mod laws;
pub mod model;
pub mod synth;
pub mod text;
