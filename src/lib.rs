//! A swappable line source: one slot holds the active reader (standard
//! input, a file, or an in-memory buffer), and lines are split off the
//! characters that reader has delivered so far.
pub mod slot;
pub mod source;
