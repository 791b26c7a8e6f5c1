//! Line-printing core of a small `cat`-like utility: decimal formatting of
//! line numbers, the per-line numbering decision, and the policy for walking
//! a list of sources while skipping the ones that could not be opened.
pub mod format;
pub mod emitter;
pub mod run;
pub mod laws;
