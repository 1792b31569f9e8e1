//! Synthesis of minidump files for test fixtures.
//!
//! The core is a byte assembler with deferred values: a [`section::Section`]
//! records bytes and references to [`deferred::Label`]s whose values are fixed
//! later, and resolves everything to concrete bytes at the end. All sections
//! of one build share one [`deferred::Labels`] table, so any of them can cite
//! the offset or size of another before either is known. The
//! [`dump`] module builds the minidump layout on top of it, and [`laws`]
//! states and proves what holds of the dumps it produces.

pub mod bytes;
pub mod deferred;
pub mod section;
pub mod format;
pub mod text;
pub mod dump;
pub mod laws;
