//! Memo tables for a tabling trait solver, and the textual form of the goals
//! it answers.
pub mod table;
pub mod table_laws;
pub mod display;
