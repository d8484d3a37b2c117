//! Cell-level data model of a terminal screen buffer, together with the
//! minimal-diff SGR escape encoder that re-emits cell attributes as ANSI
//! control codes.
pub mod cell;
pub mod color;
pub mod escape;
pub mod flags;
pub mod row;
