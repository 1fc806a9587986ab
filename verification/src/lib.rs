//! Validation of a captured pre-DXE platform state (HOB list and firmware
//! volumes) against the requirements of the Patina DXE core.
pub mod model;
pub mod text;
pub mod guid;
pub mod json;
pub mod kind;
pub mod report;
pub mod merge;
pub mod hob;
pub mod fv;
pub mod validate;

pub mod counts;
pub mod laws;
pub mod rules;
