//! Helpers shared by the structs

pub mod cdn;
