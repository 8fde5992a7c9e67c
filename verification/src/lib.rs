//! Aggregation of tablet tool input: the updates that a stylus reports one
//! by one are collected per tool and turned into pointer events once per
//! frame.

pub mod error;
pub mod event;
pub mod laws;
pub mod registry;
pub mod tool;
pub mod update;
