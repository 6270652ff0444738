//! Demo actions for counter and container blocks.
//!
//! The module describes itself (its name, version and the actions it offers),
//! runs one named action on a set of parameters, and describes the input form
//! of each action. Every operation is a pure function of its arguments.

pub mod action;
pub mod demo;
pub mod descriptor;
pub mod form;
pub mod interface;
pub mod laws;
pub mod number;
pub mod params;
pub mod text;
