//! A parser for Specctra DSN design files: a PCB description written as
//! S-expressions is read, character by character, into a typed tree.
//!
//! Every grammar rule is stated as a spec function over the sequence of input
//! characters and a start position; each executable parser is proved to
//! compute exactly what its rule states.
pub mod outcome;
pub mod text;
pub mod parsable;
pub mod atoms;
pub mod numeric;
pub mod shapes;
pub mod pcb;
pub mod session;
pub mod sexpr_config;
pub mod derived;
pub mod laws;
