//! A verified parser for Vehicle Signal Specification (VSS) text files.
//!
//! The input language is an indentation-sensitive, YAML-like notation that
//! describes a tree of vehicle data points (branches, sensors, actuators and
//! attributes), possibly spread over several files joined by include
//! directives with optional namespace prefixing.
//!
//! The crate is organised bottom-up:
//! - [`scan`] holds the character classes and low-level scanners of the
//!   grammar, each proved equal to a small recursive specification;
//! - [`units`] and the registries in [`types`] are closed enumerations with
//!   case-insensitive parsing and canonical rendering;
//! - [`loader`] classifies physical lines and resolves includes, driven from
//!   outside as a step machine so that file reading stays out of the library;
//! - [`parser`] walks the merged buffer and produces a [`types::VssSpec`].

pub mod loader;
pub mod parser;
pub mod scan;
pub mod types;
pub mod units;
