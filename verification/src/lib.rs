//! Glue-module synthesis for a JavaScript engine compiled to WebAssembly.
//!
//! Given an interface description (functions over integers, strings and
//! lists) and a JavaScript source file, this library synthesizes a single
//! WebAssembly module that bridges the canonical ABI and the script engine:
//! per-function glue bodies, a bootstrap function that registers every
//! imported interface and evaluates the script, and the final section
//! assembly. All of the synthesis logic is verified over the library's own
//! model of the emitted module; the binary byte encoding is delegated to the
//! `wasm-encoder` crate at the very end.
//!
//! The engine is linked by importing its members directly: one two-level
//! function import per engine export under the module name `spidermonkey`,
//! plus its memory and indirect function table. The older single-instance
//! import with alias entries came from the module-linking proposal, whose
//! sections today's encoders no longer produce; the direct form keeps the
//! same host-visible namespace and the same function index space.
#![verifier::loop_isolation(false)]

pub mod arena;
pub mod bindgen;
pub mod encode;
pub mod engine;
pub mod filename;
pub mod gen;
pub mod imports_map;
pub mod instr;
pub mod interner;
pub mod laws;
pub mod types;
pub mod walker;
