//! A verified decoder and validator for the WebAssembly binary format, the
//! module and instance API built on them, and the readiness decisions of
//! WASIX poll guards.
pub mod error;
pub mod leb128;
pub mod types;
pub mod reader;
pub mod utf8;
pub mod instr;
pub mod items;
pub mod decode;
pub mod validate;
pub mod typecheck;
pub mod poll;
pub mod module;
pub mod hints;
pub mod names;
pub mod instance;
pub mod webassembly;
pub mod spectests;
